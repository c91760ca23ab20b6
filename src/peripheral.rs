use vstd::prelude::*;

use crate::att::{
    disconnect_command, disconnect_command_spec, read_by_type_request, read_by_type_spec,
    write_command, write_command_spec, write_request, write_request_spec, GATT_CHARAC_UUID,
};
use crate::att::ATT_OP_WRITE_RESP;
use crate::decode::{characteristics, characteristics_spec, config_response, config_response_spec};
use crate::characteristic::{apply_discovered, merged, next_start, sorted_by_start, Characteristic};
use crate::notify::{
    config_read_request, config_read_spec, config_value_spec, config_write_request, config_write_spec,
    lemma_toggle, toggled_bit,
};
use crate::properties::{initial_properties, report_applied, AdvertisingReport, Properties, PropertiesView};
use crate::stream::{
    finished, followed, queued_views, receive_spec, AclData, AclDataView, AclStream, Completion,
    Pending,
};
use crate::types::{BDAddr, Error};

verus! {

/// Seconds that `connect` waits for the connection-complete event.
pub const CONNECT_TIMEOUT_SECS: u64 = 20;

/// First attribute handle of a full discovery.
pub const FIRST_HANDLE: u16 = 0x0001;
/// Last attribute handle of a full discovery.
pub const LAST_HANDLE: u16 = 0xffff;

/// The controller reports that a link to `bdaddr` is up under `handle`.
#[derive(Clone, Copy, Debug)]
pub struct ConnComplete {
    pub bdaddr: BDAddr,
    pub handle: u16,
}

/// A decoded controller event.
#[derive(Debug)]
pub enum Message {
    LEAdvertisingReport(AdvertisingReport),
    LEConnComplete(ConnComplete),
    ACLDataPacket(AclData),
    /// Any other event, by its code.
    Other(u8),
}

/// The packets of `q` for connection handle `h`, oldest first.
pub open spec fn replay(q: Seq<AclData>, h: u16) -> Seq<AclDataView>
    decreases q.len(),
{
    if q.len() == 0 {
        Seq::empty()
    } else if q.last().handle == h {
        replay(q.drop_last(), h).push(q.last()@)
    } else {
        replay(q.drop_last(), h)
    }
}

/// The session with one remote device.
#[derive(Debug)]
pub struct Peripheral {
    pub address: BDAddr,
    pub properties: Properties,
    /// Discovered characteristics, by ascending start handle.
    pub characteristics: Vec<Characteristic>,
    /// The live connection, if any.
    pub stream: Option<AclStream>,
    /// Whether a connect has been issued and awaits its connection-complete.
    pub connecting: bool,
    /// The connection handle that a connection-complete event handed over,
    /// not yet taken by `connect`.
    pub handoff: Option<u16>,
    /// Data packets that came while no connection existed, oldest first.
    pub message_queue: Vec<AclData>,
}

/// The properties after message `m`: an advertising report for `addr`
/// is merged in; anything else leaves them.
pub open spec fn message_properties(p: PropertiesView, addr: BDAddr, m: Message) -> PropertiesView {
    match m {
        Message::LEAdvertisingReport(r) => if r.bdaddr.address@ == addr.address@ {
            report_applied(p, r)
        } else {
            p
        },
        _ => p,
    }
}

/// The handoff after message `m`: a connection-complete for `addr` while a
/// connect is under way hands its connection handle over.
pub open spec fn message_handoff(h: Option<u16>, connecting: bool, addr: BDAddr, m: Message) -> Option<u16> {
    match m {
        Message::LEConnComplete(c) => if c.bdaddr.address@ == addr.address@ && connecting {
            Some(c.handle)
        } else {
            h
        },
        _ => h,
    }
}

/// Most data packets that the replay queue keeps while no connection exists.
pub const MAX_REPLAY: usize = 256;

/// The replay queue after message `m`: a data packet that comes while no
/// connection exists is kept, at the end, unless the queue is full; then it
/// is dropped and the packets already kept stay as they are.
pub open spec fn message_queue(q: Seq<AclDataView>, connected: bool, m: Message) -> Seq<AclDataView> {
    match m {
        Message::ACLDataPacket(d) => if connected || q.len() >= MAX_REPLAY {
            q
        } else {
            q.push(d@)
        },
        _ => q,
    }
}

/// The packets that message `m` hands to the connection: a data packet for
/// the live connection's handle.
pub open spec fn message_routed(stream: Option<AclStream>, m: Message) -> Seq<AclDataView> {
    match m {
        Message::ACLDataPacket(d) => match stream {
            Some(s) => if s.handle == d.handle {
                seq![d@]
            } else {
                Seq::empty()
            },
            None => Seq::empty(),
        },
        _ => Seq::empty(),
    }
}

/// The session after `disconnect`: the connection is gone, with its
/// outstanding requests; nothing else changes.
pub open spec fn disconnected(p: Peripheral) -> Peripheral {
    Peripheral { stream: None, ..p }
}

/// The command that `disconnect` hands out for the controller, if any.
pub open spec fn disconnect_output(p: Peripheral) -> Option<Seq<u8>> {
    match p.stream {
        Some(s) => Some(disconnect_command_spec(s.handle)),
        None => None,
    }
}

/// Disconnecting twice in a row: the second call finds no connection, hands
/// out no command and changes nothing.
pub proof fn lemma_disconnect_twice(p: Peripheral)
    ensures
        disconnect_output(disconnected(p)) == None::<Seq<u8>>,
        disconnected(disconnected(p)) == disconnected(p),
{
}

/// A data packet `d` that comes while no connection exists, and the replay
/// queue has room, is kept at its end; when the connection for its handle is made it
/// is replayed exactly once, after the packets for that handle that came
/// before it; and a packet `e` that comes after the connection is made is
/// handed straight to it, so after `d`.
pub proof fn lemma_replay_in_order(
    q: Seq<AclData>,
    d: AclData,
    s: AclStream,
    e: AclData,
)
    requires
        q.len() < MAX_REPLAY,
        s.handle == d.handle,
        e.handle == d.handle,
    ensures
        message_queue(crate::stream::packet_views(q), false, Message::ACLDataPacket(d))
            == crate::stream::packet_views(q.push(d)),
        replay(q.push(d), d.handle) == replay(q, d.handle).push(d@),
        message_routed(Some(s), Message::ACLDataPacket(e)) == seq![e@],
{
    assert(q.push(d).drop_last() =~= q);
    assert(crate::stream::packet_views(q.push(d)) =~= crate::stream::packet_views(q).push(d@));
}

/// What to do after an inbound PDU has been matched.
#[derive(Debug)]
pub enum Step {
    /// Send this PDU on the connection: the next request of a chain.
    Send(Vec<u8>),
    /// The application's request `id` was answered with `data`.
    Answered { id: u64, data: Vec<u8> },
    /// A notification or indication, or a PDU that answers nothing.
    Pushed(Vec<u8>),
    /// The chain of requests is over.
    Done,
    /// The answer could not be decoded, or was not the one expected; the
    /// chain ends here.
    Malformed,
    /// The next request of the chain could not be sent.
    Failed(Error),
}

/// On a connected session with no request on the wire, `subscribe` then
/// `unsubscribe` of one characteristic both succeed: the first descriptor
/// read goes on the wire at once and the second waits. The answer to the
/// first read keeps the wire for its write, which goes out before the
/// second read; only the write's answer, which ends that chain, puts the
/// second read on the wire. The first write sets the toggled bit, the second
/// clears it, other bits kept.
pub proof fn lemma_subscribe_then_unsubscribe(
    before: Peripheral,
    between: Peripheral,
    after: Peripheral,
    r1: Result<Option<Vec<u8>>, Error>,
    r2: Result<Option<Vec<u8>>, Error>,
    c: Characteristic,
    writing: AclStream,
    released: AclStream,
    next: Option<Seq<u8>>,
    v1: u16,
    v2: u16,
)
    requires
        before.wf(),
        before.connected(),
        before.stream.unwrap().outstanding.is_none(),
        sent(before, between, r1, config_read_spec(c), Pending::ConfigRead { characteristic: c, enable: true }),
        sent(between, after, r2, config_read_spec(c), Pending::ConfigRead { characteristic: c, enable: false }),
        followed(after.stream.unwrap(), writing, Pending::ConfigWrite),
        finished(writing, released, next),
    ensures
        r1 is Ok && r1->Ok_0 is Some && r1->Ok_0->Some_0@ == config_read_spec(c),
        r2 is Ok && r2->Ok_0 is None,
        after.stream.unwrap().outstanding == Some(Pending::ConfigRead { characteristic: c, enable: true }),
        queued_views(writing.queue@) == seq![
            (config_read_spec(c), Pending::ConfigRead { characteristic: c, enable: false }),
        ],
        next == Some(config_read_spec(c)),
        released.outstanding == Some(Pending::ConfigRead { characteristic: c, enable: false }),
        released.queue@.len() == 0,
        config_value_spec(c.properties, v1, true) & toggled_bit(c.properties) == toggled_bit(
            c.properties,
        ),
        config_value_spec(c.properties, v2, false) & toggled_bit(c.properties) == 0,
        config_value_spec(c.properties, v1, true) & !toggled_bit(c.properties) == v1
            & !toggled_bit(c.properties),
        config_value_spec(c.properties, v2, false) & !toggled_bit(c.properties) == v2
            & !toggled_bit(c.properties),
{
    lemma_toggle(c.properties, v1, v2);
    let q = queued_views(writing.queue@);
    assert(queued_views(before.stream.unwrap().queue@) =~= Seq::<(Seq<u8>, Pending)>::empty());
    assert(q =~= seq![(config_read_spec(c), Pending::ConfigRead { characteristic: c, enable: false })]);
    assert(q.drop_first() =~= Seq::<(Seq<u8>, Pending)>::empty());
    assert(queued_views(released.queue@).len() == released.queue@.len());
}

/// `r` puts `pdu` on the wire now as the next request of the chain that
/// holds it, recorded as `p`; or, without a connection, fails with
/// `NotConnected` and leaves the connection as it was.
pub open spec fn step_followed(
    old: Option<AclStream>,
    new: Option<AclStream>,
    r: Step,
    pdu: Seq<u8>,
    p: Pending,
) -> bool {
    match r {
        Step::Send(v) => old.is_some() && v@ == pdu && new.is_some() && followed(
            old.unwrap(),
            new.unwrap(),
            p,
        ),
        Step::Failed(e) => old.is_none() && e == Error::NotConnected && new == old,
        _ => false,
    }
}

/// The chain that held the wire ended: the oldest waiting request, if any,
/// goes out as `next`. Without a connection nothing changes.
pub open spec fn ended(old: Option<AclStream>, new: Option<AclStream>, next: Option<Seq<u8>>) -> bool {
    match old {
        None => new == old && next.is_none(),
        Some(a) => new.is_some() && finished(a, new.unwrap(), next),
    }
}

/// Everything but the connection is as it was.
pub open spec fn same_but_stream(a: Peripheral, b: Peripheral) -> bool {
    &&& a.address == b.address
    &&& a.properties == b.properties
    &&& a.characteristics == b.characteristics
    &&& a.connecting == b.connecting
    &&& a.handoff == b.handoff
    &&& a.message_queue == b.message_queue
}

/// `b`'s connection is `a`'s with request `pdu`, for `p`, recorded: on the
/// wire where the wire was free, else at the end of the held-back ones.
pub open spec fn recorded(a: Option<AclStream>, b: Option<AclStream>, pdu: Seq<u8>, p: Pending) -> bool {
    &&& a.is_some() && b.is_some()
    &&& match a.unwrap().outstanding {
        None => b.unwrap().outstanding == Some(p) && queued_views(b.unwrap().queue@)
            == queued_views(a.unwrap().queue@),
        Some(o) => b.unwrap().outstanding == Some(o) && queued_views(b.unwrap().queue@)
            == queued_views(a.unwrap().queue@).push((pdu, p)),
    }
    &&& b.unwrap().handle == a.unwrap().handle
    &&& b.unwrap().fd == a.unwrap().fd
    &&& b.unwrap().address == a.unwrap().address
}

/// Outcome of a request `pdu` whose answer completes `p`: without a
/// connection it fails with `NotConnected` and nothing changes; else it is
/// recorded, and returned to be put on the wire where the wire was free.
pub open spec fn sent(
    old: Peripheral,
    new: Peripheral,
    r: Result<Option<Vec<u8>>, Error>,
    pdu: Seq<u8>,
    p: Pending,
) -> bool {
    &&& same_but_stream(old, new)
    &&& match r {
        Ok(o) => old.stream.is_some() && recorded(old.stream, new.stream, pdu, p) && match o {
            Some(v) => old.stream.unwrap().outstanding.is_none() && v@ == pdu,
            None => old.stream.unwrap().outstanding.is_some(),
        },
        Err(e) => old.stream.is_none() && e == Error::NotConnected && new.stream == old.stream,
    }
}

/// What a connect does when it wakes while waiting for its
/// connection-complete.
#[derive(Debug)]
pub enum Wake {
    /// The connection is made; these packets, kept while connecting, are
    /// for it, oldest first.
    Established(Vec<AclData>),
    /// The wait is over without a connection-complete.
    TimedOut(Error),
    /// Keep waiting.
    Wait,
}

impl Peripheral {
    /// The session's invariant: the catalog is sorted by start handle; the
    /// replay queue is bounded, and empty once a connection exists; the
    /// connection has at most one request on the wire.
    pub open spec fn wf(&self) -> bool {
        &&& sorted_by_start(self.characteristics@)
        &&& self.message_queue@.len() <= MAX_REPLAY
        &&& (self.stream.is_some() ==> self.message_queue@.len() == 0)
        &&& (self.stream.is_some() ==> self.stream.unwrap().wf())
    }

    pub open spec fn connected(&self) -> bool {
        self.stream.is_some()
    }

    pub fn new(address: BDAddr) -> (r: Peripheral)
        ensures
            r.wf(),
            r.address == address,
            r.properties@ == initial_properties(),
            r.characteristics@.len() == 0,
            !r.connected(),
            !r.connecting,
            r.handoff.is_none(),
            r.message_queue@.len() == 0,
    {
        Peripheral {
            address,
            properties: Properties::new(),
            characteristics: Vec::new(),
            stream: None,
            connecting: false,
            handoff: None,
            message_queue: Vec::new(),
        }
    }

    pub fn address(&self) -> (r: BDAddr)
        ensures
            r == self.address,
    {
        self.address
    }

    /// A copy of the properties gathered from advertisements.
    pub fn properties(&self) -> (r: Properties)
        ensures
            r@ == self.properties@,
    {
        self.properties.snapshot()
    }

    /// A copy of the discovered characteristics, by ascending start handle.
    pub fn characteristics(&self) -> (r: Vec<Characteristic>)
        ensures
            r@ == self.characteristics@,
    {
        self.characteristics.clone()
    }

    /// Whether a connection exists: `false` before `connect` succeeds, after
    /// a timed-out connect and after `disconnect`.
    pub fn is_connected(&self) -> (r: bool)
        ensures
            r == self.connected(),
    {
        self.stream.is_some()
    }
}

impl Peripheral {
    /// Takes in one decoded controller event. Events for another address are
    /// ignored. An advertising report is merged into the properties; a
    /// connection-complete hands its handle to a connect under way; a data
    /// packet is kept for replay while no connection exists, and otherwise
    /// returned for the connection if its handle is the connection's.
    pub fn handle_device_message(&mut self, m: &Message) -> (r: Vec<AclData>)
        requires
            old(self).wf(),
        ensures
            final(self).wf(),
            final(self).address == old(self).address,
            final(self).characteristics == old(self).characteristics,
            final(self).stream == old(self).stream,
            final(self).connecting == old(self).connecting,
            final(self).properties@ == message_properties(
                old(self).properties@,
                old(self).address,
                *m,
            ),
            final(self).handoff == message_handoff(
                old(self).handoff,
                old(self).connecting,
                old(self).address,
                *m,
            ),
            crate::stream::packet_views(final(self).message_queue@) == message_queue(
                crate::stream::packet_views(old(self).message_queue@),
                old(self).connected(),
                *m,
            ),
            crate::stream::packet_views(r@) == message_routed(old(self).stream, *m),
    {
        let mut out: Vec<AclData> = Vec::new();
        match m {
            Message::LEAdvertisingReport(info) => {
                if self.address.same_as(&info.bdaddr) {
                    self.properties.apply_report(info);
                }
            },
            Message::LEConnComplete(info) => {
                if self.address.same_as(&info.bdaddr) && self.connecting {
                    self.handoff = Some(info.handle);
                }
            },
            Message::ACLDataPacket(data) => {
                match &self.stream {
                    Some(s) => {
                        if s.handle == data.handle {
                            out.push(data.copy());
                        }
                    },
                    None => {
                        if self.message_queue.len() < MAX_REPLAY {
                            self.message_queue.push(data.copy());
                        }
                    },
                }
            },
            Message::Other(_) => {},
        }
        assert(crate::stream::packet_views(final(self).message_queue@) =~= message_queue(
            crate::stream::packet_views(old(self).message_queue@),
            old(self).connected(),
            *m,
        ));
        assert(crate::stream::packet_views(out@) =~= message_routed(old(self).stream, *m));
        out
    }

    /// Starts a connect. Returns `false` where a connection already exists:
    /// nothing is to be done. Otherwise the session awaits a
    /// connection-complete, with no handle handed over yet, and the caller
    /// opens the socket.
    pub fn begin_connect(&mut self) -> (r: bool)
        requires
            old(self).wf(),
        ensures
            final(self).wf(),
            r == !old(self).connected(),
            r ==> *final(self) == (Peripheral { connecting: true, handoff: None, ..*old(self) }),
            !r ==> *final(self) == *old(self),
    {
        if self.stream.is_some() {
            return false;
        }
        self.connecting = true;
        self.handoff = None;
        true
    }

    /// Takes the connection handle that a connection-complete handed over.
    pub fn take_handoff(&mut self) -> (r: Option<u16>)
        requires
            old(self).wf(),
        ensures
            final(self).wf(),
            r == old(self).handoff,
            *final(self) == (Peripheral { handoff: None, ..*old(self) }),
    {
        let r = self.handoff;
        self.handoff = None;
        r
    }

    /// The connect under way failed at the socket: the session goes back to
    /// no connection.
    pub fn connect_failed(&mut self)
        requires
            old(self).wf(),
        ensures
            final(self).wf(),
            *final(self) == (Peripheral { connecting: false, handoff: None, ..*old(self) }),
    {
        self.connecting = false;
        self.handoff = None;
    }

    /// No connection-complete came in time: the connect fails with
    /// `TimedOut` and no connection exists.
    pub fn connect_timed_out(&mut self) -> (r: Error)
        requires
            old(self).wf(),
            !old(self).connected(),
        ensures
            final(self).wf(),
            r == Error::TimedOut(CONNECT_TIMEOUT_SECS),
            !final(self).connected(),
            *final(self) == (Peripheral { connecting: false, handoff: None, ..*old(self) }),
    {
        self.connecting = false;
        self.handoff = None;
        Error::TimedOut(CONNECT_TIMEOUT_SECS)
    }

    /// The connection-complete came: the connection is made over socket `fd`
    /// with connection handle `handle`, and the packets kept for that handle
    /// are returned, oldest first, for it to take in. The replay queue is
    /// emptied.
    pub fn connection_established(&mut self, handle: u16, fd: i32) -> (r: Vec<AclData>)
        requires
            old(self).wf(),
            !old(self).connected(),
        ensures
            final(self).wf(),
            final(self).connected(),
            final(self).stream.unwrap().handle == handle,
            final(self).stream.unwrap().fd == fd,
            final(self).stream.unwrap().address == old(self).address,
            final(self).stream.unwrap().outstanding.is_none(),
            final(self).stream.unwrap().queue@.len() == 0,
            !final(self).connecting,
            final(self).handoff.is_none(),
            final(self).message_queue@.len() == 0,
            final(self).address == old(self).address,
            final(self).properties == old(self).properties,
            final(self).characteristics == old(self).characteristics,
            crate::stream::packet_views(r@) == replay(old(self).message_queue@, handle),
    {
        let ghost q = self.message_queue@;
        let mut out: Vec<AclData> = Vec::new();
        let mut i: usize = 0;
        assert(q.subrange(0, 0) =~= Seq::<AclData>::empty());
        assert(crate::stream::packet_views(out@) =~= Seq::<AclDataView>::empty());
        while i < self.message_queue.len()
            invariant
                self.message_queue@ == q,
                i <= q.len(),
                crate::stream::packet_views(out@) == replay(q.subrange(0, i as int), handle),
            decreases q.len() - i,
        {
            assert(q.subrange(0, i + 1).drop_last() =~= q.subrange(0, i as int));
            if self.message_queue[i].handle == handle {
                out.push(self.message_queue[i].copy());
            }
            assert(crate::stream::packet_views(out@) =~= replay(q.subrange(0, i + 1), handle));
            i = i + 1;
        }
        assert(q.subrange(0, q.len() as int) =~= q);
        self.message_queue = Vec::new();
        self.stream = Some(AclStream::new(self.address, handle, fd));
        self.connecting = false;
        self.handoff = None;
        out
    }

    /// First step of ending the connection: the HCI disconnect command
    /// (reason: user ended) for the connection's handle, to be written to the
    /// controller; `None` where no connection exists, and then there is
    /// nothing to do. The session is left as it is, so that a failed write
    /// keeps the connection.
    pub fn disconnect_request(&self) -> (r: Option<Vec<u8>>)
        ensures
            crate::properties::opt_bytes_view(r) == disconnect_output(*self),
    {
        match &self.stream {
            None => None,
            Some(s) => Some(disconnect_command(s.handle)),
        }
    }

    /// Second step, once the command was written: drops the connection. Its
    /// outstanding and held-back requests are abandoned without an answer.
    /// Without a connection this changes nothing.
    pub fn disconnect(&mut self)
        requires
            old(self).wf(),
        ensures
            final(self).wf(),
            *final(self) == disconnected(*old(self)),
    {
        self.stream = None;
    }

    /// Hands out `pdu` on the connection, recording `p` as the request that
    /// its answer completes.
    pub fn write_acl_packet(&mut self, pdu: Vec<u8>, p: Pending) -> (r: Result<Option<Vec<u8>>, Error>)
        requires
            old(self).wf(),
        ensures
            final(self).wf(),
            sent(*old(self), *final(self), r, pdu@, p),
    {
        match &mut self.stream {
            None => Err(Error::NotConnected),
            Some(s) => Ok(s.write(pdu, p)),
        }
    }

    /// A write request of `data` to the attribute at `handle`.
    pub fn request_by_handle(&mut self, handle: u16, data: &[u8], p: Pending) -> (r: Result<Option<Vec<u8>>, Error>)
        requires
            old(self).wf(),
        ensures
            final(self).wf(),
            sent(*old(self), *final(self), r, write_request_spec(handle, data@), p),
    {
        if self.stream.is_none() {
            return Err(Error::NotConnected);
        }
        let pdu = write_request(handle, data);
        self.write_acl_packet(pdu, p)
    }

    /// A write request of `data` to the characteristic's value, answered
    /// under the application's identifier `id`.
    pub fn request(&mut self, c: &Characteristic, data: &[u8], id: u64) -> (r: Result<Option<Vec<u8>>, Error>)
        requires
            old(self).wf(),
        ensures
            final(self).wf(),
            sent(
                *old(self),
                *final(self),
                r,
                write_request_spec(c.value_handle, data@),
                Pending::Request { id },
            ),
    {
        self.request_by_handle(c.value_handle, data, Pending::Request { id })
    }

    /// A write command of `data` to the characteristic's value: no answer is
    /// awaited, so nothing is recorded.
    pub fn command(&self, c: &Characteristic, data: &[u8]) -> (r: Result<Vec<u8>, Error>)
        ensures
            match r {
                Ok(v) => self.stream.is_some() && v@ == write_command_spec(c.value_handle, data@),
                Err(e) => self.stream.is_none() && e == Error::NotConnected,
            },
    {
        if self.stream.is_none() {
            return Err(Error::NotConnected);
        }
        Ok(write_command(c.value_handle, data))
    }

    /// Asks for the characteristic declarations in `[start, end]`.
    pub fn discover_characteristics_in_range(&mut self, start: u16, end: u16) -> (r: Result<Option<Vec<u8>>, Error>)
        requires
            old(self).wf(),
        ensures
            final(self).wf(),
            sent(
                *old(self),
                *final(self),
                r,
                read_by_type_spec(start, end, GATT_CHARAC_UUID),
                Pending::Discover { end },
            ),
    {
        if self.stream.is_none() {
            return Err(Error::NotConnected);
        }
        let pdu = read_by_type_request(start, end, GATT_CHARAC_UUID);
        self.write_acl_packet(pdu, Pending::Discover { end })
    }

    /// Asks for every characteristic declaration of the device.
    pub fn discover_characteristics(&mut self) -> (r: Result<Option<Vec<u8>>, Error>)
        requires
            old(self).wf(),
        ensures
            final(self).wf(),
            sent(
                *old(self),
                *final(self),
                r,
                read_by_type_spec(FIRST_HANDLE, LAST_HANDLE, GATT_CHARAC_UUID),
                Pending::Discover { end: LAST_HANDLE },
            ),
    {
        self.discover_characteristics_in_range(FIRST_HANDLE, LAST_HANDLE)
    }

    /// The chain that holds the wire goes on with `pdu`, recorded as `p`.
    fn follow_up(&mut self, pdu: Vec<u8>, p: Pending) -> (r: Step)
        requires
            old(self).wf(),
        ensures
            final(self).wf(),
            same_but_stream(*old(self), *final(self)),
            step_followed(old(self).stream, final(self).stream, r, pdu@, p),
    {
        match &mut self.stream {
            None => Step::Failed(Error::NotConnected),
            Some(s) => Step::Send(s.follow(pdu, p)),
        }
    }

    /// The chain that holds the wire ends; returns the waiting request put
    /// on the wire in its place, if any.
    fn end_chain(&mut self) -> (r: Option<Vec<u8>>)
        requires
            old(self).wf(),
        ensures
            final(self).wf(),
            same_but_stream(*old(self), *final(self)),
            ended(old(self).stream, final(self).stream, crate::properties::opt_bytes_view(r)),
    {
        match &mut self.stream {
            None => None,
            Some(s) => s.finish(),
        }
    }

    /// Takes in the declarations that answered a discovery over a range
    /// ending at `end`: they are merged into the catalog. Where the last one
    /// starts below `end`, the chain goes on with the rest of the range, or
    /// fails with `NotConnected` where the connection is gone. Otherwise
    /// discovery is over: `Done`, with the connection left as it was.
    fn on_characteristics(&mut self, end: u16, decls: &Vec<Characteristic>) -> (r: Step)
        requires
            old(self).wf(),
        ensures
            final(self).wf(),
            final(self).characteristics@ == merged(old(self).characteristics@, decls@, end),
            final(self).address == old(self).address,
            final(self).properties == old(self).properties,
            final(self).message_queue == old(self).message_queue,
            final(self).connecting == old(self).connecting,
            final(self).handoff == old(self).handoff,
            match next_start(decls@, end) {
                None => r is Done && final(self).stream == old(self).stream,
                Some(n) => step_followed(
                    old(self).stream,
                    final(self).stream,
                    r,
                    read_by_type_spec(n, end, GATT_CHARAC_UUID),
                    Pending::Discover { end },
                ),
            },
    {
        let next = apply_discovered(&mut self.characteristics, decls, end);
        match next {
            None => Step::Done,
            Some(n) => self.follow_up(read_by_type_request(n, end, GATT_CHARAC_UUID), Pending::Discover { end }),
        }
    }

    /// First step of turning notifications of `c` on (`enable`) or off: asks
    /// for its client configuration descriptor.
    pub fn notify(&mut self, c: &Characteristic, enable: bool) -> (r: Result<Option<Vec<u8>>, Error>)
        requires
            old(self).wf(),
        ensures
            final(self).wf(),
            sent(
                *old(self),
                *final(self),
                r,
                config_read_spec(*c),
                Pending::ConfigRead { characteristic: *c, enable },
            ),
    {
        if self.stream.is_none() {
            return Err(Error::NotConnected);
        }
        let pdu = config_read_request(c);
        self.write_acl_packet(pdu, Pending::ConfigRead { characteristic: *c, enable })
    }

    pub fn subscribe(&mut self, c: &Characteristic) -> (r: Result<Option<Vec<u8>>, Error>)
        requires
            old(self).wf(),
        ensures
            final(self).wf(),
            sent(
                *old(self),
                *final(self),
                r,
                config_read_spec(*c),
                Pending::ConfigRead { characteristic: *c, enable: true },
            ),
    {
        self.notify(c, true)
    }

    pub fn unsubscribe(&mut self, c: &Characteristic) -> (r: Result<Option<Vec<u8>>, Error>)
        requires
            old(self).wf(),
        ensures
            final(self).wf(),
            sent(
                *old(self),
                *final(self),
                r,
                config_read_spec(*c),
                Pending::ConfigRead { characteristic: *c, enable: false },
            ),
    {
        self.notify(c, false)
    }

    /// Hands a routed packet to the connection, which matches it against the
    /// request on the wire. `None` where no connection for its handle
    /// exists. The completion is to be passed to `on_completion`, which
    /// decides what the wire does next.
    pub fn receive(&self, packet: &AclData) -> (r: Option<Completion>)
        ensures
            match r {
                None => self.stream.is_none() || self.stream.unwrap().handle != packet.handle,
                Some(c) => {
                    &&& self.stream.is_some()
                    &&& self.stream.unwrap().handle == packet.handle
                    &&& c.data@ == packet.data@
                    &&& c.pending == receive_spec(self.stream.unwrap().outstanding, packet.data@)
                },
            },
    {
        match &self.stream {
            None => None,
            Some(s) => {
                if s.handle != packet.handle {
                    return None;
                }
                let p = s.receive(packet.data.as_slice());
                Some(Completion { pending: p, data: packet.data.clone() })
            },
        }
    }

    /// Carries a matched PDU on, and returns what to do with it together
    /// with the waiting request that goes on the wire because a chain ended.
    /// A notification is handed out and leaves the wire alone. An answer to
    /// an application request is handed out under its identifier and ends
    /// its chain. A discovery answer is decoded and merged, and the chain
    /// goes on with the rest of the range at once, ahead of every waiting
    /// request, or ends. A configuration read's answer is decoded and the
    /// chain goes on at once with the write of the updated value. A
    /// configuration write's answer ends its chain. An answer that cannot be
    /// decoded ends its chain.
    pub fn on_completion(&mut self, c: &Completion) -> (r: (Step, Option<Vec<u8>>))
        requires
            old(self).wf(),
        ensures
            final(self).wf(),
            final(self).address == old(self).address,
            final(self).properties == old(self).properties,
            final(self).message_queue == old(self).message_queue,
            final(self).connecting == old(self).connecting,
            final(self).handoff == old(self).handoff,
            match c.pending {
                None => *final(self) == *old(self) && r.1 is None && match r.0 {
                    Step::Pushed(v) => v@ == c.data@,
                    _ => false,
                },
                Some(Pending::Request { id }) => {
                    &&& final(self).characteristics == old(self).characteristics
                    &&& ended(
                        old(self).stream,
                        final(self).stream,
                        crate::properties::opt_bytes_view(r.1),
                    )
                    &&& match r.0 {
                        Step::Answered { id: i, data } => i == id && data@ == c.data@,
                        _ => false,
                    }
                },
                Some(Pending::ConfigWrite) => {
                    &&& final(self).characteristics == old(self).characteristics
                    &&& ended(
                        old(self).stream,
                        final(self).stream,
                        crate::properties::opt_bytes_view(r.1),
                    )
                    &&& if c.data@.len() > 0 && c.data@[0] == ATT_OP_WRITE_RESP {
                        r.0 is Done
                    } else {
                        r.0 is Malformed
                    }
                },
                Some(Pending::Discover { end }) => match characteristics_spec(c.data@) {
                    None => {
                        &&& final(self).characteristics == old(self).characteristics
                        &&& r.0 is Malformed
                        &&& ended(
                            old(self).stream,
                            final(self).stream,
                            crate::properties::opt_bytes_view(r.1),
                        )
                    },
                    Some(ds) => {
                        &&& final(self).characteristics@ == merged(
                            old(self).characteristics@,
                            ds,
                            end,
                        )
                        &&& match next_start(ds, end) {
                            None => r.0 is Done && ended(
                                old(self).stream,
                                final(self).stream,
                                crate::properties::opt_bytes_view(r.1),
                            ),
                            Some(n) => r.1 is None && step_followed(
                                old(self).stream,
                                final(self).stream,
                                r.0,
                                read_by_type_spec(n, end, GATT_CHARAC_UUID),
                                Pending::Discover { end },
                            ),
                        }
                    },
                },
                Some(Pending::ConfigRead { characteristic, enable }) => {
                    &&& final(self).characteristics == old(self).characteristics
                    &&& match config_response_spec(c.data@) {
                        None => r.0 is Malformed && ended(
                            old(self).stream,
                            final(self).stream,
                            crate::properties::opt_bytes_view(r.1),
                        ),
                        Some((h, v)) => r.1 is None && step_followed(
                            old(self).stream,
                            final(self).stream,
                            r.0,
                            config_write_spec(characteristic, h, v, enable),
                            Pending::ConfigWrite,
                        ),
                    }
                },
            },
    {
        match c.pending {
            None => (Step::Pushed(c.data.clone()), None),
            Some(Pending::Request { id }) => {
                let next = self.end_chain();
                (Step::Answered { id, data: c.data.clone() }, next)
            },
            Some(Pending::ConfigWrite) => {
                let next = self.end_chain();
                if c.data.len() > 0 && c.data[0] == ATT_OP_WRITE_RESP {
                    (Step::Done, next)
                } else {
                    (Step::Malformed, next)
                }
            },
            Some(Pending::Discover { end }) => match characteristics(c.data.as_slice()) {
                None => (Step::Malformed, self.end_chain()),
                Some(ds) => {
                    let step = self.on_characteristics(end, &ds);
                    match step {
                        Step::Done => (Step::Done, self.end_chain()),
                        other => (other, None),
                    }
                },
            },
            Some(Pending::ConfigRead { characteristic, enable }) => match config_response(
                c.data.as_slice(),
            ) {
                None => (Step::Malformed, self.end_chain()),
                Some((h, v)) => {
                    let pdu = config_write_request(&characteristic, h, v, enable);
                    (self.follow_up(pdu, Pending::ConfigWrite), None)
                },
            },
        }
    }

    /// One wake of a connect waiting over socket `fd`: a handed-over
    /// connection handle makes the connection; otherwise, once the wait has
    /// run out (`expired`), the connect times out; otherwise it waits on.
    pub fn connect_wake(&mut self, expired: bool, fd: i32) -> (r: Wake)
        requires
            old(self).wf(),
            !old(self).connected(),
        ensures
            final(self).wf(),
            match old(self).handoff {
                Some(h) => {
                    &&& final(self).stream.is_some()
                    &&& final(self).stream.unwrap().handle == h
                    &&& final(self).stream.unwrap().fd == fd
                    &&& final(self).stream.unwrap().outstanding.is_none()
                    &&& final(self).message_queue@.len() == 0
                    &&& !final(self).connecting
                    &&& final(self).handoff.is_none()
                    &&& final(self).properties == old(self).properties
                    &&& final(self).characteristics == old(self).characteristics
                    &&& match r {
                        Wake::Established(v) => crate::stream::packet_views(v@) == replay(
                            old(self).message_queue@,
                            h,
                        ),
                        _ => false,
                    }
                },
                None => if expired {
                    &&& *final(self) == (Peripheral { connecting: false, handoff: None, ..*old(self) })
                    &&& match r {
                        Wake::TimedOut(e) => e == Error::TimedOut(CONNECT_TIMEOUT_SECS),
                        _ => false,
                    }
                } else {
                    *final(self) == *old(self) && r is Wait
                },
            },
    {
        match self.take_handoff() {
            Some(h) => Wake::Established(self.connection_established(h, fd)),
            None => if expired {
                Wake::TimedOut(self.connect_timed_out())
            } else {
                Wake::Wait
            },
        }
    }
}

} // verus!