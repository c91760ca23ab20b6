use vstd::prelude::*;

use crate::att::is_push;
use crate::characteristic::Characteristic;
use crate::types::BDAddr;

verus! {

/// A data packet from the controller, for one connection handle.
#[derive(Debug)]
pub struct AclData {
    pub handle: u16,
    pub cid: u16,
    pub data: Vec<u8>,
}

/// What a packet holds: its connection handle, channel and payload.
pub type AclDataView = (u16, u16, Seq<u8>);

impl View for AclData {
    type V = AclDataView;

    open spec fn view(&self) -> AclDataView {
        (self.handle, self.cid, self.data@)
    }
}

impl AclData {
    pub fn copy(&self) -> (r: AclData)
        ensures
            r@ == self@,
    {
        AclData { handle: self.handle, cid: self.cid, data: self.data.clone() }
    }
}

/// The views of a run of packets.
pub open spec fn packet_views(s: Seq<AclData>) -> Seq<AclDataView> {
    s.map_values(|p: AclData| p@)
}

/// What an outstanding request was for, so that its answer can be handled.
#[derive(Clone, Copy, Debug, PartialEq, Eq, Structural)]
pub enum Pending {
    /// A characteristic discovery over a range ending at `end`.
    Discover { end: u16 },
    /// A read of the configuration descriptor of `characteristic`, to turn
    /// its notifications on (`enable`) or off.
    ConfigRead { characteristic: Characteristic, enable: bool },
    /// The write of an updated configuration value.
    ConfigWrite,
    /// A write request of the application, under its own identifier.
    Request { id: u64 },
}

/// An inbound PDU, with the outstanding request it answers; `None` where it
/// is a notification or indication, or answers nothing.
#[derive(Debug)]
pub struct Completion {
    pub pending: Option<Pending>,
    pub data: Vec<u8>,
}

/// A request held back until the wire is free.
#[derive(Debug)]
pub struct Queued {
    pub pdu: Vec<u8>,
    pub pending: Pending,
}

/// The held-back requests, oldest first, as PDU and purpose.
pub open spec fn queued_views(q: Seq<Queued>) -> Seq<(Seq<u8>, Pending)> {
    q.map_values(|x: Queued| (x.pdu@, x.pending))
}

/// The transaction engine of one live connection. The attribute protocol
/// allows one request on the wire at a time: `outstanding` is the chain of
/// requests that holds the wire, and later requests wait in `queue`. An
/// answer leaves the wire with its chain, which either puts its next request
/// out (`follow`) or ends and hands the wire to the oldest waiting request
/// (`finish`).
#[derive(Debug)]
pub struct AclStream {
    pub address: BDAddr,
    pub handle: u16,
    pub fd: i32,
    pub outstanding: Option<Pending>,
    pub queue: Vec<Queued>,
}

/// The request that an inbound PDU `data` answers.
pub open spec fn receive_spec(outstanding: Option<Pending>, data: Seq<u8>) -> Option<Pending> {
    if crate::att::is_push_spec(data) {
        None
    } else {
        outstanding
    }
}

/// `b` is `a` with its chain's next request `p` on the wire; the waiting
/// requests are as they were.
pub open spec fn followed(a: AclStream, b: AclStream, p: Pending) -> bool {
    &&& b.outstanding == Some(p)
    &&& queued_views(b.queue@) == queued_views(a.queue@)
    &&& b.handle == a.handle && b.fd == a.fd && b.address == a.address
}

/// `b` is `a` after its chain ended: the oldest waiting request, if any, is
/// on the wire and returned as `next`; else the wire is free.
pub open spec fn finished(a: AclStream, b: AclStream, next: Option<Seq<u8>>) -> bool {
    let q = queued_views(a.queue@);
    &&& b.handle == a.handle && b.fd == a.fd && b.address == a.address
    &&& if q.len() == 0 {
        b.outstanding.is_none() && b.queue@.len() == 0 && next.is_none()
    } else {
        b.outstanding == Some(q[0].1) && queued_views(b.queue@) == q.drop_first() && next
            == Some(q[0].0)
    }
}

impl AclStream {
    /// At most one request is on the wire, and none waits while the wire
    /// is free.
    pub open spec fn wf(&self) -> bool {
        self.outstanding.is_none() ==> self.queue@.len() == 0
    }

    pub fn new(address: BDAddr, handle: u16, fd: i32) -> (r: AclStream)
        ensures
            r.wf(),
            r.address == address,
            r.handle == handle,
            r.fd == fd,
            r.outstanding.is_none(),
            r.queue@.len() == 0,
    {
        AclStream { address, handle, fd, outstanding: None, queue: Vec::new() }
    }

    /// Records an outgoing request `pdu`, whose answer completes `p`. When
    /// the wire is free it goes out now and is returned; otherwise it waits
    /// at the end of the queue and `None` is returned.
    pub fn write(&mut self, pdu: Vec<u8>, p: Pending) -> (r: Option<Vec<u8>>)
        requires
            old(self).wf(),
        ensures
            final(self).wf(),
            final(self).handle == old(self).handle,
            final(self).fd == old(self).fd,
            final(self).address == old(self).address,
            match old(self).outstanding {
                None => final(self).outstanding == Some(p) && queued_views(final(self).queue@)
                    == queued_views(old(self).queue@) && r is Some && r->Some_0@ == pdu@,
                Some(o) => final(self).outstanding == Some(o) && queued_views(final(self).queue@)
                    == queued_views(old(self).queue@).push((pdu@, p)) && r is None,
            },
    {
        if self.outstanding.is_none() {
            self.outstanding = Some(p);
            Some(pdu)
        } else {
            self.queue.push(Queued { pdu, pending: p });
            assert(queued_views(self.queue@) =~= queued_views(old(self).queue@).push((pdu@, p)));
            None
        }
    }

    /// Matches an inbound PDU: a response answers the request on the wire;
    /// a notification or indication answers none. The wire stays with the
    /// answered request's chain until it follows on or finishes.
    pub fn receive(&self, data: &[u8]) -> (r: Option<Pending>)
        ensures
            r == receive_spec(self.outstanding, data@),
    {
        if is_push(data) {
            None
        } else {
            self.outstanding
        }
    }

    /// The chain that holds the wire goes on with request `pdu`, whose
    /// answer completes `p`: it goes out now, ahead of every waiting one.
    pub fn follow(&mut self, pdu: Vec<u8>, p: Pending) -> (r: Vec<u8>)
        requires
            old(self).wf(),
        ensures
            final(self).wf(),
            followed(*old(self), *final(self), p),
            r@ == pdu@,
    {
        self.outstanding = Some(p);
        pdu
    }

    /// The chain that holds the wire ends: the oldest waiting request goes
    /// out and is returned, or the wire is free.
    pub fn finish(&mut self) -> (r: Option<Vec<u8>>)
        requires
            old(self).wf(),
        ensures
            final(self).wf(),
            finished(*old(self), *final(self), crate::properties::opt_bytes_view(r)),
    {
        if self.queue.len() == 0 {
            self.outstanding = None;
            return None;
        }
        let q = self.queue.remove(0);
        assert(queued_views(self.queue@) =~= queued_views(old(self).queue@).drop_first());
        self.outstanding = Some(q.pending);
        Some(q.pdu)
    }
}

} // verus!
