use vstd::prelude::*;

use crate::types::{AddressType, BDAddr};

verus! {

/// Event type of an advertising report that carries a scan response.
pub const SCAN_RESPONSE_EVT: u8 = 4;

/// One typed field of advertisement data.
#[derive(Debug)]
pub enum AdvertisingData {
    LocalName(String),
    TxPowerLevel(i8),
    ManufacturerSpecific(Vec<u8>),
    /// A field of another kind, by its type code; it is not kept.
    Other(u8),
}

/// An advertising report from the controller, for one device.
#[derive(Debug)]
pub struct AdvertisingReport {
    pub evt_type: u8,
    pub bdaddr_type: u8,
    pub bdaddr: BDAddr,
    pub data: Vec<AdvertisingData>,
}

/// What is known of a device from its advertisements.
#[derive(Debug)]
pub struct Properties {
    pub address_type: AddressType,
    pub local_name: Option<String>,
    pub tx_power_level: Option<i8>,
    pub manufacturer_data: Option<Vec<u8>>,
    pub discovery_count: u32,
    pub has_scan_response: bool,
}

/// The mathematical content of `Properties`.
pub struct PropertiesView {
    pub address_type: AddressType,
    pub local_name: Option<Seq<char>>,
    pub tx_power_level: Option<i8>,
    pub manufacturer_data: Option<Seq<u8>>,
    pub discovery_count: u32,
    pub has_scan_response: bool,
}

pub open spec fn opt_string_view(o: Option<String>) -> Option<Seq<char>> {
    match o {
        Some(s) => Some(s@),
        None => None,
    }
}

pub open spec fn opt_bytes_view(o: Option<Vec<u8>>) -> Option<Seq<u8>> {
    match o {
        Some(v) => Some(v@),
        None => None,
    }
}

impl View for Properties {
    type V = PropertiesView;

    open spec fn view(&self) -> PropertiesView {
        PropertiesView {
            address_type: self.address_type,
            local_name: opt_string_view(self.local_name),
            tx_power_level: self.tx_power_level,
            manufacturer_data: opt_bytes_view(self.manufacturer_data),
            discovery_count: self.discovery_count,
            has_scan_response: self.has_scan_response,
        }
    }
}

/// The local name given last in `d`, if any.
pub open spec fn latest_name(d: Seq<AdvertisingData>) -> Option<Seq<char>>
    decreases d.len(),
{
    if d.len() == 0 {
        None
    } else {
        match d.last() {
            AdvertisingData::LocalName(s) => Some(s@),
            _ => latest_name(d.drop_last()),
        }
    }
}

/// The transmit power level given last in `d`, if any.
pub open spec fn latest_tx_power(d: Seq<AdvertisingData>) -> Option<i8>
    decreases d.len(),
{
    if d.len() == 0 {
        None
    } else {
        match d.last() {
            AdvertisingData::TxPowerLevel(p) => Some(p),
            _ => latest_tx_power(d.drop_last()),
        }
    }
}

/// The manufacturer-specific payload given last in `d`, if any.
pub open spec fn latest_manufacturer(d: Seq<AdvertisingData>) -> Option<Seq<u8>>
    decreases d.len(),
{
    if d.len() == 0 {
        None
    } else {
        match d.last() {
            AdvertisingData::ManufacturerSpecific(m) => Some(m@),
            _ => latest_manufacturer(d.drop_last()),
        }
    }
}

/// `newer` where it is given, `older` otherwise.
pub open spec fn or_keep<T>(newer: Option<T>, older: Option<T>) -> Option<T> {
    match newer {
        Some(v) => Some(v),
        None => older,
    }
}

/// The properties after one advertising report has been merged in.
pub open spec fn report_applied(p: PropertiesView, r: AdvertisingReport) -> PropertiesView {
    PropertiesView {
        address_type: if r.bdaddr_type == 1 { AddressType::Random } else { AddressType::Public },
        local_name: or_keep(latest_name(r.data@), p.local_name),
        tx_power_level: or_keep(latest_tx_power(r.data@), p.tx_power_level),
        manufacturer_data: or_keep(latest_manufacturer(r.data@), p.manufacturer_data),
        discovery_count: if p.discovery_count < u32::MAX {
            (p.discovery_count + 1) as u32
        } else {
            p.discovery_count
        },
        has_scan_response: p.has_scan_response || r.evt_type == SCAN_RESPONSE_EVT,
    }
}

/// The properties after each report of `rs` has been merged in, in order.
pub open spec fn reports_applied(p: PropertiesView, rs: Seq<AdvertisingReport>) -> PropertiesView
    decreases rs.len(),
{
    if rs.len() == 0 {
        p
    } else {
        report_applied(reports_applied(p, rs.drop_last()), rs.last())
    }
}

/// The local name given last over all of `rs`, if any.
pub open spec fn latest_name_in(rs: Seq<AdvertisingReport>) -> Option<Seq<char>>
    decreases rs.len(),
{
    if rs.len() == 0 {
        None
    } else {
        or_keep(latest_name(rs.last().data@), latest_name_in(rs.drop_last()))
    }
}

/// The transmit power level given last over all of `rs`, if any.
pub open spec fn latest_tx_power_in(rs: Seq<AdvertisingReport>) -> Option<i8>
    decreases rs.len(),
{
    if rs.len() == 0 {
        None
    } else {
        or_keep(latest_tx_power(rs.last().data@), latest_tx_power_in(rs.drop_last()))
    }
}

/// The manufacturer payload given last over all of `rs`, if any.
pub open spec fn latest_manufacturer_in(rs: Seq<AdvertisingReport>) -> Option<Seq<u8>>
    decreases rs.len(),
{
    if rs.len() == 0 {
        None
    } else {
        or_keep(latest_manufacturer(rs.last().data@), latest_manufacturer_in(rs.drop_last()))
    }
}

/// Over any run of advertising reports, the discovery count grows by one per
/// report, and each optional field holds the value of the latest report that
/// gave one (or its earlier value if none did).
pub proof fn lemma_reports_applied(p: PropertiesView, rs: Seq<AdvertisingReport>)
    requires
        p.discovery_count + rs.len() <= u32::MAX,
    ensures
        reports_applied(p, rs).discovery_count == p.discovery_count + rs.len(),
        reports_applied(p, rs).local_name == or_keep(latest_name_in(rs), p.local_name),
        reports_applied(p, rs).tx_power_level == or_keep(latest_tx_power_in(rs), p.tx_power_level),
        reports_applied(p, rs).manufacturer_data == or_keep(
            latest_manufacturer_in(rs),
            p.manufacturer_data,
        ),
    decreases rs.len(),
{
    if rs.len() > 0 {
        lemma_reports_applied(p, rs.drop_last());
    }
}

/// The properties of a device of which nothing has been heard yet.
pub open spec fn initial_properties() -> PropertiesView {
    PropertiesView {
        address_type: AddressType::Public,
        local_name: None,
        tx_power_level: None,
        manufacturer_data: None,
        discovery_count: 0,
        has_scan_response: false,
    }
}

impl Properties {
    pub fn new() -> (r: Properties)
        ensures
            r@ == initial_properties(),
    {
        Properties {
            address_type: AddressType::Public,
            local_name: None,
            tx_power_level: None,
            manufacturer_data: None,
            discovery_count: 0,
            has_scan_response: false,
        }
    }

    /// A copy of these properties.
    pub fn snapshot(&self) -> (r: Properties)
        ensures
            r@ == self@,
    {
        let local_name = match &self.local_name {
            Some(s) => Some(s.clone()),
            None => None,
        };
        let manufacturer_data = match &self.manufacturer_data {
            Some(v) => Some(v.clone()),
            None => None,
        };
        Properties {
            address_type: self.address_type,
            local_name,
            tx_power_level: self.tx_power_level,
            manufacturer_data,
            discovery_count: self.discovery_count,
            has_scan_response: self.has_scan_response,
        }
    }

    /// Merges one advertising report in: the count goes up by one (it stays
    /// at its maximum there), and each field that the report gives is taken
    /// from its last occurrence in the report.
    pub fn apply_report(&mut self, r: &AdvertisingReport)
        ensures
            final(self)@ == report_applied(old(self)@, *r),
    {
        if self.discovery_count < u32::MAX {
            self.discovery_count = self.discovery_count + 1;
        }
        self.address_type = if r.bdaddr_type == 1 {
            AddressType::Random
        } else {
            AddressType::Public
        };
        if r.evt_type == SCAN_RESPONSE_EVT {
            self.has_scan_response = true;
        }
        let ghost start = old(self)@;
        let mut i: usize = 0;
        while i < r.data.len()
            invariant
                i <= r.data@.len(),
                self.discovery_count == report_applied(start, *r).discovery_count,
                self.address_type == report_applied(start, *r).address_type,
                self.has_scan_response == report_applied(start, *r).has_scan_response,
                opt_string_view(self.local_name) == or_keep(
                    latest_name(r.data@.subrange(0, i as int)),
                    start.local_name,
                ),
                self.tx_power_level == or_keep(
                    latest_tx_power(r.data@.subrange(0, i as int)),
                    start.tx_power_level,
                ),
                opt_bytes_view(self.manufacturer_data) == or_keep(
                    latest_manufacturer(r.data@.subrange(0, i as int)),
                    start.manufacturer_data,
                ),
            decreases r.data@.len() - i,
        {
            let ghost pre = r.data@.subrange(0, i as int);
            let ghost next = r.data@.subrange(0, i + 1);
            assert(next.drop_last() =~= pre);
            assert(next.last() == r.data@[i as int]);
            match &r.data[i] {
                AdvertisingData::LocalName(name) => {
                    self.local_name = Some(name.clone());
                },
                AdvertisingData::TxPowerLevel(power) => {
                    self.tx_power_level = Some(*power);
                },
                AdvertisingData::ManufacturerSpecific(data) => {
                    self.manufacturer_data = Some(data.clone());
                },
                AdvertisingData::Other(_) => {},
            }
            i = i + 1;
        }
        assert(r.data@.subrange(0, r.data@.len() as int) =~= r.data@);
    }
}

} // verus!
