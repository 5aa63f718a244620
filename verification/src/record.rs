//! The advertised service record, the records carried by a peer's response,
//! and the extraction of a discovered-device summary from them.
use crate::text::{spec_trim_dots, trim_trailing_dots};
use vstd::prelude::*;

verus! {

/// The currently advertised service: at most one instance is live at a time.
#[derive(Debug, Clone)]
pub struct ServiceRecord {
    pub service_type: String,
    pub instance_name: String,
    pub port: u16,
    pub txt: Vec<String>,
}

/// The mathematical value of a [`ServiceRecord`].
pub struct RecordView {
    pub service_type: Seq<char>,
    pub instance_name: Seq<char>,
    pub port: u16,
    pub txt: Seq<Seq<char>>,
}

impl View for ServiceRecord {
    type V = RecordView;

    open spec fn view(&self) -> RecordView {
        RecordView {
            service_type: self.service_type@,
            instance_name: self.instance_name@,
            port: self.port,
            txt: self.txt.deep_view(),
        }
    }
}

/// One resource record carried by a peer's advertisement response, reduced to
/// the data the extraction reads.
#[derive(Debug, Clone)]
pub enum ResourceRecord {
    /// A service record: supplies the instance name, target hostname and port.
    Service { name: String, hostname: String, port: u16 },
    /// A text record: supplies zero or more opaque strings.
    Text { entries: Vec<String> },
    /// Any other record kind; ignored by the extraction.
    Other,
}

/// The mathematical value of a [`ResourceRecord`].
pub enum ResourceRecordView {
    Service { name: Seq<char>, hostname: Seq<char>, port: u16 },
    Text { entries: Seq<Seq<char>> },
    Other,
}

impl View for ResourceRecord {
    type V = ResourceRecordView;

    open spec fn view(&self) -> ResourceRecordView {
        match self {
            ResourceRecord::Service { name, hostname, port } => ResourceRecordView::Service {
                name: name@,
                hostname: hostname@,
                port: *port,
            },
            ResourceRecord::Text { entries } => ResourceRecordView::Text {
                entries: entries.deep_view(),
            },
            ResourceRecord::Other => ResourceRecordView::Other,
        }
    }
}

impl DeepView for ResourceRecord {
    type V = ResourceRecordView;

    open spec fn deep_view(&self) -> ResourceRecordView {
        self.view()
    }
}

/// A peer device derived from one advertisement response.
#[derive(Debug, Clone)]
pub struct DiscoveredDevice {
    pub name: String,
    pub hostname: String,
    pub address: String,
    pub port: u16,
    pub txt: Vec<String>,
}

/// The mathematical value of a [`DiscoveredDevice`].
pub struct DeviceView {
    pub name: Seq<char>,
    pub hostname: Seq<char>,
    pub address: Seq<char>,
    pub port: u16,
    pub txt: Seq<Seq<char>>,
}

impl View for DiscoveredDevice {
    type V = DeviceView;

    open spec fn view(&self) -> DeviceView {
        DeviceView {
            name: self.name@,
            hostname: self.hostname@,
            address: self.address@,
            port: self.port,
            txt: self.txt.deep_view(),
        }
    }
}

/// The name, hostname and port of the last service record in `rs`, if any.
pub open spec fn last_service_data(rs: Seq<ResourceRecordView>) -> Option<
    (Seq<char>, Seq<char>, u16),
>
    decreases rs.len(),
{
    if rs.len() == 0 {
        None
    } else {
        match rs.last() {
            ResourceRecordView::Service { name, hostname, port } => Some((name, hostname, port)),
            _ => last_service_data(rs.drop_last()),
        }
    }
}

/// All strings of all text records in `rs`, in encounter order.
pub open spec fn all_text_entries(rs: Seq<ResourceRecordView>) -> Seq<Seq<char>>
    decreases rs.len(),
{
    if rs.len() == 0 {
        Seq::empty()
    } else {
        match rs.last() {
            ResourceRecordView::Text { entries } => all_text_entries(rs.drop_last()) + entries,
            _ => all_text_entries(rs.drop_last()),
        }
    }
}

/// The device summary extracted from the records `rs` of a response sent from
/// `address`: the last service record supplies name, hostname (each with its
/// trailing dots trimmed) and port; missing service data yields empty strings
/// and port zero; text records are collected in encounter order.
pub open spec fn spec_extract_device(rs: Seq<ResourceRecordView>, address: Seq<char>) -> DeviceView {
    DeviceView {
        name: match last_service_data(rs) {
            Some((n, _, _)) => spec_trim_dots(n),
            None => Seq::empty(),
        },
        hostname: match last_service_data(rs) {
            Some((_, h, _)) => spec_trim_dots(h),
            None => Seq::empty(),
        },
        address: address,
        port: match last_service_data(rs) {
            Some((_, _, p)) => p,
            None => 0,
        },
        txt: all_text_entries(rs),
    }
}

/// Scans all records of a response and assembles the discovered device. The
/// event is emitted even when no service record is present: the name and
/// hostname are then empty and the port is zero.
pub fn extract_device(records: &Vec<ResourceRecord>, address: String) -> (d: DiscoveredDevice)
    ensures
        d@ == spec_extract_device(records.deep_view(), address@),
{
    let mut name: String = String::new();
    let mut hostname: String = String::new();
    let mut port: u16 = 0;
    let mut found: bool = false;
    let mut txt: Vec<String> = Vec::new();
    let mut i: usize = 0;
    while i < records.len()
        invariant
            i <= records@.len(),
            txt.deep_view() == all_text_entries(records.deep_view().take(i as int)),
            match last_service_data(records.deep_view().take(i as int)) {
                Some((n, h, p)) => found && name@ == n && hostname@ == h && port == p,
                None => !found,
            },
        decreases records@.len() - i,
    {
        proof {
            let t1 = records.deep_view().take(i + 1);
            assert(t1.drop_last() =~= records.deep_view().take(i as int));
            assert(t1.last() == records.deep_view()[i as int]);
        }
        match &records[i] {
            ResourceRecord::Service { name: n, hostname: h, port: p } => {
                name = n.clone();
                hostname = h.clone();
                port = *p;
                found = true;
            },
            ResourceRecord::Text { entries } => {
                let mut fresh = entries.clone();
                txt.append(&mut fresh);
            },
            ResourceRecord::Other => {},
        }
        proof {
            assert(txt.deep_view() =~= all_text_entries(records.deep_view().take(i + 1)));
        }
        i = i + 1;
    }
    proof {
        assert(records.deep_view().take(records@.len() as int) =~= records.deep_view());
    }
    let trimmed_name = if found {
        trim_trailing_dots(name.as_str())
    } else {
        String::new()
    };
    let trimmed_hostname = if found {
        trim_trailing_dots(hostname.as_str())
    } else {
        String::new()
    };
    DiscoveredDevice {
        name: trimmed_name,
        hostname: trimmed_hostname,
        address,
        port: if found {
            port
        } else {
            0
        },
        txt,
    }
}

} // verus!
