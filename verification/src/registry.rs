//! The kinds of port side by side: one type for any port, and the listing
//! of all ports that can be had.

use vstd::prelude::*;
use crate::enttec::EnttecDmxPort;
use crate::error::DmxError;
use crate::offline::{OfflineDmxPort, OFFLINE_NAME};
use crate::port::{DmxPort, PortKind, PortModel, PortRecord, PortState, SerialSettings};

verus! {

/// A port of any kind.
#[derive(Debug)]
pub enum Port {
    Offline(OfflineDmxPort),
    Enttec(EnttecDmxPort),
}

/// A listing of ports, in the order in which they are offered.
pub type PortListing = Vec<Port>;

impl View for Port {
    type V = PortModel;

    open spec fn view(&self) -> PortModel {
        match self {
            Port::Offline(port) => port@,
            Port::Enttec(port) => port@,
        }
    }
}

impl DmxPort for Port {
    fn name(&self) -> (s: &str) {
        match self {
            Port::Offline(port) => port.name(),
            Port::Enttec(port) => port.name(),
        }
    }

    fn kind(&self) -> (k: PortKind) {
        match self {
            Port::Offline(port) => port.kind(),
            Port::Enttec(port) => port.kind(),
        }
    }

    fn state(&self) -> (s: PortState) {
        match self {
            Port::Offline(port) => port.state(),
            Port::Enttec(port) => port.state(),
        }
    }

    fn open(&mut self) -> (request: Option<SerialSettings>) {
        match self {
            Port::Offline(port) => port.open(),
            Port::Enttec(port) => port.open(),
        }
    }

    fn connected(&mut self, outcome: Result<(), serialport::Error>) -> (r: Result<(), DmxError>) {
        match self {
            Port::Offline(port) => port.connected(outcome),
            Port::Enttec(port) => port.connected(outcome),
        }
    }

    fn close(&mut self) {
        match self {
            Port::Offline(port) => port.close(),
            Port::Enttec(port) => port.close(),
        }
    }

    fn write(&mut self, frame: &[u8]) -> (r: Result<Vec<u8>, DmxError>) {
        match self {
            Port::Offline(port) => port.write(frame),
            Port::Enttec(port) => port.write(frame),
        }
    }

    fn record(&self) -> (r: PortRecord) {
        match self {
            Port::Offline(port) => port.record(),
            Port::Enttec(port) => port.record(),
        }
    }
}

impl Port {
    /// The port that `record` was made of, closed.
    pub fn restore(record: PortRecord) -> (port: Port)
        ensures
            port@ == record@.restored(),
    {
        match record {
            PortRecord::Offline => Port::Offline(OfflineDmxPort::new()),
            PortRecord::Enttec(path) => Port::Enttec(EnttecDmxPort::new(path)),
        }
    }
}

/// What the ports of a listing are, in the listing's order.
pub open spec fn models(ports: Seq<Port>) -> Seq<PortModel> {
    Seq::new(ports.len(), |i: int| ports[i]@)
}

/// The listing of the offline kind: one closed port.
pub open spec fn offline_listing() -> Seq<PortModel> {
    seq![PortModel { kind: PortKind::Offline, name: OFFLINE_NAME@, state: PortState::Closed }]
}

/// The listing of the Enttec kind for the serial devices at `paths`: one
/// closed port for each, in their order.
pub open spec fn enttec_listing(paths: Seq<String>) -> Seq<PortModel> {
    Seq::new(
        paths.len(),
        |i: int| PortModel { kind: PortKind::Enttec, name: paths[i]@, state: PortState::Closed },
    )
}

/// The listing of all kinds: the offline kind first, then the adapters.
pub open spec fn full_listing(paths: Seq<String>) -> Seq<PortModel> {
    offline_listing() + enttec_listing(paths)
}

/// Puts the listings of two kinds together, the first kind's ports first.
/// Where a kind failed to list its ports, that failure is the result, and
/// the first kind's failure goes before the second's.
pub fn join_listings(
    first: Result<PortListing, DmxError>,
    second: Result<PortListing, DmxError>,
) -> (r: Result<PortListing, DmxError>)
    ensures
        match (first, second) {
            (Ok(head), Ok(tail)) => r is Ok && r->Ok_0@ == head@ + tail@,
            (Err(e), _) => r == Err::<PortListing, DmxError>(e),
            (Ok(_), Err(e)) => r == Err::<PortListing, DmxError>(e),
        },
{
    match first {
        Err(e) => Err(e),
        Ok(mut ports) => match second {
            Err(e) => Err(e),
            Ok(mut tail) => {
                ports.append(&mut tail);
                Ok(ports)
            },
        },
    }
}

/// All ports that can be had, given what the enumeration of the host's
/// serial devices brought: the offline port first, then one adapter for
/// each device path. A failed enumeration fails the whole listing.
pub fn available_ports(devices: Result<Vec<String>, serialport::Error>) -> (r: Result<
    PortListing,
    DmxError,
>)
    ensures
        match devices {
            Ok(paths) => r is Ok && models(r->Ok_0@) == full_listing(paths@),
            Err(e) => r == Err::<PortListing, DmxError>(DmxError::Serial(e)),
        },
{
    let ghost given = devices;
    let offline = OfflineDmxPort::available_ports();
    let enttec = EnttecDmxPort::available_ports(devices);
    let r = join_listings(offline, enttec);
    proof {
        if given is Ok {
            assert(models(r->Ok_0@) =~= full_listing(given->Ok_0@));
        }
    }
    r
}

/// The joint listing holds every kind's ports, the offline kind's before the
/// adapters: its length is the sum of the two kinds' listings, and its first
/// entry is the offline port.
pub proof fn lemma_listing_is_sum_of_kinds(paths: Seq<String>)
    ensures
        full_listing(paths).len() == offline_listing().len() + enttec_listing(paths).len(),
        full_listing(paths).len() == 1 + paths.len(),
        full_listing(paths)[0].kind == PortKind::Offline,
        forall|i: int|
            0 <= i < paths.len() ==> #[trigger] full_listing(paths)[1 + i] == enttec_listing(
                paths,
            )[i],
{
}

} // verus!
