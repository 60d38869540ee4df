//! The offline port: a stand-in that takes frames where no hardware is
//! attached.

use vstd::prelude::*;
use crate::error::DmxError;
use crate::port::{DmxPort, PortKind, PortModel, PortRecord, PortState, SerialSettings};
use crate::registry::{models, offline_listing, Port, PortListing};

verus! {

/// The name under which the offline port is listed.
pub const OFFLINE_NAME: &'static str = "offline";

/// A port that accepts frames while it is open and sends them nowhere.
#[derive(Debug)]
pub struct OfflineDmxPort {
    state: PortState,
}

impl View for OfflineDmxPort {
    type V = PortModel;

    closed spec fn view(&self) -> PortModel {
        PortModel { kind: PortKind::Offline, name: OFFLINE_NAME@, state: self.state }
    }
}

impl OfflineDmxPort {
    /// The offline port, closed.
    pub fn new() -> (port: OfflineDmxPort)
        ensures
            port@ == (PortModel {
                kind: PortKind::Offline,
                name: OFFLINE_NAME@,
                state: PortState::Closed,
            }),
    {
        OfflineDmxPort { state: PortState::Closed }
    }

    /// The offline ports that can be had: always exactly one, closed.
    pub fn available_ports() -> (r: Result<PortListing, DmxError>)
        ensures
            r is Ok,
            models(r->Ok_0@) == offline_listing(),
    {
        let mut ports: PortListing = Vec::new();
        ports.push(Port::Offline(OfflineDmxPort::new()));
        assert(models(ports@) =~= offline_listing());
        Ok(ports)
    }
}

/// Every offline port is of the offline kind and bears the offline name.
pub proof fn lemma_offline_port_model(port: OfflineDmxPort)
    ensures
        port@.kind == PortKind::Offline,
        port@.name == OFFLINE_NAME@,
{
}

impl DmxPort for OfflineDmxPort {
    fn name(&self) -> (s: &str) {
        OFFLINE_NAME
    }

    fn kind(&self) -> (k: PortKind) {
        PortKind::Offline
    }

    fn state(&self) -> (s: PortState) {
        self.state
    }

    fn open(&mut self) -> (request: Option<SerialSettings>) {
        self.state = PortState::Open;
        None
    }

    fn connected(&mut self, outcome: Result<(), serialport::Error>) -> (r: Result<(), DmxError>) {
        match outcome {
            Ok(_) => {
                self.state = PortState::Open;
                Ok(())
            },
            Err(e) => Err(DmxError::Serial(e)),
        }
    }

    fn close(&mut self) {
        self.state = PortState::Closed;
    }

    fn write(&mut self, frame: &[u8]) -> (r: Result<Vec<u8>, DmxError>) {
        match self.state {
            PortState::Closed => Err(DmxError::PortClosed),
            PortState::Open => Ok(Vec::new()),
        }
    }

    fn record(&self) -> (r: PortRecord) {
        PortRecord::Offline
    }
}

} // verus!
