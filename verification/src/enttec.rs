//! The Enttec USB adapter: its message format and its port.

use vstd::prelude::*;
use crate::error::DmxError;
use crate::frame::{normalize, normalized, payload_len};
use crate::port::{
    DataBits, DmxPort, FlowControl, Parity, PortKind, PortModel, PortRecord, PortState,
    SerialSettings, BAUD_RATE,
};
use crate::registry::{enttec_listing, models, Port, PortListing};

verus! {

/// The byte that starts every message to the adapter.
pub const START_OF_MESSAGE: u8 = 0x7E;

/// The byte that ends every message to the adapter.
pub const END_OF_MESSAGE: u8 = 0xE7;

/// The label of a message that carries a DMX frame to send.
pub const SEND_DMX_LABEL: u8 = 6;

/// The fewest channels that the adapter sends.
pub const MIN_UNIVERSE_SIZE: usize = 24;

/// The most channels that the adapter sends.
pub const MAX_UNIVERSE_SIZE: usize = 512;

/// The longest payload whose length the two length bytes can hold.
pub const MAX_PAYLOAD_LEN: usize = 0xFFFF;

/// The message that carries `payload`: the start marker, the label, the
/// length of the payload with its low byte first, the payload, and the end
/// marker.
pub open spec fn message(payload: Seq<u8>) -> Seq<u8> {
    seq![
        START_OF_MESSAGE,
        SEND_DMX_LABEL,
        (payload.len() % 256) as u8,
        (payload.len() / 256) as u8,
    ] + payload + seq![END_OF_MESSAGE]
}

/// The length that the two length bytes of `message` announce.
pub open spec fn announced_len(message: Seq<u8>) -> nat {
    (message[2] + 256 * message[3]) as nat
}

/// The payload that `message` carries.
pub open spec fn payload_of(message: Seq<u8>) -> Seq<u8> {
    message.subrange(4, message.len() - 1)
}

/// Lays out the message that carries `payload`.
pub fn encode(payload: &[u8]) -> (bytes: Vec<u8>)
    requires
        payload@.len() <= MAX_PAYLOAD_LEN,
    ensures
        bytes@ == message(payload@),
{
    let len: usize = payload.len();
    let low: u8 = (len % 256) as u8;
    let high: u8 = (len / 256) as u8;
    let mut bytes: Vec<u8> = Vec::new();
    bytes.push(START_OF_MESSAGE);
    bytes.push(SEND_DMX_LABEL);
    bytes.push(low);
    bytes.push(high);
    let mut i: usize = 0;
    while i < len
        invariant
            i <= len,
            len == payload@.len(),
            bytes@.len() == 4 + i,
            bytes@.subrange(0, 4) == seq![START_OF_MESSAGE, SEND_DMX_LABEL, low, high],
            forall|k: int| 0 <= k < i ==> bytes@[4 + k] == payload@[k],
        decreases len - i,
    {
        bytes.push(payload[i]);
        i += 1;
    }
    bytes.push(END_OF_MESSAGE);
    assert(bytes@ =~= message(payload@)) by {
        assert(bytes@.subrange(0, 4)[0] == bytes@[0]);
        assert(bytes@.subrange(0, 4)[1] == bytes@[1]);
        assert(bytes@.subrange(0, 4)[2] == bytes@[2]);
        assert(bytes@.subrange(0, 4)[3] == bytes@[3]);
    }
    bytes
}

/// Sizes `frame` for a transport with the limits `min` and `max` and lays
/// out the message that carries the result.
pub fn encode_frame(frame: &[u8], min: usize, max: usize) -> (bytes: Vec<u8>)
    requires
        payload_len(frame@.len(), min as nat, max as nat) <= MAX_PAYLOAD_LEN,
    ensures
        bytes@ == message(normalized(frame@, min as nat, max as nat)),
{
    let payload = normalize(frame, min, max);
    encode(payload.as_slice())
}

/// The layout of a message: five bytes around the payload, the markers at
/// both ends, the label, and a length field that announces the payload's
/// length, with the payload itself unchanged in between.
pub proof fn lemma_message_layout(payload: Seq<u8>)
    requires
        payload.len() <= MAX_PAYLOAD_LEN,
    ensures
        message(payload).len() == payload.len() + 5,
        message(payload)[0] == START_OF_MESSAGE,
        message(payload)[1] == SEND_DMX_LABEL,
        announced_len(message(payload)) == payload.len(),
        payload_of(message(payload)) == payload,
        message(payload).last() == END_OF_MESSAGE,
{
    assert(payload_of(message(payload)) =~= payload);
}

/// The port of an Enttec USB adapter, known by the path of its serial
/// device.
#[derive(Debug)]
pub struct EnttecDmxPort {
    name: String,
    state: PortState,
}

impl View for EnttecDmxPort {
    type V = PortModel;

    closed spec fn view(&self) -> PortModel {
        PortModel { kind: PortKind::Enttec, name: self.name@, state: self.state }
    }
}

impl EnttecDmxPort {
    /// The port of the adapter behind the serial device at `path`, closed.
    pub fn new(path: String) -> (port: EnttecDmxPort)
        ensures
            port@ == (PortModel { kind: PortKind::Enttec, name: path@, state: PortState::Closed }),
    {
        EnttecDmxPort { name: path, state: PortState::Closed }
    }

    /// The adapters that can be had, given what the enumeration of the
    /// host's serial devices brought: one closed port for each device path,
    /// in the order of the paths, or the enumeration's failure.
    pub fn available_ports(devices: Result<Vec<String>, serialport::Error>) -> (r: Result<
        PortListing,
        DmxError,
    >)
        ensures
            match devices {
                Ok(paths) => r is Ok && models(r->Ok_0@) == enttec_listing(paths@),
                Err(e) => r == Err::<PortListing, DmxError>(DmxError::Serial(e)),
            },
    {
        match devices {
            Ok(paths) => {
                let mut ports: PortListing = Vec::new();
                let mut i: usize = 0;
                while i < paths.len()
                    invariant
                        i <= paths@.len(),
                        ports@.len() == i,
                        forall|k: int|
                            0 <= k < i ==> (#[trigger] ports@[k])@ == enttec_listing(paths@)[k],
                    decreases paths.len() - i,
                {
                    ports.push(Port::Enttec(EnttecDmxPort::new(paths[i].clone())));
                    i += 1;
                }
                assert(models(ports@) =~= enttec_listing(paths@));
                Ok(ports)
            },
            Err(e) => Err(DmxError::Serial(e)),
        }
    }
}

/// Every adapter's port is of the Enttec kind.
pub proof fn lemma_enttec_port_model(port: EnttecDmxPort)
    ensures
        port@.kind == PortKind::Enttec,
{
}

impl DmxPort for EnttecDmxPort {
    fn name(&self) -> (s: &str) {
        self.name.as_str()
    }

    fn kind(&self) -> (k: PortKind) {
        PortKind::Enttec
    }

    fn state(&self) -> (s: PortState) {
        self.state
    }

    fn open(&mut self) -> (request: Option<SerialSettings>) {
        match self.state {
            PortState::Open => None,
            PortState::Closed => Some(
                SerialSettings {
                    path: self.name.clone(),
                    baud_rate: BAUD_RATE,
                    data_bits: DataBits::Eight,
                    parity: Parity::Off,
                    flow_control: FlowControl::Off,
                },
            ),
        }
    }

    fn connected(&mut self, outcome: Result<(), serialport::Error>) -> (r: Result<(), DmxError>) {
        match outcome {
            Ok(_) => {
                self.state = PortState::Open;
                Ok(())
            },
            Err(e) => Err(DmxError::Serial(e)),
        }
    }

    fn close(&mut self) {
        self.state = PortState::Closed;
    }

    fn write(&mut self, frame: &[u8]) -> (r: Result<Vec<u8>, DmxError>) {
        match self.state {
            PortState::Closed => Err(DmxError::PortClosed),
            PortState::Open => Ok(encode_frame(frame, MIN_UNIVERSE_SIZE, MAX_UNIVERSE_SIZE)),
        }
    }

    fn record(&self) -> (r: PortRecord) {
        PortRecord::Enttec(self.name.clone())
    }
}

} // verus!
