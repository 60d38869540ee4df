//! The contract that every port obeys.
//!
//! A port never touches a device itself. Where an operation needs the
//! physical link, the port says what has to be done on it and is told
//! afterwards how that went.

use vstd::prelude::*;
use crate::enttec::{
    lemma_message_layout, message, payload_of, MAX_UNIVERSE_SIZE, MIN_UNIVERSE_SIZE,
};
use crate::error::{serial_error_from_io, short_write_error, DmxError};
use crate::frame::{
    lemma_long_frame_is_truncated, lemma_short_frame_is_padded, normalized, zeros,
};
use crate::offline::OFFLINE_NAME;

verus! {

/// Where a port stands in its life cycle.
#[derive(Clone, Copy, Debug, PartialEq, Eq, Structural)]
pub enum PortState {
    /// Not open: newly listed, closed, or restored from a record.
    Closed,
    /// Open: frames may be written.
    Open,
}

/// The kinds of port that the crate knows.
#[derive(Clone, Copy, Debug, PartialEq, Eq, Structural)]
pub enum PortKind {
    /// A port that accepts frames and sends them nowhere.
    Offline,
    /// An Enttec USB adapter behind a serial device.
    Enttec,
}

/// The number of data bits in a character on the serial line.
#[derive(Clone, Copy, Debug, PartialEq, Eq, Structural)]
pub enum DataBits {
    Five,
    Six,
    Seven,
    Eight,
}

/// The parity check on the serial line.
#[derive(Clone, Copy, Debug, PartialEq, Eq, Structural)]
pub enum Parity {
    Off,
    Odd,
    Even,
}

/// The flow control on the serial line.
#[derive(Clone, Copy, Debug, PartialEq, Eq, Structural)]
pub enum FlowControl {
    Off,
    Software,
    Hardware,
}

/// The serial link that a port asks its caller to establish.
#[derive(Debug)]
pub struct SerialSettings {
    /// The path of the serial device.
    pub path: String,
    /// The speed of the line in bits per second.
    pub baud_rate: u32,
    pub data_bits: DataBits,
    pub parity: Parity,
    pub flow_control: FlowControl,
}

/// `SerialSettings` with its path as a sequence of characters.
pub struct SettingsModel {
    pub path: Seq<char>,
    pub baud_rate: u32,
    pub data_bits: DataBits,
    pub parity: Parity,
    pub flow_control: FlowControl,
}

impl View for SerialSettings {
    type V = SettingsModel;

    open spec fn view(&self) -> SettingsModel {
        SettingsModel {
            path: self.path@,
            baud_rate: self.baud_rate,
            data_bits: self.data_bits,
            parity: self.parity,
            flow_control: self.flow_control,
        }
    }
}

/// The speed at which the adapter talks.
pub const BAUD_RATE: u32 = 57600;

/// The link to the adapter behind the serial device at `path`: its parameters
/// are fixed by the adapter.
pub open spec fn enttec_link(path: Seq<char>) -> SettingsModel {
    SettingsModel {
        path,
        baud_rate: BAUD_RATE,
        data_bits: DataBits::Eight,
        parity: Parity::Off,
        flow_control: FlowControl::Off,
    }
}

/// What is kept of a port when it is stored: its kind and its identity, not
/// its state.
#[derive(Debug)]
pub enum PortRecord {
    Offline,
    /// An Enttec port with the path of its serial device.
    Enttec(String),
}

/// A `PortRecord` with the identity as a sequence of characters.
pub struct RecordModel {
    pub kind: PortKind,
    pub name: Seq<char>,
}

impl View for PortRecord {
    type V = RecordModel;

    open spec fn view(&self) -> RecordModel {
        match self {
            PortRecord::Offline => RecordModel { kind: PortKind::Offline, name: OFFLINE_NAME@ },
            PortRecord::Enttec(path) => RecordModel { kind: PortKind::Enttec, name: path@ },
        }
    }
}

impl RecordModel {
    /// The port that the record is restored to: closed, whatever the state
    /// of the port that was stored.
    pub open spec fn restored(self) -> PortModel {
        PortModel { kind: self.kind, name: self.name, state: PortState::Closed }
    }
}

/// What a port is, as far as its contract goes.
pub struct PortModel {
    pub kind: PortKind,
    /// The identity of the port among those of its kind.
    pub name: Seq<char>,
    pub state: PortState,
}

impl PortModel {
    /// The link that the port needs while it is open, if it needs one.
    pub open spec fn link(self) -> Option<SettingsModel> {
        match self.kind {
            PortKind::Offline => None,
            PortKind::Enttec => Some(enttec_link(self.name)),
        }
    }

    /// The link that `open` asks for: none where the port is open already.
    pub open spec fn open_request(self) -> Option<SettingsModel> {
        match self.state {
            PortState::Open => None,
            PortState::Closed => self.link(),
        }
    }

    /// The port after `open`: open where it needs no link, unchanged where it
    /// has asked for one.
    pub open spec fn after_open(self) -> PortModel {
        if self.open_request() is None {
            PortModel { state: PortState::Open, ..self }
        } else {
            self
        }
    }

    /// The port after it was told whether its link was established.
    pub open spec fn after_connect(self, established: bool) -> PortModel {
        if established {
            PortModel { state: PortState::Open, ..self }
        } else {
            self
        }
    }

    /// The port after `close`.
    pub open spec fn after_close(self) -> PortModel {
        PortModel { state: PortState::Closed, ..self }
    }

    /// The bytes that the port hands to its link for `frame`: none for the
    /// offline port, and for the adapter the message that carries the frame
    /// in the size that the adapter supports.
    pub open spec fn transmission(self, frame: Seq<u8>) -> Seq<u8> {
        match self.kind {
            PortKind::Offline => Seq::empty(),
            PortKind::Enttec => message(
                normalized(frame, MIN_UNIVERSE_SIZE as nat, MAX_UNIVERSE_SIZE as nat),
            ),
        }
    }

    /// What `write` gives for `frame`: the transmission where the port is
    /// open, nothing where it is closed.
    pub open spec fn written(self, frame: Seq<u8>) -> Option<Seq<u8>> {
        match self.state {
            PortState::Open => Some(self.transmission(frame)),
            PortState::Closed => None,
        }
    }

    /// What is kept of the port when it is stored.
    pub open spec fn record(self) -> RecordModel {
        RecordModel { kind: self.kind, name: self.name }
    }
}

/// The operations that every port offers.
pub trait DmxPort: View<V = PortModel> {
    /// The identity of the port.
    fn name(&self) -> (s: &str)
        ensures
            s@ == self@.name,
    ;

    /// The kind of the port.
    fn kind(&self) -> (k: PortKind)
        ensures
            k == self@.kind,
    ;

    /// Where the port stands in its life cycle.
    fn state(&self) -> (s: PortState)
        ensures
            s == self@.state,
    ;

    /// Starts to open the port and returns the link that the caller has to
    /// establish first, if any. With `None` the port is open: it was open
    /// already, or needs no link. With a request the port stays closed until
    /// `connected` reports the link.
    fn open(&mut self) -> (request: Option<SerialSettings>)
        ensures
            final(self)@ == old(self)@.after_open(),
            match request {
                Some(settings) => old(self)@.open_request() == Some(settings@),
                None => old(self)@.open_request() is None,
            },
    ;

    /// Tells the port how the attempt to establish its link went. The port is
    /// open after a success; a failure leaves it as it was and is handed on.
    fn connected(&mut self, outcome: Result<(), serialport::Error>) -> (r: Result<(), DmxError>)
        ensures
            final(self)@ == old(self)@.after_connect(outcome is Ok),
            r == match outcome {
                Ok(_) => Ok::<(), DmxError>(()),
                Err(e) => Err::<(), DmxError>(DmxError::Serial(e)),
            },
    ;

    /// Closes the port, whatever its state.
    fn close(&mut self)
        ensures
            final(self)@ == old(self)@.after_close(),
    ;

    /// Returns the bytes that carry `frame` on the port's link. A port that
    /// is not open refuses with `PortClosed`. The port itself is unchanged.
    fn write(&mut self, frame: &[u8]) -> (r: Result<Vec<u8>, DmxError>)
        ensures
            final(self)@ == old(self)@,
            match r {
                Ok(bytes) => old(self)@.written(frame@) == Some(bytes@),
                Err(e) => old(self)@.written(frame@) is None && e is PortClosed,
            },
    ;

    /// What is kept of the port when it is stored.
    fn record(&self) -> (r: PortRecord)
        ensures
            r@ == self@.record(),
    ;
}

/// A write of a frame shorter than the adapter's minimum to an open adapter
/// port succeeds, and the payload of what is sent is the frame followed by
/// zeros up to that minimum.
pub proof fn lemma_write_pads_short_frame(port: PortModel, frame: Seq<u8>)
    requires
        port.kind == PortKind::Enttec,
        port.state == PortState::Open,
        frame.len() < MIN_UNIVERSE_SIZE,
    ensures
        port.written(frame) is Some,
        payload_of(port.written(frame)->Some_0) == frame + zeros(
            (MIN_UNIVERSE_SIZE - frame.len()) as nat,
        ),
{
    lemma_short_frame_is_padded(frame, MIN_UNIVERSE_SIZE as nat, MAX_UNIVERSE_SIZE as nat);
    lemma_message_layout(normalized(frame, MIN_UNIVERSE_SIZE as nat, MAX_UNIVERSE_SIZE as nat));
}

/// A write of a frame longer than the adapter's maximum to an open adapter
/// port succeeds, and the payload of what is sent is the frame's first
/// channels up to that maximum, so that no channel beyond it is sent.
pub proof fn lemma_write_truncates_long_frame(port: PortModel, frame: Seq<u8>)
    requires
        port.kind == PortKind::Enttec,
        port.state == PortState::Open,
        frame.len() > MAX_UNIVERSE_SIZE,
    ensures
        port.written(frame) is Some,
        payload_of(port.written(frame)->Some_0) == frame.take(MAX_UNIVERSE_SIZE as int),
{
    lemma_long_frame_is_truncated(frame, MIN_UNIVERSE_SIZE as nat, MAX_UNIVERSE_SIZE as nat);
    lemma_message_layout(normalized(frame, MIN_UNIVERSE_SIZE as nat, MAX_UNIVERSE_SIZE as nat));
}

/// A port that is closed, because it was never opened or because it was
/// closed again, gives nothing to send for any frame.
pub proof fn lemma_write_needs_open_port(port: PortModel, frame: Seq<u8>)
    ensures
        port.state == PortState::Closed ==> port.written(frame) is None,
        port.after_close().written(frame) is None,
        port.record().restored().written(frame) is None,
{
}

/// Opening is idempotent. An open port asks for no link when it is opened
/// again and stays as it is; and a port that was opened with success, from
/// whatever state, is such a port.
pub proof fn lemma_open_is_idempotent(port: PortModel)
    ensures
        port.state == PortState::Open ==> port.open_request() is None && port.after_open()
            == port,
        port.after_open().after_connect(true).state == PortState::Open,
        port.after_open().after_connect(true).open_request() is None,
        port.after_open().after_connect(true).after_open() == port.after_open().after_connect(
            true,
        ),
{
}

/// Closing works in every state: it leaves the port closed and what it is
/// otherwise untouched, and closing a closed port changes nothing.
pub proof fn lemma_close_is_safe(port: PortModel)
    ensures
        port.after_close().state == PortState::Closed,
        port.after_close().kind == port.kind,
        port.after_close().name == port.name,
        port.after_close().after_close() == port.after_close(),
        port.state == PortState::Closed ==> port.after_close() == port,
{
}

/// The identity of a port never changes, nor does its kind: opening,
/// connecting and closing leave both as they are.
pub proof fn lemma_identity_is_fixed(port: PortModel, established: bool)
    ensures
        port.after_open().name == port.name,
        port.after_open().kind == port.kind,
        port.after_connect(established).name == port.name,
        port.after_connect(established).kind == port.kind,
        port.after_close().name == port.name,
        port.after_close().kind == port.kind,
{
}

/// Storing and restoring a port keeps its kind and its identity and yields
/// a closed port, whatever the state of the port that was stored.
pub proof fn lemma_restore_keeps_identity(port: PortModel)
    ensures
        port.record().restored().name == port.name,
        port.record().restored().kind == port.kind,
        port.record().restored().state == PortState::Closed,
        port.record().restored() == port.after_close(),
{
}

/// Judges what the link reported of a transmission of `expected` bytes: the
/// number of bytes that it took, or its failure. Only a transmission in full
/// is a success; one cut short and a failure both become a `Serial` error.
pub fn transmitted(expected: usize, outcome: Result<usize, std::io::Error>) -> (r: Result<
    (),
    DmxError,
>)
    ensures
        r is Ok <==> (outcome matches Ok(sent) && sent >= expected),
        r is Err ==> r->Err_0 is Serial,
{
    match outcome {
        Ok(sent) => {
            if sent >= expected {
                Ok(())
            } else {
                Err(DmxError::Serial(short_write_error("failed to write the whole message")))
            }
        },
        Err(e) => Err(DmxError::Serial(serial_error_from_io(e))),
    }
}

} // verus!
