//! DMX512 lighting output over interchangeable ports.
//!
//! The crate holds the rules that every port obeys: how a frame of channel
//! values is brought to the size a transport supports, how the hardware
//! adapter's messages are laid out, and how a port moves between closed and
//! open. It performs no input or output itself.

pub mod enttec;
pub mod error;
pub mod frame;
pub mod offline;
pub mod port;
pub mod registry;
pub mod select;

pub use enttec::EnttecDmxPort;
pub use error::DmxError;
pub use offline::OfflineDmxPort;
pub use port::{DmxPort, PortState};
pub use registry::{available_ports, Port, PortListing};
pub use select::select_port;
