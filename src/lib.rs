//! Raw ICMP sockets: address marshaling, the socket-option table and
//! system-call outcome handling, with the handle state owned by [`Socket`].
pub mod addr;
pub mod compat;
pub mod error;
pub mod opts;
pub mod platform;
pub mod socket;

pub use addr::IpAddr;
pub use error::{Error, ErrorKind};
pub use opts::{Duration, TimeVal};
pub use platform::{AddressFamily, LogicalOption, OptionCode, Os, Platform};
pub use socket::Socket;
