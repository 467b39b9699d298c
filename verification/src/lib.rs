//! A blocking socket access layer with the input and output taken out.
//!
//! The library holds the two handles, a connected stream socket and a bound
//! datagram socket, and decides what each of their operations returns. It
//! makes no call on the operating system itself. The driver around it owns
//! nothing but the loop: it makes each blocking call that an operation asks
//! for and reports what the call came back with, the number of bytes moved
//! or the message of the failure.
//!
//! Every failure is an [`error::Error`] with a kind to branch on; none is
//! ever told by a count.

pub mod datagram;
pub mod error;
pub mod gather;
pub mod stream;
mod text;
pub mod transfer;

pub use crate::datagram::{bind, UdpSocket};
pub use crate::error::{Error, ErrorKind};
pub use crate::stream::{connect, TcpStream};
pub use crate::transfer::{Outcome, Step};
