//! A highly available IRC client core: the rules that decide what a
//! connection does when it is written to, dropped, closed or reconnected.
//!
//! The verified part holds the connection status machine, the reconnection
//! loop of the reader and the connection settings. Sockets, TLS, text codecs,
//! threads and channels are driven around it by the application layer.

pub mod error;
pub mod status;
pub mod settings;
pub mod reader;
pub mod trace;

pub use error::ConnectionError;
pub use reader::{CloseReason, Command, Notice, Phase, ReaderLoop};
pub use settings::{ConnectionBuilder, ReconnectionSettings};
pub use status::{Link, Refusal, StreamStatus};
