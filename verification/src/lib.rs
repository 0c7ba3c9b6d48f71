//! A minimal connection-handling core for a tiny concurrent web server.
//!
//! The library is split along the seams of the system it models:
//! - [`router`] decides, from one request line, which status line, payload
//!   and delay a connection gets;
//! - [`response`] assembles the wire response and guarantees that its
//!   `Content-Length` header names the exact byte length of the body;
//! - [`stream`] gives the transport-agnostic request/response contract and
//!   [`handle_stream`], the whole per-connection unit of work;
//! - [`supervisor`] is the bounded accept-loop state machine that spawns one
//!   task per accepted connection and joins them all before shutdown;
//! - [`doubles`] holds verified in-memory stand-ins for the capabilities,
//!   so the core can be exercised without sockets, files or clocks.
//!
//! All I/O (sockets, the filesystem, real clocks) stays with the caller,
//! behind the capability traits of [`stream`].

pub mod doubles;
pub mod response;
pub mod router;
pub mod stream;
pub mod supervisor;

pub use doubles::FailingStore;
pub use doubles::MemoryStore;
pub use doubles::RecordingDelay;
pub use doubles::ScriptedStream;
pub use response::build_response;
pub use router::route;
pub use router::Route;
pub use stream::handle_stream;
pub use stream::Delay;
pub use stream::IoErrorKind;
pub use stream::PayloadSource;
pub use stream::StreamAdapter;
pub use supervisor::Phase;
pub use supervisor::Supervisor;
