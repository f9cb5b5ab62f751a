//! Runtime-loaded proxies for a native video-codec command-queue API.
//!
//! The native driver exposes its video extensions as named entry points that
//! are located at runtime rather than linked at build time.  Each proxy type
//! here resolves the entry points of one extension family through a symbol
//! resolver supplied by the owning context, stores them in an immutable
//! function table, and forwards typed operations to the resolved addresses.
//!
//! The driver itself is modelled by [`driver::StubDriver`], a verified stand-in
//! that records every resolution and every forwarded call, so that the
//! contracts can state exactly which entry points a proxy invokes, in which
//! order, and with which arguments.

pub mod driver;
pub mod handles;
pub mod laws;
pub mod status;
pub mod symbols;
pub mod table;
pub mod video_decode_queue;
pub mod video_encode_queue;
pub mod video_queue;

pub use driver::CallRecord;
pub use driver::StubDriver;
pub use handles::Device;
pub use handles::Instance;
pub use status::QueryError;
pub use status::Status;
pub use table::FunctionTable;
pub use video_decode_queue::VideoDecodeQueue;
pub use video_encode_queue::VideoEncodeQueue;
pub use video_queue::VideoQueue;
