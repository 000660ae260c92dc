//! A buffered logger that defers disk writes.
//!
//! Log records are kept in a fixed-capacity circular buffer of rendered
//! lines and are only written out when a record severe enough arrives, or
//! when every sending handle has been dropped. The buffer, the sink it
//! writes to, and the worker that drives them are verified; the pieces
//! that touch the file system and the worker thread live outside this
//! crate's verified core.

pub mod buffer;
pub mod builder;
pub mod channel;
pub mod level;
pub mod receiver;
pub mod record;
pub mod sender;
pub mod sink;

pub use builder::build_logger;
pub use level::Level;
pub use receiver::BufferSize;
pub use sender::LogSender;
