//! A split-process text editor core: a one-slot shared-memory mailbox
//! transport, the messages it carries, and the document engine that answers
//! editing operations with draw commands.

pub mod message;
pub mod mailbox;
pub mod lines;
pub mod rope;
pub mod document;
pub mod line_cache;
pub mod channel;
pub mod engine;
pub mod front_end;

pub use channel::ChannelPair;
pub use document::Document;
pub use line_cache::LineCache;
pub use mailbox::Mailbox;
pub use message::{ChannelUnavailable, DecodeFailed, DrawCommand, Op, PayloadTooLarge};
