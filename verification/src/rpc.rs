//! Messages of the RPC protocol, and their framing on a stream of bytes.

pub mod laws;
pub mod message;
pub mod reader;
pub mod writer;

pub use message::{Message, MessageView, Notification, Request, Response};
pub use reader::RpcReader;
pub use writer::RpcWriter;


