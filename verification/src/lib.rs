//! Client side of the msgpack-rpc protocol spoken by an embedded Neovim.
//!
//! The crate frames and parses wire messages, correlates responses with the
//! calls that caused them, and turns `redraw` notifications into typed UI
//! events. All transport I/O is left to the embedding application: the
//! library consumes and produces plain bytes.

pub mod api;
pub mod client;
pub mod error;
pub mod input;
pub mod into_value;
pub mod rpc;
pub mod types;
pub mod ui;
pub mod value;
pub mod wire;

pub use api::UiOptions;
pub use client::{Client, Completion, Rejected};
pub use error::{CallError, CodecError, CorrelationError, DecodeError, HandleError};
pub use into_value::IntoValue;
pub use rpc::{Message, Notification, Request, Response, RpcReader, RpcWriter};
pub use types::{decode_redraw_params, UiEvent};
pub use value::Value;
