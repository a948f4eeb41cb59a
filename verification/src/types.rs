//! The typed form of what the editor sends.

pub mod color;
pub mod fields;
pub mod laws;
pub mod redraw;
pub mod uievents;
pub mod window;

pub use color::{Color, HlAttr};
pub use fields::Decode;
pub use redraw::{decode_redraw_params, DecodeError, EventKind, UiEvent};
pub use uievents::PopupmenuItem;
pub use window::Window;
