//! Handlers that turn user input into edits and camera commands.

pub mod rotate;
pub mod scroll;
pub mod text_editor;
pub mod zoom;

pub use self::rotate::{RotateHandler, RotateInput};
pub use self::scroll::Scroller;
pub use self::text_editor::{EditKey, TextEditor};
pub use self::zoom::{Zoom, ZoomHandler, ZoomInput};
