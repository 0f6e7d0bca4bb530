//! An immediate-mode UI state engine: widgets are redeclared on every frame and
//! reconciled against persistent cross-frame interaction state.
pub mod button;
pub mod frame;
pub mod geometry;
pub mod id;
pub mod progress_bar;
pub mod state;
pub mod style;
pub mod text_box;

pub use button::Button;
pub use frame::{DrawCommand, Glui, GluiFrame, KeyHandler};
pub use geometry::{Point, Rect, Size};
pub use id::{make_id, Id};
pub use progress_bar::ProgressBar;
pub use state::{ButtonState, GluiState, Key, KeyEvent, Modifiers};
pub use style::{BorderStyle, Color, Style};
pub use text_box::{TextBox, TextBoxState};
