//! Core logic of the floating result windows that show what a text backend
//! made of a screen capture: where a window goes, its buttons, the font size
//! of its text, the animated cursor and its particles, pointer dragging and
//! resizing, the refinement workflow with undo, throttled text updates, and the
//! registry that owns every live window's state and links window pairs.
//!
//! Around it: the model table, the settings and history data, and the
//! decisions of the capture pipeline that opens the windows.

pub mod geometry;
pub mod layout;
pub mod placement;
pub mod font_fit;
pub mod physics;
pub mod text_state;
pub mod interaction;
pub mod window;
pub mod registry;
pub mod pixels;
pub mod messages;
pub mod pipeline;
pub mod prompt;
pub mod model_config;
pub mod languages;
pub mod config;
pub mod history;
pub mod api_types;
