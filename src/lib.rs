//! Core of a modal terminal editor: key resolution, window layout and popups.

mod text;
pub mod input;
pub mod layout;
pub mod window;
pub mod widgets;
pub mod editor;
