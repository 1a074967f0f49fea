pub mod buttonlist;
pub mod commandline;
pub mod pianoroll;
pub mod splitselect;
pub mod theme;
