//! Backlight brightness control: the state of a brightness widget, the
//! transitions that its input events cause, and the text that the widget and
//! the command line show.
pub mod error;
pub mod percent;
pub mod reading;
pub mod report;
pub mod state;
pub mod text;
