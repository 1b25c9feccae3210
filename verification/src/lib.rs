//! Verified core of a status-indicator firmware: the colour cycle of the
//! indicator, the time base and blocking delays, and the USB echo session.

pub mod color;
pub mod delay;
pub mod echo;
pub mod indicator;
pub mod indicator_run;
pub mod overflow;
pub mod time;

pub use color::Color;
pub use color::Level;
pub use color::Line;
