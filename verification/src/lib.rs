//! The decision logic of a small status bar for the sway window manager:
//! where the bar sits, how its sections are filled, which sway events reach
//! which module, what the title and workspace modules show, what the clock
//! reads and when it next ticks, and how bars follow monitors.

pub mod bar;
pub mod modules;
pub mod output;
