//! Battery status lines for a status bar.
//!
//! A device source reports battery-equipped devices; this library decides
//! which of them are shown, what is shown for each, and when the display is
//! refreshed. It does no input or output of its own: whoever uses it asks
//! the device source, writes the lines out and waits, as the library says.
//!
//! - [`kind`]: the kinds of device, their codes and their names.
//! - [`kind_set`]: the set of kinds that the user wants to see, read from a
//!   comma-separated list.
//! - [`help`]: the help text that lists the names of all kinds.
//! - [`percentage`] and [`output`]: a charge, and the line that shows it.
//! - [`config`]: the settings of a run.
//! - [`cycle`]: one look at all devices.
//! - [`event_loop`]: when to look again, and when to stop.
//! - [`text`]: characters, trimming and splitting.

pub mod config;
pub mod cycle;
pub mod event_loop;
pub mod help;
pub mod kind;
pub mod kind_set;
pub mod output;
pub mod percentage;
pub mod text;
