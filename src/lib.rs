//! Decide whether a command-line program should colorize its output.
//!
//! The decision takes into account, from the highest priority to the lowest:
//! the `CLICOLOR_FORCE` environment variable, an explicit preference of the
//! user (for instance a command-line flag), the `CLICOLOR` environment
//! variable, the `NO_COLOR` environment variable, and the default of the
//! application. A variable set to the empty string counts as unset.
//!
//! The library never touches the process environment itself: callers hand it
//! the values they read, which keeps every function here pure.

pub mod choice;
mod outside;
pub mod resolve;
pub mod signals;

pub use choice::ColorChoice;
pub use resolve::{resolve, resolve_all, resolve_or};
pub use signals::{clicolor, clicolor_force, no_color};
