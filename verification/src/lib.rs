//! A small leveled logger, split into a verified core and a thin shell.
//!
//! The core decides everything that can be decided from plain values: how a
//! severity is labelled and coloured, what a rendered line looks like, which
//! destinations a line goes to, and when a log file is cleared before the
//! next line is appended. It never touches a file or the terminal itself;
//! it hands back descriptions of the work, and whoever owns the file handle
//! carries them out.

pub mod clock;
pub mod level;
pub mod rotation;
pub mod sink;
pub mod text;

pub use level::Level;
pub use rotation::{OpenFlags, OpenRequest, WriteStep};
pub use sink::{Dispatch, FileJob, UniLog};
