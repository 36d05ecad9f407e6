//! Turns the `INSERT` statements of a wiki database dump into delimited text,
//! one line per row, for five known tables.

pub mod command;
pub mod value;
pub mod record;
pub mod emit;
pub mod locate;
pub mod scan;
pub mod extract;
pub mod readback;
