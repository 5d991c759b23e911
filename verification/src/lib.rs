//! A line-oriented text-output library: it renders the lines of one or more
//! inputs for display, optionally prefixing each line with a 1-based line
//! number, either for every line or only for non-blank lines.
//!
//! The library is split in two stages: `args` turns a raw command line into a
//! validated [`Config`], and `render` turns a file's lines into the output
//! lines that the configuration calls for. Callers do the reading and the
//! writing; everything that decides what the output looks like lives here.
use vstd::prelude::*;

pub mod args;
pub mod numfmt;
pub mod render;
mod strutil;

verus! {

/// A validated invocation: which inputs to read, in order, and which
/// numbering mode to apply. `"-"` among `files` stands for standard input.
/// At most one of the two numbering flags is set.
#[derive(Debug)]
pub struct Config {
    /// The inputs to read, in order; never empty.
    pub files: Vec<String>,
    /// Number every output line.
    pub number_lines: bool,
    /// Number only non-blank output lines; blank lines pass through bare.
    pub number_nonblank_lines: bool,
}

impl Config {
    /// A well-formed configuration names at least one input and sets at most
    /// one of the two numbering flags.
    pub open spec fn wf(self) -> bool {
        &&& !(self.number_lines && self.number_nonblank_lines)
        &&& self.files@.len() >= 1
    }
}

} // verus!
