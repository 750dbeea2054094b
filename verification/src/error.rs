//! The ways in which a directive can be wrong.

use vstd::prelude::*;

verus! {

/// Why a directive was refused. Any of these ends the expansion of the
/// whole text: nothing is rendered in part.
#[derive(Clone, Copy, Debug, PartialEq, Eq)]
pub enum DirectiveError {
    /// The arguments do not follow the directive's grammar, or a line number
    /// or a length among them is too large for this machine. Also given
    /// where the matcher does not accept the grammar itself.
    Malformed,
    /// A step is neither empty, nor a number, nor a number with a dot and
    /// one capital letter, or its number does not fit in 64 bits.
    InvalidStep,
    /// A manual section has more than three dots.
    InvalidSectionDepth,
    /// An API documentation link names a configuration that does not exist.
    UnknownConfig,
    /// A line range has an end and no start.
    EndWithoutStart,
    /// A link asks to show its step, and the step is the start.
    StartShown,
}

} // verus!
