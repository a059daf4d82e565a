//! The radix in which a disassembly comment is shown.

use vstd::prelude::*;

verus! {

/// The radix in which the comment of an instruction is shown.
#[derive(Clone, Copy, Debug, PartialEq, Eq, Structural)]
pub enum Display {
    /// No radix chosen: the comment is not shown as a number.
    Unset,
    Bin,
    Dec,
    Oct,
    Hex,
    String,
}

} // verus!
