//! Interrupt vectors.

use vstd::prelude::*;

verus! {

/// One interrupt vector.
#[derive(Debug, Clone)]
pub struct Interrupt {
    pub index: i64,
    pub name: String,
    pub caption: Option<String>,
}

} // verus!
