//! Packages and their pins.

use vstd::prelude::*;

verus! {

/// The pins of one package.
#[derive(Debug, Clone)]
pub struct Pinout {
    pub name: String,
    pub caption: Option<String>,
    pub pins: Vec<Pin>,
}

/// One pin of a package and the pad it leads to.
#[derive(Debug, Clone)]
pub struct Pin {
    pub position: String,
    pub pad: String,
}

} // verus!
