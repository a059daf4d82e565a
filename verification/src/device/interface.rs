//! Programming and debug interfaces.

use vstd::prelude::*;

verus! {

/// One programming or debug interface of a device.
#[derive(Debug, Clone)]
pub struct Interface {
    pub name: String,
    pub data_type: String,
}

} // verus!
