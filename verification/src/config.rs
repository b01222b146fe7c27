//! The data configuration shared by client and server: the length of each
//! data identifier's value and of each extended DTC data record.
use std::collections::HashMap;
use vstd::prelude::*;

verus! {

/// Lengths that the two sides agree on.
#[derive(Debug, Clone)]
pub struct Configuration {
    /// The length of the value of each data identifier.
    pub did: HashMap<u16, usize>,
    /// The length of each extended DTC data record, by record number.
    pub dtc: HashMap<u8, usize>,
}

impl Configuration {
    /// A configuration with no data identifier and no extended record.
    pub fn new() -> (c: Configuration)
        ensures
            c.did@ == Map::<u16, usize>::empty(),
            c.dtc@ == Map::<u8, usize>::empty(),
    {
        Configuration { did: HashMap::new(), dtc: HashMap::new() }
    }
}

} // verus!
