//! Entries that the directory server hands to a plugin.

use vstd::prelude::*;

verus! {

/// An entry that has been retrieved from a backend as part of an operation.
/// The bridge knows an entry only by the address under which the directory
/// server keeps it.
#[derive(Debug, Clone, Copy, PartialEq, Eq, Structural)]
#[allow(non_camel_case_types)]
pub struct Slapi_R_Entry {
    slapi_entry: usize,
}

impl Slapi_R_Entry {
    /// The address of the entry in the directory server.
    pub closed spec fn address(self) -> usize {
        self.slapi_entry
    }

    /// The entry that the directory server keeps at `slapi_entry`.
    pub fn new(slapi_entry: usize) -> (entry: Slapi_R_Entry)
        ensures
            entry.address() == slapi_entry,
    {
        Slapi_R_Entry { slapi_entry }
    }
}

} // verus!
