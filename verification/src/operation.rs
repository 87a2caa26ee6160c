//! The operation that the directory server is processing when it calls a
//! plugin.

use vstd::prelude::*;

verus! {

/// The operation that the current call belongs to, as far as a plugin looks
/// at it: where the operation came from.
#[derive(Debug, Clone, Copy, PartialEq, Eq, Structural)]
#[allow(non_camel_case_types)]
pub struct Slapi_R_Operation {
    replicated: bool,
    internal: bool,
}

impl Slapi_R_Operation {
    /// Whether the operation was flagged as replicated.
    pub closed spec fn replicated(self) -> bool {
        self.replicated
    }

    /// Whether the operation was flagged as internal.
    pub closed spec fn internal(self) -> bool {
        self.internal
    }

    /// An operation with the given flags: `replicated` for one that
    /// arrived through replication, `internal` for one that the server or
    /// a plugin made itself.
    pub fn new(replicated: bool, internal: bool) -> (operation: Slapi_R_Operation)
        ensures
            operation.replicated() == replicated,
            operation.internal() == internal,
    {
        Slapi_R_Operation { replicated, internal }
    }

    /// Whether the operation arrived through replication.
    pub fn is_replicated(&self) -> (flag: bool)
        ensures
            flag == self.replicated(),
    {
        self.replicated
    }

    /// Whether the server or a plugin made the operation itself.
    pub fn is_internal(&self) -> (flag: bool)
        ensures
            flag == self.internal(),
    {
        self.internal
    }
}

} // verus!
