//! The constants that the directory server defines for its plugins: status
//! codes, the identifiers of the parameter block's slots, API versions and
//! log levels.

use vstd::prelude::*;

verus! {

/// A successful operation. Most directory server functions expect this.
pub const LDAP_SUCCESS: isize = 0;

/// Slot of the next entry of an entry result list.
pub const SLAPI_SEARCH_RESULT_ENTRY: isize = 194;
/// Slot of the close function of a plugin.
pub const SLAPI_PLUGIN_CLOSE_FN: isize = 210;
/// Slot of the start function of a plugin.
pub const SLAPI_PLUGIN_START_FN: isize = 212;
/// Slot of the callback that runs before a BIND operation.
pub const SLAPI_PLUGIN_PRE_BIND_FN: isize = 401;
/// Slot of the callback that runs before an UNBIND operation.
pub const SLAPI_PLUGIN_PRE_UNBIND_FN: isize = 402;
/// Slot of the callback that runs before a SEARCH operation.
pub const SLAPI_PLUGIN_PRE_SEARCH_FN: isize = 403;
/// Slot of the callback that runs before a COMPARE operation.
pub const SLAPI_PLUGIN_PRE_COMPARE_FN: isize = 404;
/// Slot of the callback that runs before a MODIFY operation.
pub const SLAPI_PLUGIN_PRE_MODIFY_FN: isize = 405;
/// Slot of the callback that runs before a MODRDN operation.
pub const SLAPI_PLUGIN_PRE_MODRDN_FN: isize = 406;
/// Slot of the callback that runs before an ADD operation.
pub const SLAPI_PLUGIN_PRE_ADD_FN: isize = 407;
/// Slot of the callback that runs before a DELETE operation.
pub const SLAPI_PLUGIN_PRE_DELETE_FN: isize = 408;
/// Slot of the callback that runs before an ABANDON operation.
pub const SLAPI_PLUGIN_PRE_ABANDON_FN: isize = 409;
/// Slot of the callback that runs before an entry is sent.
pub const SLAPI_PLUGIN_PRE_ENTRY_FN: isize = 410;
/// Slot of the callback that runs before a referral is sent.
pub const SLAPI_PLUGIN_PRE_REFERAL_FN: isize = 411;
/// Slot of the callback that runs before a result is sent.
pub const SLAPI_PLUGIN_PRE_RESULT_FN: isize = 412;
/// Slot of the callback that runs before an extended operation.
pub const SLAPI_PLUGIN_PRE_EXTOP_FN: isize = 413;
/// Slot of the backend transaction callback before an add.
pub const SLAPI_PLUGIN_BE_TXN_PRE_ADD_FN: isize = 460;
/// Slot of the backend transaction callback before a modify.
pub const SLAPI_PLUGIN_BE_TXN_PRE_MODIFY_FN: isize = 461;
/// Slot of the backend transaction callback before a modrdn.
pub const SLAPI_PLUGIN_BE_TXN_PRE_MODRDN_FN: isize = 462;
/// Slot of the backend transaction callback before a delete.
pub const SLAPI_PLUGIN_BE_TXN_PRE_DELETE_FN: isize = 463;
/// Slot of the backend transaction callback before a tombstone is deleted.
pub const SLAPI_PLUGIN_BE_TXN_PRE_DELETE_TOMBSTONE_FN: isize = 464;
/// Slot of the callback that runs after a SEARCH operation.
pub const SLAPI_PLUGIN_POST_SEARCH_FN: isize = 503;
/// Slot of the backend transaction callback after an add.
pub const SLAPI_PLUGIN_BE_TXN_POST_ADD_FN: isize = 560;
/// Slot of the backend transaction callback after a modify.
pub const SLAPI_PLUGIN_BE_TXN_POST_MODIFY_FN: isize = 561;
/// Slot of the backend transaction callback after a modrdn.
pub const SLAPI_PLUGIN_BE_TXN_POST_MODRDN_FN: isize = 562;
/// Slot of the backend transaction callback after a delete.
pub const SLAPI_PLUGIN_BE_TXN_POST_DELETE_FN: isize = 563;

/// Slot of the plugin's private data.
pub const SLAPI_PLUGIN_PRIVATE: isize = 4;
/// Slot of the plugin type.
pub const SLAPI_PLUGIN_TYPE: isize = 5;
/// Slot of the plugin API version.
pub const SLAPI_PLUGIN_VERSION: isize = 8;
/// Slot of the return code of the plugin's last operation.
pub const SLAPI_PLUGIN_OPRETURN: isize = 9;
/// Slot of the plugin's description.
pub const SLAPI_PLUGIN_DESCRIPTION: isize = 12;

/// Plugin API versions that can be used for a plugin.
/// You should in most cases use version _03
#[derive(Debug, Clone, Copy, PartialEq, Eq, Structural)]
pub enum PluginVersion {
    /// Version 00. Do not use.
    _00,
    /// Version 01.
    _01,
    /// Version 02.
    _02,
    /// Version 03.
    _03,
}

impl PluginVersion {
    /// The number that the directory server knows this version by.
    pub open spec fn code(self) -> int {
        match self {
            PluginVersion::_00 => 0,
            PluginVersion::_01 => 1,
            PluginVersion::_02 => 2,
            PluginVersion::_03 => 3,
        }
    }

    /// The number that is written into the version slot for this version.
    pub fn as_isize(self) -> (code: isize)
        ensures
            code == self.code(),
            0 <= code <= 3,
    {
        match self {
            PluginVersion::_00 => 0,
            PluginVersion::_01 => 1,
            PluginVersion::_02 => 2,
            PluginVersion::_03 => 3,
        }
    }
}

/// Error logging levels that may be used. This is controlled by -d on the
/// ns-slapd commandline.
#[derive(Debug, Clone, Copy, PartialEq, Eq, Structural)]
pub enum LogLevel {
    /// Always log messages at this level.
    FATAL,
    /// Log detailed messages.
    TRACE,
    /// Log packet tracing.
    PACKETS,
    /// Log argument tracing.
    ARGS,
    /// Log connection tracking.
    CONNS,
    /// Log BER parsing.
    BER,
    /// Log filter processing.
    FILTER,
    /// Log configuration processing.
    CONFIG,
    /// Log access control list processing.
    SHELL,
    /// Log parsing.
    PARSE,
    /// Log housekeeping.
    HOUSE,
    /// Log detailed replication information.
    REPL,
    /// Log cache management.
    CACHE,
    /// Log detailed plugin operations.
    PLUGIN,
    /// Log timing.
    TIMING,
    /// Log backend infomation.
    BACKLDBM,
    /// Log ACL processing.
    ACLSUMMARY,
    /// Log nuncstans processing.
    NUNCSTANS,
    /// Emergency messages. Server is bursting into flame.
    EMERG,
    /// Important alerts, server may explode soon.
    ALERT,
    /// Critical messages, but the server isn't going to explode. Admin should intervene.
    CRIT,
    /// Error has occured, but we can keep going. Could indicate misconfiguration.
    ERR,
    /// Warning about an issue that isn't very important. Good to resolve though.
    WARNING,
    /// Inform the admin of something that they should know about, IE server is running now.
    NOTICE,
    /// Informational messages that are nice to know.
    INFO,
    /// Debugging information from the server.
    DEBUG,
}

impl LogLevel {
    /// The severity number of this level: its place in the enumeration,
    /// counted from zero.
    pub open spec fn code(self) -> int {
        match self {
            LogLevel::FATAL => 0,
            LogLevel::TRACE => 1,
            LogLevel::PACKETS => 2,
            LogLevel::ARGS => 3,
            LogLevel::CONNS => 4,
            LogLevel::BER => 5,
            LogLevel::FILTER => 6,
            LogLevel::CONFIG => 7,
            LogLevel::SHELL => 8,
            LogLevel::PARSE => 9,
            LogLevel::HOUSE => 10,
            LogLevel::REPL => 11,
            LogLevel::CACHE => 12,
            LogLevel::PLUGIN => 13,
            LogLevel::TIMING => 14,
            LogLevel::BACKLDBM => 15,
            LogLevel::ACLSUMMARY => 16,
            LogLevel::NUNCSTANS => 17,
            LogLevel::EMERG => 18,
            LogLevel::ALERT => 19,
            LogLevel::CRIT => 20,
            LogLevel::ERR => 21,
            LogLevel::WARNING => 22,
            LogLevel::NOTICE => 23,
            LogLevel::INFO => 24,
            LogLevel::DEBUG => 25,
        }
    }

    /// The severity number that the logging call is given for this level.
    pub fn as_isize(self) -> (code: isize)
        ensures
            code == self.code(),
            0 <= code <= 25,
    {
        match self {
            LogLevel::FATAL => 0,
            LogLevel::TRACE => 1,
            LogLevel::PACKETS => 2,
            LogLevel::ARGS => 3,
            LogLevel::CONNS => 4,
            LogLevel::BER => 5,
            LogLevel::FILTER => 6,
            LogLevel::CONFIG => 7,
            LogLevel::SHELL => 8,
            LogLevel::PARSE => 9,
            LogLevel::HOUSE => 10,
            LogLevel::REPL => 11,
            LogLevel::CACHE => 12,
            LogLevel::PLUGIN => 13,
            LogLevel::TIMING => 14,
            LogLevel::BACKLDBM => 15,
            LogLevel::ACLSUMMARY => 16,
            LogLevel::NUNCSTANS => 17,
            LogLevel::EMERG => 18,
            LogLevel::ALERT => 19,
            LogLevel::CRIT => 20,
            LogLevel::ERR => 21,
            LogLevel::WARNING => 22,
            LogLevel::NOTICE => 23,
            LogLevel::INFO => 24,
            LogLevel::DEBUG => 25,
        }
    }
}

/// The operations of the directory server that a plugin can handle. Each
/// has one callback, and one slot in which that callback is installed.
#[derive(Debug, Clone, Copy, PartialEq, Eq, Structural)]
pub enum OperationKind {
    /// The plugin starts.
    Start,
    /// The plugin closes down.
    Close,
    /// After a SEARCH.
    PostSearch,
    /// Before a BIND.
    PreBind,
    /// Before an UNBIND.
    PreUnbind,
    /// Before a SEARCH.
    PreSearch,
    /// Before a COMPARE.
    PreCompare,
    /// Before a MODIFY.
    PreModify,
    /// Before a MODRDN.
    PreModrdn,
    /// Before an ADD.
    PreAdd,
    /// Before a DELETE.
    PreDelete,
    /// Before an ABANDON.
    PreAbandon,
    /// Before an entry is sent.
    PreEntry,
    /// Before a referral is sent.
    PreReferral,
    /// Before a result is sent.
    PreResult,
    /// Before an extended operation.
    PreExtendedOp,
}

impl OperationKind {
    /// The slot in which the callback of this operation is installed.
    pub open spec fn slot_id(self) -> isize {
        match self {
            OperationKind::Start => SLAPI_PLUGIN_START_FN,
            OperationKind::Close => SLAPI_PLUGIN_CLOSE_FN,
            OperationKind::PostSearch => SLAPI_PLUGIN_POST_SEARCH_FN,
            OperationKind::PreBind => SLAPI_PLUGIN_PRE_BIND_FN,
            OperationKind::PreUnbind => SLAPI_PLUGIN_PRE_UNBIND_FN,
            OperationKind::PreSearch => SLAPI_PLUGIN_PRE_SEARCH_FN,
            OperationKind::PreCompare => SLAPI_PLUGIN_PRE_COMPARE_FN,
            OperationKind::PreModify => SLAPI_PLUGIN_PRE_MODIFY_FN,
            OperationKind::PreModrdn => SLAPI_PLUGIN_PRE_MODRDN_FN,
            OperationKind::PreAdd => SLAPI_PLUGIN_PRE_ADD_FN,
            OperationKind::PreDelete => SLAPI_PLUGIN_PRE_DELETE_FN,
            OperationKind::PreAbandon => SLAPI_PLUGIN_PRE_ABANDON_FN,
            OperationKind::PreEntry => SLAPI_PLUGIN_PRE_ENTRY_FN,
            OperationKind::PreReferral => SLAPI_PLUGIN_PRE_REFERAL_FN,
            OperationKind::PreResult => SLAPI_PLUGIN_PRE_RESULT_FN,
            OperationKind::PreExtendedOp => SLAPI_PLUGIN_PRE_EXTOP_FN,
        }
    }

    /// The operation whose callback belongs in `slot`, if there is one.
    pub open spec fn of_slot(slot: isize) -> Option<OperationKind> {
        if slot == SLAPI_PLUGIN_START_FN {
            Some(OperationKind::Start)
        } else if slot == SLAPI_PLUGIN_CLOSE_FN {
            Some(OperationKind::Close)
        } else if slot == SLAPI_PLUGIN_POST_SEARCH_FN {
            Some(OperationKind::PostSearch)
        } else if SLAPI_PLUGIN_PRE_BIND_FN <= slot <= SLAPI_PLUGIN_PRE_EXTOP_FN {
            Some(
                if slot == SLAPI_PLUGIN_PRE_BIND_FN {
                    OperationKind::PreBind
                } else if slot == SLAPI_PLUGIN_PRE_UNBIND_FN {
                    OperationKind::PreUnbind
                } else if slot == SLAPI_PLUGIN_PRE_SEARCH_FN {
                    OperationKind::PreSearch
                } else if slot == SLAPI_PLUGIN_PRE_COMPARE_FN {
                    OperationKind::PreCompare
                } else if slot == SLAPI_PLUGIN_PRE_MODIFY_FN {
                    OperationKind::PreModify
                } else if slot == SLAPI_PLUGIN_PRE_MODRDN_FN {
                    OperationKind::PreModrdn
                } else if slot == SLAPI_PLUGIN_PRE_ADD_FN {
                    OperationKind::PreAdd
                } else if slot == SLAPI_PLUGIN_PRE_DELETE_FN {
                    OperationKind::PreDelete
                } else if slot == SLAPI_PLUGIN_PRE_ABANDON_FN {
                    OperationKind::PreAbandon
                } else if slot == SLAPI_PLUGIN_PRE_ENTRY_FN {
                    OperationKind::PreEntry
                } else if slot == SLAPI_PLUGIN_PRE_REFERAL_FN {
                    OperationKind::PreReferral
                } else if slot == SLAPI_PLUGIN_PRE_RESULT_FN {
                    OperationKind::PreResult
                } else {
                    OperationKind::PreExtendedOp
                },
            )
        } else {
            None
        }
    }

    /// Whether this is one of the two events of the plugin's own life,
    /// its start and its close, and no operation that a client or the
    /// server asked for.
    pub open spec fn lifecycle(self) -> bool {
        self == OperationKind::Start || self == OperationKind::Close
    }

    /// Whether this is the plugin's start or close. The block of such a
    /// call belongs to no operation.
    pub fn is_lifecycle(self) -> (lifecycle: bool)
        ensures
            lifecycle == self.lifecycle(),
    {
        match self {
            OperationKind::Start => true,
            OperationKind::Close => true,
            _ => false,
        }
    }

    /// The slot in which the callback of this operation is installed.
    pub fn slot(self) -> (slot: isize)
        ensures
            slot == self.slot_id(),
            OperationKind::of_slot(slot) == Some(self),
    {
        match self {
            OperationKind::Start => SLAPI_PLUGIN_START_FN,
            OperationKind::Close => SLAPI_PLUGIN_CLOSE_FN,
            OperationKind::PostSearch => SLAPI_PLUGIN_POST_SEARCH_FN,
            OperationKind::PreBind => SLAPI_PLUGIN_PRE_BIND_FN,
            OperationKind::PreUnbind => SLAPI_PLUGIN_PRE_UNBIND_FN,
            OperationKind::PreSearch => SLAPI_PLUGIN_PRE_SEARCH_FN,
            OperationKind::PreCompare => SLAPI_PLUGIN_PRE_COMPARE_FN,
            OperationKind::PreModify => SLAPI_PLUGIN_PRE_MODIFY_FN,
            OperationKind::PreModrdn => SLAPI_PLUGIN_PRE_MODRDN_FN,
            OperationKind::PreAdd => SLAPI_PLUGIN_PRE_ADD_FN,
            OperationKind::PreDelete => SLAPI_PLUGIN_PRE_DELETE_FN,
            OperationKind::PreAbandon => SLAPI_PLUGIN_PRE_ABANDON_FN,
            OperationKind::PreEntry => SLAPI_PLUGIN_PRE_ENTRY_FN,
            OperationKind::PreReferral => SLAPI_PLUGIN_PRE_REFERAL_FN,
            OperationKind::PreResult => SLAPI_PLUGIN_PRE_RESULT_FN,
            OperationKind::PreExtendedOp => SLAPI_PLUGIN_PRE_EXTOP_FN,
        }
    }

    /// The operation whose callback belongs in `slot`: the inverse of
    /// [`OperationKind::slot`].
    pub fn from_slot(slot: isize) -> (kind: Option<OperationKind>)
        ensures
            kind == OperationKind::of_slot(slot),
            kind matches Some(k) ==> k.slot_id() == slot,
            kind is None ==> forall|k: OperationKind| k.slot_id() != slot,
    {
        if slot == SLAPI_PLUGIN_START_FN {
            Some(OperationKind::Start)
        } else if slot == SLAPI_PLUGIN_CLOSE_FN {
            Some(OperationKind::Close)
        } else if slot == SLAPI_PLUGIN_POST_SEARCH_FN {
            Some(OperationKind::PostSearch)
        } else if slot == SLAPI_PLUGIN_PRE_BIND_FN {
            Some(OperationKind::PreBind)
        } else if slot == SLAPI_PLUGIN_PRE_UNBIND_FN {
            Some(OperationKind::PreUnbind)
        } else if slot == SLAPI_PLUGIN_PRE_SEARCH_FN {
            Some(OperationKind::PreSearch)
        } else if slot == SLAPI_PLUGIN_PRE_COMPARE_FN {
            Some(OperationKind::PreCompare)
        } else if slot == SLAPI_PLUGIN_PRE_MODIFY_FN {
            Some(OperationKind::PreModify)
        } else if slot == SLAPI_PLUGIN_PRE_MODRDN_FN {
            Some(OperationKind::PreModrdn)
        } else if slot == SLAPI_PLUGIN_PRE_ADD_FN {
            Some(OperationKind::PreAdd)
        } else if slot == SLAPI_PLUGIN_PRE_DELETE_FN {
            Some(OperationKind::PreDelete)
        } else if slot == SLAPI_PLUGIN_PRE_ABANDON_FN {
            Some(OperationKind::PreAbandon)
        } else if slot == SLAPI_PLUGIN_PRE_ENTRY_FN {
            Some(OperationKind::PreEntry)
        } else if slot == SLAPI_PLUGIN_PRE_REFERAL_FN {
            Some(OperationKind::PreReferral)
        } else if slot == SLAPI_PLUGIN_PRE_RESULT_FN {
            Some(OperationKind::PreResult)
        } else if slot == SLAPI_PLUGIN_PRE_EXTOP_FN {
            Some(OperationKind::PreExtendedOp)
        } else {
            None
        }
    }
}

/// No two operations share a slot: an operation is found again from its
/// slot, and a slot that belongs to an operation is that operation's own.
pub proof fn lemma_slot_is_one_to_one(a: OperationKind, b: OperationKind)
    ensures
        OperationKind::of_slot(a.slot_id()) == Some(a),
        a.slot_id() == b.slot_id() <==> a == b,
{
}

} // verus!
