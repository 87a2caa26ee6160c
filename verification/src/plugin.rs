//! The callback table of a plugin, the callbacks that the directory server
//! calls, and the registration that ties the two together.
//!
//! A plugin fills a table with the handlers that it has, and registers.
//! Registration installs one callback for each handler in the parameter
//! block and commits the table to the private data store. When the
//! directory server later calls a callback, the callback finds the table
//! through the block's private data slot, runs the handler of its
//! operation and gives the directory server the status code of what the
//! handler returned. The close callback also releases the table.

use vstd::prelude::*;
use crate::constants::LogLevel;
use crate::constants::OperationKind;
use crate::constants::PluginVersion;
use crate::constants::LDAP_SUCCESS;
use crate::constants::SLAPI_PLUGIN_PRIVATE;
use crate::constants::SLAPI_PLUGIN_VERSION;
use crate::error::LoggingError;
use crate::error::PBlockError;
use crate::error::PluginOperationError;
use crate::error::PluginRegistrationError;
use crate::log::log_result;
use crate::log::slapi_r_log_error;
use crate::pblock::recovered;
use crate::pblock::released;
use crate::pblock::PBlockView;
use crate::pblock::Slapi_PBlock_Init_V3;
use crate::pblock::Slapi_PBlock_V3;
use crate::pblock::Slapi_R_PBlock;
use crate::private_data::PrivateStore;

verus! {

/// The subsystem name under which the bridge itself logs.
pub const SUBSYSTEM: &'static str = "slapi_r_plugin::plugin::mod";

/// The message that registration logs.
pub const REGISTER_MESSAGE: &'static str = "Registering a rust plugin wrapper\n";

/// The handlers of a plugin, one place for each operation. A handler is a
/// function from the parameter block of the call to success or an
/// operation error. This is what is kept as the plugin's private data.
#[allow(non_camel_case_types)]
pub struct Slapi_R_Plugin_FN<H> {
    /// The handler of plugin start up.
    pub start: Option<H>,
    /// The handler of plugin close down.
    pub close: Option<H>,
    /// The handler that runs after a search.
    pub post_search: Option<H>,
    /// The handler that runs before a bind.
    pub pre_bind: Option<H>,
    /// The handler that runs before an unbind.
    pub pre_unbind: Option<H>,
    /// The handler that runs before a search.
    pub pre_search: Option<H>,
    /// The handler that runs before a compare.
    pub pre_compare: Option<H>,
    /// The handler that runs before a modify.
    pub pre_modify: Option<H>,
    /// The handler that runs before a modrdn.
    pub pre_modrdn: Option<H>,
    /// The handler that runs before an add.
    pub pre_add: Option<H>,
    /// The handler that runs before a delete.
    pub pre_delete: Option<H>,
    /// The handler that runs before an abandon.
    pub pre_abandon: Option<H>,
    /// The handler that runs before an entry is sent.
    pub pre_entry: Option<H>,
    /// The handler that runs before a referral is sent.
    pub pre_referal: Option<H>,
    /// The handler that runs before a result is sent.
    pub pre_result: Option<H>,
    /// The handler that runs before an extended operation.
    pub pre_extop: Option<H>,
}

impl<H> Slapi_R_Plugin_FN<H> {
    /// The handler that the table holds for `kind`.
    pub open spec fn handler(&self, kind: OperationKind) -> Option<H> {
        match kind {
            OperationKind::Start => self.start,
            OperationKind::Close => self.close,
            OperationKind::PostSearch => self.post_search,
            OperationKind::PreBind => self.pre_bind,
            OperationKind::PreUnbind => self.pre_unbind,
            OperationKind::PreSearch => self.pre_search,
            OperationKind::PreCompare => self.pre_compare,
            OperationKind::PreModify => self.pre_modify,
            OperationKind::PreModrdn => self.pre_modrdn,
            OperationKind::PreAdd => self.pre_add,
            OperationKind::PreDelete => self.pre_delete,
            OperationKind::PreAbandon => self.pre_abandon,
            OperationKind::PreEntry => self.pre_entry,
            OperationKind::PreReferral => self.pre_referal,
            OperationKind::PreResult => self.pre_result,
            OperationKind::PreExtendedOp => self.pre_extop,
        }
    }

    /// The operations for which the table holds a handler.
    pub open spec fn present(&self) -> Set<OperationKind> {
        Set::new(|kind: OperationKind| self.handler(kind) is Some)
    }

    /// Whether registration installs the callback of `kind` for this
    /// table: always for start and close, and else where there is a
    /// handler.
    pub open spec fn wires(&self, kind: OperationKind) -> bool {
        kind.lifecycle() || self.handler(kind) is Some
    }

    /// The callbacks that registration installs for this table, by slot:
    /// in the slot of each operation that is wired, that operation's
    /// callback.
    pub open spec fn wiring(&self) -> Map<isize, OperationKind> {
        Map::new(
            |slot: isize| OperationKind::of_slot(slot) matches Some(kind) && self.wires(kind),
            |slot: isize| OperationKind::of_slot(slot)->0,
        )
    }

    /// The part of `wiring` that lies in the slots of the operations in
    /// `kinds`.
    spec fn wiring_among(&self, kinds: Set<OperationKind>) -> Map<isize, OperationKind> {
        Map::new(
            |slot: isize|
                OperationKind::of_slot(slot) matches Some(kind) && kinds.contains(kind)
                    && self.wires(kind),
            |slot: isize| OperationKind::of_slot(slot)->0,
        )
    }

    /// Among all operations, `wiring_among` is `wiring`.
    proof fn lemma_wiring_among_all(&self, kinds: Set<OperationKind>)
        requires
            forall|kind: OperationKind| kinds.contains(kind),
        ensures
            self.wiring_among(kinds) == self.wiring(),
    {
        assert(self.wiring_among(kinds) =~= self.wiring());
    }

    /// Installs the callback of `kind` in `pb` if the table wires it, and
    /// leaves `pb` as it is if not. `base` is what the block held before
    /// any callback was installed, and `done` the operations that were
    /// gone through before this one.
    fn install<T: Slapi_PBlock_Init_V3>(
        &self,
        pb: &mut T,
        kind: OperationKind,
        Ghost(base): Ghost<Map<isize, OperationKind>>,
        Ghost(done): Ghost<Set<OperationKind>>,
    )
        requires
            old(pb)@.functions == base.union_prefer_right(self.wiring_among(done)),
        ensures
            final(pb)@ == (PBlockView {
                functions: base.union_prefer_right(self.wiring_among(done.insert(kind))),
                ..old(pb)@
            }),
    {
        match kind {
            OperationKind::Start => pb.set_plugin_start_fn(kind),
            OperationKind::Close => pb.set_plugin_close_fn(kind),
            OperationKind::PostSearch => if self.post_search.is_some() {
                pb.set_plugin_post_search_fn(kind)
            },
            OperationKind::PreBind => if self.pre_bind.is_some() {
                pb.set_plugin_pre_bind_fn(kind)
            },
            OperationKind::PreUnbind => if self.pre_unbind.is_some() {
                pb.set_plugin_pre_unbind_fn(kind)
            },
            OperationKind::PreSearch => if self.pre_search.is_some() {
                pb.set_plugin_pre_search_fn(kind)
            },
            OperationKind::PreCompare => if self.pre_compare.is_some() {
                pb.set_plugin_pre_compare_fn(kind)
            },
            OperationKind::PreModify => if self.pre_modify.is_some() {
                pb.set_plugin_pre_modify_fn(kind)
            },
            OperationKind::PreModrdn => if self.pre_modrdn.is_some() {
                pb.set_plugin_pre_modrdn_fn(kind)
            },
            OperationKind::PreAdd => if self.pre_add.is_some() {
                pb.set_plugin_pre_add_fn(kind)
            },
            OperationKind::PreDelete => if self.pre_delete.is_some() {
                pb.set_plugin_pre_delete_fn(kind)
            },
            OperationKind::PreAbandon => if self.pre_abandon.is_some() {
                pb.set_plugin_pre_abandon_fn(kind)
            },
            OperationKind::PreEntry => if self.pre_entry.is_some() {
                pb.set_plugin_pre_entry_fn(kind)
            },
            OperationKind::PreReferral => if self.pre_referal.is_some() {
                pb.set_plugin_pre_referal_fn(kind)
            },
            OperationKind::PreResult => if self.pre_result.is_some() {
                pb.set_plugin_pre_result_fn(kind)
            },
            OperationKind::PreExtendedOp => if self.pre_extop.is_some() {
                pb.set_plugin_pre_extop_fn(kind)
            },
        }
        assert(pb@.functions =~= base.union_prefer_right(
            self.wiring_among(done.insert(kind)),
        ));
    }

    /// The table without handlers.
    pub open spec fn empty() -> Self {
        Slapi_R_Plugin_FN {
            start: None,
            close: None,
            post_search: None,
            pre_bind: None,
            pre_unbind: None,
            pre_search: None,
            pre_compare: None,
            pre_modify: None,
            pre_modrdn: None,
            pre_add: None,
            pre_delete: None,
            pre_abandon: None,
            pre_entry: None,
            pre_referal: None,
            pre_result: None,
            pre_extop: None,
        }
    }

    /// A table without handlers.
    pub fn new() -> (table: Self)
        ensures
            table == Self::empty(),
            table.present() == Set::<OperationKind>::empty(),
    {
        let table = Slapi_R_Plugin_FN {
            start: None,
            close: None,
            post_search: None,
            pre_bind: None,
            pre_unbind: None,
            pre_search: None,
            pre_compare: None,
            pre_modify: None,
            pre_modrdn: None,
            pre_add: None,
            pre_delete: None,
            pre_abandon: None,
            pre_entry: None,
            pre_referal: None,
            pre_result: None,
            pre_extop: None,
        };
        assert(table.present() =~= Set::<OperationKind>::empty());
        table
    }

    /// The handler that the table holds for `kind`, if it holds one.
    pub fn get(&self, kind: OperationKind) -> (found: Option<&H>)
        ensures
            found matches Some(f) ==> self.handler(kind) == Some(*f),
            found is None <==> self.handler(kind) is None,
    {
        match kind {
            OperationKind::Start => self.start.as_ref(),
            OperationKind::Close => self.close.as_ref(),
            OperationKind::PostSearch => self.post_search.as_ref(),
            OperationKind::PreBind => self.pre_bind.as_ref(),
            OperationKind::PreUnbind => self.pre_unbind.as_ref(),
            OperationKind::PreSearch => self.pre_search.as_ref(),
            OperationKind::PreCompare => self.pre_compare.as_ref(),
            OperationKind::PreModify => self.pre_modify.as_ref(),
            OperationKind::PreModrdn => self.pre_modrdn.as_ref(),
            OperationKind::PreAdd => self.pre_add.as_ref(),
            OperationKind::PreDelete => self.pre_delete.as_ref(),
            OperationKind::PreAbandon => self.pre_abandon.as_ref(),
            OperationKind::PreEntry => self.pre_entry.as_ref(),
            OperationKind::PreReferral => self.pre_referal.as_ref(),
            OperationKind::PreResult => self.pre_result.as_ref(),
            OperationKind::PreExtendedOp => self.pre_extop.as_ref(),
        }
    }
}

/// The status code that the directory server is given for what a handler
/// returned: the success code for `Ok`, and the error's own code for an
/// error.
pub open spec fn status_of(outcome: Result<(), PluginOperationError>) -> int {
    match outcome {
        Ok(_) => LDAP_SUCCESS as int,
        Err(e) => e.code(),
    }
}

/// The status code for what a handler returned.
pub fn operation_status(outcome: Result<(), PluginOperationError>) -> (code: isize)
    ensures
        code == status_of(outcome),
        code == 0 <==> outcome is Ok,
{
    match outcome {
        Ok(_) => LDAP_SUCCESS,
        Err(err) => err.as_ds_isize(),
    }
}

/// The status code of the close callback, from what the close handler
/// returned and from how the release of the private data went. An error
/// of the handler comes before one of the release.
pub open spec fn close_status_of(
    handled: Result<(), PluginOperationError>,
    freed: Result<(), PBlockError>,
) -> int {
    match (handled, freed) {
        (Ok(_), Ok(_)) => LDAP_SUCCESS as int,
        (Ok(_), Err(e)) => e.code(),
        (Err(e), _) => e.code(),
    }
}

/// The status code of the close callback: success where both the close
/// handler and the release succeeded, the handler's error code where the
/// handler failed, and else the release's.
pub fn close_status(
    handled: Result<(), PluginOperationError>,
    freed: Result<(), PBlockError>,
) -> (code: isize)
    ensures
        code == close_status_of(handled, freed),
        code == 0 <==> handled is Ok && freed is Ok,
{
    match (handled, freed) {
        (Ok(_), Ok(_)) => LDAP_SUCCESS,
        (Ok(_), Err(e)) => e.as_ds_isize(),
        (Err(e), _) => e.as_ds_isize(),
    }
}

/// The status code that the directory server is given for what a plugin's
/// initialisation returned: the success code for `Ok`, and the error's own
/// code for an error.
pub open spec fn registration_status_of(registered: Result<(), PluginRegistrationError>) -> int {
    match registered {
        Ok(_) => LDAP_SUCCESS as int,
        Err(e) => e.code(),
    }
}

/// The status code of a plugin's initialisation, from what its
/// registration returned.
pub fn registration_status(registered: Result<(), PluginRegistrationError>) -> (code: isize)
    ensures
        code == registration_status_of(registered),
        code == 0 <==> registered is Ok,
        code <= 0,
{
    match registered {
        Ok(_) => LDAP_SUCCESS,
        Err(e) => e.as_ds_isize(),
    }
}

impl<H: Fn(&Slapi_R_PBlock) -> Result<(), PluginOperationError>> Slapi_R_Plugin_FN<H> {
    /// Whether the handler of `kind`, if the table holds one, can be
    /// called on `pb`.
    pub open spec fn accepts(&self, kind: OperationKind, pb: &Slapi_R_PBlock) -> bool {
        self.handler(kind) matches Some(f) ==> call_requires(f, (pb,))
    }

    /// Whether the handler of `kind` can return `outcome` on `pb`. Where
    /// the table holds no handler for `kind`, the outcome is the unknown
    /// error.
    pub open spec fn handles(
        &self,
        kind: OperationKind,
        pb: &Slapi_R_PBlock,
        outcome: Result<(), PluginOperationError>,
    ) -> bool {
        match self.handler(kind) {
            Some(f) => call_ensures(f, (pb,), outcome),
            None => outcome == Err::<(), PluginOperationError>(PluginOperationError::Unknown),
        }
    }

    /// Runs the handler of `kind` on `pb` and returns what it returned;
    /// the unknown error where the table holds no handler for `kind`.
    pub fn dispatch(&self, kind: OperationKind, pb: &Slapi_R_PBlock) -> (outcome: Result<
        (),
        PluginOperationError,
    >)
        requires
            self.accepts(kind, pb),
        ensures
            self.handles(kind, pb, outcome),
    {
        match self.get(kind) {
            Some(f) => f(pb),
            None => Err(PluginOperationError::Unknown),
        }
    }
}

/// Whether the callback of `kind` can be called on `pb` in a store where
/// `live` is live: the handler that it would run can be called on `pb`.
pub open spec fn callback_accepts<H: Fn(&Slapi_R_PBlock) -> Result<(), PluginOperationError>>(
    kind: OperationKind,
    pb: &Slapi_R_PBlock,
    live: Map<usize, Slapi_R_Plugin_FN<H>>,
) -> bool {
    recovered(pb@, live) matches Some(table) ==> table.accepts(kind, pb)
}

/// Whether `code` is a status that the callback of `kind` can return on
/// `pb` in a store where `live` is live. Where the block leads to a table,
/// it is the status of an outcome of the table's handler for `kind`, or
/// of the unknown error if the table holds none. Where it leads to no
/// table, it is the status of the unknown error.
pub open spec fn callback_returns<H: Fn(&Slapi_R_PBlock) -> Result<(), PluginOperationError>>(
    kind: OperationKind,
    pb: &Slapi_R_PBlock,
    live: Map<usize, Slapi_R_Plugin_FN<H>>,
    code: int,
) -> bool {
    match recovered(pb@, live) {
        Some(table) => exists|outcome: Result<(), PluginOperationError>|
            table.handles(kind, pb, outcome) && code == status_of(outcome),
        None => code == PluginOperationError::Unknown.code(),
    }
}

/// Whether `code` is a status that the close callback can return on `pb`
/// in a store where `live` is live. Where the block leads to a table, the
/// close handler is run, and a table without one counts as the unknown
/// error; where it leads to no table, the handler is skipped, which is no
/// failure. The status is that of `close_status_of` for the handler's
/// outcome and for the answer of the release.
pub open spec fn close_returns<H: Fn(&Slapi_R_PBlock) -> Result<(), PluginOperationError>>(
    pb: &Slapi_R_PBlock,
    live: Map<usize, Slapi_R_Plugin_FN<H>>,
    code: int,
) -> bool {
    match recovered(pb@, live) {
        Some(table) => exists|outcome: Result<(), PluginOperationError>|
            table.handles(OperationKind::Close, pb, outcome) && code == close_status_of(
                outcome,
                released(pb@, live).0,
            ),
        None => code == close_status_of(Ok(()), released(pb@, live).0),
    }
}

/// What every callback but the close callback does. It takes the plugin's
/// table from `store`, under the address in the private data slot of
/// `pb`, runs the table's handler for `kind` on `pb`, and returns the
/// status code of what the handler returned: the success code for `Ok`,
/// the error's code for an error. Where no table is found, or the table
/// holds no handler for `kind`, the status is that of the unknown error.
pub fn plugin_execute_fn_cb<H: Fn(&Slapi_R_PBlock) -> Result<(), PluginOperationError>>(
    kind: OperationKind,
    pb: &Slapi_R_PBlock,
    store: &PrivateStore<Slapi_R_Plugin_FN<H>>,
) -> (code: isize)
    requires
        callback_accepts(kind, pb, store.live()),
    ensures
        callback_returns(kind, pb, store.live(), code as int),
{
    let fn_ptrs: &Slapi_R_Plugin_FN<H> = match pb.get_plugin_private(store) {
        Some(table) => table,
        None => {
            return PluginOperationError::Unknown.as_ds_isize();
        },
    };
    let outcome = fn_ptrs.dispatch(kind, pb);
    operation_status(outcome)
}

/// The callback for stopping the plugin. It runs the plugin's close
/// handler and then releases the plugin's private data from `store`.
///
/// Where the block leads to no live table the handler is skipped, which
/// is no failure; where the table holds no close handler, that counts as
/// the unknown error. The private data is released in either case,
/// exactly as `destroy_plugin_private` does it, and never twice. The
/// status is that of `close_status`: an error of the handler comes before
/// one of the release.
pub fn slapi_r_plugin_close_cb<H: Fn(&Slapi_R_PBlock) -> Result<(), PluginOperationError>>(
    pb: &Slapi_R_PBlock,
    store: &mut PrivateStore<Slapi_R_Plugin_FN<H>>,
) -> (code: isize)
    requires
        callback_accepts(OperationKind::Close, pb, old(store).live()),
    ensures
        final(store).live() == released(pb@, old(store).live()).1,
        final(store).allocated() == old(store).allocated(),
        close_returns(pb, old(store).live(), code as int),
{
    let result_f = match pb.get_plugin_private(&*store) {
        Some(fn_ptrs) => fn_ptrs.dispatch(OperationKind::Close, pb),
        None => Ok(()),
    };
    let result_p = pb.destroy_plugin_private(store);
    close_status(result_f, result_p)
}

/// The callback for starting the plugin: `plugin_execute_fn_cb` for
/// `OperationKind::Start`.
pub fn slapi_r_plugin_start_cb<H: Fn(&Slapi_R_PBlock) -> Result<(), PluginOperationError>>(
    pb: &Slapi_R_PBlock,
    store: &PrivateStore<Slapi_R_Plugin_FN<H>>,
) -> (code: isize)
    requires
        callback_accepts(OperationKind::Start, pb, store.live()),
    ensures
        callback_returns(OperationKind::Start, pb, store.live(), code as int),
{
    plugin_execute_fn_cb(OperationKind::Start, pb, store)
}

/// The callback for the time after a search: `plugin_execute_fn_cb` for
/// `OperationKind::PostSearch`.
pub fn slapi_r_plugin_post_search_cb<H: Fn(&Slapi_R_PBlock) -> Result<(), PluginOperationError>>(
    pb: &Slapi_R_PBlock,
    store: &PrivateStore<Slapi_R_Plugin_FN<H>>,
) -> (code: isize)
    requires
        callback_accepts(OperationKind::PostSearch, pb, store.live()),
    ensures
        callback_returns(OperationKind::PostSearch, pb, store.live(), code as int),
{
    plugin_execute_fn_cb(OperationKind::PostSearch, pb, store)
}

/// The callback for the time before a bind: `plugin_execute_fn_cb` for
/// `OperationKind::PreBind`.
pub fn slapi_r_plugin_pre_bind_cb<H: Fn(&Slapi_R_PBlock) -> Result<(), PluginOperationError>>(
    pb: &Slapi_R_PBlock,
    store: &PrivateStore<Slapi_R_Plugin_FN<H>>,
) -> (code: isize)
    requires
        callback_accepts(OperationKind::PreBind, pb, store.live()),
    ensures
        callback_returns(OperationKind::PreBind, pb, store.live(), code as int),
{
    plugin_execute_fn_cb(OperationKind::PreBind, pb, store)
}

/// The callback for the time before an unbind: `plugin_execute_fn_cb` for
/// `OperationKind::PreUnbind`.
pub fn slapi_r_plugin_pre_unbind_cb<H: Fn(&Slapi_R_PBlock) -> Result<(), PluginOperationError>>(
    pb: &Slapi_R_PBlock,
    store: &PrivateStore<Slapi_R_Plugin_FN<H>>,
) -> (code: isize)
    requires
        callback_accepts(OperationKind::PreUnbind, pb, store.live()),
    ensures
        callback_returns(OperationKind::PreUnbind, pb, store.live(), code as int),
{
    plugin_execute_fn_cb(OperationKind::PreUnbind, pb, store)
}

/// The callback for the time before a search: `plugin_execute_fn_cb` for
/// `OperationKind::PreSearch`.
pub fn slapi_r_plugin_pre_search_cb<H: Fn(&Slapi_R_PBlock) -> Result<(), PluginOperationError>>(
    pb: &Slapi_R_PBlock,
    store: &PrivateStore<Slapi_R_Plugin_FN<H>>,
) -> (code: isize)
    requires
        callback_accepts(OperationKind::PreSearch, pb, store.live()),
    ensures
        callback_returns(OperationKind::PreSearch, pb, store.live(), code as int),
{
    plugin_execute_fn_cb(OperationKind::PreSearch, pb, store)
}

/// The callback for the time before a compare: `plugin_execute_fn_cb` for
/// `OperationKind::PreCompare`.
pub fn slapi_r_plugin_pre_compare_cb<H: Fn(&Slapi_R_PBlock) -> Result<(), PluginOperationError>>(
    pb: &Slapi_R_PBlock,
    store: &PrivateStore<Slapi_R_Plugin_FN<H>>,
) -> (code: isize)
    requires
        callback_accepts(OperationKind::PreCompare, pb, store.live()),
    ensures
        callback_returns(OperationKind::PreCompare, pb, store.live(), code as int),
{
    plugin_execute_fn_cb(OperationKind::PreCompare, pb, store)
}

/// The callback for the time before a modify: `plugin_execute_fn_cb` for
/// `OperationKind::PreModify`.
pub fn slapi_r_plugin_pre_modify_cb<H: Fn(&Slapi_R_PBlock) -> Result<(), PluginOperationError>>(
    pb: &Slapi_R_PBlock,
    store: &PrivateStore<Slapi_R_Plugin_FN<H>>,
) -> (code: isize)
    requires
        callback_accepts(OperationKind::PreModify, pb, store.live()),
    ensures
        callback_returns(OperationKind::PreModify, pb, store.live(), code as int),
{
    plugin_execute_fn_cb(OperationKind::PreModify, pb, store)
}

/// The callback for the time before a modrdn: `plugin_execute_fn_cb` for
/// `OperationKind::PreModrdn`.
pub fn slapi_r_plugin_pre_modrdn_cb<H: Fn(&Slapi_R_PBlock) -> Result<(), PluginOperationError>>(
    pb: &Slapi_R_PBlock,
    store: &PrivateStore<Slapi_R_Plugin_FN<H>>,
) -> (code: isize)
    requires
        callback_accepts(OperationKind::PreModrdn, pb, store.live()),
    ensures
        callback_returns(OperationKind::PreModrdn, pb, store.live(), code as int),
{
    plugin_execute_fn_cb(OperationKind::PreModrdn, pb, store)
}

/// The callback for the time before an add: `plugin_execute_fn_cb` for
/// `OperationKind::PreAdd`.
pub fn slapi_r_plugin_pre_add_cb<H: Fn(&Slapi_R_PBlock) -> Result<(), PluginOperationError>>(
    pb: &Slapi_R_PBlock,
    store: &PrivateStore<Slapi_R_Plugin_FN<H>>,
) -> (code: isize)
    requires
        callback_accepts(OperationKind::PreAdd, pb, store.live()),
    ensures
        callback_returns(OperationKind::PreAdd, pb, store.live(), code as int),
{
    plugin_execute_fn_cb(OperationKind::PreAdd, pb, store)
}

/// The callback for the time before a delete: `plugin_execute_fn_cb` for
/// `OperationKind::PreDelete`.
pub fn slapi_r_plugin_pre_delete_cb<H: Fn(&Slapi_R_PBlock) -> Result<(), PluginOperationError>>(
    pb: &Slapi_R_PBlock,
    store: &PrivateStore<Slapi_R_Plugin_FN<H>>,
) -> (code: isize)
    requires
        callback_accepts(OperationKind::PreDelete, pb, store.live()),
    ensures
        callback_returns(OperationKind::PreDelete, pb, store.live(), code as int),
{
    plugin_execute_fn_cb(OperationKind::PreDelete, pb, store)
}

/// The callback for the time before an abandon: `plugin_execute_fn_cb` for
/// `OperationKind::PreAbandon`.
pub fn slapi_r_plugin_pre_abandon_cb<H: Fn(&Slapi_R_PBlock) -> Result<(), PluginOperationError>>(
    pb: &Slapi_R_PBlock,
    store: &PrivateStore<Slapi_R_Plugin_FN<H>>,
) -> (code: isize)
    requires
        callback_accepts(OperationKind::PreAbandon, pb, store.live()),
    ensures
        callback_returns(OperationKind::PreAbandon, pb, store.live(), code as int),
{
    plugin_execute_fn_cb(OperationKind::PreAbandon, pb, store)
}

/// The callback for the time before an entry is sent: `plugin_execute_fn_cb` for
/// `OperationKind::PreEntry`.
pub fn slapi_r_plugin_pre_entry_cb<H: Fn(&Slapi_R_PBlock) -> Result<(), PluginOperationError>>(
    pb: &Slapi_R_PBlock,
    store: &PrivateStore<Slapi_R_Plugin_FN<H>>,
) -> (code: isize)
    requires
        callback_accepts(OperationKind::PreEntry, pb, store.live()),
    ensures
        callback_returns(OperationKind::PreEntry, pb, store.live(), code as int),
{
    plugin_execute_fn_cb(OperationKind::PreEntry, pb, store)
}

/// The callback for the time before a referral is sent: `plugin_execute_fn_cb` for
/// `OperationKind::PreReferral`.
pub fn slapi_r_plugin_pre_referal_cb<H: Fn(&Slapi_R_PBlock) -> Result<(), PluginOperationError>>(
    pb: &Slapi_R_PBlock,
    store: &PrivateStore<Slapi_R_Plugin_FN<H>>,
) -> (code: isize)
    requires
        callback_accepts(OperationKind::PreReferral, pb, store.live()),
    ensures
        callback_returns(OperationKind::PreReferral, pb, store.live(), code as int),
{
    plugin_execute_fn_cb(OperationKind::PreReferral, pb, store)
}

/// The callback for the time before a result is sent: `plugin_execute_fn_cb` for
/// `OperationKind::PreResult`.
pub fn slapi_r_plugin_pre_result_cb<H: Fn(&Slapi_R_PBlock) -> Result<(), PluginOperationError>>(
    pb: &Slapi_R_PBlock,
    store: &PrivateStore<Slapi_R_Plugin_FN<H>>,
) -> (code: isize)
    requires
        callback_accepts(OperationKind::PreResult, pb, store.live()),
    ensures
        callback_returns(OperationKind::PreResult, pb, store.live(), code as int),
{
    plugin_execute_fn_cb(OperationKind::PreResult, pb, store)
}

/// The callback for the time before an extended operation: `plugin_execute_fn_cb` for
/// `OperationKind::PreExtendedOp`.
pub fn slapi_r_plugin_pre_extop_cb<H: Fn(&Slapi_R_PBlock) -> Result<(), PluginOperationError>>(
    pb: &Slapi_R_PBlock,
    store: &PrivateStore<Slapi_R_Plugin_FN<H>>,
) -> (code: isize)
    requires
        callback_accepts(OperationKind::PreExtendedOp, pb, store.live()),
    ensures
        callback_returns(OperationKind::PreExtendedOp, pb, store.live(), code as int),
{
    plugin_execute_fn_cb(OperationKind::PreExtendedOp, pb, store)
}

/// A plugin that is about to be registered: its name, the API version
/// that it provides, and its handlers. Registration uses the manager up.
#[allow(non_camel_case_types)]
pub struct Slapi_R_Plugin_Manager<'a, H> {
    /// The name of the plugin.
    pub name: &'a str,
    /// The plugin API version that the plugin provides. Defaults to 3.
    pub version: PluginVersion,
    /// The handlers that the plugin registers.
    pub functions: Slapi_R_Plugin_FN<H>,
}

impl<'a, H> Slapi_R_Plugin_Manager<'a, H> {
    /// Builds a new manager: without handlers, for API version 3, under
    /// the bridge's own name. The plugin then sets its handlers and
    /// finally calls `register`.
    pub fn new() -> (manager: Slapi_R_Plugin_Manager<'a, H>)
        ensures
            manager.name@ == SUBSYSTEM@,
            manager.version == PluginVersion::_03,
            manager.functions == Slapi_R_Plugin_FN::<H>::empty(),
            manager.functions.present() == Set::<OperationKind>::empty(),
    {
        let srpf: Slapi_R_Plugin_FN<H> = Slapi_R_Plugin_FN::new();
        Slapi_R_Plugin_Manager { name: SUBSYSTEM, version: PluginVersion::_03, functions: srpf }
    }

    /// The block `pb` after the manager's version and callbacks were
    /// written into it: the version's number in the version slot, and in
    /// the slot of each operation that the table wires, that operation's
    /// callback. All other slots are as in `pb`.
    pub open spec fn wired_view(&self, pb: PBlockView) -> PBlockView {
        PBlockView {
            integers: pb.integers.insert(SLAPI_PLUGIN_VERSION, self.version.code() as isize),
            functions: pb.functions.union_prefer_right(self.functions.wiring()),
            ..pb
        }
    }

    /// What a registration does, given how its logging call went. `before`
    /// and `after` are the block, `store_before` and `store_after` the
    /// private data store, `registered` the result.
    ///
    /// - The logging call failed: `LoggingError`; block and store are
    ///   untouched.
    /// - Else the version and the callbacks are written as `wired_view`
    ///   says. Then the table is committed to the store, as its only new
    ///   value, and its address is set in the private data slot: `Ok`.
    /// - Only where the store has no address left to give, the table is
    ///   not committed: `Unknown`, with the store untouched.
    pub open spec fn registration(
        &self,
        logged: Result<(), LoggingError>,
        before: PBlockView,
        store_before: &PrivateStore<Slapi_R_Plugin_FN<H>>,
        registered: Result<(), PluginRegistrationError>,
        after: PBlockView,
        store_after: &PrivateStore<Slapi_R_Plugin_FN<H>>,
    ) -> bool {
        if logged is Err {
            &&& registered == Err::<(), PluginRegistrationError>(
                PluginRegistrationError::LoggingError,
            )
            &&& after == before
            &&& store_after.live() == store_before.live()
            &&& store_after.allocated() == store_before.allocated()
        } else if store_before.allocated() < usize::MAX {
            let address = (store_before.allocated() + 1) as usize;
            &&& registered == Ok::<(), PluginRegistrationError>(())
            &&& after == self.wired_view(before).with_pointer(SLAPI_PLUGIN_PRIVATE, address)
            &&& !store_before.live().contains_key(address)
            &&& store_after.live() == store_before.live().insert(address, self.functions)
            &&& store_after.allocated() == store_before.allocated() + 1
        } else {
            &&& registered == Err::<(), PluginRegistrationError>(PluginRegistrationError::Unknown)
            &&& after == self.wired_view(before)
            &&& store_after.live() == store_before.live()
            &&& store_after.allocated() == store_before.allocated()
        }
    }

    /// Completes a registration whose logging call returned `logged`: see
    /// `registration` for what it does in each case.
    pub fn register_logged<T: Slapi_PBlock_Init_V3>(
        self,
        pb: &mut T,
        store: &mut PrivateStore<Slapi_R_Plugin_FN<H>>,
        logged: Result<(), LoggingError>,
    ) -> (registered: Result<(), PluginRegistrationError>)
        ensures
            self.registration(logged, old(pb)@, old(store), registered, final(pb)@, final(store)),
    {
        match logged {
            Ok(_) => {},
            Err(_) => {
                return Err(PluginRegistrationError::LoggingError);
            },
        }
        // Set the plugin api version
        pb.set_plugin_version(self.version.as_isize());

        // One callback for each handler that the plugin has. The start and
        // close callbacks are always installed: the close callback is also
        // the one that releases the private data.
        let ghost base = pb@.functions;
        let ghost mut done: Set<OperationKind> = Set::empty();
        assert(pb@.functions =~= base.union_prefer_right(self.functions.wiring_among(done)));
        self.functions.install(pb, OperationKind::PostSearch, Ghost(base), Ghost(done));
        proof {
            done = done.insert(OperationKind::PostSearch);
        }
        self.functions.install(pb, OperationKind::PreBind, Ghost(base), Ghost(done));
        proof {
            done = done.insert(OperationKind::PreBind);
        }
        self.functions.install(pb, OperationKind::PreUnbind, Ghost(base), Ghost(done));
        proof {
            done = done.insert(OperationKind::PreUnbind);
        }
        self.functions.install(pb, OperationKind::PreSearch, Ghost(base), Ghost(done));
        proof {
            done = done.insert(OperationKind::PreSearch);
        }
        self.functions.install(pb, OperationKind::PreCompare, Ghost(base), Ghost(done));
        proof {
            done = done.insert(OperationKind::PreCompare);
        }
        self.functions.install(pb, OperationKind::PreModify, Ghost(base), Ghost(done));
        proof {
            done = done.insert(OperationKind::PreModify);
        }
        self.functions.install(pb, OperationKind::PreModrdn, Ghost(base), Ghost(done));
        proof {
            done = done.insert(OperationKind::PreModrdn);
        }
        self.functions.install(pb, OperationKind::PreAdd, Ghost(base), Ghost(done));
        proof {
            done = done.insert(OperationKind::PreAdd);
        }
        self.functions.install(pb, OperationKind::PreDelete, Ghost(base), Ghost(done));
        proof {
            done = done.insert(OperationKind::PreDelete);
        }
        self.functions.install(pb, OperationKind::PreAbandon, Ghost(base), Ghost(done));
        proof {
            done = done.insert(OperationKind::PreAbandon);
        }
        self.functions.install(pb, OperationKind::PreEntry, Ghost(base), Ghost(done));
        proof {
            done = done.insert(OperationKind::PreEntry);
        }
        self.functions.install(pb, OperationKind::PreReferral, Ghost(base), Ghost(done));
        proof {
            done = done.insert(OperationKind::PreReferral);
        }
        self.functions.install(pb, OperationKind::PreResult, Ghost(base), Ghost(done));
        proof {
            done = done.insert(OperationKind::PreResult);
        }
        self.functions.install(pb, OperationKind::PreExtendedOp, Ghost(base), Ghost(done));
        proof {
            done = done.insert(OperationKind::PreExtendedOp);
        }
        self.functions.install(pb, OperationKind::Start, Ghost(base), Ghost(done));
        proof {
            done = done.insert(OperationKind::Start);
        }
        self.functions.install(pb, OperationKind::Close, Ghost(base), Ghost(done));
        proof {
            done = done.insert(OperationKind::Close);
        }
        proof {
            self.functions.lemma_wiring_among_all(done);
        }

        if !store.has_room() {
            return Err(PluginRegistrationError::Unknown);
        }
        // Finally, the handlers become the plugin's private data.
        proof {
            store.lemma_next_is_free();
        }
        pb.set_plugin_private(store, self.functions);
        Ok(())
    }

    /// Completes the registration of the plugin with the directory server.
    /// This is the last function to call in a plugin's initialisation.
    ///
    /// First a message is logged through `transport`, at level `FATAL`
    /// and under the bridge's name. What follows depends on the status
    /// that `transport` returns, and is what `register_logged` does with
    /// the meaning of that status.
    pub fn register<T: Slapi_PBlock_Init_V3, L: Fn(isize, &str, String) -> isize>(
        self,
        pb: &mut T,
        store: &mut PrivateStore<Slapi_R_Plugin_FN<H>>,
        transport: &L,
    ) -> (registered: Result<(), PluginRegistrationError>)
        requires
            forall|message: String|
                #[trigger] message@ == REGISTER_MESSAGE@ ==> call_requires(
                    transport,
                    (LogLevel::FATAL.code() as isize, SUBSYSTEM, message),
                ),
        ensures
            exists|status: isize, message: String|
                #[trigger] message@ == REGISTER_MESSAGE@ && #[trigger] call_ensures(
                    transport,
                    (LogLevel::FATAL.code() as isize, SUBSYSTEM, message),
                    status,
                ) && self.registration(
                    log_result(status),
                    old(pb)@,
                    old(store),
                    registered,
                    final(pb)@,
                    final(store),
                ),
    {
        let message = REGISTER_MESSAGE.to_owned();
        let logged = slapi_r_log_error(transport, LogLevel::FATAL, SUBSYSTEM, message);
        self.register_logged(pb, store, logged)
    }
}

/// The functions that a plugin for version 3 of the interface must have.
#[allow(non_camel_case_types)]
pub trait Slapi_Plugin_V3 {
    /// The type of the plugin's handlers.
    type Handler: Fn(&Slapi_R_PBlock) -> Result<(), PluginOperationError>;

    /// Initialises the plugin. This is where the plugin builds its
    /// manager, sets its handlers and registers, with `pb`, `store` and
    /// `transport` as `Slapi_R_Plugin_Manager::register` takes them.
    fn init<T: Slapi_PBlock_Init_V3, L: Fn(isize, &str, String) -> isize>(
        pb: &mut T,
        store: &mut PrivateStore<Slapi_R_Plugin_FN<Self::Handler>>,
        transport: &L,
    ) -> Result<(), PluginRegistrationError>
        requires
            forall|level: isize, subsystem: &str, message: String| #[trigger]
                call_requires(transport, (level, subsystem, message)),
    ;

    /// Starts the plugin's operation. After this the other handlers may
    /// be called.
    fn start<T: Slapi_PBlock_V3>(pb: &T) -> Result<(), PluginOperationError>;

    /// Stops the plugin's operation and cleans up. After this no other
    /// handler is called.
    fn close<T: Slapi_PBlock_V3>(pb: &T) -> Result<(), PluginOperationError>;
}

/// What the directory server calls to initialise the plugin `P`. It calls
/// the plugin's own `init` once, on `pb`, `store` and `transport` as they
/// were passed, and leaves the block and the store as `init` left them.
/// The status is that of what `init` returned, as `registration_status`
/// gives it: the success code for `Ok`, and else the negative code of
/// the registration error.
pub fn slapi_r_plugin_init_fn<P: Slapi_Plugin_V3, L: Fn(isize, &str, String) -> isize>(
    pb: &mut Slapi_R_PBlock,
    store: &mut PrivateStore<Slapi_R_Plugin_FN<P::Handler>>,
    transport: &L,
) -> (code: isize)
    requires
        forall|level: isize, subsystem: &str, message: String| #[trigger]
            call_requires(transport, (level, subsystem, message)),
    ensures
        exists|
            registered: Result<(), PluginRegistrationError>,
            block: &mut Slapi_R_PBlock,
            data: &mut PrivateStore<Slapi_R_Plugin_FN<P::Handler>>,
        |
            #[trigger] call_ensures(
                P::init::<Slapi_R_PBlock, L>,
                (block, data, transport),
                registered,
            ) && *block == *old(pb) && *final(block) == *final(pb) && *data == *old(store)
                && *final(data) == *final(store) && code == registration_status_of(registered),
        -3 <= code <= LDAP_SUCCESS,
{
    let init = P::init::<Slapi_R_PBlock, L>;
    let registered = init(pb, store, transport);
    registration_status(registered)
}

/// The callbacks that a registration installs are those of the operations
/// that have a handler, and the start and close callbacks. The slot of an
/// operation is wired exactly if the operation is start, close or has a
/// handler; it then holds that operation's own callback; and no slot is
/// wired that belongs to no operation.
pub proof fn lemma_wired_slots_are_handlers<H>(
    table: Slapi_R_Plugin_FN<H>,
    kind: OperationKind,
    slot: isize,
)
    ensures
        table.wiring().contains_key(kind.slot_id()) <==> table.wires(kind),
        kind != OperationKind::Start && kind != OperationKind::Close ==> (
        table.wiring().contains_key(kind.slot_id()) <==> table.present().contains(kind)),
        table.wires(kind) ==> table.wiring()[kind.slot_id()] == kind,
        table.wiring().contains_key(slot) ==> exists|k: OperationKind|
            k.slot_id() == slot && table.wires(k),
{
    if table.wiring().contains_key(slot) {
        let k = OperationKind::of_slot(slot)->0;
        assert(k.slot_id() == slot && table.wires(k));
    }
}

/// What a registration leaves in the slot of `kind`, and in a `slot` that
/// belongs to no operation. Where the logging call succeeded, the slot of
/// `kind` holds the callback of `kind` if `kind` is start, close or has a
/// handler, and else what it held before; so on a block in which no
/// callback was installed, the slots that hold one afterwards are exactly
/// those of start, close and the operations with a handler. A slot of no
/// operation is left as it was. A registration whose logging call failed
/// installs nothing.
pub proof fn lemma_registration_wires_handlers<H>(
    manager: Slapi_R_Plugin_Manager<'_, H>,
    logged: Result<(), LoggingError>,
    before: PBlockView,
    store_before: &PrivateStore<Slapi_R_Plugin_FN<H>>,
    registered: Result<(), PluginRegistrationError>,
    after: PBlockView,
    store_after: &PrivateStore<Slapi_R_Plugin_FN<H>>,
    kind: OperationKind,
    slot: isize,
)
    requires
        manager.registration(logged, before, store_before, registered, after, store_after),
    ensures
        logged is Err ==> after.function(kind.slot_id()) == before.function(kind.slot_id()),
        logged is Ok && manager.functions.wires(kind) ==> after.function(kind.slot_id()) == Some(
            kind,
        ),
        logged is Ok && !manager.functions.wires(kind) ==> after.function(kind.slot_id())
            == before.function(kind.slot_id()),
        OperationKind::of_slot(slot) is None ==> after.function(slot) == before.function(slot),
        logged is Ok && before.functions == Map::<isize, OperationKind>::empty() ==> (
        after.function(kind.slot_id()) is Some <==> manager.functions.wires(kind)),
        registered is Ok <==> logged is Ok && store_before.allocated() < usize::MAX,
{
}

/// A registration whose logging call succeeded, on a store that has an
/// address left, succeeds and commits exactly once: one address becomes
/// live that was not live before, it holds the manager's table, it is the
/// address that the block's private data slot holds afterwards, and
/// whatever was live before is live still and unchanged.
pub proof fn lemma_registration_commits_once<H>(
    manager: Slapi_R_Plugin_Manager<'_, H>,
    logged: Result<(), LoggingError>,
    before: PBlockView,
    store_before: &PrivateStore<Slapi_R_Plugin_FN<H>>,
    registered: Result<(), PluginRegistrationError>,
    after: PBlockView,
    store_after: &PrivateStore<Slapi_R_Plugin_FN<H>>,
    other: usize,
)
    requires
        manager.registration(logged, before, store_before, registered, after, store_after),
        logged is Ok,
        store_before.allocated() < usize::MAX,
    ensures
        registered == Ok::<(), PluginRegistrationError>(()),
        after.private_address() == Some((store_before.allocated() + 1) as usize),
        store_before.found((store_before.allocated() + 1) as usize) is None,
        store_after.found((store_before.allocated() + 1) as usize) == Some(manager.functions),
        other != store_before.allocated() + 1 ==> store_after.found(other) == store_before.found(
            other,
        ),
        store_after.live().dom() == store_before.live().dom().insert(
            (store_before.allocated() + 1) as usize,
        ),
        store_after.allocated() == store_before.allocated() + 1,
{
    let address = (store_before.allocated() + 1) as usize;
    assert(store_after.live().dom() =~= store_before.live().dom().insert(address));
}

/// A registration that fails commits nothing: the store holds what it
/// held before, and gave no address out.
pub proof fn lemma_failed_registration_commits_nothing<H>(
    manager: Slapi_R_Plugin_Manager<'_, H>,
    logged: Result<(), LoggingError>,
    before: PBlockView,
    store_before: &PrivateStore<Slapi_R_Plugin_FN<H>>,
    registered: Result<(), PluginRegistrationError>,
    after: PBlockView,
    store_after: &PrivateStore<Slapi_R_Plugin_FN<H>>,
)
    requires
        manager.registration(logged, before, store_before, registered, after, store_after),
        registered is Err,
    ensures
        store_after.live() == store_before.live(),
        store_after.allocated() == store_before.allocated(),
        after.pointers == before.pointers,
        logged is Err ==> registered == Err::<(), PluginRegistrationError>(
            PluginRegistrationError::LoggingError,
        ) && after == before,
        logged is Ok ==> registered == Err::<(), PluginRegistrationError>(
            PluginRegistrationError::Unknown,
        ),
{
}

/// What a successful registration commits is what the callbacks recover:
/// through the block that the registration left, the table that is found
/// is the manager's own, with a handler for exactly the same operations.
pub proof fn lemma_registered_table_is_recovered<H>(
    manager: Slapi_R_Plugin_Manager<'_, H>,
    logged: Result<(), LoggingError>,
    before: PBlockView,
    store_before: &PrivateStore<Slapi_R_Plugin_FN<H>>,
    after: PBlockView,
    store_after: &PrivateStore<Slapi_R_Plugin_FN<H>>,
)
    requires
        manager.registration(
            logged,
            before,
            store_before,
            Ok::<(), PluginRegistrationError>(()),
            after,
            store_after,
        ),
    ensures
        recovered(after, store_after.live()) == Some(manager.functions),
        recovered(after, store_after.live())->0.present() == manager.functions.present(),
{
}

/// The private data that a registration commits is what the close
/// callback releases: once the plugin was registered and closed, the
/// store holds what it held before the registration, so nothing is left
/// behind, and the plugin's address is not given out again.
pub proof fn lemma_close_releases_what_registration_committed<H>(
    manager: Slapi_R_Plugin_Manager<'_, H>,
    logged: Result<(), LoggingError>,
    before: PBlockView,
    store_before: &PrivateStore<Slapi_R_Plugin_FN<H>>,
    after: PBlockView,
    store_after: &PrivateStore<Slapi_R_Plugin_FN<H>>,
)
    requires
        manager.registration(
            logged,
            before,
            store_before,
            Ok::<(), PluginRegistrationError>(()),
            after,
            store_after,
        ),
    ensures
        released(after, store_after.live()).0 == Ok::<(), PBlockError>(()),
        released(after, store_after.live()).1 == store_before.live(),
        after.private_address() == Some((store_before.allocated() + 1) as usize),
        store_after.allocated() == store_before.allocated() + 1,
{
    let address = (store_before.allocated() + 1) as usize;
    assert(store_before.live().insert(address, manager.functions).remove(address)
        =~= store_before.live());
}

/// After a successful registration, the callback of `kind` answers for
/// the handler that the plugin registered for `kind`: on the block that
/// the registration left, every status that the callback can return is
/// the status of an outcome of that handler, or of the unknown error if
/// the plugin registered none.
pub proof fn lemma_callback_answers_for_registered_handler<
    H: Fn(&Slapi_R_PBlock) -> Result<(), PluginOperationError>,
>(
    manager: Slapi_R_Plugin_Manager<'_, H>,
    logged: Result<(), LoggingError>,
    before: PBlockView,
    store_before: &PrivateStore<Slapi_R_Plugin_FN<H>>,
    pb: &Slapi_R_PBlock,
    store_after: &PrivateStore<Slapi_R_Plugin_FN<H>>,
    kind: OperationKind,
    code: int,
)
    requires
        manager.registration(
            logged,
            before,
            store_before,
            Ok::<(), PluginRegistrationError>(()),
            pb@,
            store_after,
        ),
        callback_returns(kind, pb, store_after.live(), code),
    ensures
        match manager.functions.handler(kind) {
            Some(f) => exists|outcome: Result<(), PluginOperationError>|
                call_ensures(f, (pb,), outcome) && code == status_of(outcome),
            None => code == PluginOperationError::Unknown.code(),
        },
{
    let table = recovered(pb@, store_after.live())->0;
    assert(table == manager.functions);
    if manager.functions.handler(kind) is Some {
        let outcome = choose|outcome: Result<(), PluginOperationError>|
            table.handles(kind, pb, outcome) && code == status_of(outcome);
        assert(call_ensures(manager.functions.handler(kind)->0, (pb,), outcome));
    }
}

/// A handler that returns `Ok` gives the success code: where every
/// outcome of the handler of `kind` on `pb` is `Ok`, the status of each
/// outcome is `0`.
pub proof fn lemma_ok_gives_success<H: Fn(&Slapi_R_PBlock) -> Result<(), PluginOperationError>>(
    table: Slapi_R_Plugin_FN<H>,
    kind: OperationKind,
    pb: &Slapi_R_PBlock,
    outcome: Result<(), PluginOperationError>,
)
    requires
        table.handler(kind) matches Some(f) && forall|o: Result<(), PluginOperationError>|
            call_ensures(f, (pb,), o) ==> o is Ok,
        table.handles(kind, pb, outcome),
    ensures
        status_of(outcome) == 0,
{
}

/// A handler that fails with `error` gives exactly the status code of
/// `error`, which is never the success code: `-1` for `Unknown`, `-2`
/// for `LoggingError`, `0x35` for `UnwillingToPerform`.
pub proof fn lemma_error_gives_its_code<
    H: Fn(&Slapi_R_PBlock) -> Result<(), PluginOperationError>,
>(
    table: Slapi_R_Plugin_FN<H>,
    kind: OperationKind,
    pb: &Slapi_R_PBlock,
    error: PluginOperationError,
    outcome: Result<(), PluginOperationError>,
)
    requires
        table.handler(kind) matches Some(f) && forall|o: Result<(), PluginOperationError>|
            call_ensures(f, (pb,), o) ==> o == Err::<(), PluginOperationError>(error),
        table.handles(kind, pb, outcome),
    ensures
        status_of(outcome) == error.code(),
        status_of(outcome) != 0,
        error == PluginOperationError::Unknown ==> status_of(outcome) == -1,
        error == PluginOperationError::LoggingError ==> status_of(outcome) == -2,
        error == PluginOperationError::UnwillingToPerform ==> status_of(outcome) == 0x35,
{
}

/// The close callback releases the private data once. On a block whose
/// private data is live, the release succeeds and takes exactly that
/// value out of the store. Called again on the same block, the release
/// is refused with `DestroyFail`, the store stays as it is, and the
/// status is the code of `DestroyFail`: nothing is released twice.
pub proof fn lemma_close_releases_once<T>(pb: PBlockView, live: Map<usize, T>)
    requires
        recovered(pb, live) is Some,
    ensures
        released(pb, live).0 == Ok::<(), PBlockError>(()),
        released(pb, live).1 == live.remove(pb.private_address()->0),
        recovered(pb, released(pb, live).1) is None,
        released(pb, released(pb, live).1) == (
            Err::<(), PBlockError>(PBlockError::DestroyFail),
            released(pb, live).1,
        ),
        close_status_of(
            Ok(()),
            released(pb, released(pb, live).1).0,
        ) == PBlockError::DestroyFail.code(),
{
}

} // verus!
