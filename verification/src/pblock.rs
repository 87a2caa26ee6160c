//! The parameter block: the handle that the directory server passes to a
//! plugin with every call, and through which the two exchange values.
//!
//! A block holds values in numbered slots. A slot holds an integer, an
//! address, or one of the bridge's callbacks. The block keeps no check on
//! which slots are written: whatever is set in a slot is what is found
//! there.

use vstd::prelude::*;
use std::collections::HashMap;
use crate::constants::OperationKind;
use crate::constants::SLAPI_PLUGIN_CLOSE_FN;
use crate::constants::SLAPI_PLUGIN_OPRETURN;
use crate::constants::SLAPI_PLUGIN_POST_SEARCH_FN;
use crate::constants::SLAPI_PLUGIN_PRE_ABANDON_FN;
use crate::constants::SLAPI_PLUGIN_PRE_ADD_FN;
use crate::constants::SLAPI_PLUGIN_PRE_BIND_FN;
use crate::constants::SLAPI_PLUGIN_PRE_COMPARE_FN;
use crate::constants::SLAPI_PLUGIN_PRE_DELETE_FN;
use crate::constants::SLAPI_PLUGIN_PRE_ENTRY_FN;
use crate::constants::SLAPI_PLUGIN_PRE_EXTOP_FN;
use crate::constants::SLAPI_PLUGIN_PRE_MODIFY_FN;
use crate::constants::SLAPI_PLUGIN_PRE_MODRDN_FN;
use crate::constants::SLAPI_PLUGIN_PRE_REFERAL_FN;
use crate::constants::SLAPI_PLUGIN_PRE_RESULT_FN;
use crate::constants::SLAPI_PLUGIN_PRE_SEARCH_FN;
use crate::constants::SLAPI_PLUGIN_PRE_UNBIND_FN;
use crate::constants::SLAPI_PLUGIN_PRIVATE;
use crate::constants::SLAPI_PLUGIN_START_FN;
use crate::constants::SLAPI_PLUGIN_TYPE;
use crate::constants::SLAPI_PLUGIN_VERSION;
use crate::constants::SLAPI_SEARCH_RESULT_ENTRY;
use crate::entry::Slapi_R_Entry;
use crate::error::PBlockError;
use crate::operation::Slapi_R_Operation;
use crate::private_data::PrivateStore;

verus! {

/// What a parameter block holds.
pub struct PBlockView {
    /// The integer in each slot that holds one.
    pub integers: Map<isize, isize>,
    /// The address in each slot that holds one.
    pub pointers: Map<isize, usize>,
    /// The callback in each slot that holds one, named by the operation
    /// that the callback serves.
    pub functions: Map<isize, OperationKind>,
    /// The operation that the call belongs to, if the block has one.
    pub operation: Option<Slapi_R_Operation>,
}

impl PBlockView {
    /// The block in which nothing is set.
    pub open spec fn empty() -> PBlockView {
        PBlockView {
            integers: Map::empty(),
            pointers: Map::empty(),
            functions: Map::empty(),
            operation: None,
        }
    }

    /// The integer in `slot`, if one was set.
    pub open spec fn integer(self, slot: isize) -> Option<isize> {
        if self.integers.contains_key(slot) {
            Some(self.integers[slot])
        } else {
            None
        }
    }

    /// The address in `slot`, if one was set and is not null.
    pub open spec fn pointer(self, slot: isize) -> Option<usize> {
        if self.pointers.contains_key(slot) && self.pointers[slot] != 0 {
            Some(self.pointers[slot])
        } else {
            None
        }
    }

    /// The callback in `slot`, if one was installed.
    pub open spec fn function(self, slot: isize) -> Option<OperationKind> {
        if self.functions.contains_key(slot) {
            Some(self.functions[slot])
        } else {
            None
        }
    }

    /// The address of the plugin's private data, if the block has one.
    pub open spec fn private_address(self) -> Option<usize> {
        self.pointer(SLAPI_PLUGIN_PRIVATE)
    }

    /// This block with `value` in the integer slot `slot`.
    pub open spec fn with_integer(self, slot: isize, value: isize) -> PBlockView {
        PBlockView { integers: self.integers.insert(slot, value), ..self }
    }

    /// This block with `address` in the address slot `slot`.
    pub open spec fn with_pointer(self, slot: isize, address: usize) -> PBlockView {
        PBlockView { pointers: self.pointers.insert(slot, address), ..self }
    }

    /// This block with the callback of `callback` installed in `slot`.
    pub open spec fn with_function(self, slot: isize, callback: OperationKind) -> PBlockView {
        PBlockView { functions: self.functions.insert(slot, callback), ..self }
    }
}

/// The parameter block of one call of the directory server.
#[derive(Debug)]
#[allow(non_camel_case_types)]
pub struct Slapi_R_PBlock {
    integers: HashMap<isize, isize>,
    pointers: HashMap<isize, usize>,
    functions: HashMap<isize, OperationKind>,
    operation: Option<Slapi_R_Operation>,
}

impl View for Slapi_R_PBlock {
    type V = PBlockView;

    closed spec fn view(&self) -> PBlockView {
        PBlockView {
            integers: self.integers@,
            pointers: self.pointers@,
            functions: self.functions@,
            operation: self.operation,
        }
    }
}

impl Slapi_R_PBlock {
    /// Creates a new parameter block, in which nothing is set.
    pub fn new() -> (pb: Slapi_R_PBlock)
        ensures
            pb@ == PBlockView::empty(),
    {
        Slapi_R_PBlock {
            integers: HashMap::new(),
            pointers: HashMap::new(),
            functions: HashMap::new(),
            operation: None,
        }
    }

    /// Builds the parameter block of a call that belongs to `operation`.
    /// Nothing else is set in it.
    pub fn build(operation: Slapi_R_Operation) -> (pb: Slapi_R_PBlock)
        ensures
            pb@ == (PBlockView { operation: Some(operation), ..PBlockView::empty() }),
    {
        Slapi_R_PBlock {
            integers: HashMap::new(),
            pointers: HashMap::new(),
            functions: HashMap::new(),
            operation: Some(operation),
        }
    }

    /// Wipes the block: afterwards nothing is set in it.
    pub fn init(&mut self)
        ensures
            final(self)@ == PBlockView::empty(),
    {
        self.integers.clear();
        self.pointers.clear();
        self.functions.clear();
        self.operation = None;
    }

    /// Gives the block up. It is the last thing to do with a block.
    pub fn destroy(self) {
    }

    /// The integer in `slot`; `None` if none was set.
    pub fn get_integer(&self, slot: isize) -> (value: Option<isize>)
        ensures
            value == self@.integer(slot),
    {
        broadcast use vstd::std_specs::hash::group_hash_axioms;

        match self.integers.get(&slot) {
            Some(v) => Some(*v),
            None => None,
        }
    }

    /// Sets the integer in `slot` to `value`. Nothing else changes.
    pub fn set_integer(&mut self, slot: isize, value: isize)
        ensures
            final(self)@ == old(self)@.with_integer(slot, value),
    {
        broadcast use vstd::std_specs::hash::group_hash_axioms;

        self.integers.insert(slot, value);
    }

    /// The address in `slot`; `None` if none was set, or null was.
    pub fn get_pointer(&self, slot: isize) -> (address: Option<usize>)
        ensures
            address == self@.pointer(slot),
    {
        broadcast use vstd::std_specs::hash::group_hash_axioms;

        match self.pointers.get(&slot) {
            Some(a) => {
                if *a == 0 {
                    None
                } else {
                    Some(*a)
                }
            },
            None => None,
        }
    }

    /// Sets the address in `slot` to `address`. Nothing else changes.
    pub fn set_pointer(&mut self, slot: isize, address: usize)
        ensures
            final(self)@ == old(self)@.with_pointer(slot, address),
    {
        broadcast use vstd::std_specs::hash::group_hash_axioms;

        self.pointers.insert(slot, address);
    }

    /// The callback that is installed in `slot`; `None` if there is none.
    pub fn get_native_function(&self, slot: isize) -> (callback: Option<OperationKind>)
        ensures
            callback == self@.function(slot),
    {
        broadcast use vstd::std_specs::hash::group_hash_axioms;

        match self.functions.get(&slot) {
            Some(k) => Some(*k),
            None => None,
        }
    }

    /// Installs in `slot` the callback that serves `callback`. Nothing
    /// else changes.
    pub fn set_native_function(&mut self, slot: isize, callback: OperationKind)
        ensures
            final(self)@ == old(self)@.with_function(slot, callback),
    {
        broadcast use vstd::std_specs::hash::group_hash_axioms;

        self.functions.insert(slot, callback);
    }

    /// The plugin type, such as BE_TXN or POST_OP.
    pub fn get_plugin_type(&self) -> (value: Option<isize>)
        ensures
            value == self@.integer(SLAPI_PLUGIN_TYPE),
    {
        self.get_integer(SLAPI_PLUGIN_TYPE)
    }

    /// Sets the plugin type.
    pub fn set_plugin_type(&mut self, plugin_type: isize)
        ensures
            final(self)@ == old(self)@.with_integer(SLAPI_PLUGIN_TYPE, plugin_type),
    {
        self.set_integer(SLAPI_PLUGIN_TYPE, plugin_type)
    }

    /// The return code of the last operation.
    pub fn get_plugin_opreturn(&self) -> (value: Option<isize>)
        ensures
            value == self@.integer(SLAPI_PLUGIN_OPRETURN),
    {
        self.get_integer(SLAPI_PLUGIN_OPRETURN)
    }

    /// Sets the return code of the operation.
    pub fn set_plugin_opreturn(&mut self, opreturn: isize)
        ensures
            final(self)@ == old(self)@.with_integer(SLAPI_PLUGIN_OPRETURN, opreturn),
    {
        self.set_integer(SLAPI_PLUGIN_OPRETURN, opreturn)
    }
}

/// What releasing the private data of the block `pb` answers, and what it
/// leaves live, in a store where `live` is live. Where the private data
/// slot holds no address, nothing is released and that is no failure.
/// Where its address is live, the value under it is released. Where its
/// address is not live, the release is refused.
pub open spec fn released<T>(pb: PBlockView, live: Map<usize, T>) -> (
    Result<(), PBlockError>,
    Map<usize, T>,
) {
    match pb.private_address() {
        None => (Ok(()), live),
        Some(a) => if live.contains_key(a) {
            (Ok(()), live.remove(a))
        } else {
            (Err(PBlockError::DestroyFail), live)
        },
    }
}

/// The private data that is found for the block `pb` in a store where
/// `live` is live: the value under the address in the block's private data
/// slot.
pub open spec fn recovered<T>(pb: PBlockView, live: Map<usize, T>) -> Option<T> {
    match pb.private_address() {
        Some(a) => if live.contains_key(a) {
            Some(live[a])
        } else {
            None
        },
        None => None,
    }
}

/// What a plugin needs of a parameter block to install and initialise
/// itself. It is used in a plugin's initialisation, and by the callbacks
/// to find the plugin's private data again.
#[allow(non_camel_case_types)]
pub trait Slapi_PBlock_Init_V3: View<V = PBlockView> {
    /// The plugin API version. See also `constants::PluginVersion`.
    fn get_plugin_version(&self) -> (value: Option<isize>)
        ensures
            value == self@.integer(SLAPI_PLUGIN_VERSION),
    ;

    /// Sets the plugin API version. See also `constants::PluginVersion`.
    /// Nothing else changes.
    fn set_plugin_version(&mut self, version: isize)
        ensures
            final(self)@ == old(self)@.with_integer(SLAPI_PLUGIN_VERSION, version),
    ;

    /// Installs `func` as the plugin's close callback. Nothing else
    /// changes.
    fn set_plugin_close_fn(&mut self, func: OperationKind)
        ensures
            final(self)@ == old(self)@.with_function(SLAPI_PLUGIN_CLOSE_FN, func),
    ;

    /// Installs `func` as the plugin's start callback. Nothing else
    /// changes.
    fn set_plugin_start_fn(&mut self, func: OperationKind)
        ensures
            final(self)@ == old(self)@.with_function(SLAPI_PLUGIN_START_FN, func),
    ;

    /// Installs `func` as the plugin's post search callback. Nothing else
    /// changes.
    fn set_plugin_post_search_fn(&mut self, func: OperationKind)
        ensures
            final(self)@ == old(self)@.with_function(SLAPI_PLUGIN_POST_SEARCH_FN, func),
    ;

    /// Installs `func` as the plugin's pre bind callback. Nothing else
    /// changes.
    fn set_plugin_pre_bind_fn(&mut self, func: OperationKind)
        ensures
            final(self)@ == old(self)@.with_function(SLAPI_PLUGIN_PRE_BIND_FN, func),
    ;

    /// Installs `func` as the plugin's pre unbind callback. Nothing else
    /// changes.
    fn set_plugin_pre_unbind_fn(&mut self, func: OperationKind)
        ensures
            final(self)@ == old(self)@.with_function(SLAPI_PLUGIN_PRE_UNBIND_FN, func),
    ;

    /// Installs `func` as the plugin's pre search callback. Nothing else
    /// changes.
    fn set_plugin_pre_search_fn(&mut self, func: OperationKind)
        ensures
            final(self)@ == old(self)@.with_function(SLAPI_PLUGIN_PRE_SEARCH_FN, func),
    ;

    /// Installs `func` as the plugin's pre compare callback. Nothing else
    /// changes.
    fn set_plugin_pre_compare_fn(&mut self, func: OperationKind)
        ensures
            final(self)@ == old(self)@.with_function(SLAPI_PLUGIN_PRE_COMPARE_FN, func),
    ;

    /// Installs `func` as the plugin's pre modify callback. Nothing else
    /// changes.
    fn set_plugin_pre_modify_fn(&mut self, func: OperationKind)
        ensures
            final(self)@ == old(self)@.with_function(SLAPI_PLUGIN_PRE_MODIFY_FN, func),
    ;

    /// Installs `func` as the plugin's pre modrdn callback. Nothing else
    /// changes.
    fn set_plugin_pre_modrdn_fn(&mut self, func: OperationKind)
        ensures
            final(self)@ == old(self)@.with_function(SLAPI_PLUGIN_PRE_MODRDN_FN, func),
    ;

    /// Installs `func` as the plugin's pre add callback. Nothing else
    /// changes.
    fn set_plugin_pre_add_fn(&mut self, func: OperationKind)
        ensures
            final(self)@ == old(self)@.with_function(SLAPI_PLUGIN_PRE_ADD_FN, func),
    ;

    /// Installs `func` as the plugin's pre delete callback. Nothing else
    /// changes.
    fn set_plugin_pre_delete_fn(&mut self, func: OperationKind)
        ensures
            final(self)@ == old(self)@.with_function(SLAPI_PLUGIN_PRE_DELETE_FN, func),
    ;

    /// Installs `func` as the plugin's pre abandon callback. Nothing else
    /// changes.
    fn set_plugin_pre_abandon_fn(&mut self, func: OperationKind)
        ensures
            final(self)@ == old(self)@.with_function(SLAPI_PLUGIN_PRE_ABANDON_FN, func),
    ;

    /// Installs `func` as the plugin's pre entry callback. Nothing else
    /// changes.
    fn set_plugin_pre_entry_fn(&mut self, func: OperationKind)
        ensures
            final(self)@ == old(self)@.with_function(SLAPI_PLUGIN_PRE_ENTRY_FN, func),
    ;

    /// Installs `func` as the plugin's pre referral callback. Nothing else
    /// changes.
    fn set_plugin_pre_referal_fn(&mut self, func: OperationKind)
        ensures
            final(self)@ == old(self)@.with_function(SLAPI_PLUGIN_PRE_REFERAL_FN, func),
    ;

    /// Installs `func` as the plugin's pre result callback. Nothing else
    /// changes.
    fn set_plugin_pre_result_fn(&mut self, func: OperationKind)
        ensures
            final(self)@ == old(self)@.with_function(SLAPI_PLUGIN_PRE_RESULT_FN, func),
    ;

    /// Installs `func` as the plugin's pre extended operation callback. Nothing else
    /// changes.
    fn set_plugin_pre_extop_fn(&mut self, func: OperationKind)
        ensures
            final(self)@ == old(self)@.with_function(SLAPI_PLUGIN_PRE_EXTOP_FN, func),
    ;

    /// The plugin's private data: the value that lives in `store` under
    /// the address in the block's private data slot. `None` if the slot
    /// holds no address, or the address no live value.
    ///
    /// The value must have been committed to `store` by
    /// `set_plugin_private`: the block keeps only the address.
    fn get_plugin_private<'a, T>(&self, store: &'a PrivateStore<T>) -> (value: Option<&'a T>)
        ensures
            value matches Some(v) ==> recovered(self@, store.live()) == Some(*v),
            value is None <==> recovered(self@, store.live()) is None,
    ;

    /// Commits `value` to `store` and sets the block's private data slot
    /// to the address that the store gave it, which was not live before.
    /// Nothing else changes, in the block or in the store.
    fn set_plugin_private<T>(&mut self, store: &mut PrivateStore<T>, value: T)
        requires
            old(store).allocated() < usize::MAX,
        ensures
            final(self)@ == old(self)@.with_pointer(
                SLAPI_PLUGIN_PRIVATE,
                (old(store).allocated() + 1) as usize,
            ),
            final(store).live() == old(store).live().insert(
                (old(store).allocated() + 1) as usize,
                value,
            ),
            final(store).allocated() == old(store).allocated() + 1,
    ;

    /// Releases the plugin's private data from `store`. Where the block's
    /// private data slot holds no address there is nothing to release, and
    /// that is no failure. Where the address holds no live value, because
    /// it was released before, the store refuses: `DestroyFail`, and
    /// nothing is released a second time.
    fn destroy_plugin_private<T>(&self, store: &mut PrivateStore<T>) -> (done: Result<
        (),
        PBlockError,
    >)
        ensures
            done == released(self@, old(store).live()).0,
            final(store).live() == released(self@, old(store).live()).1,
            final(store).allocated() == old(store).allocated(),
    ;
}

/// What a plugin's handlers can ask of the parameter block of a call.
#[allow(non_camel_case_types)]
pub trait Slapi_PBlock_V3: View<V = PBlockView> {
    /// The entry that a search found, if the block holds one: the entry at
    /// the address in the search result slot.
    fn get_search_result_entry(&self) -> (entry: Option<Slapi_R_Entry>)
        ensures
            entry is Some <==> self@.pointer(SLAPI_SEARCH_RESULT_ENTRY) is Some,
            entry matches Some(e) ==> Some(e.address()) == self@.pointer(
                SLAPI_SEARCH_RESULT_ENTRY,
            ),
    ;

    /// The operation that the call belongs to, if the block has one.
    fn get_operation(&self) -> (operation: Option<Slapi_R_Operation>)
        ensures
            operation == self@.operation,
    ;
}

impl Slapi_PBlock_Init_V3 for Slapi_R_PBlock {
    fn get_plugin_version(&self) -> (value: Option<isize>) {
        self.get_integer(SLAPI_PLUGIN_VERSION)
    }

    fn set_plugin_version(&mut self, version: isize) {
        self.set_integer(SLAPI_PLUGIN_VERSION, version)
    }

    fn set_plugin_close_fn(&mut self, func: OperationKind) {
        self.set_native_function(SLAPI_PLUGIN_CLOSE_FN, func)
    }

    fn set_plugin_start_fn(&mut self, func: OperationKind) {
        self.set_native_function(SLAPI_PLUGIN_START_FN, func)
    }

    fn set_plugin_post_search_fn(&mut self, func: OperationKind) {
        self.set_native_function(SLAPI_PLUGIN_POST_SEARCH_FN, func)
    }

    fn set_plugin_pre_bind_fn(&mut self, func: OperationKind) {
        self.set_native_function(SLAPI_PLUGIN_PRE_BIND_FN, func)
    }

    fn set_plugin_pre_unbind_fn(&mut self, func: OperationKind) {
        self.set_native_function(SLAPI_PLUGIN_PRE_UNBIND_FN, func)
    }

    fn set_plugin_pre_search_fn(&mut self, func: OperationKind) {
        self.set_native_function(SLAPI_PLUGIN_PRE_SEARCH_FN, func)
    }

    fn set_plugin_pre_compare_fn(&mut self, func: OperationKind) {
        self.set_native_function(SLAPI_PLUGIN_PRE_COMPARE_FN, func)
    }

    fn set_plugin_pre_modify_fn(&mut self, func: OperationKind) {
        self.set_native_function(SLAPI_PLUGIN_PRE_MODIFY_FN, func)
    }

    fn set_plugin_pre_modrdn_fn(&mut self, func: OperationKind) {
        self.set_native_function(SLAPI_PLUGIN_PRE_MODRDN_FN, func)
    }

    fn set_plugin_pre_add_fn(&mut self, func: OperationKind) {
        self.set_native_function(SLAPI_PLUGIN_PRE_ADD_FN, func)
    }

    fn set_plugin_pre_delete_fn(&mut self, func: OperationKind) {
        self.set_native_function(SLAPI_PLUGIN_PRE_DELETE_FN, func)
    }

    fn set_plugin_pre_abandon_fn(&mut self, func: OperationKind) {
        self.set_native_function(SLAPI_PLUGIN_PRE_ABANDON_FN, func)
    }

    fn set_plugin_pre_entry_fn(&mut self, func: OperationKind) {
        self.set_native_function(SLAPI_PLUGIN_PRE_ENTRY_FN, func)
    }

    fn set_plugin_pre_referal_fn(&mut self, func: OperationKind) {
        self.set_native_function(SLAPI_PLUGIN_PRE_REFERAL_FN, func)
    }

    fn set_plugin_pre_result_fn(&mut self, func: OperationKind) {
        self.set_native_function(SLAPI_PLUGIN_PRE_RESULT_FN, func)
    }

    fn set_plugin_pre_extop_fn(&mut self, func: OperationKind) {
        self.set_native_function(SLAPI_PLUGIN_PRE_EXTOP_FN, func)
    }

    fn get_plugin_private<'a, T>(&self, store: &'a PrivateStore<T>) -> (value: Option<&'a T>) {
        match self.get_pointer(SLAPI_PLUGIN_PRIVATE) {
            Some(address) => store.recover(address),
            None => None,
        }
    }

    fn set_plugin_private<T>(&mut self, store: &mut PrivateStore<T>, value: T) {
        let address = store.commit(value);
        self.set_pointer(SLAPI_PLUGIN_PRIVATE, address);
    }

    fn destroy_plugin_private<T>(&self, store: &mut PrivateStore<T>) -> (done: Result<
        (),
        PBlockError,
    >) {
        match self.get_pointer(SLAPI_PLUGIN_PRIVATE) {
            Some(address) => store.release(address),
            None => Ok(()),
        }
    }
}

impl Slapi_PBlock_V3 for Slapi_R_PBlock {
    fn get_search_result_entry(&self) -> (entry: Option<Slapi_R_Entry>) {
        match self.get_pointer(SLAPI_SEARCH_RESULT_ENTRY) {
            Some(p) => Some(Slapi_R_Entry::new(p)),
            None => None,
        }
    }

    fn get_operation(&self) -> (operation: Option<Slapi_R_Operation>) {
        self.operation
    }
}

} // verus!
