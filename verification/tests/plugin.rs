use slapi_r_plugin::constants::{
    OperationKind, PluginVersion, SLAPI_PLUGIN_PRIVATE, SLAPI_PLUGIN_VERSION,
};
use slapi_r_plugin::error::{PluginOperationError, PluginRegistrationError};
use slapi_r_plugin::log::{slapi_r_log_error_plugin, slapi_r_log_status};
use slapi_r_plugin::operation::Slapi_R_Operation;
use slapi_r_plugin::pblock::{Slapi_PBlock_Init_V3, Slapi_PBlock_V3, Slapi_R_PBlock};
use slapi_r_plugin::plugin::{
    plugin_execute_fn_cb, slapi_r_plugin_close_cb, slapi_r_plugin_post_search_cb,
    slapi_r_plugin_pre_abandon_cb, slapi_r_plugin_pre_add_cb, slapi_r_plugin_pre_bind_cb,
    slapi_r_plugin_pre_compare_cb, slapi_r_plugin_pre_delete_cb, slapi_r_plugin_pre_entry_cb,
    slapi_r_plugin_pre_extop_cb, slapi_r_plugin_pre_modify_cb, slapi_r_plugin_pre_modrdn_cb,
    slapi_r_plugin_pre_referal_cb, slapi_r_plugin_pre_result_cb, slapi_r_plugin_pre_search_cb,
    slapi_r_plugin_pre_unbind_cb, slapi_r_plugin_start_cb, Slapi_R_Plugin_FN,
    Slapi_R_Plugin_Manager, REGISTER_MESSAGE, SUBSYSTEM,
};
use slapi_r_plugin::private_data::PrivateStore;

type Handler = fn(&Slapi_R_PBlock) -> Result<(), PluginOperationError>;
type Table = Slapi_R_Plugin_FN<Handler>;

const ALL_KINDS: [OperationKind; 16] = [
    OperationKind::Start,
    OperationKind::Close,
    OperationKind::PostSearch,
    OperationKind::PreBind,
    OperationKind::PreUnbind,
    OperationKind::PreSearch,
    OperationKind::PreCompare,
    OperationKind::PreModify,
    OperationKind::PreModrdn,
    OperationKind::PreAdd,
    OperationKind::PreDelete,
    OperationKind::PreAbandon,
    OperationKind::PreEntry,
    OperationKind::PreReferral,
    OperationKind::PreResult,
    OperationKind::PreExtendedOp,
];

fn logs(_level: isize, _subsystem: &str, _message: String) -> isize {
    0
}

fn cannot_log(_level: isize, _subsystem: &str, _message: String) -> isize {
    -1
}

fn succeed(_pb: &Slapi_R_PBlock) -> Result<(), PluginOperationError> {
    Ok(())
}

fn fail_unknown(_pb: &Slapi_R_PBlock) -> Result<(), PluginOperationError> {
    Err(PluginOperationError::Unknown)
}

fn fail_logging(_pb: &Slapi_R_PBlock) -> Result<(), PluginOperationError> {
    slapi_r_log_error_plugin(slapi_r_log_status(-1))
}

fn unwilling(_pb: &Slapi_R_PBlock) -> Result<(), PluginOperationError> {
    Err(PluginOperationError::UnwillingToPerform)
}

/// Allows what is replicated or internal, and nothing else.
fn intercept_operation<T: Slapi_PBlock_V3>(pb: &T) -> Result<(), PluginOperationError> {
    match pb.get_operation() {
        Some(op) => {
            if op.is_replicated() || op.is_internal() {
                Ok(())
            } else {
                Err(PluginOperationError::UnwillingToPerform)
            }
        }
        None => Err(PluginOperationError::Unknown),
    }
}

fn set(table: &mut Table, kind: OperationKind, handler: Handler) {
    let place = match kind {
        OperationKind::Start => &mut table.start,
        OperationKind::Close => &mut table.close,
        OperationKind::PostSearch => &mut table.post_search,
        OperationKind::PreBind => &mut table.pre_bind,
        OperationKind::PreUnbind => &mut table.pre_unbind,
        OperationKind::PreSearch => &mut table.pre_search,
        OperationKind::PreCompare => &mut table.pre_compare,
        OperationKind::PreModify => &mut table.pre_modify,
        OperationKind::PreModrdn => &mut table.pre_modrdn,
        OperationKind::PreAdd => &mut table.pre_add,
        OperationKind::PreDelete => &mut table.pre_delete,
        OperationKind::PreAbandon => &mut table.pre_abandon,
        OperationKind::PreEntry => &mut table.pre_entry,
        OperationKind::PreReferral => &mut table.pre_referal,
        OperationKind::PreResult => &mut table.pre_result,
        OperationKind::PreExtendedOp => &mut table.pre_extop,
    };
    *place = Some(handler);
}

fn callback(kind: OperationKind, pb: &Slapi_R_PBlock, store: &PrivateStore<Table>) -> isize {
    match kind {
        OperationKind::Start => slapi_r_plugin_start_cb(pb, store),
        OperationKind::Close => unreachable!(),
        OperationKind::PostSearch => slapi_r_plugin_post_search_cb(pb, store),
        OperationKind::PreBind => slapi_r_plugin_pre_bind_cb(pb, store),
        OperationKind::PreUnbind => slapi_r_plugin_pre_unbind_cb(pb, store),
        OperationKind::PreSearch => slapi_r_plugin_pre_search_cb(pb, store),
        OperationKind::PreCompare => slapi_r_plugin_pre_compare_cb(pb, store),
        OperationKind::PreModify => slapi_r_plugin_pre_modify_cb(pb, store),
        OperationKind::PreModrdn => slapi_r_plugin_pre_modrdn_cb(pb, store),
        OperationKind::PreAdd => slapi_r_plugin_pre_add_cb(pb, store),
        OperationKind::PreDelete => slapi_r_plugin_pre_delete_cb(pb, store),
        OperationKind::PreAbandon => slapi_r_plugin_pre_abandon_cb(pb, store),
        OperationKind::PreEntry => slapi_r_plugin_pre_entry_cb(pb, store),
        OperationKind::PreReferral => slapi_r_plugin_pre_referal_cb(pb, store),
        OperationKind::PreResult => slapi_r_plugin_pre_result_cb(pb, store),
        OperationKind::PreExtendedOp => slapi_r_plugin_pre_extop_cb(pb, store),
    }
}

fn wired(pb: &Slapi_R_PBlock) -> Vec<OperationKind> {
    let mut found = Vec::new();
    for kind in ALL_KINDS {
        match pb.get_native_function(kind.slot()) {
            Some(k) => {
                assert_eq!(k, kind);
                found.push(kind);
            }
            None => {}
        }
    }
    found
}

#[test]
fn it_works() {
    // A plugin that is read-only for clients: it handles start, close and
    // the four operations that write.
    let mut p_manager: Slapi_R_Plugin_Manager<Handler> = Slapi_R_Plugin_Manager::new();
    p_manager.functions.start = Some(succeed);
    p_manager.functions.close = Some(succeed);
    p_manager.functions.pre_modify = Some(intercept_operation);
    p_manager.functions.pre_modrdn = Some(intercept_operation);
    p_manager.functions.pre_add = Some(intercept_operation);
    p_manager.functions.pre_delete = Some(intercept_operation);
    let mut pb = Slapi_R_PBlock::new();
    let mut store = PrivateStore::new();
    assert_eq!(p_manager.register(&mut pb, &mut store, &logs), Ok(()));
    assert_eq!(
        wired(&pb),
        vec![
            OperationKind::Start,
            OperationKind::Close,
            OperationKind::PreModify,
            OperationKind::PreModrdn,
            OperationKind::PreAdd,
            OperationKind::PreDelete,
        ]
    );
}

#[test]
fn a_new_manager_has_no_handlers() {
    let manager: Slapi_R_Plugin_Manager<Handler> = Slapi_R_Plugin_Manager::new();
    assert_eq!(manager.name, "slapi_r_plugin::plugin::mod");
    assert_eq!(manager.name, SUBSYSTEM);
    assert_eq!(manager.version, PluginVersion::_03);
    for kind in ALL_KINDS {
        assert!(manager.functions.get(kind).is_none());
    }
    let table: Table = Slapi_R_Plugin_FN::new();
    for kind in ALL_KINDS {
        assert!(table.get(kind).is_none());
    }
}

#[test]
fn get_finds_the_handler_of_its_operation() {
    for kind in ALL_KINDS {
        let mut table: Table = Slapi_R_Plugin_FN::new();
        set(&mut table, kind, unwilling);
        for other in ALL_KINDS {
            assert_eq!(table.get(other).is_some(), other == kind);
        }
        let pb = Slapi_R_PBlock::new();
        assert_eq!(
            table.get(kind).unwrap()(&pb),
            Err(PluginOperationError::UnwillingToPerform)
        );
    }
}

#[test]
fn register_without_handlers_wires_start_and_close() {
    let manager: Slapi_R_Plugin_Manager<Handler> = Slapi_R_Plugin_Manager::new();
    let mut pb = Slapi_R_PBlock::new();
    let mut store = PrivateStore::new();
    assert_eq!(manager.register(&mut pb, &mut store, &logs), Ok(()));
    assert_eq!(wired(&pb), vec![OperationKind::Start, OperationKind::Close]);
    assert_eq!(pb.get_plugin_version(), Some(3));
    assert_eq!(pb.get_integer(SLAPI_PLUGIN_VERSION), Some(3));
    assert_eq!(pb.get_pointer(SLAPI_PLUGIN_PRIVATE), Some(1));
}

#[test]
fn register_wires_exactly_the_handlers() {
    for kind in ALL_KINDS {
        let mut manager: Slapi_R_Plugin_Manager<Handler> = Slapi_R_Plugin_Manager::new();
        set(&mut manager.functions, kind, succeed);
        let mut pb = Slapi_R_PBlock::new();
        let mut store = PrivateStore::new();
        assert_eq!(manager.register(&mut pb, &mut store, &logs), Ok(()));
        for other in ALL_KINDS {
            let expected = other == kind
                || other == OperationKind::Start
                || other == OperationKind::Close;
            assert_eq!(pb.get_native_function(other.slot()).is_some(), expected);
            if expected {
                assert_eq!(pb.get_native_function(other.slot()), Some(other));
            }
        }
    }
}

#[test]
fn register_with_all_handlers_wires_all() {
    let mut manager: Slapi_R_Plugin_Manager<Handler> = Slapi_R_Plugin_Manager::new();
    for kind in ALL_KINDS {
        set(&mut manager.functions, kind, succeed);
    }
    let mut pb = Slapi_R_PBlock::new();
    let mut store = PrivateStore::new();
    assert_eq!(manager.register(&mut pb, &mut store, &logs), Ok(()));
    assert_eq!(wired(&pb), ALL_KINDS.to_vec());
}

#[test]
fn register_writes_the_managers_version() {
    let mut manager: Slapi_R_Plugin_Manager<Handler> = Slapi_R_Plugin_Manager::new();
    manager.version = PluginVersion::_02;
    let mut pb = Slapi_R_PBlock::new();
    let mut store = PrivateStore::new();
    assert_eq!(manager.register(&mut pb, &mut store, &logs), Ok(()));
    assert_eq!(pb.get_plugin_version(), Some(2));
}

#[test]
fn register_keeps_what_the_block_held() {
    let mut manager: Slapi_R_Plugin_Manager<Handler> = Slapi_R_Plugin_Manager::new();
    manager.functions.pre_add = Some(succeed);
    let mut pb = Slapi_R_PBlock::build(Slapi_R_Operation::new(true, true));
    pb.set_plugin_type(9);
    pb.set_native_function(1000, OperationKind::PreBind);
    let mut store = PrivateStore::new();
    assert_eq!(manager.register(&mut pb, &mut store, &logs), Ok(()));
    assert_eq!(pb.get_plugin_type(), Some(9));
    assert_eq!(pb.get_native_function(1000), Some(OperationKind::PreBind));
    assert_eq!(pb.get_operation(), Some(Slapi_R_Operation::new(true, true)));
}

#[test]
fn register_logs_one_message() {
    let seen = std::cell::RefCell::new(Vec::new());
    let transport = |level: isize, subsystem: &str, message: String| -> isize {
        seen.borrow_mut().push((level, subsystem.to_string(), message));
        0
    };
    let manager: Slapi_R_Plugin_Manager<Handler> = Slapi_R_Plugin_Manager::new();
    let mut pb = Slapi_R_PBlock::new();
    let mut store = PrivateStore::new();
    assert_eq!(manager.register(&mut pb, &mut store, &transport), Ok(()));
    assert_eq!(
        seen.borrow().clone(),
        vec![(
            0isize,
            "slapi_r_plugin::plugin::mod".to_string(),
            "Registering a rust plugin wrapper\n".to_string()
        )]
    );
    assert_eq!(REGISTER_MESSAGE, "Registering a rust plugin wrapper\n");
}

#[test]
fn register_stops_when_logging_fails() {
    let mut manager: Slapi_R_Plugin_Manager<Handler> = Slapi_R_Plugin_Manager::new();
    for kind in ALL_KINDS {
        set(&mut manager.functions, kind, succeed);
    }
    let mut pb = Slapi_R_PBlock::new();
    let mut store = PrivateStore::new();
    assert_eq!(
        manager.register(&mut pb, &mut store, &cannot_log),
        Err(PluginRegistrationError::LoggingError)
    );
    assert_eq!(wired(&pb), vec![]);
    assert_eq!(pb.get_plugin_version(), None);
    assert_eq!(pb.get_pointer(SLAPI_PLUGIN_PRIVATE), None);
    assert!(store.recover(1).is_none());
    assert!(pb.get_plugin_private(&store).is_none());
}

#[test]
fn register_logged_takes_the_logging_result() {
    let mut manager: Slapi_R_Plugin_Manager<Handler> = Slapi_R_Plugin_Manager::new();
    manager.functions.pre_bind = Some(succeed);
    let mut pb = Slapi_R_PBlock::new();
    let mut store = PrivateStore::new();
    assert_eq!(
        manager.register_logged(&mut pb, &mut store, slapi_r_log_status(7)),
        Err(PluginRegistrationError::LoggingError)
    );
    assert_eq!(wired(&pb), vec![]);
    let mut manager: Slapi_R_Plugin_Manager<Handler> = Slapi_R_Plugin_Manager::new();
    manager.functions.pre_bind = Some(succeed);
    assert_eq!(manager.register_logged(&mut pb, &mut store, Ok(())), Ok(()));
    assert_eq!(
        wired(&pb),
        vec![OperationKind::Start, OperationKind::Close, OperationKind::PreBind]
    );
}

#[test]
fn the_registered_table_is_recovered() {
    let mut manager: Slapi_R_Plugin_Manager<Handler> = Slapi_R_Plugin_Manager::new();
    manager.functions.pre_search = Some(fail_logging);
    manager.functions.pre_entry = Some(succeed);
    let mut pb = Slapi_R_PBlock::new();
    let mut store = PrivateStore::new();
    assert_eq!(manager.register(&mut pb, &mut store, &logs), Ok(()));
    let table = pb.get_plugin_private(&store).unwrap();
    for kind in ALL_KINDS {
        let expected = kind == OperationKind::PreSearch || kind == OperationKind::PreEntry;
        assert_eq!(table.get(kind).is_some(), expected);
    }
    assert_eq!(table.dispatch(OperationKind::PreSearch, &pb), Err(PluginOperationError::LoggingError));
    assert_eq!(table.dispatch(OperationKind::PreEntry, &pb), Ok(()));
    assert_eq!(table.dispatch(OperationKind::PreBind, &pb), Err(PluginOperationError::Unknown));
}

#[test]
fn two_plugins_share_a_store() {
    let mut first: Slapi_R_Plugin_Manager<Handler> = Slapi_R_Plugin_Manager::new();
    first.functions.pre_add = Some(unwilling);
    let mut second: Slapi_R_Plugin_Manager<Handler> = Slapi_R_Plugin_Manager::new();
    second.functions.pre_add = Some(succeed);
    let mut pb_first = Slapi_R_PBlock::new();
    let mut pb_second = Slapi_R_PBlock::new();
    let mut store = PrivateStore::new();
    assert_eq!(first.register(&mut pb_first, &mut store, &logs), Ok(()));
    assert_eq!(second.register(&mut pb_second, &mut store, &logs), Ok(()));
    assert_eq!(pb_first.get_pointer(SLAPI_PLUGIN_PRIVATE), Some(1));
    assert_eq!(pb_second.get_pointer(SLAPI_PLUGIN_PRIVATE), Some(2));
    assert_eq!(slapi_r_plugin_pre_add_cb(&pb_first, &store), 0x35);
    assert_eq!(slapi_r_plugin_pre_add_cb(&pb_second, &store), 0);
    assert_eq!(slapi_r_plugin_close_cb(&pb_first, &mut store), -1);
    assert_eq!(slapi_r_plugin_pre_add_cb(&pb_first, &store), -1);
    assert_eq!(slapi_r_plugin_pre_add_cb(&pb_second, &store), 0);
}

#[test]
fn a_callback_returns_zero_for_ok() {
    for kind in ALL_KINDS {
        if kind == OperationKind::Close {
            continue;
        }
        let mut manager: Slapi_R_Plugin_Manager<Handler> = Slapi_R_Plugin_Manager::new();
        set(&mut manager.functions, kind, succeed);
        let mut pb = Slapi_R_PBlock::new();
        let mut store = PrivateStore::new();
        assert_eq!(manager.register(&mut pb, &mut store, &logs), Ok(()));
        assert_eq!(callback(kind, &pb, &store), 0);
        assert_eq!(plugin_execute_fn_cb(kind, &pb, &store), 0);
    }
}

#[test]
fn a_callback_returns_the_errors_code() {
    let cases: [(Handler, isize); 3] = [(fail_unknown, -1), (fail_logging, -2), (unwilling, 0x35)];
    for (handler, code) in cases {
        for kind in ALL_KINDS {
            if kind == OperationKind::Close {
                continue;
            }
            let mut manager: Slapi_R_Plugin_Manager<Handler> = Slapi_R_Plugin_Manager::new();
            set(&mut manager.functions, kind, handler);
            let mut pb = Slapi_R_PBlock::new();
            let mut store = PrivateStore::new();
            assert_eq!(manager.register(&mut pb, &mut store, &logs), Ok(()));
            assert_eq!(callback(kind, &pb, &store), code);
        }
    }
}

#[test]
fn a_callback_without_handler_returns_unknown() {
    let mut manager: Slapi_R_Plugin_Manager<Handler> = Slapi_R_Plugin_Manager::new();
    manager.functions.pre_add = Some(succeed);
    let mut pb = Slapi_R_PBlock::new();
    let mut store = PrivateStore::new();
    assert_eq!(manager.register(&mut pb, &mut store, &logs), Ok(()));
    for kind in ALL_KINDS {
        if kind == OperationKind::Close || kind == OperationKind::PreAdd {
            continue;
        }
        assert_eq!(callback(kind, &pb, &store), -1);
    }
    assert_eq!(callback(OperationKind::PreAdd, &pb, &store), 0);
}

#[test]
fn a_callback_without_table_returns_unknown() {
    let pb = Slapi_R_PBlock::new();
    let store: PrivateStore<Table> = PrivateStore::new();
    for kind in ALL_KINDS {
        if kind == OperationKind::Close {
            continue;
        }
        assert_eq!(callback(kind, &pb, &store), -1);
    }
    let mut pb = Slapi_R_PBlock::new();
    pb.set_pointer(SLAPI_PLUGIN_PRIVATE, 12);
    assert_eq!(slapi_r_plugin_pre_add_cb(&pb, &store), -1);
}

#[test]
fn pre_add_allows_an_internal_operation() {
    let mut manager: Slapi_R_Plugin_Manager<Handler> = Slapi_R_Plugin_Manager::new();
    manager.functions.pre_add = Some(intercept_operation);
    let mut pb = Slapi_R_PBlock::build(Slapi_R_Operation::new(false, true));
    let mut store = PrivateStore::new();
    assert_eq!(manager.register(&mut pb, &mut store, &logs), Ok(()));
    assert_eq!(
        wired(&pb),
        vec![OperationKind::Start, OperationKind::Close, OperationKind::PreAdd]
    );
    assert_eq!(slapi_r_plugin_pre_add_cb(&pb, &store), 0);
}

#[test]
fn pre_add_refuses_an_external_operation() {
    let mut manager: Slapi_R_Plugin_Manager<Handler> = Slapi_R_Plugin_Manager::new();
    manager.functions.pre_add = Some(intercept_operation);
    let mut pb = Slapi_R_PBlock::build(Slapi_R_Operation::new(false, false));
    let mut store = PrivateStore::new();
    assert_eq!(manager.register(&mut pb, &mut store, &logs), Ok(()));
    assert_eq!(slapi_r_plugin_pre_add_cb(&pb, &store), 0x35);
    assert_eq!(slapi_r_plugin_pre_add_cb(&pb, &store), 53);
}

#[test]
fn pre_add_allows_a_replicated_operation() {
    let mut manager: Slapi_R_Plugin_Manager<Handler> = Slapi_R_Plugin_Manager::new();
    manager.functions.pre_add = Some(intercept_operation);
    let mut pb = Slapi_R_PBlock::build(Slapi_R_Operation::new(true, false));
    let mut store = PrivateStore::new();
    assert_eq!(manager.register(&mut pb, &mut store, &logs), Ok(()));
    assert_eq!(slapi_r_plugin_pre_add_cb(&pb, &store), 0);
}

#[test]
fn close_runs_the_handler_and_releases() {
    let mut manager: Slapi_R_Plugin_Manager<Handler> = Slapi_R_Plugin_Manager::new();
    manager.functions.close = Some(succeed);
    manager.functions.pre_add = Some(succeed);
    let mut pb = Slapi_R_PBlock::new();
    let mut store = PrivateStore::new();
    assert_eq!(manager.register(&mut pb, &mut store, &logs), Ok(()));
    assert!(pb.get_plugin_private(&store).is_some());
    assert_eq!(slapi_r_plugin_close_cb(&pb, &mut store), 0);
    assert!(pb.get_plugin_private(&store).is_none());
    assert!(store.recover(1).is_none());
    assert_eq!(slapi_r_plugin_pre_add_cb(&pb, &store), -1);
}

#[test]
fn close_twice_releases_once() {
    let mut manager: Slapi_R_Plugin_Manager<Handler> = Slapi_R_Plugin_Manager::new();
    manager.functions.close = Some(succeed);
    let mut pb = Slapi_R_PBlock::new();
    let mut store = PrivateStore::new();
    let keep = store.commit(Slapi_R_Plugin_FN::new());
    assert_eq!(manager.register(&mut pb, &mut store, &logs), Ok(()));
    assert_eq!(slapi_r_plugin_close_cb(&pb, &mut store), 0);
    assert_eq!(slapi_r_plugin_close_cb(&pb, &mut store), -4);
    assert_eq!(slapi_r_plugin_close_cb(&pb, &mut store), -4);
    assert!(store.recover(keep).is_some());
}

#[test]
fn close_returns_the_handlers_error_and_still_releases() {
    let mut manager: Slapi_R_Plugin_Manager<Handler> = Slapi_R_Plugin_Manager::new();
    manager.functions.close = Some(unwilling);
    let mut pb = Slapi_R_PBlock::new();
    let mut store = PrivateStore::new();
    assert_eq!(manager.register(&mut pb, &mut store, &logs), Ok(()));
    assert_eq!(slapi_r_plugin_close_cb(&pb, &mut store), 0x35);
    assert!(pb.get_plugin_private(&store).is_none());
}

#[test]
fn close_without_handler_is_unknown_and_still_releases() {
    let manager: Slapi_R_Plugin_Manager<Handler> = Slapi_R_Plugin_Manager::new();
    let mut pb = Slapi_R_PBlock::new();
    let mut store = PrivateStore::new();
    assert_eq!(manager.register(&mut pb, &mut store, &logs), Ok(()));
    assert_eq!(slapi_r_plugin_close_cb(&pb, &mut store), -1);
    assert!(pb.get_plugin_private(&store).is_none());
}

#[test]
fn close_without_private_data_has_nothing_to_do() {
    let pb = Slapi_R_PBlock::new();
    let mut store: PrivateStore<Table> = PrivateStore::new();
    assert_eq!(slapi_r_plugin_close_cb(&pb, &mut store), 0);
}

#[test]
fn register_commits_once() {
    let mut store: PrivateStore<Table> = PrivateStore::new();
    let kept = store.commit(Slapi_R_Plugin_FN::new());
    let mut manager: Slapi_R_Plugin_Manager<Handler> = Slapi_R_Plugin_Manager::new();
    manager.functions.pre_add = Some(unwilling);
    let mut pb = Slapi_R_PBlock::new();
    assert!(store.recover(kept + 1).is_none());
    assert_eq!(manager.register(&mut pb, &mut store, &logs), Ok(()));
    assert_eq!(pb.get_pointer(SLAPI_PLUGIN_PRIVATE), Some(kept + 1));
    assert!(store.recover(kept + 1).unwrap().pre_add.is_some());
    assert!(store.recover(kept).unwrap().pre_add.is_none());
    assert!(store.recover(kept + 2).is_none());
    assert_eq!(store.commit(Slapi_R_Plugin_FN::new()), kept + 2);
}

#[test]
fn a_failed_register_commits_nothing() {
    let mut store: PrivateStore<Table> = PrivateStore::new();
    let manager: Slapi_R_Plugin_Manager<Handler> = Slapi_R_Plugin_Manager::new();
    let mut pb = Slapi_R_PBlock::new();
    assert_eq!(
        manager.register(&mut pb, &mut store, &cannot_log),
        Err(PluginRegistrationError::LoggingError)
    );
    assert!(store.recover(1).is_none());
    assert_eq!(store.commit(Slapi_R_Plugin_FN::new()), 1);
}
