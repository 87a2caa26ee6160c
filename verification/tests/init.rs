use slapi_r_plugin::constants::{LogLevel, OperationKind};
use slapi_r_plugin::error::{PluginOperationError, PluginRegistrationError};
use slapi_r_plugin::log::{slapi_r_log_error, slapi_r_log_error_plugin};
use slapi_r_plugin::pblock::{Slapi_PBlock_Init_V3, Slapi_PBlock_V3, Slapi_R_PBlock};
use slapi_r_plugin::plugin::{
    slapi_r_plugin_close_cb, slapi_r_plugin_init_fn, slapi_r_plugin_pre_add_cb,
    slapi_r_plugin_pre_delete_cb, slapi_r_plugin_pre_modify_cb, slapi_r_plugin_pre_modrdn_cb,
    slapi_r_plugin_pre_search_cb, slapi_r_plugin_start_cb, Slapi_Plugin_V3, Slapi_R_Plugin_FN,
    Slapi_R_Plugin_Manager,
};
use slapi_r_plugin::operation::Slapi_R_Operation;
use slapi_r_plugin::private_data::PrivateStore;

type Handler = fn(&Slapi_R_PBlock) -> Result<(), PluginOperationError>;

fn logs(_level: isize, _subsystem: &str, _message: String) -> isize {
    0
}

fn cannot_log(_level: isize, _subsystem: &str, _message: String) -> isize {
    -1
}

/// A plugin that lets clients read and nothing else.
struct ReadOnly {}

impl ReadOnly {
    fn intercept_operation<T: Slapi_PBlock_V3>(pb: &T) -> Result<(), PluginOperationError> {
        match pb.get_operation() {
            Some(op) => {
                if op.is_replicated() || op.is_internal() {
                    Ok(())
                } else {
                    Err(PluginOperationError::UnwillingToPerform)
                }
            }
            None => Err(PluginOperationError::Unknown),
        }
    }
}

impl Slapi_Plugin_V3 for ReadOnly {
    type Handler = Handler;

    fn init<T: Slapi_PBlock_Init_V3, L: Fn(isize, &str, String) -> isize>(
        pb: &mut T,
        store: &mut PrivateStore<Slapi_R_Plugin_FN<Handler>>,
        transport: &L,
    ) -> Result<(), PluginRegistrationError> {
        match slapi_r_log_error(transport, LogLevel::INFO, "plugins::read_only", "started\n".to_string()) {
            Ok(_) => {}
            Err(_) => return Err(PluginRegistrationError::LoggingError),
        };
        let mut p_manager: Slapi_R_Plugin_Manager<Handler> = Slapi_R_Plugin_Manager::new();
        p_manager.functions.start = Some(ReadOnly::start);
        p_manager.functions.close = Some(ReadOnly::close);
        p_manager.functions.pre_modify = Some(ReadOnly::intercept_operation);
        p_manager.functions.pre_modrdn = Some(ReadOnly::intercept_operation);
        p_manager.functions.pre_add = Some(ReadOnly::intercept_operation);
        p_manager.functions.pre_delete = Some(ReadOnly::intercept_operation);
        p_manager.register(pb, store, transport)
    }

    fn start<T: Slapi_PBlock_V3>(_: &T) -> Result<(), PluginOperationError> {
        slapi_r_log_error_plugin(Ok(()))
    }

    fn close<T: Slapi_PBlock_V3>(_: &T) -> Result<(), PluginOperationError> {
        Ok(())
    }
}

#[test]
fn init_registers_the_plugin() {
    let mut pb = Slapi_R_PBlock::build(Slapi_R_Operation::new(false, false));
    let mut store = PrivateStore::new();
    assert_eq!(slapi_r_plugin_init_fn::<ReadOnly, _>(&mut pb, &mut store, &logs), 0);
    assert_eq!(pb.get_plugin_version(), Some(3));
    assert_eq!(pb.get_native_function(OperationKind::PreAdd.slot()), Some(OperationKind::PreAdd));
    assert_eq!(pb.get_native_function(OperationKind::PreSearch.slot()), None);
    assert_eq!(slapi_r_plugin_start_cb(&pb, &store), 0);
    assert_eq!(slapi_r_plugin_pre_add_cb(&pb, &store), 0x35);
    assert_eq!(slapi_r_plugin_pre_modify_cb(&pb, &store), 0x35);
    assert_eq!(slapi_r_plugin_pre_modrdn_cb(&pb, &store), 0x35);
    assert_eq!(slapi_r_plugin_pre_delete_cb(&pb, &store), 0x35);
    assert_eq!(slapi_r_plugin_pre_search_cb(&pb, &store), -1);
    assert_eq!(slapi_r_plugin_close_cb(&pb, &mut store), 0);
    assert_eq!(slapi_r_plugin_start_cb(&pb, &store), -1);
}

#[test]
fn init_fails_with_minus_one_when_logging_fails() {
    let mut pb = Slapi_R_PBlock::new();
    let mut store = PrivateStore::new();
    assert_eq!(slapi_r_plugin_init_fn::<ReadOnly, _>(&mut pb, &mut store, &cannot_log), -1);
    assert_eq!(pb.get_plugin_version(), None);
    assert_eq!(pb.get_native_function(OperationKind::Start.slot()), None);
    assert!(pb.get_plugin_private(&store).is_none());
}
