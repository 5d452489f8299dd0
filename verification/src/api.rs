use vstd::prelude::*;

use crate::library::Library;

verus! {

/// A native function reached through a binding.  Each variant is named
/// after the binding; `symbol` gives the C symbol it resolves.
#[derive(Clone, Copy, Debug, PartialEq, Eq, Structural)]
pub enum Api {
    DlogPrint,
    TizenCoreInit,
    TizenCoreShutdown,
    TizenCoreTaskCreate,
    TizenCoreTaskDestroy,
    TizenCoreTaskRun,
    TizenCoreTaskQuit,
    TizenCoreTaskGetTizenCore,
    TizenCoreGetGlibContext,
    TizenCoreAddIdleJob,
    TizenCoreTaskGetId,
    TizenCoreAddChannelObject,
    VconfGetStr,
    VconfGetInt,
    VconfSetStr,
    VconfSetInt,
    PkgmgrClientNew,
    PkgmgrClientFree,
    PkgmgrClientSetStatusType,
    PkgmgrClientListenStatus,
    PkginfoFilterCreate,
    PkginfoMetadataFilterCreate,
    PkginfoMetadataFilterAdd,
    PkginfoMetadataFilterForeach,
    PkginfoFilterDestroy,
    PkginfoMetadataFilterDestroy,
    PkginfoGetPkgid,
    PkginfoGetPkginfo,
    PkginfoGetUsrPkginfo,
    PkginfoGetRootPath,
    PkginfoGetResPath,
    PkginfoGetMetadataValue,
    PkginfoDestroyPkginfo,
    GMainContextNew,
    GMainContextPushThreadDefault,
    GMainContextPopThreadDefault,
    GMainContextUnref,
    GMainLoopNew,
    GMainLoopRun,
    GMainLoopQuit,
    GMainLoopUnref,
    GObjectUnref,
    GObjectNew,
    SoupServerGetType,
    SoupServerListenAll,
    SoupServerAddHandler,
    SoupServerAddHandlerV3,
    SoupServerDisconnect,
    SoupMessageHeadersAppend,
    SoupMessageSetStatus,
    SoupMessageSetResponse,
    SoupServerMessageSetStatus,
    SoupServerMessageGetResponseBody,
    SoupServerMessageGetResponseHeaders,
    SoupServerMessageGetRequestHeaders,
    SoupMessageBodyAppendBytes,
    SoupMessageHeadersSetContentType,
    EventAddEventHandler,
    EventRemoveEventHandler,
    AppControlCreate,
    AppControlDestroy,
    AppControlSetOperation,
    AppControlSetAppId,
    AppControlSetUri,
    AppControlAddExtraData,
    AppControlGetExtraData,
    AppControlSendLaunchRequest,
    SystemInfoGetPlatformString,
    SystemInfoGetPlatformInt,
    SystemInfoGetPlatformBool,
    AlarmScheduleAfterDelay,
    AlarmCancel,
    AlarmCancelAll,
    BundleCreate,
    BundleFree,
    BundleAddStr,
    AulLaunchApp,
    AulOpenApp,
    ActionClientCreate,
    ActionClientDestroy,
    ActionClientGetAction,
    ActionClientForeachAction,
    ActionClientExecute,
    ActionClientAddEventHandler,
    ActionClientRemoveEventHandler,
    ActionClone,
    ActionGetName,
    ActionGetSchema,
    ActionDestroy,
}

/// The kind of value the native function returns.
#[derive(Clone, Copy, Debug, PartialEq, Eq, Structural)]
pub enum ResultKind {
    /// A C `int` status code.
    Status,
    /// A pointer to a native object.
    Handle,
    /// No value.
    Nothing,
    /// A GObject type id (`GType`).
    TypeId,
}

/// What a binding does and reports when its library could not be opened or
/// its symbol was not found there.
#[derive(Clone, Copy, Debug, PartialEq, Eq, Structural)]
pub enum Missing {
    /// Returns this status code.
    Status(i32),
    /// Returns a null pointer.
    NullHandle,
    /// Returns, doing nothing.
    Nothing,
    /// Returns this type id.
    TypeId(usize),
    /// Stores `stored` through the output pointer, then returns `status`.
    StoreThenStatus { stored: i32, status: i32 },
    /// Prints the mock log line (see `mock_log`), then returns `status`.
    LogThenStatus { status: i32 },
}

impl Missing {
    /// The status code a fallback returns, for the fallbacks of bindings
    /// whose C function returns a status.
    pub fn status(self) -> (r: Option<i32>)
        ensures
            r == match self {
                Missing::Status(code) => Some(code),
                Missing::StoreThenStatus { status, .. } => Some(status),
                Missing::LogThenStatus { status } => Some(status),
                _ => None::<i32>,
            },
    {
        match self {
            Missing::Status(code) => Some(code),
            Missing::StoreThenStatus { status, .. } => Some(status),
            Missing::LogThenStatus { status } => Some(status),
            _ => None,
        }
    }

    /// The value a fallback stores through the output pointer, if it stores one.
    pub fn stored(self) -> (r: Option<i32>)
        ensures
            r == match self {
                Missing::StoreThenStatus { stored, .. } => Some(stored),
                _ => None::<i32>,
            },
    {
        match self {
            Missing::StoreThenStatus { stored, .. } => Some(stored),
            _ => None,
        }
    }

    /// The type id a fallback returns, if it returns one.
    pub fn type_id(self) -> (r: Option<usize>)
        ensures
            r == match self {
                Missing::TypeId(id) => Some(id),
                _ => None::<usize>,
            },
    {
        match self {
            Missing::TypeId(id) => Some(id),
            _ => None,
        }
    }

    /// Whether the fallback prints the mock log line before returning.
    pub fn logs(self) -> (r: bool)
        ensures
            r == (self is LogThenStatus),
    {
        match self {
            Missing::LogThenStatus { .. } => true,
            _ => false,
        }
    }
}

/// The shared object in which a binding looks up its symbol.
pub open spec fn spec_library(api: Api) -> Library {
    match api {
        Api::DlogPrint => Library::Dlog,
        Api::TizenCoreInit |
        Api::TizenCoreShutdown |
        Api::TizenCoreTaskCreate |
        Api::TizenCoreTaskDestroy |
        Api::TizenCoreTaskRun |
        Api::TizenCoreTaskQuit |
        Api::TizenCoreTaskGetTizenCore |
        Api::TizenCoreGetGlibContext |
        Api::TizenCoreAddIdleJob |
        Api::TizenCoreTaskGetId |
        Api::TizenCoreAddChannelObject => Library::TizenCore,
        Api::VconfGetStr |
        Api::VconfGetInt |
        Api::VconfSetStr |
        Api::VconfSetInt => Library::Vconf,
        Api::PkgmgrClientNew |
        Api::PkgmgrClientFree |
        Api::PkgmgrClientSetStatusType |
        Api::PkgmgrClientListenStatus => Library::Pkgmgr,
        Api::PkginfoFilterCreate |
        Api::PkginfoMetadataFilterCreate |
        Api::PkginfoMetadataFilterAdd |
        Api::PkginfoMetadataFilterForeach |
        Api::PkginfoFilterDestroy |
        Api::PkginfoMetadataFilterDestroy |
        Api::PkginfoGetPkgid |
        Api::PkginfoGetPkginfo |
        Api::PkginfoGetUsrPkginfo |
        Api::PkginfoGetRootPath |
        Api::PkginfoGetResPath |
        Api::PkginfoGetMetadataValue |
        Api::PkginfoDestroyPkginfo => Library::PkgmgrInfo,
        Api::GMainContextNew |
        Api::GMainContextPushThreadDefault |
        Api::GMainContextPopThreadDefault |
        Api::GMainContextUnref |
        Api::GMainLoopNew |
        Api::GMainLoopRun |
        Api::GMainLoopQuit |
        Api::GMainLoopUnref => Library::Glib,
        Api::GObjectUnref |
        Api::GObjectNew => Library::Gobject,
        Api::SoupServerGetType |
        Api::SoupServerListenAll |
        Api::SoupServerAddHandler |
        Api::SoupServerAddHandlerV3 |
        Api::SoupServerDisconnect |
        Api::SoupMessageHeadersAppend |
        Api::SoupMessageSetStatus |
        Api::SoupMessageSetResponse |
        Api::SoupServerMessageSetStatus |
        Api::SoupServerMessageGetResponseBody |
        Api::SoupServerMessageGetResponseHeaders |
        Api::SoupServerMessageGetRequestHeaders |
        Api::SoupMessageBodyAppendBytes |
        Api::SoupMessageHeadersSetContentType => Library::Soup,
        Api::EventAddEventHandler |
        Api::EventRemoveEventHandler => Library::AppEvent,
        Api::AppControlCreate |
        Api::AppControlDestroy |
        Api::AppControlSetOperation |
        Api::AppControlSetAppId |
        Api::AppControlSetUri |
        Api::AppControlAddExtraData |
        Api::AppControlGetExtraData |
        Api::AppControlSendLaunchRequest => Library::AppControl,
        Api::SystemInfoGetPlatformString |
        Api::SystemInfoGetPlatformInt |
        Api::SystemInfoGetPlatformBool => Library::SystemInfo,
        Api::AlarmScheduleAfterDelay |
        Api::AlarmCancel |
        Api::AlarmCancelAll => Library::Alarm,
        Api::BundleCreate |
        Api::BundleFree |
        Api::BundleAddStr => Library::Bundle,
        Api::AulLaunchApp |
        Api::AulOpenApp => Library::Aul,
        Api::ActionClientCreate |
        Api::ActionClientDestroy |
        Api::ActionClientGetAction |
        Api::ActionClientForeachAction |
        Api::ActionClientExecute |
        Api::ActionClientAddEventHandler |
        Api::ActionClientRemoveEventHandler |
        Api::ActionClone |
        Api::ActionGetName |
        Api::ActionGetSchema |
        Api::ActionDestroy => Library::Action,
    }
}

/// The C symbol a binding resolves.
pub open spec fn spec_symbol(api: Api) -> Seq<char> {
    match api {
        Api::DlogPrint => "dlog_print"@,
        Api::TizenCoreInit => "tizen_core_init"@,
        Api::TizenCoreShutdown => "tizen_core_shutdown"@,
        Api::TizenCoreTaskCreate => "tizen_core_task_create"@,
        Api::TizenCoreTaskDestroy => "tizen_core_task_destroy"@,
        Api::TizenCoreTaskRun => "tizen_core_task_run"@,
        Api::TizenCoreTaskQuit => "tizen_core_task_quit"@,
        Api::TizenCoreTaskGetTizenCore => "tizen_core_task_get_tizen_core"@,
        Api::TizenCoreGetGlibContext => "tizen_core_get_glib_context"@,
        Api::TizenCoreAddIdleJob => "tizen_core_add_idle_job"@,
        Api::TizenCoreTaskGetId => "tizen_core_task_get_id"@,
        Api::TizenCoreAddChannelObject => "tizen_core_add_channel_object"@,
        Api::VconfGetStr => "vconf_get_str"@,
        Api::VconfGetInt => "vconf_get_int"@,
        Api::VconfSetStr => "vconf_set_str"@,
        Api::VconfSetInt => "vconf_set_int"@,
        Api::PkgmgrClientNew => "pkgmgr_client_new"@,
        Api::PkgmgrClientFree => "pkgmgr_client_free"@,
        Api::PkgmgrClientSetStatusType => "pkgmgr_client_set_status_type"@,
        Api::PkgmgrClientListenStatus => "pkgmgr_client_listen_status"@,
        Api::PkginfoFilterCreate => "pkgmgrinfo_pkginfo_filter_create"@,
        Api::PkginfoMetadataFilterCreate => "pkgmgrinfo_pkginfo_metadata_filter_create"@,
        Api::PkginfoMetadataFilterAdd => "pkgmgrinfo_pkginfo_metadata_filter_add"@,
        Api::PkginfoMetadataFilterForeach => "pkgmgrinfo_pkginfo_metadata_filter_foreach"@,
        Api::PkginfoFilterDestroy => "pkgmgrinfo_pkginfo_filter_destroy"@,
        Api::PkginfoMetadataFilterDestroy => "pkgmgrinfo_pkginfo_metadata_filter_destroy"@,
        Api::PkginfoGetPkgid => "pkgmgrinfo_pkginfo_get_pkgid"@,
        Api::PkginfoGetPkginfo => "pkgmgrinfo_pkginfo_get_pkginfo"@,
        Api::PkginfoGetUsrPkginfo => "pkgmgrinfo_pkginfo_get_usr_pkginfo"@,
        Api::PkginfoGetRootPath => "pkgmgrinfo_pkginfo_get_root_path"@,
        Api::PkginfoGetResPath => "pkgmgrinfo_pkginfo_get_res_path"@,
        Api::PkginfoGetMetadataValue => "pkgmgrinfo_pkginfo_get_metadata_value"@,
        Api::PkginfoDestroyPkginfo => "pkgmgrinfo_pkginfo_destroy_pkginfo"@,
        Api::GMainContextNew => "g_main_context_new"@,
        Api::GMainContextPushThreadDefault => "g_main_context_push_thread_default"@,
        Api::GMainContextPopThreadDefault => "g_main_context_pop_thread_default"@,
        Api::GMainContextUnref => "g_main_context_unref"@,
        Api::GMainLoopNew => "g_main_loop_new"@,
        Api::GMainLoopRun => "g_main_loop_run"@,
        Api::GMainLoopQuit => "g_main_loop_quit"@,
        Api::GMainLoopUnref => "g_main_loop_unref"@,
        Api::GObjectUnref => "g_object_unref"@,
        Api::GObjectNew => "g_object_new"@,
        Api::SoupServerGetType => "soup_server_get_type"@,
        Api::SoupServerListenAll => "soup_server_listen_all"@,
        Api::SoupServerAddHandler => "soup_server_add_handler"@,
        Api::SoupServerAddHandlerV3 => "soup_server_add_handler"@,
        Api::SoupServerDisconnect => "soup_server_disconnect"@,
        Api::SoupMessageHeadersAppend => "soup_message_headers_append"@,
        Api::SoupMessageSetStatus => "soup_message_set_status"@,
        Api::SoupMessageSetResponse => "soup_message_set_response"@,
        Api::SoupServerMessageSetStatus => "soup_server_message_set_status"@,
        Api::SoupServerMessageGetResponseBody => "soup_server_message_get_response_body"@,
        Api::SoupServerMessageGetResponseHeaders => "soup_server_message_get_response_headers"@,
        Api::SoupServerMessageGetRequestHeaders => "soup_server_message_get_request_headers"@,
        Api::SoupMessageBodyAppendBytes => "soup_message_body_append_bytes"@,
        Api::SoupMessageHeadersSetContentType => "soup_message_headers_set_content_type"@,
        Api::EventAddEventHandler => "event_add_event_handler"@,
        Api::EventRemoveEventHandler => "event_remove_event_handler"@,
        Api::AppControlCreate => "app_control_create"@,
        Api::AppControlDestroy => "app_control_destroy"@,
        Api::AppControlSetOperation => "app_control_set_operation"@,
        Api::AppControlSetAppId => "app_control_set_app_id"@,
        Api::AppControlSetUri => "app_control_set_uri"@,
        Api::AppControlAddExtraData => "app_control_add_extra_data"@,
        Api::AppControlGetExtraData => "app_control_get_extra_data"@,
        Api::AppControlSendLaunchRequest => "app_control_send_launch_request"@,
        Api::SystemInfoGetPlatformString => "system_info_get_platform_string"@,
        Api::SystemInfoGetPlatformInt => "system_info_get_platform_int"@,
        Api::SystemInfoGetPlatformBool => "system_info_get_platform_bool"@,
        Api::AlarmScheduleAfterDelay => "alarm_schedule_after_delay"@,
        Api::AlarmCancel => "alarm_cancel"@,
        Api::AlarmCancelAll => "alarm_cancel_all"@,
        Api::BundleCreate => "bundle_create"@,
        Api::BundleFree => "bundle_free"@,
        Api::BundleAddStr => "bundle_add_str"@,
        Api::AulLaunchApp => "aul_launch_app"@,
        Api::AulOpenApp => "aul_open_app"@,
        Api::ActionClientCreate => "action_client_create"@,
        Api::ActionClientDestroy => "action_client_destroy"@,
        Api::ActionClientGetAction => "action_client_get_action"@,
        Api::ActionClientForeachAction => "action_client_foreach_action"@,
        Api::ActionClientExecute => "action_client_execute"@,
        Api::ActionClientAddEventHandler => "action_client_add_event_handler"@,
        Api::ActionClientRemoveEventHandler => "action_client_remove_event_handler"@,
        Api::ActionClone => "action_clone"@,
        Api::ActionGetName => "action_get_name"@,
        Api::ActionGetSchema => "action_get_schema"@,
        Api::ActionDestroy => "action_destroy"@,
    }
}

/// The kind of value the native function of a binding returns.
pub open spec fn spec_result_kind(api: Api) -> ResultKind {
    match api {
        Api::DlogPrint |
        Api::TizenCoreInit |
        Api::TizenCoreShutdown |
        Api::TizenCoreTaskCreate |
        Api::TizenCoreTaskDestroy |
        Api::TizenCoreTaskRun |
        Api::TizenCoreTaskQuit |
        Api::TizenCoreTaskGetTizenCore |
        Api::TizenCoreAddIdleJob |
        Api::TizenCoreTaskGetId |
        Api::TizenCoreAddChannelObject |
        Api::VconfGetInt |
        Api::VconfSetStr |
        Api::VconfSetInt |
        Api::PkgmgrClientFree |
        Api::PkgmgrClientSetStatusType |
        Api::PkgmgrClientListenStatus |
        Api::PkginfoFilterCreate |
        Api::PkginfoMetadataFilterCreate |
        Api::PkginfoMetadataFilterAdd |
        Api::PkginfoMetadataFilterForeach |
        Api::PkginfoFilterDestroy |
        Api::PkginfoMetadataFilterDestroy |
        Api::PkginfoGetPkgid |
        Api::PkginfoGetPkginfo |
        Api::PkginfoGetUsrPkginfo |
        Api::PkginfoGetRootPath |
        Api::PkginfoGetResPath |
        Api::PkginfoGetMetadataValue |
        Api::PkginfoDestroyPkginfo |
        Api::SoupServerListenAll |
        Api::EventAddEventHandler |
        Api::EventRemoveEventHandler |
        Api::AppControlCreate |
        Api::AppControlDestroy |
        Api::AppControlSetOperation |
        Api::AppControlSetAppId |
        Api::AppControlSetUri |
        Api::AppControlAddExtraData |
        Api::AppControlGetExtraData |
        Api::AppControlSendLaunchRequest |
        Api::SystemInfoGetPlatformString |
        Api::SystemInfoGetPlatformInt |
        Api::SystemInfoGetPlatformBool |
        Api::AlarmScheduleAfterDelay |
        Api::AlarmCancel |
        Api::AlarmCancelAll |
        Api::BundleFree |
        Api::BundleAddStr |
        Api::AulLaunchApp |
        Api::AulOpenApp |
        Api::ActionClientCreate |
        Api::ActionClientDestroy |
        Api::ActionClientGetAction |
        Api::ActionClientForeachAction |
        Api::ActionClientExecute |
        Api::ActionClientAddEventHandler |
        Api::ActionClientRemoveEventHandler |
        Api::ActionClone |
        Api::ActionGetName |
        Api::ActionGetSchema |
        Api::ActionDestroy => ResultKind::Status,
        Api::TizenCoreGetGlibContext |
        Api::VconfGetStr |
        Api::PkgmgrClientNew |
        Api::GMainContextNew |
        Api::GMainLoopNew |
        Api::GObjectNew |
        Api::SoupServerMessageGetResponseBody |
        Api::SoupServerMessageGetResponseHeaders |
        Api::SoupServerMessageGetRequestHeaders |
        Api::BundleCreate => ResultKind::Handle,
        Api::GMainContextPushThreadDefault |
        Api::GMainContextPopThreadDefault |
        Api::GMainContextUnref |
        Api::GMainLoopRun |
        Api::GMainLoopQuit |
        Api::GMainLoopUnref |
        Api::GObjectUnref |
        Api::SoupServerAddHandler |
        Api::SoupServerAddHandlerV3 |
        Api::SoupServerDisconnect |
        Api::SoupMessageHeadersAppend |
        Api::SoupMessageSetStatus |
        Api::SoupMessageSetResponse |
        Api::SoupServerMessageSetStatus |
        Api::SoupMessageBodyAppendBytes |
        Api::SoupMessageHeadersSetContentType => ResultKind::Nothing,
        Api::SoupServerGetType => ResultKind::TypeId,
    }
}

/// What a binding does when it cannot reach its native function.
pub open spec fn spec_missing(api: Api) -> Missing {
    match api {
        Api::DlogPrint => Missing::LogThenStatus { status: 0i32 },
        Api::TizenCoreInit |
        Api::TizenCoreShutdown |
        Api::TizenCoreTaskCreate |
        Api::TizenCoreTaskDestroy |
        Api::TizenCoreTaskRun |
        Api::TizenCoreTaskQuit |
        Api::VconfSetStr |
        Api::VconfSetInt |
        Api::PkgmgrClientFree |
        Api::PkgmgrClientListenStatus |
        Api::EventAddEventHandler |
        Api::EventRemoveEventHandler |
        Api::AppControlCreate |
        Api::AppControlDestroy |
        Api::AppControlSetOperation |
        Api::AppControlSetAppId |
        Api::AppControlSetUri |
        Api::AppControlAddExtraData |
        Api::AppControlGetExtraData |
        Api::AppControlSendLaunchRequest |
        Api::SystemInfoGetPlatformString |
        Api::SystemInfoGetPlatformInt |
        Api::SystemInfoGetPlatformBool |
        Api::AlarmScheduleAfterDelay |
        Api::AlarmCancel |
        Api::AlarmCancelAll |
        Api::BundleFree |
        Api::BundleAddStr => Missing::Status(0i32),
        Api::TizenCoreTaskGetTizenCore |
        Api::TizenCoreAddIdleJob |
        Api::TizenCoreTaskGetId |
        Api::TizenCoreAddChannelObject |
        Api::PkgmgrClientSetStatusType |
        Api::PkginfoFilterCreate |
        Api::PkginfoMetadataFilterCreate |
        Api::PkginfoMetadataFilterAdd |
        Api::PkginfoMetadataFilterForeach |
        Api::PkginfoFilterDestroy |
        Api::PkginfoMetadataFilterDestroy |
        Api::PkginfoGetPkgid |
        Api::PkginfoGetPkginfo |
        Api::PkginfoGetUsrPkginfo |
        Api::PkginfoGetRootPath |
        Api::PkginfoGetResPath |
        Api::PkginfoGetMetadataValue |
        Api::PkginfoDestroyPkginfo |
        Api::AulLaunchApp |
        Api::AulOpenApp |
        Api::ActionClientCreate |
        Api::ActionClientDestroy |
        Api::ActionClientGetAction |
        Api::ActionClientForeachAction |
        Api::ActionClientExecute |
        Api::ActionClientAddEventHandler |
        Api::ActionClientRemoveEventHandler |
        Api::ActionClone |
        Api::ActionGetName |
        Api::ActionGetSchema |
        Api::ActionDestroy => Missing::Status(-1i32),
        Api::TizenCoreGetGlibContext |
        Api::VconfGetStr |
        Api::PkgmgrClientNew |
        Api::GMainContextNew |
        Api::GMainLoopNew |
        Api::GObjectNew |
        Api::SoupServerMessageGetResponseBody |
        Api::SoupServerMessageGetResponseHeaders |
        Api::SoupServerMessageGetRequestHeaders |
        Api::BundleCreate => Missing::NullHandle,
        Api::VconfGetInt => Missing::StoreThenStatus { stored: 0i32, status: 0i32 },
        Api::GMainContextPushThreadDefault |
        Api::GMainContextPopThreadDefault |
        Api::GMainContextUnref |
        Api::GMainLoopRun |
        Api::GMainLoopQuit |
        Api::GMainLoopUnref |
        Api::GObjectUnref |
        Api::SoupServerAddHandler |
        Api::SoupServerAddHandlerV3 |
        Api::SoupServerDisconnect |
        Api::SoupMessageHeadersAppend |
        Api::SoupMessageSetStatus |
        Api::SoupMessageSetResponse |
        Api::SoupServerMessageSetStatus |
        Api::SoupMessageBodyAppendBytes |
        Api::SoupMessageHeadersSetContentType => Missing::Nothing,
        Api::SoupServerGetType => Missing::TypeId(0usize),
        Api::SoupServerListenAll => Missing::Status(1i32),
    }
}

impl Api {
    /// The shared object in which this binding looks up its symbol.
    pub fn library(self) -> (r: Library)
        ensures
            r == spec_library(self),
    {
        match self {
            Api::DlogPrint => Library::Dlog,
            Api::TizenCoreInit |
            Api::TizenCoreShutdown |
            Api::TizenCoreTaskCreate |
            Api::TizenCoreTaskDestroy |
            Api::TizenCoreTaskRun |
            Api::TizenCoreTaskQuit |
            Api::TizenCoreTaskGetTizenCore |
            Api::TizenCoreGetGlibContext |
            Api::TizenCoreAddIdleJob |
            Api::TizenCoreTaskGetId |
            Api::TizenCoreAddChannelObject => Library::TizenCore,
            Api::VconfGetStr |
            Api::VconfGetInt |
            Api::VconfSetStr |
            Api::VconfSetInt => Library::Vconf,
            Api::PkgmgrClientNew |
            Api::PkgmgrClientFree |
            Api::PkgmgrClientSetStatusType |
            Api::PkgmgrClientListenStatus => Library::Pkgmgr,
            Api::PkginfoFilterCreate |
            Api::PkginfoMetadataFilterCreate |
            Api::PkginfoMetadataFilterAdd |
            Api::PkginfoMetadataFilterForeach |
            Api::PkginfoFilterDestroy |
            Api::PkginfoMetadataFilterDestroy |
            Api::PkginfoGetPkgid |
            Api::PkginfoGetPkginfo |
            Api::PkginfoGetUsrPkginfo |
            Api::PkginfoGetRootPath |
            Api::PkginfoGetResPath |
            Api::PkginfoGetMetadataValue |
            Api::PkginfoDestroyPkginfo => Library::PkgmgrInfo,
            Api::GMainContextNew |
            Api::GMainContextPushThreadDefault |
            Api::GMainContextPopThreadDefault |
            Api::GMainContextUnref |
            Api::GMainLoopNew |
            Api::GMainLoopRun |
            Api::GMainLoopQuit |
            Api::GMainLoopUnref => Library::Glib,
            Api::GObjectUnref |
            Api::GObjectNew => Library::Gobject,
            Api::SoupServerGetType |
            Api::SoupServerListenAll |
            Api::SoupServerAddHandler |
            Api::SoupServerAddHandlerV3 |
            Api::SoupServerDisconnect |
            Api::SoupMessageHeadersAppend |
            Api::SoupMessageSetStatus |
            Api::SoupMessageSetResponse |
            Api::SoupServerMessageSetStatus |
            Api::SoupServerMessageGetResponseBody |
            Api::SoupServerMessageGetResponseHeaders |
            Api::SoupServerMessageGetRequestHeaders |
            Api::SoupMessageBodyAppendBytes |
            Api::SoupMessageHeadersSetContentType => Library::Soup,
            Api::EventAddEventHandler |
            Api::EventRemoveEventHandler => Library::AppEvent,
            Api::AppControlCreate |
            Api::AppControlDestroy |
            Api::AppControlSetOperation |
            Api::AppControlSetAppId |
            Api::AppControlSetUri |
            Api::AppControlAddExtraData |
            Api::AppControlGetExtraData |
            Api::AppControlSendLaunchRequest => Library::AppControl,
            Api::SystemInfoGetPlatformString |
            Api::SystemInfoGetPlatformInt |
            Api::SystemInfoGetPlatformBool => Library::SystemInfo,
            Api::AlarmScheduleAfterDelay |
            Api::AlarmCancel |
            Api::AlarmCancelAll => Library::Alarm,
            Api::BundleCreate |
            Api::BundleFree |
            Api::BundleAddStr => Library::Bundle,
            Api::AulLaunchApp |
            Api::AulOpenApp => Library::Aul,
            Api::ActionClientCreate |
            Api::ActionClientDestroy |
            Api::ActionClientGetAction |
            Api::ActionClientForeachAction |
            Api::ActionClientExecute |
            Api::ActionClientAddEventHandler |
            Api::ActionClientRemoveEventHandler |
            Api::ActionClone |
            Api::ActionGetName |
            Api::ActionGetSchema |
            Api::ActionDestroy => Library::Action,
        }
    }

    /// The C symbol this binding resolves (without a terminating NUL).
    pub fn symbol(self) -> (r: &'static str)
        ensures
            r@ == spec_symbol(self),
    {
        match self {
            Api::DlogPrint => "dlog_print",
            Api::TizenCoreInit => "tizen_core_init",
            Api::TizenCoreShutdown => "tizen_core_shutdown",
            Api::TizenCoreTaskCreate => "tizen_core_task_create",
            Api::TizenCoreTaskDestroy => "tizen_core_task_destroy",
            Api::TizenCoreTaskRun => "tizen_core_task_run",
            Api::TizenCoreTaskQuit => "tizen_core_task_quit",
            Api::TizenCoreTaskGetTizenCore => "tizen_core_task_get_tizen_core",
            Api::TizenCoreGetGlibContext => "tizen_core_get_glib_context",
            Api::TizenCoreAddIdleJob => "tizen_core_add_idle_job",
            Api::TizenCoreTaskGetId => "tizen_core_task_get_id",
            Api::TizenCoreAddChannelObject => "tizen_core_add_channel_object",
            Api::VconfGetStr => "vconf_get_str",
            Api::VconfGetInt => "vconf_get_int",
            Api::VconfSetStr => "vconf_set_str",
            Api::VconfSetInt => "vconf_set_int",
            Api::PkgmgrClientNew => "pkgmgr_client_new",
            Api::PkgmgrClientFree => "pkgmgr_client_free",
            Api::PkgmgrClientSetStatusType => "pkgmgr_client_set_status_type",
            Api::PkgmgrClientListenStatus => "pkgmgr_client_listen_status",
            Api::PkginfoFilterCreate => "pkgmgrinfo_pkginfo_filter_create",
            Api::PkginfoMetadataFilterCreate => "pkgmgrinfo_pkginfo_metadata_filter_create",
            Api::PkginfoMetadataFilterAdd => "pkgmgrinfo_pkginfo_metadata_filter_add",
            Api::PkginfoMetadataFilterForeach => "pkgmgrinfo_pkginfo_metadata_filter_foreach",
            Api::PkginfoFilterDestroy => "pkgmgrinfo_pkginfo_filter_destroy",
            Api::PkginfoMetadataFilterDestroy => "pkgmgrinfo_pkginfo_metadata_filter_destroy",
            Api::PkginfoGetPkgid => "pkgmgrinfo_pkginfo_get_pkgid",
            Api::PkginfoGetPkginfo => "pkgmgrinfo_pkginfo_get_pkginfo",
            Api::PkginfoGetUsrPkginfo => "pkgmgrinfo_pkginfo_get_usr_pkginfo",
            Api::PkginfoGetRootPath => "pkgmgrinfo_pkginfo_get_root_path",
            Api::PkginfoGetResPath => "pkgmgrinfo_pkginfo_get_res_path",
            Api::PkginfoGetMetadataValue => "pkgmgrinfo_pkginfo_get_metadata_value",
            Api::PkginfoDestroyPkginfo => "pkgmgrinfo_pkginfo_destroy_pkginfo",
            Api::GMainContextNew => "g_main_context_new",
            Api::GMainContextPushThreadDefault => "g_main_context_push_thread_default",
            Api::GMainContextPopThreadDefault => "g_main_context_pop_thread_default",
            Api::GMainContextUnref => "g_main_context_unref",
            Api::GMainLoopNew => "g_main_loop_new",
            Api::GMainLoopRun => "g_main_loop_run",
            Api::GMainLoopQuit => "g_main_loop_quit",
            Api::GMainLoopUnref => "g_main_loop_unref",
            Api::GObjectUnref => "g_object_unref",
            Api::GObjectNew => "g_object_new",
            Api::SoupServerGetType => "soup_server_get_type",
            Api::SoupServerListenAll => "soup_server_listen_all",
            Api::SoupServerAddHandler => "soup_server_add_handler",
            Api::SoupServerAddHandlerV3 => "soup_server_add_handler",
            Api::SoupServerDisconnect => "soup_server_disconnect",
            Api::SoupMessageHeadersAppend => "soup_message_headers_append",
            Api::SoupMessageSetStatus => "soup_message_set_status",
            Api::SoupMessageSetResponse => "soup_message_set_response",
            Api::SoupServerMessageSetStatus => "soup_server_message_set_status",
            Api::SoupServerMessageGetResponseBody => "soup_server_message_get_response_body",
            Api::SoupServerMessageGetResponseHeaders => "soup_server_message_get_response_headers",
            Api::SoupServerMessageGetRequestHeaders => "soup_server_message_get_request_headers",
            Api::SoupMessageBodyAppendBytes => "soup_message_body_append_bytes",
            Api::SoupMessageHeadersSetContentType => "soup_message_headers_set_content_type",
            Api::EventAddEventHandler => "event_add_event_handler",
            Api::EventRemoveEventHandler => "event_remove_event_handler",
            Api::AppControlCreate => "app_control_create",
            Api::AppControlDestroy => "app_control_destroy",
            Api::AppControlSetOperation => "app_control_set_operation",
            Api::AppControlSetAppId => "app_control_set_app_id",
            Api::AppControlSetUri => "app_control_set_uri",
            Api::AppControlAddExtraData => "app_control_add_extra_data",
            Api::AppControlGetExtraData => "app_control_get_extra_data",
            Api::AppControlSendLaunchRequest => "app_control_send_launch_request",
            Api::SystemInfoGetPlatformString => "system_info_get_platform_string",
            Api::SystemInfoGetPlatformInt => "system_info_get_platform_int",
            Api::SystemInfoGetPlatformBool => "system_info_get_platform_bool",
            Api::AlarmScheduleAfterDelay => "alarm_schedule_after_delay",
            Api::AlarmCancel => "alarm_cancel",
            Api::AlarmCancelAll => "alarm_cancel_all",
            Api::BundleCreate => "bundle_create",
            Api::BundleFree => "bundle_free",
            Api::BundleAddStr => "bundle_add_str",
            Api::AulLaunchApp => "aul_launch_app",
            Api::AulOpenApp => "aul_open_app",
            Api::ActionClientCreate => "action_client_create",
            Api::ActionClientDestroy => "action_client_destroy",
            Api::ActionClientGetAction => "action_client_get_action",
            Api::ActionClientForeachAction => "action_client_foreach_action",
            Api::ActionClientExecute => "action_client_execute",
            Api::ActionClientAddEventHandler => "action_client_add_event_handler",
            Api::ActionClientRemoveEventHandler => "action_client_remove_event_handler",
            Api::ActionClone => "action_clone",
            Api::ActionGetName => "action_get_name",
            Api::ActionGetSchema => "action_get_schema",
            Api::ActionDestroy => "action_destroy",
        }
    }

    /// What this binding does when it cannot reach its native function.
    pub fn missing(self) -> (r: Missing)
        ensures
            r == spec_missing(self),
    {
        match self {
            Api::DlogPrint => Missing::LogThenStatus { status: 0i32 },
            Api::TizenCoreInit |
            Api::TizenCoreShutdown |
            Api::TizenCoreTaskCreate |
            Api::TizenCoreTaskDestroy |
            Api::TizenCoreTaskRun |
            Api::TizenCoreTaskQuit |
            Api::VconfSetStr |
            Api::VconfSetInt |
            Api::PkgmgrClientFree |
            Api::PkgmgrClientListenStatus |
            Api::EventAddEventHandler |
            Api::EventRemoveEventHandler |
            Api::AppControlCreate |
            Api::AppControlDestroy |
            Api::AppControlSetOperation |
            Api::AppControlSetAppId |
            Api::AppControlSetUri |
            Api::AppControlAddExtraData |
            Api::AppControlGetExtraData |
            Api::AppControlSendLaunchRequest |
            Api::SystemInfoGetPlatformString |
            Api::SystemInfoGetPlatformInt |
            Api::SystemInfoGetPlatformBool |
            Api::AlarmScheduleAfterDelay |
            Api::AlarmCancel |
            Api::AlarmCancelAll |
            Api::BundleFree |
            Api::BundleAddStr => Missing::Status(0i32),
            Api::TizenCoreTaskGetTizenCore |
            Api::TizenCoreAddIdleJob |
            Api::TizenCoreTaskGetId |
            Api::TizenCoreAddChannelObject |
            Api::PkgmgrClientSetStatusType |
            Api::PkginfoFilterCreate |
            Api::PkginfoMetadataFilterCreate |
            Api::PkginfoMetadataFilterAdd |
            Api::PkginfoMetadataFilterForeach |
            Api::PkginfoFilterDestroy |
            Api::PkginfoMetadataFilterDestroy |
            Api::PkginfoGetPkgid |
            Api::PkginfoGetPkginfo |
            Api::PkginfoGetUsrPkginfo |
            Api::PkginfoGetRootPath |
            Api::PkginfoGetResPath |
            Api::PkginfoGetMetadataValue |
            Api::PkginfoDestroyPkginfo |
            Api::AulLaunchApp |
            Api::AulOpenApp |
            Api::ActionClientCreate |
            Api::ActionClientDestroy |
            Api::ActionClientGetAction |
            Api::ActionClientForeachAction |
            Api::ActionClientExecute |
            Api::ActionClientAddEventHandler |
            Api::ActionClientRemoveEventHandler |
            Api::ActionClone |
            Api::ActionGetName |
            Api::ActionGetSchema |
            Api::ActionDestroy => Missing::Status(-1i32),
            Api::TizenCoreGetGlibContext |
            Api::VconfGetStr |
            Api::PkgmgrClientNew |
            Api::GMainContextNew |
            Api::GMainLoopNew |
            Api::GObjectNew |
            Api::SoupServerMessageGetResponseBody |
            Api::SoupServerMessageGetResponseHeaders |
            Api::SoupServerMessageGetRequestHeaders |
            Api::BundleCreate => Missing::NullHandle,
            Api::VconfGetInt => Missing::StoreThenStatus { stored: 0i32, status: 0i32 },
            Api::GMainContextPushThreadDefault |
            Api::GMainContextPopThreadDefault |
            Api::GMainContextUnref |
            Api::GMainLoopRun |
            Api::GMainLoopQuit |
            Api::GMainLoopUnref |
            Api::GObjectUnref |
            Api::SoupServerAddHandler |
            Api::SoupServerAddHandlerV3 |
            Api::SoupServerDisconnect |
            Api::SoupMessageHeadersAppend |
            Api::SoupMessageSetStatus |
            Api::SoupMessageSetResponse |
            Api::SoupServerMessageSetStatus |
            Api::SoupMessageBodyAppendBytes |
            Api::SoupMessageHeadersSetContentType => Missing::Nothing,
            Api::SoupServerGetType => Missing::TypeId(0usize),
            Api::SoupServerListenAll => Missing::Status(1i32),
        }
    }
}

/// A fallback fits a result kind when it yields a value of that kind.
pub open spec fn fits(missing: Missing, kind: ResultKind) -> bool {
    match missing {
        Missing::Status(_) => kind == ResultKind::Status,
        Missing::StoreThenStatus { .. } => kind == ResultKind::Status,
        Missing::LogThenStatus { .. } => kind == ResultKind::Status,
        Missing::NullHandle => kind == ResultKind::Handle,
        Missing::Nothing => kind == ResultKind::Nothing,
        Missing::TypeId(_) => kind == ResultKind::TypeId,
    }
}

/// Every binding's fallback yields a value of the kind its native function
/// returns: a status for status functions, a type id for type-id functions.
pub proof fn lemma_missing_fits_result(api: Api)
    ensures
        fits(spec_missing(api), spec_result_kind(api)),
        spec_result_kind(api) == ResultKind::Status ==> (match spec_missing(api) {
            Missing::Status(_) => true,
            Missing::StoreThenStatus { .. } => true,
            Missing::LogThenStatus { .. } => true,
            _ => false,
        }),
        spec_result_kind(api) == ResultKind::TypeId ==> spec_missing(api) is TypeId,
{
}

/// A character that may stand in one of the C symbols of this crate.
pub open spec fn is_symbol_char(c: char) -> bool {
    ('a' <= c && c <= 'z') || ('0' <= c && c <= '9') || c == '_'
}

/// A non-empty C identifier made of lower-case letters, digits and `_`,
/// not starting with a digit; in particular it holds no NUL character.
pub open spec fn is_c_identifier(s: Seq<char>) -> bool {
    &&& s.len() > 0
    &&& !('0' <= s[0] && s[0] <= '9')
    &&& forall|i: int| 0 <= i < s.len() ==> #[trigger] is_symbol_char(s[i])
}

/// Every symbol a binding resolves is a plain C identifier: it holds no NUL
/// character, as symbol lookup requires.
pub proof fn lemma_symbol_is_c_identifier(api: Api)
    ensures
        is_c_identifier(spec_symbol(api)),
{
    match api {
        Api::DlogPrint => reveal_strlit("dlog_print"),
        Api::TizenCoreInit => reveal_strlit("tizen_core_init"),
        Api::TizenCoreShutdown => reveal_strlit("tizen_core_shutdown"),
        Api::TizenCoreTaskCreate => reveal_strlit("tizen_core_task_create"),
        Api::TizenCoreTaskDestroy => reveal_strlit("tizen_core_task_destroy"),
        Api::TizenCoreTaskRun => reveal_strlit("tizen_core_task_run"),
        Api::TizenCoreTaskQuit => reveal_strlit("tizen_core_task_quit"),
        Api::TizenCoreTaskGetTizenCore => reveal_strlit("tizen_core_task_get_tizen_core"),
        Api::TizenCoreGetGlibContext => reveal_strlit("tizen_core_get_glib_context"),
        Api::TizenCoreAddIdleJob => reveal_strlit("tizen_core_add_idle_job"),
        Api::TizenCoreTaskGetId => reveal_strlit("tizen_core_task_get_id"),
        Api::TizenCoreAddChannelObject => reveal_strlit("tizen_core_add_channel_object"),
        Api::VconfGetStr => reveal_strlit("vconf_get_str"),
        Api::VconfGetInt => reveal_strlit("vconf_get_int"),
        Api::VconfSetStr => reveal_strlit("vconf_set_str"),
        Api::VconfSetInt => reveal_strlit("vconf_set_int"),
        Api::PkgmgrClientNew => reveal_strlit("pkgmgr_client_new"),
        Api::PkgmgrClientFree => reveal_strlit("pkgmgr_client_free"),
        Api::PkgmgrClientSetStatusType => reveal_strlit("pkgmgr_client_set_status_type"),
        Api::PkgmgrClientListenStatus => reveal_strlit("pkgmgr_client_listen_status"),
        Api::PkginfoFilterCreate => reveal_strlit("pkgmgrinfo_pkginfo_filter_create"),
        Api::PkginfoMetadataFilterCreate => reveal_strlit("pkgmgrinfo_pkginfo_metadata_filter_create"),
        Api::PkginfoMetadataFilterAdd => reveal_strlit("pkgmgrinfo_pkginfo_metadata_filter_add"),
        Api::PkginfoMetadataFilterForeach => reveal_strlit("pkgmgrinfo_pkginfo_metadata_filter_foreach"),
        Api::PkginfoFilterDestroy => reveal_strlit("pkgmgrinfo_pkginfo_filter_destroy"),
        Api::PkginfoMetadataFilterDestroy => reveal_strlit("pkgmgrinfo_pkginfo_metadata_filter_destroy"),
        Api::PkginfoGetPkgid => reveal_strlit("pkgmgrinfo_pkginfo_get_pkgid"),
        Api::PkginfoGetPkginfo => reveal_strlit("pkgmgrinfo_pkginfo_get_pkginfo"),
        Api::PkginfoGetUsrPkginfo => reveal_strlit("pkgmgrinfo_pkginfo_get_usr_pkginfo"),
        Api::PkginfoGetRootPath => reveal_strlit("pkgmgrinfo_pkginfo_get_root_path"),
        Api::PkginfoGetResPath => reveal_strlit("pkgmgrinfo_pkginfo_get_res_path"),
        Api::PkginfoGetMetadataValue => reveal_strlit("pkgmgrinfo_pkginfo_get_metadata_value"),
        Api::PkginfoDestroyPkginfo => reveal_strlit("pkgmgrinfo_pkginfo_destroy_pkginfo"),
        Api::GMainContextNew => reveal_strlit("g_main_context_new"),
        Api::GMainContextPushThreadDefault => reveal_strlit("g_main_context_push_thread_default"),
        Api::GMainContextPopThreadDefault => reveal_strlit("g_main_context_pop_thread_default"),
        Api::GMainContextUnref => reveal_strlit("g_main_context_unref"),
        Api::GMainLoopNew => reveal_strlit("g_main_loop_new"),
        Api::GMainLoopRun => reveal_strlit("g_main_loop_run"),
        Api::GMainLoopQuit => reveal_strlit("g_main_loop_quit"),
        Api::GMainLoopUnref => reveal_strlit("g_main_loop_unref"),
        Api::GObjectUnref => reveal_strlit("g_object_unref"),
        Api::GObjectNew => reveal_strlit("g_object_new"),
        Api::SoupServerGetType => reveal_strlit("soup_server_get_type"),
        Api::SoupServerListenAll => reveal_strlit("soup_server_listen_all"),
        Api::SoupServerAddHandler => reveal_strlit("soup_server_add_handler"),
        Api::SoupServerAddHandlerV3 => reveal_strlit("soup_server_add_handler"),
        Api::SoupServerDisconnect => reveal_strlit("soup_server_disconnect"),
        Api::SoupMessageHeadersAppend => reveal_strlit("soup_message_headers_append"),
        Api::SoupMessageSetStatus => reveal_strlit("soup_message_set_status"),
        Api::SoupMessageSetResponse => reveal_strlit("soup_message_set_response"),
        Api::SoupServerMessageSetStatus => reveal_strlit("soup_server_message_set_status"),
        Api::SoupServerMessageGetResponseBody => reveal_strlit("soup_server_message_get_response_body"),
        Api::SoupServerMessageGetResponseHeaders => reveal_strlit("soup_server_message_get_response_headers"),
        Api::SoupServerMessageGetRequestHeaders => reveal_strlit("soup_server_message_get_request_headers"),
        Api::SoupMessageBodyAppendBytes => reveal_strlit("soup_message_body_append_bytes"),
        Api::SoupMessageHeadersSetContentType => reveal_strlit("soup_message_headers_set_content_type"),
        Api::EventAddEventHandler => reveal_strlit("event_add_event_handler"),
        Api::EventRemoveEventHandler => reveal_strlit("event_remove_event_handler"),
        Api::AppControlCreate => reveal_strlit("app_control_create"),
        Api::AppControlDestroy => reveal_strlit("app_control_destroy"),
        Api::AppControlSetOperation => reveal_strlit("app_control_set_operation"),
        Api::AppControlSetAppId => reveal_strlit("app_control_set_app_id"),
        Api::AppControlSetUri => reveal_strlit("app_control_set_uri"),
        Api::AppControlAddExtraData => reveal_strlit("app_control_add_extra_data"),
        Api::AppControlGetExtraData => reveal_strlit("app_control_get_extra_data"),
        Api::AppControlSendLaunchRequest => reveal_strlit("app_control_send_launch_request"),
        Api::SystemInfoGetPlatformString => reveal_strlit("system_info_get_platform_string"),
        Api::SystemInfoGetPlatformInt => reveal_strlit("system_info_get_platform_int"),
        Api::SystemInfoGetPlatformBool => reveal_strlit("system_info_get_platform_bool"),
        Api::AlarmScheduleAfterDelay => reveal_strlit("alarm_schedule_after_delay"),
        Api::AlarmCancel => reveal_strlit("alarm_cancel"),
        Api::AlarmCancelAll => reveal_strlit("alarm_cancel_all"),
        Api::BundleCreate => reveal_strlit("bundle_create"),
        Api::BundleFree => reveal_strlit("bundle_free"),
        Api::BundleAddStr => reveal_strlit("bundle_add_str"),
        Api::AulLaunchApp => reveal_strlit("aul_launch_app"),
        Api::AulOpenApp => reveal_strlit("aul_open_app"),
        Api::ActionClientCreate => reveal_strlit("action_client_create"),
        Api::ActionClientDestroy => reveal_strlit("action_client_destroy"),
        Api::ActionClientGetAction => reveal_strlit("action_client_get_action"),
        Api::ActionClientForeachAction => reveal_strlit("action_client_foreach_action"),
        Api::ActionClientExecute => reveal_strlit("action_client_execute"),
        Api::ActionClientAddEventHandler => reveal_strlit("action_client_add_event_handler"),
        Api::ActionClientRemoveEventHandler => reveal_strlit("action_client_remove_event_handler"),
        Api::ActionClone => reveal_strlit("action_clone"),
        Api::ActionGetName => reveal_strlit("action_get_name"),
        Api::ActionGetSchema => reveal_strlit("action_get_schema"),
        Api::ActionDestroy => reveal_strlit("action_destroy"),
    }
}

/// The soup 3.0 way of registering a server handler resolves the same
/// symbol, in the same library, as the soup 2.4 way.
pub proof fn lemma_add_handler_variants_share_symbol()
    ensures
        spec_symbol(Api::SoupServerAddHandler) == spec_symbol(Api::SoupServerAddHandlerV3),
        spec_library(Api::SoupServerAddHandler) == spec_library(Api::SoupServerAddHandlerV3),
{
}

/// The prefix every C function of a library carries.
pub open spec fn symbol_prefix(lib: Library) -> Seq<char> {
    match lib {
        Library::Dlog => "dlog_"@,
        Library::TizenCore => "tizen_core_"@,
        Library::Vconf => "vconf_"@,
        Library::Pkgmgr => "pkgmgr_client_"@,
        Library::PkgmgrInfo => "pkgmgrinfo_pkginfo_"@,
        Library::Glib => "g_main_"@,
        Library::Gobject => "g_object_"@,
        Library::Soup => "soup_"@,
        Library::AppEvent => "event_"@,
        Library::AppControl => "app_control_"@,
        Library::SystemInfo => "system_info_"@,
        Library::Alarm => "alarm_"@,
        Library::Bundle => "bundle_"@,
        Library::Aul => "aul_"@,
        Library::Action => "action_"@,
    }
}

/// The name of a binding's C function after its library's prefix.
pub open spec fn symbol_suffix(api: Api) -> Seq<char> {
    match api {
        Api::DlogPrint => "print"@,
        Api::TizenCoreInit => "init"@,
        Api::TizenCoreShutdown => "shutdown"@,
        Api::TizenCoreTaskCreate => "task_create"@,
        Api::TizenCoreTaskDestroy => "task_destroy"@,
        Api::TizenCoreTaskRun => "task_run"@,
        Api::TizenCoreTaskQuit => "task_quit"@,
        Api::TizenCoreTaskGetTizenCore => "task_get_tizen_core"@,
        Api::TizenCoreGetGlibContext => "get_glib_context"@,
        Api::TizenCoreAddIdleJob => "add_idle_job"@,
        Api::TizenCoreTaskGetId => "task_get_id"@,
        Api::TizenCoreAddChannelObject => "add_channel_object"@,
        Api::VconfGetStr => "get_str"@,
        Api::VconfGetInt => "get_int"@,
        Api::VconfSetStr => "set_str"@,
        Api::VconfSetInt => "set_int"@,
        Api::PkgmgrClientNew => "new"@,
        Api::PkgmgrClientFree => "free"@,
        Api::PkgmgrClientSetStatusType => "set_status_type"@,
        Api::PkgmgrClientListenStatus => "listen_status"@,
        Api::PkginfoFilterCreate => "filter_create"@,
        Api::PkginfoMetadataFilterCreate => "metadata_filter_create"@,
        Api::PkginfoMetadataFilterAdd => "metadata_filter_add"@,
        Api::PkginfoMetadataFilterForeach => "metadata_filter_foreach"@,
        Api::PkginfoFilterDestroy => "filter_destroy"@,
        Api::PkginfoMetadataFilterDestroy => "metadata_filter_destroy"@,
        Api::PkginfoGetPkgid => "get_pkgid"@,
        Api::PkginfoGetPkginfo => "get_pkginfo"@,
        Api::PkginfoGetUsrPkginfo => "get_usr_pkginfo"@,
        Api::PkginfoGetRootPath => "get_root_path"@,
        Api::PkginfoGetResPath => "get_res_path"@,
        Api::PkginfoGetMetadataValue => "get_metadata_value"@,
        Api::PkginfoDestroyPkginfo => "destroy_pkginfo"@,
        Api::GMainContextNew => "context_new"@,
        Api::GMainContextPushThreadDefault => "context_push_thread_default"@,
        Api::GMainContextPopThreadDefault => "context_pop_thread_default"@,
        Api::GMainContextUnref => "context_unref"@,
        Api::GMainLoopNew => "loop_new"@,
        Api::GMainLoopRun => "loop_run"@,
        Api::GMainLoopQuit => "loop_quit"@,
        Api::GMainLoopUnref => "loop_unref"@,
        Api::GObjectUnref => "unref"@,
        Api::GObjectNew => "new"@,
        Api::SoupServerGetType => "server_get_type"@,
        Api::SoupServerListenAll => "server_listen_all"@,
        Api::SoupServerAddHandler => "server_add_handler"@,
        Api::SoupServerAddHandlerV3 => "server_add_handler"@,
        Api::SoupServerDisconnect => "server_disconnect"@,
        Api::SoupMessageHeadersAppend => "message_headers_append"@,
        Api::SoupMessageSetStatus => "message_set_status"@,
        Api::SoupMessageSetResponse => "message_set_response"@,
        Api::SoupServerMessageSetStatus => "server_message_set_status"@,
        Api::SoupServerMessageGetResponseBody => "server_message_get_response_body"@,
        Api::SoupServerMessageGetResponseHeaders => "server_message_get_response_headers"@,
        Api::SoupServerMessageGetRequestHeaders => "server_message_get_request_headers"@,
        Api::SoupMessageBodyAppendBytes => "message_body_append_bytes"@,
        Api::SoupMessageHeadersSetContentType => "message_headers_set_content_type"@,
        Api::EventAddEventHandler => "add_event_handler"@,
        Api::EventRemoveEventHandler => "remove_event_handler"@,
        Api::AppControlCreate => "create"@,
        Api::AppControlDestroy => "destroy"@,
        Api::AppControlSetOperation => "set_operation"@,
        Api::AppControlSetAppId => "set_app_id"@,
        Api::AppControlSetUri => "set_uri"@,
        Api::AppControlAddExtraData => "add_extra_data"@,
        Api::AppControlGetExtraData => "get_extra_data"@,
        Api::AppControlSendLaunchRequest => "send_launch_request"@,
        Api::SystemInfoGetPlatformString => "get_platform_string"@,
        Api::SystemInfoGetPlatformInt => "get_platform_int"@,
        Api::SystemInfoGetPlatformBool => "get_platform_bool"@,
        Api::AlarmScheduleAfterDelay => "schedule_after_delay"@,
        Api::AlarmCancel => "cancel"@,
        Api::AlarmCancelAll => "cancel_all"@,
        Api::BundleCreate => "create"@,
        Api::BundleFree => "free"@,
        Api::BundleAddStr => "add_str"@,
        Api::AulLaunchApp => "launch_app"@,
        Api::AulOpenApp => "open_app"@,
        Api::ActionClientCreate => "client_create"@,
        Api::ActionClientDestroy => "client_destroy"@,
        Api::ActionClientGetAction => "client_get_action"@,
        Api::ActionClientForeachAction => "client_foreach_action"@,
        Api::ActionClientExecute => "client_execute"@,
        Api::ActionClientAddEventHandler => "client_add_event_handler"@,
        Api::ActionClientRemoveEventHandler => "client_remove_event_handler"@,
        Api::ActionClone => "clone"@,
        Api::ActionGetName => "get_name"@,
        Api::ActionGetSchema => "get_schema"@,
        Api::ActionDestroy => "destroy"@,
    }
}

/// Each binding resolves the C function it is named after, and that
/// function carries the prefix of the library it is looked up in: the
/// symbol is the library's prefix followed by the binding's own name.
pub proof fn lemma_symbol_is_prefix_and_name(api: Api)
    ensures
        spec_symbol(api) == symbol_prefix(spec_library(api)) + symbol_suffix(api),
{
    match api {
        Api::DlogPrint => {
            reveal_strlit("dlog_print");
            reveal_strlit("dlog_");
            reveal_strlit("print");
            assert("dlog_print"@ =~= "dlog_"@ + "print"@);
        },
        Api::TizenCoreInit => {
            reveal_strlit("tizen_core_init");
            reveal_strlit("tizen_core_");
            reveal_strlit("init");
            assert("tizen_core_init"@ =~= "tizen_core_"@ + "init"@);
        },
        Api::TizenCoreShutdown => {
            reveal_strlit("tizen_core_shutdown");
            reveal_strlit("tizen_core_");
            reveal_strlit("shutdown");
            assert("tizen_core_shutdown"@ =~= "tizen_core_"@ + "shutdown"@);
        },
        Api::TizenCoreTaskCreate => {
            reveal_strlit("tizen_core_task_create");
            reveal_strlit("tizen_core_");
            reveal_strlit("task_create");
            assert("tizen_core_task_create"@ =~= "tizen_core_"@ + "task_create"@);
        },
        Api::TizenCoreTaskDestroy => {
            reveal_strlit("tizen_core_task_destroy");
            reveal_strlit("tizen_core_");
            reveal_strlit("task_destroy");
            assert("tizen_core_task_destroy"@ =~= "tizen_core_"@ + "task_destroy"@);
        },
        Api::TizenCoreTaskRun => {
            reveal_strlit("tizen_core_task_run");
            reveal_strlit("tizen_core_");
            reveal_strlit("task_run");
            assert("tizen_core_task_run"@ =~= "tizen_core_"@ + "task_run"@);
        },
        Api::TizenCoreTaskQuit => {
            reveal_strlit("tizen_core_task_quit");
            reveal_strlit("tizen_core_");
            reveal_strlit("task_quit");
            assert("tizen_core_task_quit"@ =~= "tizen_core_"@ + "task_quit"@);
        },
        Api::TizenCoreTaskGetTizenCore => {
            reveal_strlit("tizen_core_task_get_tizen_core");
            reveal_strlit("tizen_core_");
            reveal_strlit("task_get_tizen_core");
            assert("tizen_core_task_get_tizen_core"@ =~= "tizen_core_"@ + "task_get_tizen_core"@);
        },
        Api::TizenCoreGetGlibContext => {
            reveal_strlit("tizen_core_get_glib_context");
            reveal_strlit("tizen_core_");
            reveal_strlit("get_glib_context");
            assert("tizen_core_get_glib_context"@ =~= "tizen_core_"@ + "get_glib_context"@);
        },
        Api::TizenCoreAddIdleJob => {
            reveal_strlit("tizen_core_add_idle_job");
            reveal_strlit("tizen_core_");
            reveal_strlit("add_idle_job");
            assert("tizen_core_add_idle_job"@ =~= "tizen_core_"@ + "add_idle_job"@);
        },
        Api::TizenCoreTaskGetId => {
            reveal_strlit("tizen_core_task_get_id");
            reveal_strlit("tizen_core_");
            reveal_strlit("task_get_id");
            assert("tizen_core_task_get_id"@ =~= "tizen_core_"@ + "task_get_id"@);
        },
        Api::TizenCoreAddChannelObject => {
            reveal_strlit("tizen_core_add_channel_object");
            reveal_strlit("tizen_core_");
            reveal_strlit("add_channel_object");
            assert("tizen_core_add_channel_object"@ =~= "tizen_core_"@ + "add_channel_object"@);
        },
        Api::VconfGetStr => {
            reveal_strlit("vconf_get_str");
            reveal_strlit("vconf_");
            reveal_strlit("get_str");
            assert("vconf_get_str"@ =~= "vconf_"@ + "get_str"@);
        },
        Api::VconfGetInt => {
            reveal_strlit("vconf_get_int");
            reveal_strlit("vconf_");
            reveal_strlit("get_int");
            assert("vconf_get_int"@ =~= "vconf_"@ + "get_int"@);
        },
        Api::VconfSetStr => {
            reveal_strlit("vconf_set_str");
            reveal_strlit("vconf_");
            reveal_strlit("set_str");
            assert("vconf_set_str"@ =~= "vconf_"@ + "set_str"@);
        },
        Api::VconfSetInt => {
            reveal_strlit("vconf_set_int");
            reveal_strlit("vconf_");
            reveal_strlit("set_int");
            assert("vconf_set_int"@ =~= "vconf_"@ + "set_int"@);
        },
        Api::PkgmgrClientNew => {
            reveal_strlit("pkgmgr_client_new");
            reveal_strlit("pkgmgr_client_");
            reveal_strlit("new");
            assert("pkgmgr_client_new"@ =~= "pkgmgr_client_"@ + "new"@);
        },
        Api::PkgmgrClientFree => {
            reveal_strlit("pkgmgr_client_free");
            reveal_strlit("pkgmgr_client_");
            reveal_strlit("free");
            assert("pkgmgr_client_free"@ =~= "pkgmgr_client_"@ + "free"@);
        },
        Api::PkgmgrClientSetStatusType => {
            reveal_strlit("pkgmgr_client_set_status_type");
            reveal_strlit("pkgmgr_client_");
            reveal_strlit("set_status_type");
            assert("pkgmgr_client_set_status_type"@ =~= "pkgmgr_client_"@ + "set_status_type"@);
        },
        Api::PkgmgrClientListenStatus => {
            reveal_strlit("pkgmgr_client_listen_status");
            reveal_strlit("pkgmgr_client_");
            reveal_strlit("listen_status");
            assert("pkgmgr_client_listen_status"@ =~= "pkgmgr_client_"@ + "listen_status"@);
        },
        Api::PkginfoFilterCreate => {
            reveal_strlit("pkgmgrinfo_pkginfo_filter_create");
            reveal_strlit("pkgmgrinfo_pkginfo_");
            reveal_strlit("filter_create");
            assert("pkgmgrinfo_pkginfo_filter_create"@ =~= "pkgmgrinfo_pkginfo_"@ + "filter_create"@);
        },
        Api::PkginfoMetadataFilterCreate => {
            reveal_strlit("pkgmgrinfo_pkginfo_metadata_filter_create");
            reveal_strlit("pkgmgrinfo_pkginfo_");
            reveal_strlit("metadata_filter_create");
            assert("pkgmgrinfo_pkginfo_metadata_filter_create"@ =~= "pkgmgrinfo_pkginfo_"@ + "metadata_filter_create"@);
        },
        Api::PkginfoMetadataFilterAdd => {
            reveal_strlit("pkgmgrinfo_pkginfo_metadata_filter_add");
            reveal_strlit("pkgmgrinfo_pkginfo_");
            reveal_strlit("metadata_filter_add");
            assert("pkgmgrinfo_pkginfo_metadata_filter_add"@ =~= "pkgmgrinfo_pkginfo_"@ + "metadata_filter_add"@);
        },
        Api::PkginfoMetadataFilterForeach => {
            reveal_strlit("pkgmgrinfo_pkginfo_metadata_filter_foreach");
            reveal_strlit("pkgmgrinfo_pkginfo_");
            reveal_strlit("metadata_filter_foreach");
            assert("pkgmgrinfo_pkginfo_metadata_filter_foreach"@ =~= "pkgmgrinfo_pkginfo_"@ + "metadata_filter_foreach"@);
        },
        Api::PkginfoFilterDestroy => {
            reveal_strlit("pkgmgrinfo_pkginfo_filter_destroy");
            reveal_strlit("pkgmgrinfo_pkginfo_");
            reveal_strlit("filter_destroy");
            assert("pkgmgrinfo_pkginfo_filter_destroy"@ =~= "pkgmgrinfo_pkginfo_"@ + "filter_destroy"@);
        },
        Api::PkginfoMetadataFilterDestroy => {
            reveal_strlit("pkgmgrinfo_pkginfo_metadata_filter_destroy");
            reveal_strlit("pkgmgrinfo_pkginfo_");
            reveal_strlit("metadata_filter_destroy");
            assert("pkgmgrinfo_pkginfo_metadata_filter_destroy"@ =~= "pkgmgrinfo_pkginfo_"@ + "metadata_filter_destroy"@);
        },
        Api::PkginfoGetPkgid => {
            reveal_strlit("pkgmgrinfo_pkginfo_get_pkgid");
            reveal_strlit("pkgmgrinfo_pkginfo_");
            reveal_strlit("get_pkgid");
            assert("pkgmgrinfo_pkginfo_get_pkgid"@ =~= "pkgmgrinfo_pkginfo_"@ + "get_pkgid"@);
        },
        Api::PkginfoGetPkginfo => {
            reveal_strlit("pkgmgrinfo_pkginfo_get_pkginfo");
            reveal_strlit("pkgmgrinfo_pkginfo_");
            reveal_strlit("get_pkginfo");
            assert("pkgmgrinfo_pkginfo_get_pkginfo"@ =~= "pkgmgrinfo_pkginfo_"@ + "get_pkginfo"@);
        },
        Api::PkginfoGetUsrPkginfo => {
            reveal_strlit("pkgmgrinfo_pkginfo_get_usr_pkginfo");
            reveal_strlit("pkgmgrinfo_pkginfo_");
            reveal_strlit("get_usr_pkginfo");
            assert("pkgmgrinfo_pkginfo_get_usr_pkginfo"@ =~= "pkgmgrinfo_pkginfo_"@ + "get_usr_pkginfo"@);
        },
        Api::PkginfoGetRootPath => {
            reveal_strlit("pkgmgrinfo_pkginfo_get_root_path");
            reveal_strlit("pkgmgrinfo_pkginfo_");
            reveal_strlit("get_root_path");
            assert("pkgmgrinfo_pkginfo_get_root_path"@ =~= "pkgmgrinfo_pkginfo_"@ + "get_root_path"@);
        },
        Api::PkginfoGetResPath => {
            reveal_strlit("pkgmgrinfo_pkginfo_get_res_path");
            reveal_strlit("pkgmgrinfo_pkginfo_");
            reveal_strlit("get_res_path");
            assert("pkgmgrinfo_pkginfo_get_res_path"@ =~= "pkgmgrinfo_pkginfo_"@ + "get_res_path"@);
        },
        Api::PkginfoGetMetadataValue => {
            reveal_strlit("pkgmgrinfo_pkginfo_get_metadata_value");
            reveal_strlit("pkgmgrinfo_pkginfo_");
            reveal_strlit("get_metadata_value");
            assert("pkgmgrinfo_pkginfo_get_metadata_value"@ =~= "pkgmgrinfo_pkginfo_"@ + "get_metadata_value"@);
        },
        Api::PkginfoDestroyPkginfo => {
            reveal_strlit("pkgmgrinfo_pkginfo_destroy_pkginfo");
            reveal_strlit("pkgmgrinfo_pkginfo_");
            reveal_strlit("destroy_pkginfo");
            assert("pkgmgrinfo_pkginfo_destroy_pkginfo"@ =~= "pkgmgrinfo_pkginfo_"@ + "destroy_pkginfo"@);
        },
        Api::GMainContextNew => {
            reveal_strlit("g_main_context_new");
            reveal_strlit("g_main_");
            reveal_strlit("context_new");
            assert("g_main_context_new"@ =~= "g_main_"@ + "context_new"@);
        },
        Api::GMainContextPushThreadDefault => {
            reveal_strlit("g_main_context_push_thread_default");
            reveal_strlit("g_main_");
            reveal_strlit("context_push_thread_default");
            assert("g_main_context_push_thread_default"@ =~= "g_main_"@ + "context_push_thread_default"@);
        },
        Api::GMainContextPopThreadDefault => {
            reveal_strlit("g_main_context_pop_thread_default");
            reveal_strlit("g_main_");
            reveal_strlit("context_pop_thread_default");
            assert("g_main_context_pop_thread_default"@ =~= "g_main_"@ + "context_pop_thread_default"@);
        },
        Api::GMainContextUnref => {
            reveal_strlit("g_main_context_unref");
            reveal_strlit("g_main_");
            reveal_strlit("context_unref");
            assert("g_main_context_unref"@ =~= "g_main_"@ + "context_unref"@);
        },
        Api::GMainLoopNew => {
            reveal_strlit("g_main_loop_new");
            reveal_strlit("g_main_");
            reveal_strlit("loop_new");
            assert("g_main_loop_new"@ =~= "g_main_"@ + "loop_new"@);
        },
        Api::GMainLoopRun => {
            reveal_strlit("g_main_loop_run");
            reveal_strlit("g_main_");
            reveal_strlit("loop_run");
            assert("g_main_loop_run"@ =~= "g_main_"@ + "loop_run"@);
        },
        Api::GMainLoopQuit => {
            reveal_strlit("g_main_loop_quit");
            reveal_strlit("g_main_");
            reveal_strlit("loop_quit");
            assert("g_main_loop_quit"@ =~= "g_main_"@ + "loop_quit"@);
        },
        Api::GMainLoopUnref => {
            reveal_strlit("g_main_loop_unref");
            reveal_strlit("g_main_");
            reveal_strlit("loop_unref");
            assert("g_main_loop_unref"@ =~= "g_main_"@ + "loop_unref"@);
        },
        Api::GObjectUnref => {
            reveal_strlit("g_object_unref");
            reveal_strlit("g_object_");
            reveal_strlit("unref");
            assert("g_object_unref"@ =~= "g_object_"@ + "unref"@);
        },
        Api::GObjectNew => {
            reveal_strlit("g_object_new");
            reveal_strlit("g_object_");
            reveal_strlit("new");
            assert("g_object_new"@ =~= "g_object_"@ + "new"@);
        },
        Api::SoupServerGetType => {
            reveal_strlit("soup_server_get_type");
            reveal_strlit("soup_");
            reveal_strlit("server_get_type");
            assert("soup_server_get_type"@ =~= "soup_"@ + "server_get_type"@);
        },
        Api::SoupServerListenAll => {
            reveal_strlit("soup_server_listen_all");
            reveal_strlit("soup_");
            reveal_strlit("server_listen_all");
            assert("soup_server_listen_all"@ =~= "soup_"@ + "server_listen_all"@);
        },
        Api::SoupServerAddHandler => {
            reveal_strlit("soup_server_add_handler");
            reveal_strlit("soup_");
            reveal_strlit("server_add_handler");
            assert("soup_server_add_handler"@ =~= "soup_"@ + "server_add_handler"@);
        },
        Api::SoupServerAddHandlerV3 => {
            reveal_strlit("soup_server_add_handler");
            reveal_strlit("soup_");
            reveal_strlit("server_add_handler");
            assert("soup_server_add_handler"@ =~= "soup_"@ + "server_add_handler"@);
        },
        Api::SoupServerDisconnect => {
            reveal_strlit("soup_server_disconnect");
            reveal_strlit("soup_");
            reveal_strlit("server_disconnect");
            assert("soup_server_disconnect"@ =~= "soup_"@ + "server_disconnect"@);
        },
        Api::SoupMessageHeadersAppend => {
            reveal_strlit("soup_message_headers_append");
            reveal_strlit("soup_");
            reveal_strlit("message_headers_append");
            assert("soup_message_headers_append"@ =~= "soup_"@ + "message_headers_append"@);
        },
        Api::SoupMessageSetStatus => {
            reveal_strlit("soup_message_set_status");
            reveal_strlit("soup_");
            reveal_strlit("message_set_status");
            assert("soup_message_set_status"@ =~= "soup_"@ + "message_set_status"@);
        },
        Api::SoupMessageSetResponse => {
            reveal_strlit("soup_message_set_response");
            reveal_strlit("soup_");
            reveal_strlit("message_set_response");
            assert("soup_message_set_response"@ =~= "soup_"@ + "message_set_response"@);
        },
        Api::SoupServerMessageSetStatus => {
            reveal_strlit("soup_server_message_set_status");
            reveal_strlit("soup_");
            reveal_strlit("server_message_set_status");
            assert("soup_server_message_set_status"@ =~= "soup_"@ + "server_message_set_status"@);
        },
        Api::SoupServerMessageGetResponseBody => {
            reveal_strlit("soup_server_message_get_response_body");
            reveal_strlit("soup_");
            reveal_strlit("server_message_get_response_body");
            assert("soup_server_message_get_response_body"@ =~= "soup_"@ + "server_message_get_response_body"@);
        },
        Api::SoupServerMessageGetResponseHeaders => {
            reveal_strlit("soup_server_message_get_response_headers");
            reveal_strlit("soup_");
            reveal_strlit("server_message_get_response_headers");
            assert("soup_server_message_get_response_headers"@ =~= "soup_"@ + "server_message_get_response_headers"@);
        },
        Api::SoupServerMessageGetRequestHeaders => {
            reveal_strlit("soup_server_message_get_request_headers");
            reveal_strlit("soup_");
            reveal_strlit("server_message_get_request_headers");
            assert("soup_server_message_get_request_headers"@ =~= "soup_"@ + "server_message_get_request_headers"@);
        },
        Api::SoupMessageBodyAppendBytes => {
            reveal_strlit("soup_message_body_append_bytes");
            reveal_strlit("soup_");
            reveal_strlit("message_body_append_bytes");
            assert("soup_message_body_append_bytes"@ =~= "soup_"@ + "message_body_append_bytes"@);
        },
        Api::SoupMessageHeadersSetContentType => {
            reveal_strlit("soup_message_headers_set_content_type");
            reveal_strlit("soup_");
            reveal_strlit("message_headers_set_content_type");
            assert("soup_message_headers_set_content_type"@ =~= "soup_"@ + "message_headers_set_content_type"@);
        },
        Api::EventAddEventHandler => {
            reveal_strlit("event_add_event_handler");
            reveal_strlit("event_");
            reveal_strlit("add_event_handler");
            assert("event_add_event_handler"@ =~= "event_"@ + "add_event_handler"@);
        },
        Api::EventRemoveEventHandler => {
            reveal_strlit("event_remove_event_handler");
            reveal_strlit("event_");
            reveal_strlit("remove_event_handler");
            assert("event_remove_event_handler"@ =~= "event_"@ + "remove_event_handler"@);
        },
        Api::AppControlCreate => {
            reveal_strlit("app_control_create");
            reveal_strlit("app_control_");
            reveal_strlit("create");
            assert("app_control_create"@ =~= "app_control_"@ + "create"@);
        },
        Api::AppControlDestroy => {
            reveal_strlit("app_control_destroy");
            reveal_strlit("app_control_");
            reveal_strlit("destroy");
            assert("app_control_destroy"@ =~= "app_control_"@ + "destroy"@);
        },
        Api::AppControlSetOperation => {
            reveal_strlit("app_control_set_operation");
            reveal_strlit("app_control_");
            reveal_strlit("set_operation");
            assert("app_control_set_operation"@ =~= "app_control_"@ + "set_operation"@);
        },
        Api::AppControlSetAppId => {
            reveal_strlit("app_control_set_app_id");
            reveal_strlit("app_control_");
            reveal_strlit("set_app_id");
            assert("app_control_set_app_id"@ =~= "app_control_"@ + "set_app_id"@);
        },
        Api::AppControlSetUri => {
            reveal_strlit("app_control_set_uri");
            reveal_strlit("app_control_");
            reveal_strlit("set_uri");
            assert("app_control_set_uri"@ =~= "app_control_"@ + "set_uri"@);
        },
        Api::AppControlAddExtraData => {
            reveal_strlit("app_control_add_extra_data");
            reveal_strlit("app_control_");
            reveal_strlit("add_extra_data");
            assert("app_control_add_extra_data"@ =~= "app_control_"@ + "add_extra_data"@);
        },
        Api::AppControlGetExtraData => {
            reveal_strlit("app_control_get_extra_data");
            reveal_strlit("app_control_");
            reveal_strlit("get_extra_data");
            assert("app_control_get_extra_data"@ =~= "app_control_"@ + "get_extra_data"@);
        },
        Api::AppControlSendLaunchRequest => {
            reveal_strlit("app_control_send_launch_request");
            reveal_strlit("app_control_");
            reveal_strlit("send_launch_request");
            assert("app_control_send_launch_request"@ =~= "app_control_"@ + "send_launch_request"@);
        },
        Api::SystemInfoGetPlatformString => {
            reveal_strlit("system_info_get_platform_string");
            reveal_strlit("system_info_");
            reveal_strlit("get_platform_string");
            assert("system_info_get_platform_string"@ =~= "system_info_"@ + "get_platform_string"@);
        },
        Api::SystemInfoGetPlatformInt => {
            reveal_strlit("system_info_get_platform_int");
            reveal_strlit("system_info_");
            reveal_strlit("get_platform_int");
            assert("system_info_get_platform_int"@ =~= "system_info_"@ + "get_platform_int"@);
        },
        Api::SystemInfoGetPlatformBool => {
            reveal_strlit("system_info_get_platform_bool");
            reveal_strlit("system_info_");
            reveal_strlit("get_platform_bool");
            assert("system_info_get_platform_bool"@ =~= "system_info_"@ + "get_platform_bool"@);
        },
        Api::AlarmScheduleAfterDelay => {
            reveal_strlit("alarm_schedule_after_delay");
            reveal_strlit("alarm_");
            reveal_strlit("schedule_after_delay");
            assert("alarm_schedule_after_delay"@ =~= "alarm_"@ + "schedule_after_delay"@);
        },
        Api::AlarmCancel => {
            reveal_strlit("alarm_cancel");
            reveal_strlit("alarm_");
            reveal_strlit("cancel");
            assert("alarm_cancel"@ =~= "alarm_"@ + "cancel"@);
        },
        Api::AlarmCancelAll => {
            reveal_strlit("alarm_cancel_all");
            reveal_strlit("alarm_");
            reveal_strlit("cancel_all");
            assert("alarm_cancel_all"@ =~= "alarm_"@ + "cancel_all"@);
        },
        Api::BundleCreate => {
            reveal_strlit("bundle_create");
            reveal_strlit("bundle_");
            reveal_strlit("create");
            assert("bundle_create"@ =~= "bundle_"@ + "create"@);
        },
        Api::BundleFree => {
            reveal_strlit("bundle_free");
            reveal_strlit("bundle_");
            reveal_strlit("free");
            assert("bundle_free"@ =~= "bundle_"@ + "free"@);
        },
        Api::BundleAddStr => {
            reveal_strlit("bundle_add_str");
            reveal_strlit("bundle_");
            reveal_strlit("add_str");
            assert("bundle_add_str"@ =~= "bundle_"@ + "add_str"@);
        },
        Api::AulLaunchApp => {
            reveal_strlit("aul_launch_app");
            reveal_strlit("aul_");
            reveal_strlit("launch_app");
            assert("aul_launch_app"@ =~= "aul_"@ + "launch_app"@);
        },
        Api::AulOpenApp => {
            reveal_strlit("aul_open_app");
            reveal_strlit("aul_");
            reveal_strlit("open_app");
            assert("aul_open_app"@ =~= "aul_"@ + "open_app"@);
        },
        Api::ActionClientCreate => {
            reveal_strlit("action_client_create");
            reveal_strlit("action_");
            reveal_strlit("client_create");
            assert("action_client_create"@ =~= "action_"@ + "client_create"@);
        },
        Api::ActionClientDestroy => {
            reveal_strlit("action_client_destroy");
            reveal_strlit("action_");
            reveal_strlit("client_destroy");
            assert("action_client_destroy"@ =~= "action_"@ + "client_destroy"@);
        },
        Api::ActionClientGetAction => {
            reveal_strlit("action_client_get_action");
            reveal_strlit("action_");
            reveal_strlit("client_get_action");
            assert("action_client_get_action"@ =~= "action_"@ + "client_get_action"@);
        },
        Api::ActionClientForeachAction => {
            reveal_strlit("action_client_foreach_action");
            reveal_strlit("action_");
            reveal_strlit("client_foreach_action");
            assert("action_client_foreach_action"@ =~= "action_"@ + "client_foreach_action"@);
        },
        Api::ActionClientExecute => {
            reveal_strlit("action_client_execute");
            reveal_strlit("action_");
            reveal_strlit("client_execute");
            assert("action_client_execute"@ =~= "action_"@ + "client_execute"@);
        },
        Api::ActionClientAddEventHandler => {
            reveal_strlit("action_client_add_event_handler");
            reveal_strlit("action_");
            reveal_strlit("client_add_event_handler");
            assert("action_client_add_event_handler"@ =~= "action_"@ + "client_add_event_handler"@);
        },
        Api::ActionClientRemoveEventHandler => {
            reveal_strlit("action_client_remove_event_handler");
            reveal_strlit("action_");
            reveal_strlit("client_remove_event_handler");
            assert("action_client_remove_event_handler"@ =~= "action_"@ + "client_remove_event_handler"@);
        },
        Api::ActionClone => {
            reveal_strlit("action_clone");
            reveal_strlit("action_");
            reveal_strlit("clone");
            assert("action_clone"@ =~= "action_"@ + "clone"@);
        },
        Api::ActionGetName => {
            reveal_strlit("action_get_name");
            reveal_strlit("action_");
            reveal_strlit("get_name");
            assert("action_get_name"@ =~= "action_"@ + "get_name"@);
        },
        Api::ActionGetSchema => {
            reveal_strlit("action_get_schema");
            reveal_strlit("action_");
            reveal_strlit("get_schema");
            assert("action_get_schema"@ =~= "action_"@ + "get_schema"@);
        },
        Api::ActionDestroy => {
            reveal_strlit("action_destroy");
            reveal_strlit("action_");
            reveal_strlit("destroy");
            assert("action_destroy"@ =~= "action_"@ + "destroy"@);
        },
    }
}

/// What a binding whose C function returns a status reports when it cannot be
/// reached: the pkgmgr-info, Action and aul functions report failure (-1),
/// as do the tizen-core queries and pkgmgr's status-type setter; soup's
/// listen reports TRUE; dlog logs, vconf's int getter stores 0; the others
/// report 0.
pub open spec fn expected_status_fallback(api: Api) -> Missing {
    match api {
        Api::DlogPrint => Missing::LogThenStatus { status: 0i32 },
        Api::VconfGetInt => Missing::StoreThenStatus { stored: 0i32, status: 0i32 },
        Api::SoupServerListenAll => Missing::Status(1i32),
        Api::TizenCoreTaskGetTizenCore
        | Api::TizenCoreAddIdleJob
        | Api::TizenCoreTaskGetId
        | Api::TizenCoreAddChannelObject
        | Api::PkgmgrClientSetStatusType => Missing::Status(-1i32),
        _ => match spec_library(api) {
            Library::PkgmgrInfo | Library::Action | Library::Aul => Missing::Status(-1i32),
            _ => Missing::Status(0i32),
        },
    }
}


/// The bindings whose C function returns a handle are exactly the
/// constructors and getters of native objects listed here, the ones returning
/// nothing are the GLib/GObject procedures and the soup server and message
/// setters, and only `soup_server_get_type` returns a type id.
pub proof fn lemma_result_kinds(api: Api)
    ensures
        (spec_result_kind(api) == ResultKind::Handle) == (api == Api::TizenCoreGetGlibContext
            || api == Api::VconfGetStr || api == Api::PkgmgrClientNew || api == Api::GMainContextNew
            || api == Api::GMainLoopNew || api == Api::GObjectNew
            || api == Api::SoupServerMessageGetResponseBody
            || api == Api::SoupServerMessageGetResponseHeaders
            || api == Api::SoupServerMessageGetRequestHeaders || api == Api::BundleCreate),
        (spec_result_kind(api) == ResultKind::Nothing) == (api == Api::GMainContextPushThreadDefault
            || api == Api::GMainContextPopThreadDefault || api == Api::GMainContextUnref
            || api == Api::GMainLoopRun || api == Api::GMainLoopQuit || api == Api::GMainLoopUnref
            || api == Api::GObjectUnref || api == Api::SoupServerAddHandler
            || api == Api::SoupServerAddHandlerV3 || api == Api::SoupServerDisconnect
            || api == Api::SoupMessageHeadersAppend || api == Api::SoupMessageSetStatus
            || api == Api::SoupMessageSetResponse || api == Api::SoupServerMessageSetStatus
            || api == Api::SoupMessageBodyAppendBytes
            || api == Api::SoupMessageHeadersSetContentType),
        (spec_result_kind(api) == ResultKind::TypeId) == (api == Api::SoupServerGetType),
{
}

/// A binding's fallback follows from the kind of value its C function
/// returns: no handle, nothing, the invalid type id, or the status above.
pub proof fn lemma_fallback_follows_result(api: Api)
    ensures
        spec_missing(api) == match spec_result_kind(api) {
            ResultKind::Handle => Missing::NullHandle,
            ResultKind::Nothing => Missing::Nothing,
            ResultKind::TypeId => Missing::TypeId(0usize),
            ResultKind::Status => expected_status_fallback(api),
        },
{
}

/// Every pkgmgr-info binding falls back to a failure status, never to the
/// success code `PMINFO_R_OK`; every Action binding likewise never to
/// `ACTION_ERROR_NONE`.
pub proof fn lemma_unreachable_query_reports_failure(api: Api)
    ensures
        spec_library(api) == Library::PkgmgrInfo ==> spec_missing(api) == Missing::Status(-1i32)
            && spec_missing(api) != Missing::Status(crate::codes::PMINFO_R_OK),
        spec_library(api) == Library::Action ==> spec_missing(api) == Missing::Status(-1i32)
            && spec_missing(api) != Missing::Status(crate::codes::ACTION_ERROR_NONE),
        spec_library(api) == Library::Aul ==> spec_missing(api) == Missing::Status(-1i32),
        spec_library(api) == Library::AppControl ==> spec_missing(api) == Missing::Status(
            crate::codes::APP_CONTROL_ERROR_NONE,
        ),
        spec_library(api) == Library::SystemInfo ==> spec_missing(api) == Missing::Status(
            crate::codes::SYSTEM_INFO_ERROR_NONE,
        ),
{
    lemma_fallback_follows_result(api);
}

} // verus!
