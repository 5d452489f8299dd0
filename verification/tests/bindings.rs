use tizen_sys::api::{Api, Missing};
use tizen_sys::codes::{
    action_event_type_e, ACTION_ERROR_NONE, APP_CONTROL_ERROR_NONE, DLOG_DEBUG, DLOG_ERROR,
    DLOG_INFO, DLOG_WARN, PC_LISTENING, PKGMGR_CLIENT_STATUS_ALL, PMINFO_R_OK, SOUP_MEMORY_COPY,
    SYSTEM_INFO_ERROR_NONE,
};
use tizen_sys::dispatch::{outcome, Outcome};
use tizen_sys::library::{load_step, Library, LoadStep, LIBRARY_COUNT};
use tizen_sys::mock_log::{decimal_string, mock_log_line};

fn all_apis() -> Vec<Api> {
    vec![
        Api::DlogPrint,
        Api::TizenCoreInit,
        Api::TizenCoreShutdown,
        Api::TizenCoreTaskCreate,
        Api::TizenCoreTaskDestroy,
        Api::TizenCoreTaskRun,
        Api::TizenCoreTaskQuit,
        Api::TizenCoreTaskGetTizenCore,
        Api::TizenCoreGetGlibContext,
        Api::TizenCoreAddIdleJob,
        Api::TizenCoreTaskGetId,
        Api::TizenCoreAddChannelObject,
        Api::VconfGetStr,
        Api::VconfGetInt,
        Api::VconfSetStr,
        Api::VconfSetInt,
        Api::PkgmgrClientNew,
        Api::PkgmgrClientFree,
        Api::PkgmgrClientSetStatusType,
        Api::PkgmgrClientListenStatus,
        Api::PkginfoFilterCreate,
        Api::PkginfoMetadataFilterCreate,
        Api::PkginfoMetadataFilterAdd,
        Api::PkginfoMetadataFilterForeach,
        Api::PkginfoFilterDestroy,
        Api::PkginfoMetadataFilterDestroy,
        Api::PkginfoGetPkgid,
        Api::PkginfoGetPkginfo,
        Api::PkginfoGetUsrPkginfo,
        Api::PkginfoGetRootPath,
        Api::PkginfoGetResPath,
        Api::PkginfoGetMetadataValue,
        Api::PkginfoDestroyPkginfo,
        Api::GMainContextNew,
        Api::GMainContextPushThreadDefault,
        Api::GMainContextPopThreadDefault,
        Api::GMainContextUnref,
        Api::GMainLoopNew,
        Api::GMainLoopRun,
        Api::GMainLoopQuit,
        Api::GMainLoopUnref,
        Api::GObjectUnref,
        Api::GObjectNew,
        Api::SoupServerGetType,
        Api::SoupServerListenAll,
        Api::SoupServerAddHandler,
        Api::SoupServerAddHandlerV3,
        Api::SoupServerDisconnect,
        Api::SoupMessageHeadersAppend,
        Api::SoupMessageSetStatus,
        Api::SoupMessageSetResponse,
        Api::SoupServerMessageSetStatus,
        Api::SoupServerMessageGetResponseBody,
        Api::SoupServerMessageGetResponseHeaders,
        Api::SoupServerMessageGetRequestHeaders,
        Api::SoupMessageBodyAppendBytes,
        Api::SoupMessageHeadersSetContentType,
        Api::EventAddEventHandler,
        Api::EventRemoveEventHandler,
        Api::AppControlCreate,
        Api::AppControlDestroy,
        Api::AppControlSetOperation,
        Api::AppControlSetAppId,
        Api::AppControlSetUri,
        Api::AppControlAddExtraData,
        Api::AppControlGetExtraData,
        Api::AppControlSendLaunchRequest,
        Api::SystemInfoGetPlatformString,
        Api::SystemInfoGetPlatformInt,
        Api::SystemInfoGetPlatformBool,
        Api::AlarmScheduleAfterDelay,
        Api::AlarmCancel,
        Api::AlarmCancelAll,
        Api::BundleCreate,
        Api::BundleFree,
        Api::BundleAddStr,
        Api::AulLaunchApp,
        Api::AulOpenApp,
        Api::ActionClientCreate,
        Api::ActionClientDestroy,
        Api::ActionClientGetAction,
        Api::ActionClientForeachAction,
        Api::ActionClientExecute,
        Api::ActionClientAddEventHandler,
        Api::ActionClientRemoveEventHandler,
        Api::ActionClone,
        Api::ActionGetName,
        Api::ActionGetSchema,
        Api::ActionDestroy,
    ]
}

fn all_libraries() -> Vec<Library> {
    vec![
        Library::Dlog,
        Library::TizenCore,
        Library::Vconf,
        Library::Pkgmgr,
        Library::PkgmgrInfo,
        Library::Glib,
        Library::Gobject,
        Library::Soup,
        Library::AppEvent,
        Library::AppControl,
        Library::SystemInfo,
        Library::Alarm,
        Library::Bundle,
        Library::Aul,
        Library::Action,
    ]
}

/// Drives `load_step` the way the companion crate does, with `opens[i]`
/// telling whether candidate `i` opens; returns the names tried and the end.
fn drive_load(lib: Library, opens: &[bool]) -> (Vec<&'static str>, LoadStep) {
    let mut tried = 0usize;
    let mut last = false;
    let mut names = Vec::new();
    loop {
        let step = load_step(lib, tried, last);
        match step {
            LoadStep::Open(name) => {
                names.push(name);
                last = opens[tried];
                tried += 1;
            }
            other => return (names, other),
        }
    }
}

#[test]
fn every_binding_is_listed_once() {
    let apis = all_apis();
    assert_eq!(apis.len(), 89);
    for (i, a) in apis.iter().enumerate() {
        for b in apis.iter().skip(i + 1) {
            assert_ne!(a, b);
        }
    }
}

#[test]
fn symbols_are_plain_c_identifiers() {
    for api in all_apis() {
        let s = api.symbol();
        assert!(!s.is_empty());
        assert!(!s.as_bytes()[0].is_ascii_digit());
        assert!(s.bytes().all(|b| b.is_ascii_lowercase() || b.is_ascii_digit() || b == b'_'), "{}", s);
    }
}

#[test]
fn only_the_add_handler_variants_share_a_symbol() {
    let apis = all_apis();
    for (i, a) in apis.iter().enumerate() {
        for b in apis.iter().skip(i + 1) {
            let shared = a.symbol() == b.symbol();
            let handler_pair = (*a == Api::SoupServerAddHandler && *b == Api::SoupServerAddHandlerV3)
                || (*b == Api::SoupServerAddHandler && *a == Api::SoupServerAddHandlerV3);
            assert_eq!(shared, handler_pair, "{:?} {:?}", a, b);
        }
    }
    assert_eq!(Api::SoupServerAddHandlerV3.symbol(), "soup_server_add_handler");
}

#[test]
fn symbols_name_their_c_functions() {
    assert_eq!(Api::DlogPrint.symbol(), "dlog_print");
    assert_eq!(Api::TizenCoreTaskGetTizenCore.symbol(), "tizen_core_task_get_tizen_core");
    assert_eq!(Api::VconfGetInt.symbol(), "vconf_get_int");
    assert_eq!(Api::PkginfoGetUsrPkginfo.symbol(), "pkgmgrinfo_pkginfo_get_usr_pkginfo");
    assert_eq!(Api::GMainLoopNew.symbol(), "g_main_loop_new");
    assert_eq!(
        Api::SoupMessageHeadersSetContentType.symbol(),
        "soup_message_headers_set_content_type"
    );
    assert_eq!(Api::ActionGetSchema.symbol(), "action_get_schema");
}

#[test]
fn bindings_live_in_their_libraries() {
    assert_eq!(Api::DlogPrint.library(), Library::Dlog);
    assert_eq!(Api::TizenCoreInit.library(), Library::TizenCore);
    assert_eq!(Api::VconfSetStr.library(), Library::Vconf);
    assert_eq!(Api::PkgmgrClientNew.library(), Library::Pkgmgr);
    assert_eq!(Api::PkginfoFilterCreate.library(), Library::PkgmgrInfo);
    assert_eq!(Api::EventAddEventHandler.library(), Library::AppEvent);
    assert_eq!(Api::AppControlSetUri.library(), Library::AppControl);
    assert_eq!(Api::SystemInfoGetPlatformBool.library(), Library::SystemInfo);
    assert_eq!(Api::AlarmCancelAll.library(), Library::Alarm);
    assert_eq!(Api::BundleAddStr.library(), Library::Bundle);
    assert_eq!(Api::AulOpenApp.library(), Library::Aul);
    assert_eq!(Api::ActionDestroy.library(), Library::Action);
}

#[test]
fn glib_and_gobject_bindings_resolve_from_their_own_libraries() {
    for api in [
        Api::GMainContextNew,
        Api::GMainContextPushThreadDefault,
        Api::GMainContextPopThreadDefault,
        Api::GMainContextUnref,
        Api::GMainLoopNew,
        Api::GMainLoopRun,
        Api::GMainLoopQuit,
        Api::GMainLoopUnref,
    ] {
        assert_eq!(api.library(), Library::Glib);
    }
    assert_eq!(Api::GObjectNew.library(), Library::Gobject);
    assert_eq!(Api::GObjectUnref.library(), Library::Gobject);
    assert_eq!(Api::SoupServerGetType.library(), Library::Soup);
    assert_eq!(Api::SoupServerMessageGetResponseBody.library(), Library::Soup);
}

#[test]
fn soup_3_is_probed_before_soup_2_4() {
    assert_eq!(Library::Soup.candidate_count(), 4);
    let (names, end) = drive_load(Library::Soup, &[true, true, true, true]);
    assert_eq!(names, vec!["libsoup-3.0.so.0"]);
    assert_eq!(end, LoadStep::Opened(0));
    let (names, end) = drive_load(Library::Soup, &[false, true, false, false]);
    assert_eq!(names, vec!["libsoup-3.0.so.0", "libsoup-3.0.so"]);
    assert_eq!(end, LoadStep::Opened(1));
    let (names, end) = drive_load(Library::Soup, &[false, false, false, true]);
    assert_eq!(
        names,
        vec!["libsoup-3.0.so.0", "libsoup-3.0.so", "libsoup-2.4.so.1", "libsoup-2.4.so"]
    );
    assert_eq!(end, LoadStep::Opened(3));
    let (_, end) = drive_load(Library::Soup, &[false, false, false, false]);
    assert_eq!(end, LoadStep::Unavailable);
}

#[test]
fn fallback_parts() {
    assert_eq!(Missing::Status(-1).status(), Some(-1));
    assert_eq!(Missing::StoreThenStatus { stored: 7, status: 3 }.status(), Some(3));
    assert_eq!(Missing::StoreThenStatus { stored: 7, status: 3 }.stored(), Some(7));
    assert_eq!(Missing::LogThenStatus { status: 0 }.status(), Some(0));
    assert!(Missing::LogThenStatus { status: 0 }.logs());
    assert!(!Missing::Status(0).logs());
    assert_eq!(Missing::NullHandle.status(), None);
    assert_eq!(Missing::Nothing.status(), None);
    assert_eq!(Missing::TypeId(0).status(), None);
    assert_eq!(Missing::TypeId(0).type_id(), Some(0));
    assert_eq!(Missing::Status(0).type_id(), None);
    assert_eq!(Missing::Status(0).stored(), None);
}

#[test]
fn status_bindings_have_status_fallbacks() {
    let handles = [
        Api::TizenCoreGetGlibContext,
        Api::VconfGetStr,
        Api::PkgmgrClientNew,
        Api::GMainContextNew,
        Api::GMainLoopNew,
        Api::GObjectNew,
        Api::SoupServerMessageGetResponseBody,
        Api::SoupServerMessageGetResponseHeaders,
        Api::SoupServerMessageGetRequestHeaders,
        Api::BundleCreate,
    ];
    for api in all_apis() {
        let m = api.missing();
        let has_status = m.status().is_some();
        let other = matches!(m, Missing::NullHandle | Missing::Nothing | Missing::TypeId(_));
        assert!(has_status != other, "{:?}", api);
        if handles.contains(&api) {
            assert_eq!(m, Missing::NullHandle);
        }
    }
}

#[test]
fn fallbacks_of_status_bindings() {
    assert_eq!(Api::TizenCoreInit.missing(), Missing::Status(0));
    assert_eq!(Api::TizenCoreTaskGetTizenCore.missing(), Missing::Status(-1));
    assert_eq!(Api::TizenCoreAddIdleJob.missing(), Missing::Status(-1));
    assert_eq!(Api::PkgmgrClientSetStatusType.missing(), Missing::Status(-1));
    assert_eq!(Api::PkgmgrClientListenStatus.missing(), Missing::Status(0));
    assert_eq!(Api::PkginfoDestroyPkginfo.missing(), Missing::Status(-1));
    assert_eq!(Api::SoupServerListenAll.missing(), Missing::Status(1));
    assert_eq!(Api::AppControlSendLaunchRequest.missing(), Missing::Status(0));
    assert_eq!(Api::AulLaunchApp.missing(), Missing::Status(-1));
    assert_eq!(Api::ActionClientExecute.missing(), Missing::Status(-1));
    assert_eq!(Api::AlarmScheduleAfterDelay.missing(), Missing::Status(0));
}

#[test]
fn fallbacks_with_an_effect() {
    assert_eq!(Api::VconfGetInt.missing(), Missing::StoreThenStatus { stored: 0, status: 0 });
    assert_eq!(Api::DlogPrint.missing(), Missing::LogThenStatus { status: 0 });
    assert_eq!(Api::SoupServerGetType.missing(), Missing::TypeId(0));
}

#[test]
fn fallbacks_of_handles_and_procedures() {
    for api in [
        Api::TizenCoreGetGlibContext,
        Api::VconfGetStr,
        Api::PkgmgrClientNew,
        Api::GMainContextNew,
        Api::GMainLoopNew,
        Api::GObjectNew,
        Api::SoupServerMessageGetResponseBody,
        Api::SoupServerMessageGetResponseHeaders,
        Api::SoupServerMessageGetRequestHeaders,
        Api::BundleCreate,
    ] {
        assert_eq!(api.missing(), Missing::NullHandle);
    }
    for api in [
        Api::GMainLoopRun,
        Api::GObjectUnref,
        Api::SoupServerAddHandler,
        Api::SoupServerAddHandlerV3,
        Api::SoupMessageSetResponse,
        Api::SoupMessageHeadersSetContentType,
    ] {
        assert_eq!(api.missing(), Missing::Nothing);
    }
}

#[test]
fn outcome_calls_only_what_was_found() {
    for api in all_apis() {
        assert_eq!(outcome(api, true, true), Outcome::Call);
        assert_eq!(outcome(api, true, false), Outcome::Fallback(api.missing()));
        assert_eq!(outcome(api, false, false), Outcome::Fallback(api.missing()));
        assert_eq!(outcome(api, false, true), Outcome::Fallback(api.missing()));
    }
}

#[test]
fn unopened_library_makes_its_bindings_fall_back() {
    let (names, end) = drive_load(Library::Vconf, &[false, false]);
    assert_eq!(names, vec!["libvconf.so.0", "libvconf.so"]);
    assert_eq!(end, LoadStep::Unavailable);
    let open = matches!(end, LoadStep::Opened(_));
    assert_eq!(outcome(Api::VconfGetInt, open, false), Outcome::Fallback(Missing::StoreThenStatus { stored: 0, status: 0 }));
}

#[test]
fn candidates_are_tried_in_order() {
    assert_eq!(Library::Dlog.candidate(0), Some("libdlog.so.0"));
    assert_eq!(Library::Dlog.candidate(1), Some("libdlog.so"));
    assert_eq!(Library::Dlog.candidate(2), None);
    assert_eq!(Library::Soup.candidate(0), Some("libsoup-3.0.so.0"));
    assert_eq!(Library::Soup.candidate(1), Some("libsoup-3.0.so"));
    assert_eq!(Library::Soup.candidate(2), Some("libsoup-2.4.so.1"));
    assert_eq!(Library::Soup.candidate(3), Some("libsoup-2.4.so"));
    assert_eq!(Library::Soup.candidate(4), None);
    assert_eq!(Library::AppControl.candidate(0), Some("libcapi-appfw-app-manager.so.0"));
    assert_eq!(Library::Action.candidate_count(), 3);
    assert_eq!(Library::Action.candidate(0), Some("libcapi-appfw-tizen-action.so.1"));
    assert_eq!(Library::Action.candidate(1), Some("libtizen-action.so.1"));
    assert_eq!(Library::Action.candidate(2), Some("libtizen-action.so"));
    assert_eq!(Library::Action.candidate(3), None);
    assert_eq!(Library::Action.candidate(usize::MAX), None);
    for lib in all_libraries() {
        let n = lib.candidate_count();
        assert!(n >= 2);
        for i in 0..n {
            assert!(lib.candidate(i).is_some());
        }
        assert_eq!(lib.candidate(n), None);
    }
}

#[test]
fn loading_keeps_the_first_name_that_opens() {
    let (names, end) = drive_load(Library::Dlog, &[true, true]);
    assert_eq!(names, vec!["libdlog.so.0"]);
    assert_eq!(end, LoadStep::Opened(0));

    let (names, end) = drive_load(Library::Dlog, &[false, true]);
    assert_eq!(names, vec!["libdlog.so.0", "libdlog.so"]);
    assert_eq!(end, LoadStep::Opened(1));

    let (names, end) = drive_load(Library::Action, &[false, false, true]);
    assert_eq!(names, vec!["libcapi-appfw-tizen-action.so.1", "libtizen-action.so.1", "libtizen-action.so"]);
    assert_eq!(end, LoadStep::Opened(2));

    let (names, end) = drive_load(Library::Action, &[false, false, false]);
    assert_eq!(names.len(), 3);
    assert_eq!(end, LoadStep::Unavailable);
}

#[test]
fn load_step_single_decisions() {
    assert_eq!(load_step(Library::Bundle, 0, false), LoadStep::Open("libbundle.so.0"));
    assert_eq!(load_step(Library::Bundle, 1, false), LoadStep::Open("libbundle.so"));
    assert_eq!(load_step(Library::Bundle, 2, false), LoadStep::Unavailable);
    assert_eq!(load_step(Library::Bundle, 1, true), LoadStep::Opened(0));
    assert_eq!(load_step(Library::Bundle, 2, true), LoadStep::Opened(1));
    assert_eq!(load_step(Library::Bundle, 7, false), LoadStep::Unavailable);
}

#[test]
fn library_slots_are_distinct() {
    let libs = all_libraries();
    assert_eq!(libs.len(), LIBRARY_COUNT);
    let mut seen = vec![false; LIBRARY_COUNT];
    for lib in libs {
        let i = lib.index();
        assert!(i < LIBRARY_COUNT);
        assert!(!seen[i]);
        seen[i] = true;
    }
}

#[test]
fn mock_log_line_format() {
    assert_eq!(mock_log_line(6, "TizenClaw", "started"), "[MOCK DLOG 6] [TizenClaw] started");
    assert_eq!(mock_log_line(DLOG_DEBUG, "", ""), "[MOCK DLOG 3] [] ");
    assert_eq!(mock_log_line(-12, "t", "m"), "[MOCK DLOG -12] [t] m");
    assert_eq!(mock_log_line(1234567, "tag", "a b"), "[MOCK DLOG 1234567] [tag] a b");
    assert_eq!(mock_log_line(0, "é", "ü\u{fffd}"), "[MOCK DLOG 0] [é] ü\u{fffd}");
}

#[test]
fn mock_log_line_matches_display() {
    for prio in [i32::MIN, -1000, -1, 0, 1, 9, 10, 99, 100, 65535, i32::MAX] {
        assert_eq!(mock_log_line(prio, "x", "y"), format!("[MOCK DLOG {}] [{}] {}", prio, "x", "y"));
    }
}

#[test]
fn decimal_string_values() {
    assert_eq!(decimal_string(0), "0");
    assert_eq!(decimal_string(7), "7");
    assert_eq!(decimal_string(10), "10");
    assert_eq!(decimal_string(-5), "-5");
    assert_eq!(decimal_string(i32::MAX), "2147483647");
    assert_eq!(decimal_string(i32::MIN), "-2147483648");
}

#[test]
fn constant_codes() {
    assert_eq!((DLOG_ERROR, DLOG_WARN, DLOG_INFO, DLOG_DEBUG), (6, 5, 4, 3));
    assert_eq!((PC_LISTENING, PKGMGR_CLIENT_STATUS_ALL), (1, 0));
    assert_eq!(PMINFO_R_OK, 0);
    assert_eq!(SOUP_MEMORY_COPY, 1);
    assert_eq!(APP_CONTROL_ERROR_NONE, 0);
    assert_eq!(SYSTEM_INFO_ERROR_NONE, 0);
    assert_eq!(ACTION_ERROR_NONE, 0);
}

#[test]
fn action_event_codes_round_trip() {
    let all = [
        action_event_type_e::ACTION_EVENT_TYPE_INSTALL,
        action_event_type_e::ACTION_EVENT_TYPE_UNINSTALL,
        action_event_type_e::ACTION_EVENT_TYPE_UPDATE,
    ];
    for (i, e) in all.iter().enumerate() {
        assert_eq!(e.code(), i as i32);
        assert_eq!(action_event_type_e::from_code(e.code()), Some(*e));
    }
    assert_eq!(action_event_type_e::from_code(3), None);
    assert_eq!(action_event_type_e::from_code(-1), None);
    assert_eq!(action_event_type_e::from_code(i32::MAX), None);
}

#[test]
fn candidate_names_are_plain_file_names() {
    for lib in all_libraries() {
        for i in 0..lib.candidate_count() {
            let name = lib.candidate(i).unwrap();
            assert!(!name.is_empty());
            assert!(name.starts_with("lib") && name.contains(".so"), "{}", name);
            assert!(name
                .bytes()
                .all(|b| b.is_ascii_lowercase() || b.is_ascii_digit() || b == b'.' || b == b'-' || b == b'_'));
        }
    }
}
