use vstd::prelude::*;

verus! {

/// dlog priority: error.
pub const DLOG_ERROR: i32 = 6;

/// dlog priority: warning.
pub const DLOG_WARN: i32 = 5;

/// dlog priority: information.
pub const DLOG_INFO: i32 = 4;

/// dlog priority: debug.
pub const DLOG_DEBUG: i32 = 3;

/// pkgmgr client type of a listening client (request is 0, broadcast is 2).
pub const PC_LISTENING: i32 = 1;

/// pkgmgr status type that listens to every status.
pub const PKGMGR_CLIENT_STATUS_ALL: i32 = 0;

/// pkgmgr-info success code.
pub const PMINFO_R_OK: i32 = 0;

/// soup 2.4 memory-use mode that copies the response body.  Removed in soup 3.0.
pub const SOUP_MEMORY_COPY: i32 = 1;

/// app_control success code.
pub const APP_CONTROL_ERROR_NONE: i32 = 0;

/// system_info success code.
pub const SYSTEM_INFO_ERROR_NONE: i32 = 0;

/// Action framework success code.
pub const ACTION_ERROR_NONE: i32 = 0;

/// The kind of event the Action framework reports about an action.
#[allow(non_camel_case_types)]
#[derive(Clone, Copy, Debug, PartialEq, Eq, Structural)]
pub enum action_event_type_e {
    ACTION_EVENT_TYPE_INSTALL,
    ACTION_EVENT_TYPE_UNINSTALL,
    ACTION_EVENT_TYPE_UPDATE,
}

/// The C value of each event type.
pub open spec fn spec_event_code(e: action_event_type_e) -> i32 {
    match e {
        action_event_type_e::ACTION_EVENT_TYPE_INSTALL => 0,
        action_event_type_e::ACTION_EVENT_TYPE_UNINSTALL => 1,
        action_event_type_e::ACTION_EVENT_TYPE_UPDATE => 2,
    }
}

impl action_event_type_e {
    /// The C value of this event type.
    pub fn code(self) -> (r: i32)
        ensures
            r == spec_event_code(self),
    {
        match self {
            action_event_type_e::ACTION_EVENT_TYPE_INSTALL => 0,
            action_event_type_e::ACTION_EVENT_TYPE_UNINSTALL => 1,
            action_event_type_e::ACTION_EVENT_TYPE_UPDATE => 2,
        }
    }

    /// The event type of a C value, if it names one.
    pub fn from_code(code: i32) -> (r: Option<action_event_type_e>)
        ensures
            r is Some <==> 0 <= code <= 2,
            r matches Some(e) ==> spec_event_code(e) == code,
    {
        if code == 0 {
            Some(action_event_type_e::ACTION_EVENT_TYPE_INSTALL)
        } else if code == 1 {
            Some(action_event_type_e::ACTION_EVENT_TYPE_UNINSTALL)
        } else if code == 2 {
            Some(action_event_type_e::ACTION_EVENT_TYPE_UPDATE)
        } else {
            None
        }
    }
}

/// Distinct event types have distinct C values, so reading back the value
/// of an event type gives that event type; install, uninstall and update are
/// 0, 1 and 2, as the C enum numbers them.
pub proof fn lemma_event_code_round_trip(a: action_event_type_e, b: action_event_type_e)
    ensures
        0 <= spec_event_code(a) <= 2,
        spec_event_code(a) == spec_event_code(b) ==> a == b,
        spec_event_code(action_event_type_e::ACTION_EVENT_TYPE_INSTALL) == 0,
        spec_event_code(action_event_type_e::ACTION_EVENT_TYPE_UNINSTALL) == 1,
        spec_event_code(action_event_type_e::ACTION_EVENT_TYPE_UPDATE) == 2,
{
}

/// dlog priorities rise from debug to error, one step apart; every success
/// code is 0; a pkgmgr client listens with type 1 and listens to all
/// statuses with type 0; soup 2.4 copies a response body with mode 1.
pub proof fn lemma_code_values()
    ensures
        DLOG_DEBUG == 3 && DLOG_INFO == DLOG_DEBUG + 1 && DLOG_WARN == DLOG_INFO + 1
            && DLOG_ERROR == DLOG_WARN + 1,
        PMINFO_R_OK == 0 && APP_CONTROL_ERROR_NONE == 0 && SYSTEM_INFO_ERROR_NONE == 0
            && ACTION_ERROR_NONE == 0,
        PC_LISTENING == 1 && PKGMGR_CLIENT_STATUS_ALL == 0,
        SOUP_MEMORY_COPY == 1,
{
}

} // verus!
