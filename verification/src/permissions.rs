//! Permissions that the listener depends on: accessibility, for the input
//! hook and for typing, and the microphone.
//!
//! Asking the operating system is left to the caller. This module names the
//! answers and decides what follows from them.

use vstd::prelude::*;
use vstd::string::*;
use crate::text::str_equal;

verus! {

/// What the operating system says about access to the microphone.
#[derive(Clone, Copy, Debug, PartialEq, Eq, Structural)]
pub enum MicrophoneAuthorization {
    NotDetermined,
    Restricted,
    Denied,
    Authorized,
}

/// The permissions as they are shown to a user interface.
#[derive(Clone, Debug, PartialEq, Eq)]
pub struct PermissionStatus {
    pub accessibility: bool,
    pub microphone: bool,
    /// One of "not_determined", "denied", "authorized" and "restricted".
    pub microphone_status: String,
    pub all_granted: bool,
}

/// What a `PermissionStatus` holds.
pub struct PermissionStatusView {
    pub accessibility: bool,
    pub microphone: bool,
    pub microphone_status: Seq<char>,
    pub all_granted: bool,
}

impl View for PermissionStatus {
    type V = PermissionStatusView;

    open spec fn view(&self) -> PermissionStatusView {
        PermissionStatusView {
            accessibility: self.accessibility,
            microphone: self.microphone,
            microphone_status: self.microphone_status@,
            all_granted: self.all_granted,
        }
    }
}

/// The name of a microphone authorization. An authorization that could not
/// be read counts as not determined.
pub open spec fn microphone_status_name(authorization: Option<MicrophoneAuthorization>) -> Seq<
    char,
> {
    match authorization {
        Some(MicrophoneAuthorization::Restricted) => "restricted"@,
        Some(MicrophoneAuthorization::Denied) => "denied"@,
        Some(MicrophoneAuthorization::Authorized) => "authorized"@,
        Some(MicrophoneAuthorization::NotDetermined) => "not_determined"@,
        None => "not_determined"@,
    }
}

/// Names the microphone authorization that the operating system reported,
/// `None` standing for one that could not be read.
pub fn get_microphone_status(authorization: Option<MicrophoneAuthorization>) -> (status: String)
    ensures
        status@ == microphone_status_name(authorization),
{
    match authorization {
        Some(MicrophoneAuthorization::Restricted) => "restricted".to_owned(),
        Some(MicrophoneAuthorization::Denied) => "denied".to_owned(),
        Some(MicrophoneAuthorization::Authorized) => "authorized".to_owned(),
        Some(MicrophoneAuthorization::NotDetermined) => "not_determined".to_owned(),
        None => "not_determined".to_owned(),
    }
}

/// Whether a microphone status grants access: only "authorized" does.
pub fn check_microphone_permission(microphone_status: &str) -> (granted: bool)
    ensures
        granted == (microphone_status@ == "authorized"@),
{
    str_equal(microphone_status, "authorized")
}

/// The permission status for an accessibility answer and a microphone
/// status.
pub open spec fn permission_status(accessibility: bool, microphone_status: Seq<char>)
    -> PermissionStatusView {
    PermissionStatusView {
        accessibility,
        microphone: microphone_status == "authorized"@,
        microphone_status,
        all_granted: accessibility && microphone_status == "authorized"@,
    }
}

/// Puts the two answers of the operating system together.
pub fn get_permission_status(accessibility: bool, microphone_status: String) -> (status:
    PermissionStatus)
    ensures
        status@ == permission_status(accessibility, microphone_status@),
{
    let microphone = check_microphone_permission(microphone_status.as_str());
    PermissionStatus {
        accessibility,
        microphone,
        microphone_status,
        all_granted: accessibility && microphone,
    }
}

/// The address that opens the system settings at the pane called `pane`.
pub open spec fn settings_address(pane: Seq<char>) -> Option<Seq<char>> {
    if pane == "accessibility"@ {
        Some("x-apple.systempreferences:com.apple.preference.security?Privacy_Accessibility"@)
    } else if pane == "microphone"@ {
        Some("x-apple.systempreferences:com.apple.preference.security?Privacy_Microphone"@)
    } else if pane == "input_monitoring"@ {
        Some("x-apple.systempreferences:com.apple.preference.security?Privacy_ListenEvent"@)
    } else {
        None
    }
}

/// Finds the address to open for a settings pane. An unknown pane is an
/// error, whose message names the pane.
pub fn open_system_settings(pane: &str) -> (address: Result<String, String>)
    ensures
        match settings_address(pane@) {
            Some(url) => address is Ok && address->Ok_0@ == url,
            None => address is Err && address->Err_0@ == "Unknown settings pane: "@ + pane@,
        },
{
    if str_equal(pane, "accessibility") {
        Ok(
            "x-apple.systempreferences:com.apple.preference.security?Privacy_Accessibility".to_owned(),
        )
    } else if str_equal(pane, "microphone") {
        Ok("x-apple.systempreferences:com.apple.preference.security?Privacy_Microphone".to_owned())
    } else if str_equal(pane, "input_monitoring") {
        Ok("x-apple.systempreferences:com.apple.preference.security?Privacy_ListenEvent".to_owned())
    } else {
        let mut message = "Unknown settings pane: ".to_owned();
        message.append(pane);
        Err(message)
    }
}

} // verus!
