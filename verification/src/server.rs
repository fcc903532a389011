//! The local HTTP server's decisions: which route a request takes, what a settings
//! update does and answers, and the CORS headers of every response.
use vstd::prelude::*;
use crate::devices::{Device, DeviceAction, SupportedDevice, settings_actions};
use crate::text::equal_text;

pub mod utils;

verus! {

/// The settings that the Steam UI sends when they change.
#[derive(Clone, Copy, Debug, PartialEq, Eq, Structural)]
pub struct SettingsRequest {
    pub per_app: Option<PerAppConfig>,
}

/// The per-game performance settings of a settings update.
#[derive(Clone, Copy, Debug, PartialEq, Eq, Structural)]
pub struct PerAppConfig {
    pub tdp_limit: Option<i8>,
    pub gpu_performance_manual_mhz: Option<i16>,
    pub is_tdp_limit_enabled: Option<bool>,
}

/// Where a request goes.
#[derive(Clone, Copy, Debug, PartialEq, Eq, Structural)]
pub enum Route {
    /// `POST /update_settings`.
    UpdateSettings,
    /// Anything else.
    NotFound,
}

/// The route of a request with `method` to `path`.
pub fn route(method: &str, path: &str) -> (r: Route)
    ensures
        r == (if method@ == "POST"@ && path@ == "/update_settings"@ {
            Route::UpdateSettings
        } else {
            Route::NotFound
        }),
{
    if equal_text(method, "POST") && equal_text(path, "/update_settings") {
        Route::UpdateSettings
    } else {
        Route::NotFound
    }
}

/// The body of the answer to a request that no route takes.
pub fn not_found_body() -> (r: &'static str)
    ensures
        r@ == "404 Not Found"@,
{
    "404 Not Found"
}

/// The CORS headers that every response carries, as (name, value).
pub open spec fn cors_header_texts() -> Seq<(Seq<char>, Seq<char>)> {
    seq![
        ("Access-Control-Allow-Origin"@, "*"@),
        ("Access-Control-Allow-Methods"@, "GET, POST, PUT, DELETE, OPTIONS"@),
        ("Access-Control-Allow-Headers"@, "*"@),
    ]
}

/// The CORS headers that every response carries, as (name, value).
pub fn cors_headers() -> (r: Vec<(&'static str, &'static str)>)
    ensures
        r@.len() == cors_header_texts().len(),
        forall|i: int|
            0 <= i < r@.len() ==> (#[trigger] r@[i]).0@ == cors_header_texts()[i].0 && r@[i].1@
                == cors_header_texts()[i].1,
{
    let mut r: Vec<(&'static str, &'static str)> = Vec::new();
    r.push(("Access-Control-Allow-Origin", "*"));
    r.push(("Access-Control-Allow-Methods", "GET, POST, PUT, DELETE, OPTIONS"));
    r.push(("Access-Control-Allow-Headers", "*"));
    r
}

/// How far the body of a settings update could be read.
pub enum SettingsBody {
    /// The body could not be read.
    Unreadable,
    /// The body is not a settings request.
    Malformed,
    /// The settings request of the body.
    Parsed(SettingsRequest),
}

/// The answer to a settings update, and what the device is to do.
pub struct SettingsResponse {
    pub actions: Vec<DeviceAction>,
    pub body: &'static str,
}

/// Handles a settings update whose body is `request`, on `device` (`None` when the
/// device could not be identified): the device applies the settings, and the answer
/// says whether the body could be read and understood.
pub fn update_settings(request: SettingsBody, device: Option<SupportedDevice>) -> (r:
    SettingsResponse)
    ensures
        request is Unreadable ==> r.actions@.len() == 0 && r.body@ == "Internal server error"@,
        request is Malformed ==> r.actions@.len() == 0 && r.body@
            == "Failed to deserialize request body"@,
        request matches SettingsBody::Parsed(req) ==> r.body@ == "Settings updated"@
            && r.actions@ == match device {
            Some(d) => settings_actions(d, req),
            None => Seq::<DeviceAction>::empty(),
        },
{
    match request {
        SettingsBody::Unreadable => SettingsResponse {
            actions: Vec::new(),
            body: "Internal server error",
        },
        SettingsBody::Malformed => SettingsResponse {
            actions: Vec::new(),
            body: "Failed to deserialize request body",
        },
        SettingsBody::Parsed(req) => {
            let actions = match device {
                Some(d) => d.update_settings(req),
                None => Vec::new(),
            };
            SettingsResponse { actions, body: "Settings updated" }
        },
    }
}

} // verus!
