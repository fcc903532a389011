use steam_patch::devices::{DeviceAction, create_device};
use steam_patch::server::utils::{set_tdp, sudo_password_input};
use steam_patch::server::{
    PerAppConfig, Route, SettingsBody, SettingsRequest, cors_headers, not_found_body, route,
    update_settings,
};

#[test]
fn routes() {
    assert_eq!(route("POST", "/update_settings"), Route::UpdateSettings);
    assert_eq!(route("GET", "/update_settings"), Route::NotFound);
    assert_eq!(route("POST", "/set_tdp"), Route::NotFound);
    assert_eq!(not_found_body(), "404 Not Found");
}

#[test]
fn cors() {
    assert_eq!(cors_headers(), vec![
        ("Access-Control-Allow-Origin", "*"),
        ("Access-Control-Allow-Methods", "GET, POST, PUT, DELETE, OPTIONS"),
        ("Access-Control-Allow-Headers", "*"),
    ]);
}

#[test]
fn settings_update_answers() {
    let r = update_settings(SettingsBody::Unreadable, None);
    assert_eq!(r.body, "Internal server error");
    assert!(r.actions.is_empty());
    let r = update_settings(SettingsBody::Malformed, None);
    assert_eq!(r.body, "Failed to deserialize request body");
    let req = SettingsRequest {
        per_app: Some(PerAppConfig {
            tdp_limit: Some(12),
            gpu_performance_manual_mhz: None,
            is_tdp_limit_enabled: Some(true),
        }),
    };
    let r = update_settings(SettingsBody::Parsed(req), None);
    assert_eq!(r.body, "Settings updated");
    assert!(r.actions.is_empty());
    let device = create_device(Some("AMD Ryzen Z1 Extreme ASUSTeK COMPUTER INC. RC71L".to_string()));
    let r = update_settings(SettingsBody::Parsed(req), device);
    assert_eq!(r.actions, vec![
        DeviceAction::SetThermalPolicy(0),
        DeviceAction::SetPowerLimits { stapm_limit: 12000, fast_limit: 14000, slow_limit: 12000 },
    ]);
}

#[test]
fn tdp_command_through_sudo() {
    assert_eq!(set_tdp(15), vec![
        "sudo",
        "-S",
        "ryzenadj",
        "--stapm-limit=15000",
        "--fast-limit=17000",
        "--slow-limit=15000",
    ]);
    assert_eq!(sudo_password_input(), "gamer\n");
}
