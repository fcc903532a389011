use std::collections::VecDeque;
use steam_patch::devices::device_ally::{
    DeviceAlly, ally_button_script, pick_device as pick_ally, thermal_policy_confirmed,
    thermal_policy_for_tdp, thermal_policy_path, thermal_policy_text,
};
use steam_patch::devices::device_ally_tdp_only::{DeviceAllyTDPOnly, thermal_policy_needs_update};
use steam_patch::devices::device_ayaneo_2s::{
    ComboMapper, DeviceAyaneo2s, check_combo_key, combo_script, menu_combo, pick_device as pick_ayaneo,
    qam_combo,
};
use steam_patch::devices::device_generic::{DeviceGeneric, generic_patches, ryzenadj_command};
use steam_patch::devices::{
    Device, DeviceAction, KeyMapper, SupportedDevice, create_device, get_device_name, model_name,
};
use steam_patch::key_mapper::{InputDeviceInfo, pick_device as pick_keyboard};
use steam_patch::patch::PatchFile;
use steam_patch::server::{PerAppConfig, SettingsRequest};

fn request(tdp: Option<i8>, gpu: Option<i16>, enabled: Option<bool>) -> SettingsRequest {
    SettingsRequest {
        per_app: Some(PerAppConfig {
            tdp_limit: tdp,
            gpu_performance_manual_mhz: gpu,
            is_tdp_limit_enabled: enabled,
        }),
    }
}

fn limits(tdp: i32) -> DeviceAction {
    DeviceAction::SetPowerLimits {
        stapm_limit: tdp * 1000,
        fast_limit: tdp * 1000 + 2000,
        slow_limit: tdp * 1000,
    }
}

fn max_tdp_replacement(d: &SupportedDevice) -> String {
    d.get_patches()[0].replacement_text.clone()
}

#[test]
fn generic_device_sets_tdp_and_reports_gpu() {
    let d = DeviceGeneric::new(28, 800, 1500);
    assert_eq!(d.update_settings(request(Some(15), Some(1200), None)), vec![
        limits(15),
        DeviceAction::ReportGpuClock(1200),
    ]);
    assert_eq!(d.update_settings(SettingsRequest { per_app: None }), vec![]);
    assert_eq!(d.set_tdp(-5), vec![limits(-5)]);
    assert_eq!(d.get_key_mapper(), None);
    assert_eq!(d.set_thermalpolicy(1), vec![]);
}

#[test]
fn generic_patches_carry_limits() {
    let p = generic_patches(28, 1500);
    assert_eq!(p.len(), 5);
    assert_eq!(p[0].replacement_text, "return[o,t,28,e=>r((()=>g.Get().SetTDPLimit(e)))");
    assert_eq!(
        p[1].replacement_text,
        "return[o,t,1500,e=>r((()=>g.Get().SetGPUPerformanceManualMhz(e)))"
    );
    assert_eq!(p[3].text_to_find, "/steaminputglyphs/xbox_button_logo.svg");
    assert!(p.iter().all(|x| x.destination == PatchFile::Chunk));
    let q = DeviceGeneric::new(25, 800, 1500).get_patches();
    assert_eq!(q[0].replacement_text, format!("return[o,t,{:?},e=>r((()=>g.Get().SetTDPLimit(e)))", 25i8));
}

#[test]
fn ryzenadj_arguments() {
    assert_eq!(ryzenadj_command(15000, 17000, 15000), vec![
        "ryzenadj",
        "--stapm-limit=15000",
        "--fast-limit=17000",
        "--slow-limit=15000",
    ]);
}

#[test]
fn ally_thermal_policy_follows_tdp() {
    assert_eq!(thermal_policy_for_tdp(5), 2);
    assert_eq!(thermal_policy_for_tdp(11), 2);
    assert_eq!(thermal_policy_for_tdp(12), 0);
    assert_eq!(thermal_policy_for_tdp(25), 0);
    assert_eq!(thermal_policy_for_tdp(26), 1);
    let d = DeviceAlly::new();
    assert_eq!(d.set_tdp(20), vec![DeviceAction::SetThermalPolicy(0), limits(20)]);
}

#[test]
fn ally_settings_depend_on_tdp_switch() {
    let d = DeviceAlly::new();
    assert_eq!(d.update_settings(request(Some(10), None, Some(true))), vec![
        DeviceAction::SetThermalPolicy(2),
        limits(10),
    ]);
    assert_eq!(d.update_settings(request(Some(10), Some(2000), Some(false))), vec![
        DeviceAction::SetThermalPolicy(1),
        DeviceAction::ReportGpuClock(2000),
    ]);
    assert_eq!(d.update_settings(request(None, None, None)), vec![DeviceAction::SetThermalPolicy(1)]);
    assert_eq!(d.update_settings(request(None, None, Some(true))), vec![]);
    assert_eq!(d.get_key_mapper(), Some(KeyMapper::AllyButtons));
}

#[test]
fn ally_patches_add_library_patch() {
    let p = DeviceAlly::new().get_patches();
    assert_eq!(p.len(), 6);
    assert_eq!(p[0].replacement_text, "return[o,t,30,e=>r((()=>g.Get().SetTDPLimit(e)))");
    assert_eq!(
        p[1].replacement_text,
        "return[o,t,2700,e=>r((()=>g.Get().SetGPUPerformanceManualMhz(e)))"
    );
    assert_eq!(p[5].destination, PatchFile::Library);
}

#[test]
fn thermal_policy_file_helpers() {
    assert_eq!(thermal_policy_path(), "/sys/devices/platform/asus-nb-wmi/throttle_thermal_policy");
    assert_eq!(thermal_policy_text(2), "2");
    assert!(thermal_policy_confirmed("1\n", 1));
    assert!(!thermal_policy_confirmed("0\n", 1));
    assert!(thermal_policy_needs_update("0\n", 1));
    assert!(!thermal_policy_needs_update(" 1 ", 1));
}

#[test]
fn tdp_only_device_ensures_policy() {
    let d = DeviceAllyTDPOnly::new();
    assert_eq!(d.update_settings(request(Some(30), Some(900), None)), vec![
        DeviceAction::EnsureThermalPolicy(1),
        limits(30),
    ]);
    assert_eq!(d.get_patches().len(), 5);
    assert_eq!(d.get_key_mapper(), None);
}

#[test]
fn ayaneo_device() {
    let d = DeviceAyaneo2s::new();
    assert_eq!(d.update_settings(request(Some(18), Some(900), None)), vec![limits(18)]);
    let p = d.get_patches();
    assert_eq!(p.len(), 6);
    assert_eq!(p[0].replacement_text, "return[o,t,30,e=>r((()=>g.Get().SetTDPLimit(e)))");
    assert_eq!(d.get_key_mapper(), Some(KeyMapper::AyaneoCombos));
}

#[test]
fn devices_by_name() {
    assert!(create_device(None).is_none());
    let ally = create_device(Some(" AMD Ryzen Z1 Extreme ASUSTeK COMPUTER INC. RC71L\n".to_string())).unwrap();
    assert!(matches!(ally, SupportedDevice::Ally(_)));
    assert_eq!(ally.get_key_mapper(), Some(KeyMapper::AllyButtons));
    let cases = [
        ("AMD Ryzen 7 6800U with Radeon Graphics AYANEO AYANEO 2", "28"),
        ("AMD Ryzen 7 6800U with Radeon Graphics AYANEO GEEK", "28"),
        ("AMD Ryzen 7 7840U w/ Radeon 780M Graphics AYANEO AYANEO 2S", "30"),
        ("AMD Ryzen 7 7840U w/ Radeon 780M Graphics AYANEO GEEK 1S", "28"),
        ("AMD Ryzen 7 6800U with Radeon Graphics GPD G1619-04", "28"),
        ("AMD Ryzen 7 6800U with Radeon Graphics AOKZOE AOKZOE A1 AR07", "28"),
        ("Intel something", "25"),
    ];
    for (name, tdp) in cases {
        let d = create_device(Some(name.to_string())).unwrap();
        assert!(matches!(d, SupportedDevice::Generic(_)));
        assert_eq!(
            max_tdp_replacement(&d),
            format!("return[o,t,{},e=>r((()=>g.Get().SetTDPLimit(e)))", tdp)
        );
        assert_eq!(d.get_patches()[1].replacement_text,
            "return[o,t,1500,e=>r((()=>g.Get().SetGPUPerformanceManualMhz(e)))");
    }
}

#[test]
fn model_name_from_cpuinfo() {
    let cpuinfo = "processor\t: 0\nvendor_id\t: AuthenticAMD\nmodel\t\t: 116\nmodel name\t: AMD Ryzen Z1 Extreme  \nstepping\t: 1\nmodel name\t: other\n";
    assert_eq!(model_name(cpuinfo), Some("AMD Ryzen Z1 Extreme".to_string()));
    assert_eq!(model_name("model: x\nname: y\n"), None);
    assert_eq!(model_name("model name   \n\n: value"), Some("value".to_string()));
    assert_eq!(model_name("model name x: y\nmodel name: z"), Some("z".to_string()));
    assert_eq!(model_name("model name:\n next line\nmore"), Some("next line".to_string()));
}

#[test]
fn device_name_joins_model_and_board() {
    let cpuinfo = "model name\t: AMD Ryzen Z1 Extreme\n";
    assert_eq!(
        get_device_name(cpuinfo, Some("ASUSTeK COMPUTER INC.\n".to_string()), Some("RC71L\n".to_string())),
        Some("AMD Ryzen Z1 Extreme ASUSTeK COMPUTER INC. RC71L".to_string())
    );
    assert_eq!(get_device_name(cpuinfo, None, Some("RC71L".to_string())), None);
}

#[test]
fn input_device_search() {
    let dev = |v: u16, p: u16, keys: Option<Vec<u16>>| InputDeviceInfo { vendor: v, product: p, supported_keys: keys };
    let devices = vec![
        dev(0x0b05, 0x1abe, Some(vec![1, 2])),
        dev(0x0001, 0x0001, None),
        dev(0x0b05, 0x1abe, Some(vec![148, 186])),
    ];
    assert_eq!(pick_ally(&devices), Some(2));
    assert_eq!(pick_keyboard(&devices), Some(0));
    assert_eq!(pick_ayaneo(&devices), Some(1));
    assert_eq!(pick_ally(&vec![]), None);
}

#[test]
fn ally_buttons_on_release() {
    assert_eq!(
        ally_button_script(148, 0),
        Some("GamepadNavTree.m_Controller.OnButtonActionInternal(true, 28, 2)")
    );
    assert_eq!(ally_button_script(148, 1), None);
    assert!(ally_button_script(186, 0).unwrap().contains("27, 2"));
    assert!(ally_button_script(185, 0).unwrap().contains("26, 2"));
    assert_eq!(ally_button_script(30, 0), None);
}

#[test]
fn combo_key_detection() {
    let menu = menu_combo();
    let qam = qam_combo();
    assert_eq!(menu, vec![97, 125, 187]);
    assert_eq!(qam, vec![32, 125]);
    let mut q = VecDeque::new();
    assert_eq!(check_combo_key(&mut q, 97, &menu, &qam), 0);
    assert_eq!(check_combo_key(&mut q, 125, &menu, &qam), 0);
    assert_eq!(check_combo_key(&mut q, 187, &menu, &qam), 1);
    assert!(q.is_empty());
    assert_eq!(check_combo_key(&mut q, 125, &menu, &qam), 0);
    assert_eq!(check_combo_key(&mut q, 32, &menu, &qam), 2);
    assert!(q.is_empty());
}

#[test]
fn combo_queue_keeps_last_twelve() {
    let menu = vec![1, 2];
    let qam = vec![3];
    let mut q = VecDeque::new();
    for k in 0..12 {
        assert_eq!(check_combo_key(&mut q, 10 + k, &menu, &qam), 0);
    }
    assert_eq!(q.len(), 12);
    assert_eq!(check_combo_key(&mut q, 1, &menu, &qam), 0);
    assert_eq!(q.len(), 12);
    assert_eq!(q[0], 11);
    assert_eq!(check_combo_key(&mut q, 2, &menu, &qam), 1);
}

#[test]
fn combo_mapper_scripts() {
    let mut m = ComboMapper::new();
    assert_eq!(m.on_key(32), None);
    assert_eq!(m.on_key(125), Some("window.HandleSystemKeyEvents({eKey: 1})"));
    assert_eq!(combo_script(1), Some("window.HandleSystemKeyEvents({eKey: 0})"));
    assert_eq!(combo_script(0), None);
}
