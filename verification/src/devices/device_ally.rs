//! The Asus Rog Ally: TDP through `ryzenadj` together with the Asus thermal policy,
//! and its extra buttons mapped to the Steam Deck's.
use vstd::prelude::*;
use super::{Device, DeviceAction, KeyMapper, library_patch, library_patch_text};
use super::device_generic::{
    DeviceGeneric, generic_patch_texts, generic_tdp_actions,
};
use crate::key_mapper::{InputDeviceInfo, has_ids};
use crate::patch::{Patch, patch_view};
use crate::server::SettingsRequest;
use crate::text::{decimal, decimal_string, trim, trim_text, equal_text};

verus! {

/// The Asus thermal policy for a TDP of `tdp` watts: silent (2) below 12 W,
/// performance (0) from 12 to 25 W, turbo (1) above.
pub open spec fn thermal_policy_for(tdp: int) -> i32 {
    if tdp < 12 {
        2
    } else if tdp <= 25 {
        0
    } else {
        1
    }
}

/// The Asus thermal policy for a TDP of `tdp` watts.
pub fn thermal_policy_for_tdp(tdp: i8) -> (r: i32)
    ensures
        r == thermal_policy_for(tdp as int),
{
    if tdp < 12 {
        2
    } else if 12 <= tdp && tdp <= 25 {
        0
    } else {
        1
    }
}

/// What the Rog Ally does to set the TDP to `tdp` watts: the matching thermal policy,
/// then the power limits.
pub open spec fn ally_tdp_actions(tdp: i8) -> Seq<DeviceAction> {
    seq![DeviceAction::SetThermalPolicy(thermal_policy_for(tdp as int))] + generic_tdp_actions(tdp)
}

/// What the Rog Ally does for the settings `request`: with the TDP limit enabled it
/// sets the TDP asked for, otherwise the turbo thermal policy; and it reports the GPU
/// clock asked for.
pub open spec fn ally_settings_actions(request: SettingsRequest) -> Seq<DeviceAction> {
    match request.per_app {
        None => Seq::empty(),
        Some(per_app) => (if per_app.is_tdp_limit_enabled == Some(true) {
            match per_app.tdp_limit {
                Some(tdp) => ally_tdp_actions(tdp),
                None => Seq::empty(),
            }
        } else {
            seq![DeviceAction::SetThermalPolicy(1)]
        }) + (match per_app.gpu_performance_manual_mhz {
            Some(gpu) => seq![DeviceAction::ReportGpuClock(gpu)],
            None => Seq::empty(),
        }),
    }
}

/// The file that holds the Asus thermal policy.
pub fn thermal_policy_path() -> (r: &'static str)
    ensures
        r@ == "/sys/devices/platform/asus-nb-wmi/throttle_thermal_policy"@,
{
    "/sys/devices/platform/asus-nb-wmi/throttle_thermal_policy"
}

/// The text written to the thermal policy file for `thermal_policy`.
pub fn thermal_policy_text(thermal_policy: i32) -> (r: String)
    ensures
        r@ == decimal(thermal_policy as int),
{
    decimal_string(thermal_policy)
}

/// Whether the thermal policy file, read back as `read_back`, holds `thermal_policy`.
pub fn thermal_policy_confirmed(read_back: &str, thermal_policy: i32) -> (r: bool)
    ensures
        r == (trim_text(read_back@) == decimal(thermal_policy as int)),
{
    let t = trim(read_back);
    let p = decimal_string(thermal_policy);
    equal_text(t.as_str(), p.as_str())
}

/// The Asus Rog Ally.
pub struct DeviceAlly {
    device: DeviceGeneric,
}

impl DeviceAlly {
    #[verifier::type_invariant]
    spec fn ally_ranges(&self) -> bool {
        &&& self.device.tdp_max() == 30
        &&& self.device.gpu_min() == 800
        &&& self.device.gpu_max() == 2700
    }

    /// The generic device that sets its power limits.
    pub closed spec fn generic(&self) -> DeviceGeneric {
        self.device
    }

    /// The Rog Ally: a TDP up to 30 W and a GPU clock from 800 to 2700 MHz.
    pub fn new() -> (r: Self)
        ensures
            r.generic().tdp_max() == 30,
            r.generic().gpu_min() == 800,
            r.generic().gpu_max() == 2700,
    {
        DeviceAlly { device: DeviceGeneric::new(30, 800, 2700) }
    }
}

impl Device for DeviceAlly {
    fn update_settings(&self, request: SettingsRequest) -> (r: Vec<DeviceAction>)
        ensures
            r@ == ally_settings_actions(request),
    {
        let mut r: Vec<DeviceAction> = Vec::new();
        if let Some(per_app) = request.per_app {
            if per_app.is_tdp_limit_enabled == Some(true) {
                if let Some(tdp) = per_app.tdp_limit {
                    let mut a = self.set_tdp(tdp);
                    r.append(&mut a);
                }
            } else {
                let mut a = self.set_thermalpolicy(1);
                r.append(&mut a);
            }
            if let Some(gpu) = per_app.gpu_performance_manual_mhz {
                let mut a = self.set_gpu(gpu);
                r.append(&mut a);
            }
        }
        assert(r@ =~= ally_settings_actions(request));
        r
    }

    fn set_thermalpolicy(&self, thermal_policy: i32) -> (r: Vec<DeviceAction>)
        ensures
            r@ == seq![DeviceAction::SetThermalPolicy(thermal_policy)],
    {
        let mut r: Vec<DeviceAction> = Vec::new();
        r.push(DeviceAction::SetThermalPolicy(thermal_policy));
        assert(r@ =~= seq![DeviceAction::SetThermalPolicy(thermal_policy)]);
        r
    }

    fn set_tdp(&self, tdp: i8) -> (r: Vec<DeviceAction>)
        ensures
            r@ == ally_tdp_actions(tdp),
    {
        let mut r = self.set_thermalpolicy(thermal_policy_for_tdp(tdp));
        let mut a = self.device.set_tdp(tdp);
        r.append(&mut a);
        assert(r@ =~= ally_tdp_actions(tdp));
        r
    }

    fn set_gpu(&self, gpu: i16) -> (r: Vec<DeviceAction>)
        ensures
            r@ == seq![DeviceAction::ReportGpuClock(gpu)],
    {
        let mut r: Vec<DeviceAction> = Vec::new();
        r.push(DeviceAction::ReportGpuClock(gpu));
        assert(r@ =~= seq![DeviceAction::ReportGpuClock(gpu)]);
        r
    }

    fn get_patches(&self) -> (r: Vec<Patch>)
        ensures
            r@.map_values(|p: Patch| patch_view(p)) == generic_patch_texts(30, 2700).push(
                library_patch_text(),
            ),
    {
        proof {
            use_type_invariant(self);
        }
        let mut patches = self.device.get_patches();
        let ghost before = patches@;
        patches.push(library_patch());
        assert(patches@.map_values(|p: Patch| patch_view(p)) =~= before.map_values(
            |p: Patch| patch_view(p),
        ).push(library_patch_text()));
        patches
    }

    fn get_key_mapper(&self) -> (r: Option<KeyMapper>)
        ensures
            r == Some(KeyMapper::AllyButtons),
    {
        Some(KeyMapper::AllyButtons)
    }
}

/// `device` is the Rog Ally's keyboard: vendor `0x0b05`, product `0x1abe`, and it
/// sends the key `KEY_PROG1` (code 148).
pub open spec fn is_ally_keyboard(device: InputDeviceInfo) -> bool {
    &&& has_ids(device, 0x0b05, 0x1abe)
    &&& device.supported_keys matches Some(keys) && keys@.contains(148u16)
}

/// The first Rog Ally keyboard of `devices` from index `i` on.
pub open spec fn first_ally_keyboard(devices: Seq<InputDeviceInfo>, i: int) -> Option<int>
    decreases devices.len() - i,
{
    if i < 0 || i >= devices.len() {
        None
    } else if is_ally_keyboard(devices[i]) {
        Some(i)
    } else {
        first_ally_keyboard(devices, i + 1)
    }
}

fn sends_key(keys: &Vec<u16>, code: u16) -> (r: bool)
    ensures
        r == keys@.contains(code),
{
    let mut i: usize = 0;
    while i < keys.len()
        invariant
            i <= keys.len(),
            forall|k: int| 0 <= k < i ==> keys@[k] != code,
        decreases keys.len() - i,
    {
        if keys[i] == code {
            return true;
        }
        i = i + 1;
    }
    false
}

/// The index of the first Rog Ally keyboard among `devices`.
pub fn pick_device(devices: &Vec<InputDeviceInfo>) -> (r: Option<usize>)
    ensures
        match (r, first_ally_keyboard(devices@, 0)) {
            (Some(a), Some(b)) => a == b,
            (None, None) => true,
            _ => false,
        },
{
    let mut i: usize = 0;
    while i < devices.len()
        invariant
            i <= devices.len(),
            first_ally_keyboard(devices@, 0) == first_ally_keyboard(devices@, i as int),
        decreases devices.len() - i,
    {
        let d = &devices[i];
        if d.vendor == 0x0b05 && d.product == 0x1abe {
            if let Some(keys) = &d.supported_keys {
                if sends_key(keys, 148) {
                    return Some(i);
                }
            }
        }
        i = i + 1;
    }
    None
}

/// The script that a Rog Ally key event runs in the Steam UI: releasing (value 0)
/// `KEY_PROG1` (148) opens the quick access menu, `KEY_F16` (186) the main menu, and
/// `KEY_F15` (185) presses the rear right lower button.
pub open spec fn ally_button_script_text(code: u16, value: i32) -> Option<Seq<char>> {
    if value != 0 {
        None
    } else if code == 148 {
        Some("GamepadNavTree.m_Controller.OnButtonActionInternal(true, 28, 2)"@)
    } else if code == 186 {
        Some("GamepadNavTree.m_Controller.OnButtonActionInternal(true, 27, 2); console.log(\"Show Menu\");"@)
    } else if code == 185 {
        Some("GamepadNavTree.m_Controller.OnButtonActionInternal(true, 26, 2); console.log(\"Simulating Rear right lower SteamDeck button\");"@)
    } else {
        None
    }
}

/// The script that the Rog Ally key event with key `code` and `value` runs.
pub fn ally_button_script(code: u16, value: i32) -> (r: Option<&'static str>)
    ensures
        match (r, ally_button_script_text(code, value)) {
            (Some(a), Some(b)) => a@ == b,
            (None, None) => true,
            _ => false,
        },
{
    if value != 0 {
        None
    } else if code == 148 {
        Some("GamepadNavTree.m_Controller.OnButtonActionInternal(true, 28, 2)")
    } else if code == 186 {
        Some("GamepadNavTree.m_Controller.OnButtonActionInternal(true, 27, 2); console.log(\"Show Menu\");")
    } else if code == 185 {
        Some("GamepadNavTree.m_Controller.OnButtonActionInternal(true, 26, 2); console.log(\"Simulating Rear right lower SteamDeck button\");")
    } else {
        None
    }
}

} // verus!
