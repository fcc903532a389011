//! The supported handhelds: how each is recognised, what it does with new settings,
//! and which patches and key mapper it needs.
use vstd::prelude::*;
use crate::patch::{Patch, PatchFile, patch_view};
use crate::server::SettingsRequest;
use crate::text::{
    chars_of, concat3, equal_text, is_white_space, is_whitespace, occurs_at, occurs_at_exec,
    string_from_chars, trim, trim_text,
};
use device_ally::{DeviceAlly, ally_settings_actions, ally_tdp_actions};
use device_generic::{
    DeviceGeneric, generic_patch_texts, generic_settings_actions, generic_tdp_actions,
};

pub mod device_ally;
pub mod device_ally_tdp_only;
pub mod device_ayaneo_2s;
pub mod device_generic;

verus! {

/// Something a device does to apply a setting.
#[derive(Clone, Copy, Debug, PartialEq, Eq, Structural)]
pub enum DeviceAction {
    /// Run `ryzenadj` with these power limits, in mW.
    SetPowerLimits { stapm_limit: i32, fast_limit: i32, slow_limit: i32 },
    /// Write the Asus thermal policy, wait 50 ms and read it back to confirm it.
    SetThermalPolicy(i32),
    /// In the background, write the Asus thermal policy unless it is already set.
    EnsureThermalPolicy(i32),
    /// Report the GPU clock, in MHz, that was asked for; it is not applied.
    ReportGpuClock(i16),
}

/// The key mapper that a device runs.
#[derive(Clone, Copy, Debug, PartialEq, Eq, Structural)]
pub enum KeyMapper {
    /// The Rog Ally's menu, quick access and back buttons, mapped in the background
    /// once Steam is connected; no task is handed back.
    AllyButtons,
    /// The Ayaneo 2S's key combinations.
    AyaneoCombos,
}

/// A handheld: what it does with new settings, and the patches and key mapper it needs.
pub trait Device {
    /// What the device does with the settings of `request`.
    fn update_settings(&self, request: SettingsRequest) -> Vec<DeviceAction>;

    /// What the device does to set the thermal policy `thermal_policy`.
    fn set_thermalpolicy(&self, thermal_policy: i32) -> Vec<DeviceAction>;

    /// What the device does to set the TDP to `tdp` watts.
    fn set_tdp(&self, tdp: i8) -> Vec<DeviceAction>;

    /// What the device does to set the GPU clock to `gpu` MHz.
    fn set_gpu(&self, gpu: i16) -> Vec<DeviceAction>;

    /// The patches that the Steam UI needs on this device.
    fn get_patches(&self) -> Vec<Patch>;

    /// The key mapper that the device runs, if any.
    fn get_key_mapper(&self) -> Option<KeyMapper>;
}

/// The patch that lets the key mappers call the Steam UI's system key handler.
pub open spec fn library_patch_text() -> (Seq<char>, Seq<char>, PatchFile) {
    (
        "this.m_rgControllers=new Map,\"undefined\"!=typeof SteamClient&&(this.m_hUnregisterControllerDigitalInput"@,
        "this.m_rgControllers=new Map; window.HandleSystemKeyEvents = this.HandleSystemKeyEvents; \"undefined\"!=typeof SteamClient&&(this.m_hUnregisterControllerDigitalInput"@,
        PatchFile::Library,
    )
}

/// The patch that lets the key mappers call the Steam UI's system key handler.
pub fn library_patch() -> (r: Patch)
    ensures
        patch_view(r) == library_patch_text(),
{
    Patch {
        text_to_find: "this.m_rgControllers=new Map,\"undefined\"!=typeof SteamClient&&(this.m_hUnregisterControllerDigitalInput".to_string(),
        replacement_text: "this.m_rgControllers=new Map; window.HandleSystemKeyEvents = this.HandleSystemKeyEvents; \"undefined\"!=typeof SteamClient&&(this.m_hUnregisterControllerDigitalInput".to_string(),
        destination: PatchFile::Library,
    }
}

/// A device that the patcher recognises.
pub enum SupportedDevice {
    Ally(DeviceAlly),
    Generic(DeviceGeneric),
}

/// What `device` does with the settings of `request`.
pub open spec fn settings_actions(device: SupportedDevice, request: SettingsRequest) -> Seq<
    DeviceAction,
> {
    match device {
        SupportedDevice::Ally(_) => ally_settings_actions(request),
        SupportedDevice::Generic(_) => generic_settings_actions(request),
    }
}

impl Device for SupportedDevice {
    fn update_settings(&self, request: SettingsRequest) -> (r: Vec<DeviceAction>)
        ensures
            r@ == settings_actions(*self, request),
    {
        match self {
            SupportedDevice::Ally(d) => d.update_settings(request),
            SupportedDevice::Generic(d) => d.update_settings(request),
        }
    }

    fn set_thermalpolicy(&self, thermal_policy: i32) -> (r: Vec<DeviceAction>)
        ensures
            r@ == match self {
                SupportedDevice::Ally(_) => seq![DeviceAction::SetThermalPolicy(thermal_policy)],
                SupportedDevice::Generic(_) => Seq::<DeviceAction>::empty(),
            },
    {
        match self {
            SupportedDevice::Ally(d) => d.set_thermalpolicy(thermal_policy),
            SupportedDevice::Generic(d) => d.set_thermalpolicy(thermal_policy),
        }
    }

    fn set_tdp(&self, tdp: i8) -> (r: Vec<DeviceAction>)
        ensures
            r@ == match self {
                SupportedDevice::Ally(_) => ally_tdp_actions(tdp),
                SupportedDevice::Generic(_) => generic_tdp_actions(tdp),
            },
    {
        match self {
            SupportedDevice::Ally(d) => d.set_tdp(tdp),
            SupportedDevice::Generic(d) => d.set_tdp(tdp),
        }
    }

    fn set_gpu(&self, gpu: i16) -> (r: Vec<DeviceAction>)
        ensures
            r@ == seq![DeviceAction::ReportGpuClock(gpu)],
    {
        match self {
            SupportedDevice::Ally(d) => d.set_gpu(gpu),
            SupportedDevice::Generic(d) => d.set_gpu(gpu),
        }
    }

    fn get_patches(&self) -> (r: Vec<Patch>)
        ensures
            r@.map_values(|p: Patch| patch_view(p)) == match self {
                SupportedDevice::Ally(_) => generic_patch_texts(30, 2700).push(library_patch_text()),
                SupportedDevice::Generic(g) => generic_patch_texts(
                    g.tdp_max() as int,
                    g.gpu_max() as int,
                ),
            },
    {
        match self {
            SupportedDevice::Ally(d) => d.get_patches(),
            SupportedDevice::Generic(d) => d.get_patches(),
        }
    }

    fn get_key_mapper(&self) -> (r: Option<KeyMapper>)
        ensures
            r == match self {
                SupportedDevice::Ally(_) => Some(KeyMapper::AllyButtons),
                SupportedDevice::Generic(_) => None::<KeyMapper>,
            },
    {
        match self {
            SupportedDevice::Ally(d) => d.get_key_mapper(),
            SupportedDevice::Generic(d) => d.get_key_mapper(),
        }
    }
}

/// The name (processor, board vendor and board) of the Asus Rog Ally.
pub open spec fn ally_name() -> Seq<char> {
    "AMD Ryzen Z1 Extreme ASUSTeK COMPUTER INC. RC71L"@
}

/// The highest TDP, in W, of a device other than the Rog Ally, by its name: 28 W for
/// the Ayaneo 2, Geek and Geek 1S, the GPD WM2 and the AOKZOE A1, 30 W for the
/// Ayaneo 2S, 25 W for any other.
pub open spec fn generic_max_tdp(name: Seq<char>) -> int {
    if name == "AMD Ryzen 7 6800U with Radeon Graphics AYANEO AYANEO 2"@ || name
        == "AMD Ryzen 7 6800U with Radeon Graphics AYANEO GEEK"@ || name
        == "AMD Ryzen 7 6800U with Radeon Graphics GPD G1619-04"@ || name
        == "AMD Ryzen 7 6800U with Radeon Graphics AOKZOE AOKZOE A1 AR07"@ || name
        == "AMD Ryzen 7 7840U w/ Radeon 780M Graphics AYANEO GEEK 1S"@ {
        28
    } else if name == "AMD Ryzen 7 7840U w/ Radeon 780M Graphics AYANEO AYANEO 2S"@ {
        30
    } else {
        25
    }
}

/// The device with the name `device_name` (`None` when the name could not be read):
/// the Rog Ally by its name, any other device as a generic one with a GPU clock from
/// 800 to 1500 MHz.
pub fn create_device(device_name: Option<String>) -> (r: Option<SupportedDevice>)
    ensures
        device_name is None ==> r is None,
        device_name matches Some(n) ==> r is Some && (if trim_text(n@) == ally_name() {
            r->0 is Ally
        } else {
            r->0 matches SupportedDevice::Generic(g) && g.tdp_max() == generic_max_tdp(
                trim_text(n@),
            ) && g.gpu_min() == 800 && g.gpu_max() == 1500
        }),
{
    let name = match device_name {
        None => return None,
        Some(n) => n,
    };
    let t = trim(name.as_str());
    let s = t.as_str();
    if equal_text(s, "AMD Ryzen Z1 Extreme ASUSTeK COMPUTER INC. RC71L") {
        Some(SupportedDevice::Ally(DeviceAlly::new()))
    } else if equal_text(s, "AMD Ryzen 7 6800U with Radeon Graphics AYANEO AYANEO 2") {
        Some(SupportedDevice::Generic(DeviceGeneric::new(28, 800, 1500)))
    } else if equal_text(s, "AMD Ryzen 7 6800U with Radeon Graphics AYANEO GEEK") {
        Some(SupportedDevice::Generic(DeviceGeneric::new(28, 800, 1500)))
    } else if equal_text(s, "AMD Ryzen 7 6800U with Radeon Graphics GPD G1619-04") {
        Some(SupportedDevice::Generic(DeviceGeneric::new(28, 800, 1500)))
    } else if equal_text(s, "AMD Ryzen 7 6800U with Radeon Graphics AOKZOE AOKZOE A1 AR07") {
        Some(SupportedDevice::Generic(DeviceGeneric::new(28, 800, 1500)))
    } else if equal_text(s, "AMD Ryzen 7 7840U w/ Radeon 780M Graphics AYANEO GEEK 1S") {
        Some(SupportedDevice::Generic(DeviceGeneric::new(28, 800, 1500)))
    } else if equal_text(s, "AMD Ryzen 7 7840U w/ Radeon 780M Graphics AYANEO AYANEO 2S") {
        Some(SupportedDevice::Generic(DeviceGeneric::new(30, 800, 1500)))
    } else {
        Some(SupportedDevice::Generic(DeviceGeneric::new(25, 800, 1500)))
    }
}

/// The end of the run of white space in `s` that starts at `i`.
pub open spec fn white_space_end(s: Seq<char>, i: int) -> int
    decreases s.len() - i,
{
    if 0 <= i < s.len() && is_white_space(s[i]) {
        white_space_end(s, i + 1)
    } else {
        i
    }
}

/// The end of the line of `s` that index `i` is on (the next `\n`, or the end).
pub open spec fn line_end(s: Seq<char>, i: int) -> int
    decreases s.len() - i,
{
    if 0 <= i < s.len() && s[i] != '\n' {
        line_end(s, i + 1)
    } else {
        i
    }
}

/// At index `i` of `s` a processor model entry begins: `model name`, white space,
/// and a colon (the entry that `model name\s*:\s*(.*)` matches).
pub open spec fn model_entry_at(s: Seq<char>, i: int) -> bool {
    &&& occurs_at(s, "model name"@, i)
    &&& white_space_end(s, i + 10) < s.len()
    &&& s[white_space_end(s, i + 10)] == ':'
}

/// The value of the model entry at `i`: after the colon and all white space that
/// follows it (line breaks too), up to the end of that line.
pub open spec fn model_entry_value(s: Seq<char>, i: int) -> Seq<char> {
    let k = white_space_end(s, white_space_end(s, i + 10) + 1);
    s.subrange(k, line_end(s, k))
}

/// The first model entry of `s` from index `i` on.
pub open spec fn first_model_entry(s: Seq<char>, i: int) -> Option<int>
    decreases s.len() + 1 - i,
{
    if i < 0 || i > s.len() {
        None
    } else if model_entry_at(s, i) {
        Some(i)
    } else {
        first_model_entry(s, i + 1)
    }
}

/// The processor model named in the `/proc/cpuinfo` text `cpuinfo`: the value of its
/// first model entry, without surrounding white space.
pub open spec fn model_name_text(cpuinfo: Seq<char>) -> Option<Seq<char>> {
    match first_model_entry(cpuinfo, 0) {
        Some(i) => Some(trim_text(model_entry_value(cpuinfo, i))),
        None => None,
    }
}

fn white_space_end_exec(v: &Vec<char>, i: usize) -> (r: usize)
    requires
        i <= v.len(),
    ensures
        r == white_space_end(v@, i as int),
        i <= r <= v.len(),
{
    let mut j = i;
    while j < v.len() && is_whitespace(v[j])
        invariant
            i <= j <= v.len(),
            white_space_end(v@, i as int) == white_space_end(v@, j as int),
        decreases v.len() - j,
    {
        j = j + 1;
    }
    j
}

fn line_end_exec(v: &Vec<char>, i: usize) -> (r: usize)
    requires
        i <= v.len(),
    ensures
        r == line_end(v@, i as int),
        i <= r <= v.len(),
{
    let mut j = i;
    while j < v.len() && v[j] != '\n'
        invariant
            i <= j <= v.len(),
            line_end(v@, i as int) == line_end(v@, j as int),
        decreases v.len() - j,
    {
        j = j + 1;
    }
    j
}

/// The processor model named in the `/proc/cpuinfo` text `cpuinfo`.
pub fn model_name(cpuinfo: &str) -> (r: Option<String>)
    ensures
        match (r, model_name_text(cpuinfo@)) {
            (Some(a), Some(b)) => a@ == b,
            (None, None) => true,
            _ => false,
        },
{
    proof {
        reveal_strlit("model name");
    }
    let v = chars_of(cpuinfo);
    let key = chars_of("model name");
    let mut i: usize = 0;
    loop
        invariant
            key@ == "model name"@,
            key@.len() == 10,
            v@ == cpuinfo@,
            i <= v.len(),
            first_model_entry(v@, 0) == first_model_entry(v@, i as int),
        ensures
            first_model_entry(v@, 0) is None,
        decreases v.len() - i,
    {
        if occurs_at_exec(&v, &key, i) {
            let j = white_space_end_exec(&v, i + 10);
            if j < v.len() && v[j] == ':' {
                assert(model_entry_at(v@, i as int));
                let k = white_space_end_exec(&v, j + 1);
                let e = line_end_exec(&v, k);
                let value = string_from_chars(&v, k, e);
                return Some(trim(value.as_str()));
            }
        }
        assert(!model_entry_at(v@, i as int));
        if i == v.len() {
            assert(first_model_entry(v@, i + 1) is None);
            break;
        }
        i = i + 1;
    }
    None
}

/// The name of the device: the processor model named in `cpuinfo`, the board vendor
/// and the board name, without surrounding white space, joined by spaces; `None` when
/// the board vendor or name could not be read.
pub fn get_device_name(
    cpuinfo: &str,
    board_vendor: Option<String>,
    board_name: Option<String>,
) -> (r: Option<String>)
    requires
        model_name_text(cpuinfo@) is Some,
    ensures
        r is Some <==> board_vendor is Some && board_name is Some,
        r matches Some(n) ==> n@ == model_name_text(cpuinfo@)->0 + " "@ + trim_text(
            board_vendor->0@,
        ) + " "@ + trim_text(board_name->0@),
{
    let model = match model_name(cpuinfo) {
        Some(m) => m,
        None => return None,
    };
    let vendor = match board_vendor {
        Some(v) => trim(v.as_str()),
        None => return None,
    };
    let board = match board_name {
        Some(b) => trim(b.as_str()),
        None => return None,
    };
    let mut r = concat3(model.as_str(), " ", vendor.as_str());
    r.append(" ");
    r.append(board.as_str());
    Some(r)
}

/// `action` touches the Asus thermal policy.
pub open spec fn is_thermal_policy_action(action: DeviceAction) -> bool {
    action is SetThermalPolicy || action is EnsureThermalPolicy
}

/// A generic device sets the TDP that a settings update asks for, as power limits of
/// that many watts (2 W more for short boosts), whether or not the TDP limit is marked
/// enabled, and never touches an Asus thermal policy; it reports the GPU clock asked for.
pub proof fn lemma_generic_device_sets_requested_tdp(g: DeviceGeneric, request: SettingsRequest)
    ensures
        forall|i: int|
            0 <= i < settings_actions(SupportedDevice::Generic(g), request).len()
                ==> !is_thermal_policy_action(
                #[trigger] settings_actions(SupportedDevice::Generic(g), request)[i],
            ),
        request.per_app matches Some(per_app) ==> (per_app.tdp_limit matches Some(t)
            ==> settings_actions(SupportedDevice::Generic(g), request).contains(
            DeviceAction::SetPowerLimits {
                stapm_limit: (t * 1000) as i32,
                fast_limit: (t * 1000 + 2000) as i32,
                slow_limit: (t * 1000) as i32,
            },
        )),
        request.per_app matches Some(per_app) ==> (per_app.gpu_performance_manual_mhz matches Some(
            gpu,
        ) ==> settings_actions(SupportedDevice::Generic(g), request).contains(
            DeviceAction::ReportGpuClock(gpu),
        )),
        request.per_app is None ==> settings_actions(SupportedDevice::Generic(g), request).len()
            == 0,
{
    let acts = settings_actions(SupportedDevice::Generic(g), request);
    if let Some(per_app) = request.per_app {
        if let Some(t) = per_app.tdp_limit {
            assert(acts[0] == DeviceAction::SetPowerLimits {
                stapm_limit: (t * 1000) as i32,
                fast_limit: (t * 1000 + 2000) as i32,
                slow_limit: (t * 1000) as i32,
            });
            if let Some(gpu) = per_app.gpu_performance_manual_mhz {
                assert(acts[1] == DeviceAction::ReportGpuClock(gpu));
            }
        } else {
            if let Some(gpu) = per_app.gpu_performance_manual_mhz {
                assert(acts[0] == DeviceAction::ReportGpuClock(gpu));
            }
        }
    }
}

/// The Rog Ally sets the TDP asked for, together with the matching thermal policy,
/// only when the TDP limit is enabled; otherwise it sets the turbo policy (1) and no
/// power limits.
pub proof fn lemma_ally_follows_tdp_switch(a: DeviceAlly, request: SettingsRequest, t: i8)
    requires
        request.per_app matches Some(per_app) && per_app.tdp_limit == Some(t),
    ensures
        request.per_app->0.is_tdp_limit_enabled == Some(true) ==> settings_actions(
            SupportedDevice::Ally(a),
            request,
        ).contains(
            DeviceAction::SetPowerLimits {
                stapm_limit: (t * 1000) as i32,
                fast_limit: (t * 1000 + 2000) as i32,
                slow_limit: (t * 1000) as i32,
            },
        ) && settings_actions(SupportedDevice::Ally(a), request)[0] == DeviceAction::SetThermalPolicy(
            if t < 12 {
                2i32
            } else if t <= 25 {
                0i32
            } else {
                1i32
            },
        ),
        request.per_app->0.is_tdp_limit_enabled != Some(true) ==> settings_actions(
            SupportedDevice::Ally(a),
            request,
        )[0] == DeviceAction::SetThermalPolicy(1) && forall|i: int|
            0 <= i < settings_actions(SupportedDevice::Ally(a), request).len() ==> !(
            #[trigger] settings_actions(SupportedDevice::Ally(a), request)[i] is SetPowerLimits),
{
    let acts = settings_actions(SupportedDevice::Ally(a), request);
    let per_app = request.per_app->0;
    if per_app.is_tdp_limit_enabled == Some(true) {
        assert(acts[1] == DeviceAction::SetPowerLimits {
            stapm_limit: (t * 1000) as i32,
            fast_limit: (t * 1000 + 2000) as i32,
            slow_limit: (t * 1000) as i32,
        });
    }
}

} // verus!
