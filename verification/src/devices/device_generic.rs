//! A device whose TDP is set with `ryzenadj`, with a TDP and GPU clock range.
use vstd::prelude::*;
use super::{Device, DeviceAction, KeyMapper};
use crate::patch::{Patch, PatchFile, patch_view};
use crate::server::SettingsRequest;
use crate::text::{concat2, concat3, decimal, decimal_string};

verus! {

/// The power limits, in mW, that a TDP of `tdp` watts sets: `tdp` W sustained and
/// slow, 2 W more for short boosts.
pub open spec fn power_limits(tdp: int) -> DeviceAction {
    DeviceAction::SetPowerLimits {
        stapm_limit: (tdp * 1000) as i32,
        fast_limit: (tdp * 1000 + 2000) as i32,
        slow_limit: (tdp * 1000) as i32,
    }
}

/// What a generic device does to set the TDP to `tdp` watts.
pub open spec fn generic_tdp_actions(tdp: i8) -> Seq<DeviceAction> {
    seq![power_limits(tdp as int)]
}

/// What a generic device does for the settings `request`: it sets the TDP and
/// reports the GPU clock that the request asks for.
pub open spec fn generic_settings_actions(request: SettingsRequest) -> Seq<DeviceAction> {
    match request.per_app {
        None => Seq::empty(),
        Some(per_app) => (match per_app.tdp_limit {
            Some(tdp) => generic_tdp_actions(tdp),
            None => Seq::empty(),
        }) + (match per_app.gpu_performance_manual_mhz {
            Some(gpu) => seq![DeviceAction::ReportGpuClock(gpu)],
            None => Seq::empty(),
        }),
    }
}

/// The arguments of `ryzenadj` for the given limits, in mW.
pub open spec fn ryzenadj_command_texts(stapm: int, fast: int, slow: int) -> Seq<Seq<char>> {
    seq![
        "ryzenadj"@,
        "--stapm-limit="@ + decimal(stapm),
        "--fast-limit="@ + decimal(fast),
        "--slow-limit="@ + decimal(slow),
    ]
}

/// The `ryzenadj` command line (program first) that sets the given limits, in mW.
pub fn ryzenadj_command(stapm_limit: i32, fast_limit: i32, slow_limit: i32) -> (r: Vec<String>)
    ensures
        r@.map_values(|a: String| a@) == ryzenadj_command_texts(
            stapm_limit as int,
            fast_limit as int,
            slow_limit as int,
        ),
{
    let mut r: Vec<String> = Vec::new();
    r.push("ryzenadj".to_string());
    r.push(concat2("--stapm-limit=", decimal_string(stapm_limit).as_str()));
    r.push(concat2("--fast-limit=", decimal_string(fast_limit).as_str()));
    r.push(concat2("--slow-limit=", decimal_string(slow_limit).as_str()));
    assert(r@.map_values(|a: String| a@) =~= ryzenadj_command_texts(
        stapm_limit as int,
        fast_limit as int,
        slow_limit as int,
    ));
    r
}

/// The patches of a device with a TDP up to `max_tdp` W and a GPU clock up to
/// `max_gpu` MHz, as (text to find, replacement, file).
pub open spec fn generic_patch_texts(max_tdp: int, max_gpu: int) -> Seq<
    (Seq<char>, Seq<char>, PatchFile),
> {
    seq![
        (
            "return[o,t,n,e=>r((()=>g.Get().SetTDPLimit(e)))"@,
            "return[o,t,"@ + decimal(max_tdp) + ",e=>r((()=>g.Get().SetTDPLimit(e)))"@,
            PatchFile::Chunk,
        ),
        (
            "return[o,t,n,e=>r((()=>g.Get().SetGPUPerformanceManualMhz(e)))"@,
            "return[o,t,"@ + decimal(max_gpu) + ",e=>r((()=>g.Get().SetGPUPerformanceManualMhz(e)))"@,
            PatchFile::Chunk,
        ),
        (
            "const t=c.Hm.deserializeBinary(e).toObject();Object.keys(t)"@,
            "const t=c.Hm.deserializeBinary(e).toObject(); console.log(t); fetch(`http://localhost:1338/update_settings`, { method: 'POST',  headers: {'Content-Type': 'application/json'}, body: JSON.stringify(t.settings)}); Object.keys(t)"@,
            PatchFile::Chunk,
        ),
        (
            "/steaminputglyphs/xbox_button_logo.svg"@,
            "/steaminputglyphs/sc_button_steam.svg"@,
            PatchFile::Chunk,
        ),
        (
            "DownloadComplete_Title\"),i=Ve(n,t.data.appid());const l=(0,H.Q2)();"@,
            "DownloadComplete_Title\"),i=Ve(n,t.data.appid()); SteamClient.Apps.GetResolutionOverrideForApp(t.data.appid()).then(res => res === \"Default\" && SteamClient.Apps.SetAppResolutionOverride(t.data.appid(), \"Native\")); const l=(0,H.Q2)();"@,
            PatchFile::Chunk,
        ),
    ]
}

/// A patch of `file` replacing `find` by `replacement`.
fn make_patch(find: &str, replacement: String, file: PatchFile) -> (r: Patch)
    ensures
        patch_view(r) == (find@, replacement@, file),
{
    Patch { text_to_find: find.to_string(), replacement_text: replacement, destination: file }
}

/// The patches of a device with a TDP up to `max_tdp` W and a GPU clock up to
/// `max_gpu` MHz.
pub fn generic_patches(max_tdp: i8, max_gpu: i16) -> (r: Vec<Patch>)
    ensures
        r@.map_values(|p: Patch| patch_view(p)) == generic_patch_texts(max_tdp as int, max_gpu as int),
{
    let tdp_text = decimal_string(max_tdp as i32);
    let gpu_text = decimal_string(max_gpu as i32);
    let mut r: Vec<Patch> = Vec::new();
    r.push(
        make_patch(
            "return[o,t,n,e=>r((()=>g.Get().SetTDPLimit(e)))",
            concat3("return[o,t,", tdp_text.as_str(), ",e=>r((()=>g.Get().SetTDPLimit(e)))"),
            PatchFile::Chunk,
        ),
    );
    r.push(
        make_patch(
            "return[o,t,n,e=>r((()=>g.Get().SetGPUPerformanceManualMhz(e)))",
            concat3(
                "return[o,t,",
                gpu_text.as_str(),
                ",e=>r((()=>g.Get().SetGPUPerformanceManualMhz(e)))",
            ),
            PatchFile::Chunk,
        ),
    );
    r.push(
        make_patch(
            "const t=c.Hm.deserializeBinary(e).toObject();Object.keys(t)",
            "const t=c.Hm.deserializeBinary(e).toObject(); console.log(t); fetch(`http://localhost:1338/update_settings`, { method: 'POST',  headers: {'Content-Type': 'application/json'}, body: JSON.stringify(t.settings)}); Object.keys(t)".to_string(),
            PatchFile::Chunk,
        ),
    );
    r.push(
        make_patch(
            "/steaminputglyphs/xbox_button_logo.svg",
            "/steaminputglyphs/sc_button_steam.svg".to_string(),
            PatchFile::Chunk,
        ),
    );
    r.push(
        make_patch(
            "DownloadComplete_Title\"),i=Ve(n,t.data.appid());const l=(0,H.Q2)();",
            "DownloadComplete_Title\"),i=Ve(n,t.data.appid()); SteamClient.Apps.GetResolutionOverrideForApp(t.data.appid()).then(res => res === \"Default\" && SteamClient.Apps.SetAppResolutionOverride(t.data.appid(), \"Native\")); const l=(0,H.Q2)();".to_string(),
            PatchFile::Chunk,
        ),
    );
    assert(r@.map_values(|p: Patch| patch_view(p)) =~= generic_patch_texts(
        max_tdp as int,
        max_gpu as int,
    ));
    r
}

/// A device whose TDP is set with `ryzenadj`.
pub struct DeviceGeneric {
    max_tdp: i8,
    max_gpu: i16,
    min_gpu: i16,
}

impl DeviceGeneric {
    /// The highest TDP, in W, that the TDP slider offers.
    pub closed spec fn tdp_max(&self) -> i8 {
        self.max_tdp
    }

    /// The lowest GPU clock, in MHz.
    pub closed spec fn gpu_min(&self) -> i16 {
        self.min_gpu
    }

    /// The highest GPU clock, in MHz, that the GPU slider offers.
    pub closed spec fn gpu_max(&self) -> i16 {
        self.max_gpu
    }

    /// A device with a TDP up to `max_tdp` W and a GPU clock from `min_gpu` to
    /// `max_gpu` MHz.
    pub fn new(max_tdp: i8, min_gpu: i16, max_gpu: i16) -> (r: DeviceGeneric)
        ensures
            r.tdp_max() == max_tdp,
            r.gpu_min() == min_gpu,
            r.gpu_max() == max_gpu,
    {
        DeviceGeneric { max_tdp, max_gpu, min_gpu }
    }
}

impl Device for DeviceGeneric {
    fn update_settings(&self, request: SettingsRequest) -> (r: Vec<DeviceAction>)
        ensures
            r@ == generic_settings_actions(request),
    {
        let mut r: Vec<DeviceAction> = Vec::new();
        if let Some(per_app) = request.per_app {
            if let Some(tdp) = per_app.tdp_limit {
                let mut a = self.set_tdp(tdp);
                r.append(&mut a);
            }
            if let Some(gpu) = per_app.gpu_performance_manual_mhz {
                let mut a = self.set_gpu(gpu);
                r.append(&mut a);
            }
        }
        assert(r@ =~= generic_settings_actions(request));
        r
    }

    fn set_thermalpolicy(&self, thermal_policy: i32) -> (r: Vec<DeviceAction>)
        ensures
            r@.len() == 0,
    {
        Vec::new()
    }

    fn set_tdp(&self, tdp: i8) -> (r: Vec<DeviceAction>)
        ensures
            r@ == generic_tdp_actions(tdp),
    {
        let target_tdp = tdp as i32 * 1000;
        let boost_tdp = target_tdp + 2000;
        let mut r: Vec<DeviceAction> = Vec::new();
        r.push(
            DeviceAction::SetPowerLimits {
                stapm_limit: target_tdp,
                fast_limit: boost_tdp,
                slow_limit: target_tdp,
            },
        );
        assert(r@ =~= generic_tdp_actions(tdp));
        r
    }

    fn set_gpu(&self, gpu: i16) -> (r: Vec<DeviceAction>)
        ensures
            r@ == seq![DeviceAction::ReportGpuClock(gpu)],
    {
        let mut r: Vec<DeviceAction> = Vec::new();
        r.push(DeviceAction::ReportGpuClock(gpu));
        assert(r@ =~= seq![DeviceAction::ReportGpuClock(gpu)]);
        r
    }

    fn get_patches(&self) -> (r: Vec<Patch>)
        ensures
            r@.map_values(|p: Patch| patch_view(p)) == generic_patch_texts(
                self.tdp_max() as int,
                self.gpu_max() as int,
            ),
    {
        generic_patches(self.max_tdp, self.max_gpu)
    }

    fn get_key_mapper(&self) -> (r: Option<KeyMapper>)
        ensures
            r is None,
    {
        None
    }
}

} // verus!
