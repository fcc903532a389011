//! The Asus Rog Ally with only its TDP managed: the thermal policy follows the TDP,
//! written in the background when it differs.
use vstd::prelude::*;
use super::{Device, DeviceAction, KeyMapper};
use super::device_ally::{thermal_policy_for, thermal_policy_for_tdp};
use super::device_generic::{DeviceGeneric, generic_patch_texts, generic_tdp_actions};
use crate::patch::{Patch, patch_view};
use crate::server::SettingsRequest;
use crate::text::{decimal, decimal_string, equal_text, trim, trim_text};

verus! {

/// What the TDP-only Rog Ally does to set the TDP to `tdp` watts: make sure of the
/// matching thermal policy, then set the power limits.
pub open spec fn tdp_only_tdp_actions(tdp: i8) -> Seq<DeviceAction> {
    seq![DeviceAction::EnsureThermalPolicy(thermal_policy_for(tdp as int))] + generic_tdp_actions(
        tdp,
    )
}

/// What the TDP-only Rog Ally does for the settings `request`: it sets the TDP asked
/// for, and nothing else.
pub open spec fn tdp_only_settings_actions(request: SettingsRequest) -> Seq<DeviceAction> {
    match request.per_app {
        Some(per_app) => match per_app.tdp_limit {
            Some(tdp) => tdp_only_tdp_actions(tdp),
            None => Seq::empty(),
        },
        None => Seq::empty(),
    }
}

/// Whether the thermal policy file, holding `current`, is to be rewritten with
/// `thermal_policy`: when it does not hold that policy already.
pub fn thermal_policy_needs_update(current: &str, thermal_policy: i32) -> (r: bool)
    ensures
        r == (trim_text(current@) != decimal(thermal_policy as int)),
{
    let t = trim(current);
    let p = decimal_string(thermal_policy);
    !equal_text(t.as_str(), p.as_str())
}

/// The Asus Rog Ally with only its TDP managed.
pub struct DeviceAllyTDPOnly {
    device: DeviceGeneric,
}

impl DeviceAllyTDPOnly {
    #[verifier::type_invariant]
    spec fn tdp_only_ranges(&self) -> bool {
        &&& self.device.tdp_max() == 30
        &&& self.device.gpu_min() == 800
        &&& self.device.gpu_max() == 1500
    }

    /// The generic device that sets its power limits.
    pub closed spec fn generic(&self) -> DeviceGeneric {
        self.device
    }

    /// The TDP-only Rog Ally: a TDP up to 30 W, the GPU range of a generic device.
    pub fn new() -> (r: Self)
        ensures
            r.generic().tdp_max() == 30,
            r.generic().gpu_min() == 800,
            r.generic().gpu_max() == 1500,
    {
        Self { device: DeviceGeneric::new(30, 800, 1500) }
    }
}

impl Device for DeviceAllyTDPOnly {
    fn update_settings(&self, request: SettingsRequest) -> (r: Vec<DeviceAction>)
        ensures
            r@ == tdp_only_settings_actions(request),
    {
        if let Some(per_app) = request.per_app {
            if let Some(tdp) = per_app.tdp_limit {
                return self.set_tdp(tdp);
            }
        }
        Vec::new()
    }

    fn set_thermalpolicy(&self, thermal_policy: i32) -> (r: Vec<DeviceAction>)
        ensures
            r@ == seq![DeviceAction::EnsureThermalPolicy(thermal_policy)],
    {
        let mut r: Vec<DeviceAction> = Vec::new();
        r.push(DeviceAction::EnsureThermalPolicy(thermal_policy));
        assert(r@ =~= seq![DeviceAction::EnsureThermalPolicy(thermal_policy)]);
        r
    }

    fn set_tdp(&self, tdp: i8) -> (r: Vec<DeviceAction>)
        ensures
            r@ == tdp_only_tdp_actions(tdp),
    {
        let mut r = self.set_thermalpolicy(thermal_policy_for_tdp(tdp));
        let mut a = self.device.set_tdp(tdp);
        r.append(&mut a);
        assert(r@ =~= tdp_only_tdp_actions(tdp));
        r
    }

    fn set_gpu(&self, gpu: i16) -> (r: Vec<DeviceAction>)
        ensures
            r@ == seq![DeviceAction::ReportGpuClock(gpu)],
    {
        self.device.set_gpu(gpu)
    }

    fn get_patches(&self) -> (r: Vec<Patch>)
        ensures
            r@.map_values(|p: Patch| patch_view(p)) == generic_patch_texts(30, 1500),
    {
        proof {
            use_type_invariant(self);
        }
        self.device.get_patches()
    }

    fn get_key_mapper(&self) -> (r: Option<KeyMapper>)
        ensures
            r is None,
    {
        self.device.get_key_mapper()
    }
}

} // verus!
