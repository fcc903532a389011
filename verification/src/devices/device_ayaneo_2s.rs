//! The Ayaneo 2S: TDP through `ryzenadj`, and its menu keys recognised by the key
//! combinations they send.
use vstd::prelude::*;
use std::collections::VecDeque;
use super::{Device, DeviceAction, KeyMapper, library_patch, library_patch_text};
use super::device_generic::{DeviceGeneric, generic_patch_texts, generic_tdp_actions};
use crate::key_mapper::{InputDeviceInfo, find_by_ids, first_with_ids};
use crate::patch::{Patch, patch_view};
use crate::server::SettingsRequest;

verus! {

/// What the Ayaneo 2S does for the settings `request`: it sets the TDP asked for, and
/// nothing else.
pub open spec fn ayaneo_settings_actions(request: SettingsRequest) -> Seq<DeviceAction> {
    match request.per_app {
        Some(per_app) => match per_app.tdp_limit {
            Some(tdp) => generic_tdp_actions(tdp),
            None => Seq::empty(),
        },
        None => Seq::empty(),
    }
}

/// The Ayaneo 2S.
pub struct DeviceAyaneo2s {
    device: DeviceGeneric,
}

impl DeviceAyaneo2s {
    #[verifier::type_invariant]
    spec fn ayaneo_ranges(&self) -> bool {
        &&& self.device.tdp_max() == 30
        &&& self.device.gpu_min() == 800
        &&& self.device.gpu_max() == 1500
    }

    /// The generic device that sets its power limits.
    pub closed spec fn generic(&self) -> DeviceGeneric {
        self.device
    }

    /// The Ayaneo 2S: a TDP up to 30 W and a GPU clock from 800 to 1500 MHz.
    pub fn new() -> (r: Self)
        ensures
            r.generic().tdp_max() == 30,
            r.generic().gpu_min() == 800,
            r.generic().gpu_max() == 1500,
    {
        DeviceAyaneo2s { device: DeviceGeneric::new(30, 800, 1500) }
    }
}

impl Device for DeviceAyaneo2s {
    fn update_settings(&self, request: SettingsRequest) -> (r: Vec<DeviceAction>)
        ensures
            r@ == ayaneo_settings_actions(request),
    {
        if let Some(per_app) = request.per_app {
            if let Some(tdp) = per_app.tdp_limit {
                return self.set_tdp(tdp);
            }
        }
        Vec::new()
    }

    fn set_thermalpolicy(&self, thermal_policy: i32) -> (r: Vec<DeviceAction>)
        ensures
            r@.len() == 0,
    {
        Vec::new()
    }

    fn set_tdp(&self, tdp: i8) -> (r: Vec<DeviceAction>)
        ensures
            r@ == generic_tdp_actions(tdp),
    {
        self.device.set_tdp(tdp)
    }

    fn set_gpu(&self, gpu: i16) -> (r: Vec<DeviceAction>)
        ensures
            r@ == seq![DeviceAction::ReportGpuClock(gpu)],
    {
        self.device.set_gpu(gpu)
    }

    fn get_patches(&self) -> (r: Vec<Patch>)
        ensures
            r@.map_values(|p: Patch| patch_view(p)) == generic_patch_texts(30, 1500).push(
                library_patch_text(),
            ),
    {
        proof {
            use_type_invariant(self);
        }
        let mut patches = self.device.get_patches();
        let ghost before = patches@;
        patches.push(library_patch());
        assert(patches@.map_values(|p: Patch| patch_view(p)) =~= before.map_values(
            |p: Patch| patch_view(p),
        ).push(library_patch_text()));
        patches
    }

    fn get_key_mapper(&self) -> (r: Option<KeyMapper>)
        ensures
            r == Some(KeyMapper::AyaneoCombos),
    {
        Some(KeyMapper::AyaneoCombos)
    }
}

/// The index of the Ayaneo 2S's keyboard (vendor `0x0001`, product `0x0001`) among
/// `devices`: the first with these identifiers.
pub fn pick_device(devices: &Vec<InputDeviceInfo>) -> (r: Option<usize>)
    ensures
        match (r, first_with_ids(devices@, 0x0001, 0x0001, 0)) {
            (Some(a), Some(b)) => a == b,
            (None, None) => true,
            _ => false,
        },
{
    find_by_ids(devices, 0x0001, 0x0001)
}

/// Every one of `vals` is among `keys`.
pub open spec fn all_pressed(vals: Seq<i32>, keys: Seq<i32>) -> bool {
    forall|i: int| 0 <= i < vals.len() ==> keys.contains(#[trigger] vals[i])
}

/// The recent keys after `new_val` arrives: the oldest key leaves a full window of 12.
pub open spec fn window_after(keys: Seq<i32>, new_val: i32) -> Seq<i32> {
    (if keys.len() == 12 {
        keys.drop_first()
    } else {
        keys
    }).push(new_val)
}

/// The combination that the recent keys `keys` complete: 1 for `check_vals_1`, else 2
/// for `check_vals_2`, else 0.
pub open spec fn combo_of(keys: Seq<i32>, check_vals_1: Seq<i32>, check_vals_2: Seq<i32>) -> i32 {
    if all_pressed(check_vals_1, keys) {
        1
    } else if all_pressed(check_vals_2, keys) {
        2
    } else {
        0
    }
}

fn deque_contains(queue: &VecDeque<i32>, x: i32) -> (r: bool)
    ensures
        r == queue@.contains(x),
{
    let mut i: usize = 0;
    while i < queue.len()
        invariant
            i <= queue@.len(),
            forall|k: int| 0 <= k < i ==> queue@[k] != x,
        decreases queue@.len() - i,
    {
        if queue[i] == x {
            assert(queue@[i as int] == x);
            return true;
        }
        i = i + 1;
    }
    false
}

fn all_in_queue(vals: &[i32], queue: &VecDeque<i32>) -> (r: bool)
    ensures
        r == all_pressed(vals@, queue@),
{
    let mut i: usize = 0;
    while i < vals.len()
        invariant
            i <= vals@.len(),
            forall|k: int| 0 <= k < i ==> queue@.contains(#[trigger] vals@[k]),
        decreases vals@.len() - i,
    {
        if !deque_contains(queue, vals[i]) {
            return false;
        }
        i = i + 1;
    }
    true
}

/// Adds the key `new_val` to the recent keys `queue` (at most 12: a full queue drops
/// its oldest key first), and tells which combination they now complete: 1 when all of
/// `check_vals_1` are among them, else 2 when all of `check_vals_2` are, else 0. A
/// completed combination empties the queue.
pub fn check_combo_key(
    queue: &mut VecDeque<i32>,
    new_val: i32,
    check_vals_1: &[i32],
    check_vals_2: &[i32],
) -> (r: i32)
    ensures
        r == combo_of(window_after(old(queue)@, new_val), check_vals_1@, check_vals_2@),
        r != 0 ==> final(queue)@.len() == 0,
        r == 0 ==> final(queue)@ == window_after(old(queue)@, new_val),
        old(queue)@.len() <= 12 ==> final(queue)@.len() <= 12,
{
    if queue.len() == 12 {
        queue.pop_front();
    }
    queue.push_back(new_val);
    assert(queue@ =~= window_after(old(queue)@, new_val));
    if all_in_queue(check_vals_1, queue) {
        queue.clear();
        1
    } else if all_in_queue(check_vals_2, queue) {
        queue.clear();
        2
    } else {
        0
    }
}

/// The keys of the Ayaneo 2S's main menu key combination.
pub fn menu_combo() -> (r: Vec<i32>)
    ensures
        r@ == seq![97i32, 125, 187],
{
    let r = vec![97, 125, 187];
    assert(r@ =~= seq![97i32, 125, 187]);
    r
}

/// The keys of the Ayaneo 2S's quick access key combination.
pub fn qam_combo() -> (r: Vec<i32>)
    ensures
        r@ == seq![32i32, 125],
{
    let r = vec![32, 125];
    assert(r@ =~= seq![32i32, 125]);
    r
}

/// The script that a completed combination `combo` (as `check_combo_key` tells it,
/// with the main menu keys first) runs in the Steam UI.
pub open spec fn combo_script_text(combo: i32) -> Option<Seq<char>> {
    if combo == 1 {
        Some("window.HandleSystemKeyEvents({eKey: 0})"@)
    } else if combo == 2 {
        Some("window.HandleSystemKeyEvents({eKey: 1})"@)
    } else {
        None
    }
}

/// The script that a completed combination `combo` runs in the Steam UI.
pub fn combo_script(combo: i32) -> (r: Option<&'static str>)
    ensures
        match (r, combo_script_text(combo)) {
            (Some(a), Some(b)) => a@ == b,
            (None, None) => true,
            _ => false,
        },
{
    if combo == 1 {
        Some("window.HandleSystemKeyEvents({eKey: 0})")
    } else if combo == 2 {
        Some("window.HandleSystemKeyEvents({eKey: 1})")
    } else {
        None
    }
}

/// The Ayaneo 2S's key combination mapper: the recent keys, and the combinations.
pub struct ComboMapper {
    queue: VecDeque<i32>,
    menu: Vec<i32>,
    qam: Vec<i32>,
}

impl ComboMapper {
    /// The recent keys.
    pub closed spec fn recent(&self) -> Seq<i32> {
        self.queue@
    }

    /// The keys of the main menu combination.
    pub closed spec fn menu_keys(&self) -> Seq<i32> {
        self.menu@
    }

    /// The keys of the quick access combination.
    pub closed spec fn qam_keys(&self) -> Seq<i32> {
        self.qam@
    }

    /// A mapper with no recent keys and the Ayaneo 2S's combinations.
    pub fn new() -> (r: ComboMapper)
        ensures
            r.recent().len() == 0,
            r.menu_keys() == seq![97i32, 125, 187],
            r.qam_keys() == seq![32i32, 125],
    {
        ComboMapper { queue: VecDeque::new(), menu: menu_combo(), qam: qam_combo() }
    }

    /// Reacts to the key `code`: the script to run, when it completes a combination.
    pub fn on_key(&mut self, code: u16) -> (r: Option<&'static str>)
        ensures
            final(self).menu_keys() == old(self).menu_keys(),
            final(self).qam_keys() == old(self).qam_keys(),
            ({
                let combo = combo_of(
                    window_after(old(self).recent(), code as i32),
                    old(self).menu_keys(),
                    old(self).qam_keys(),
                );
                &&& combo != 0 ==> final(self).recent().len() == 0
                &&& combo == 0 ==> final(self).recent() == window_after(
                    old(self).recent(),
                    code as i32,
                )
                &&& match (r, combo_script_text(combo)) {
                    (Some(a), Some(b)) => a@ == b,
                    (None, None) => true,
                    _ => false,
                }
            }),
    {
        let combo = check_combo_key(
            &mut self.queue,
            code as i32,
            self.menu.as_slice(),
            self.qam.as_slice(),
        );
        combo_script(combo)
    }
}

} // verus!
