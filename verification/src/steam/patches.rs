//! The patches of the Steam UI's quick access menu: the TDP slider's upper end and a
//! report of each TDP change to the local server.
use vstd::prelude::*;

verus! {

/// A replacement of one text by another in the Steam UI.
pub struct Patch {
    pub text_to_find: String,
    pub replacement_text: String,
}

/// The texts of the quick access menu patches, as (text to find, replacement).
pub open spec fn menu_patch_texts() -> Seq<(Seq<char>, Seq<char>)> {
    seq![
        (
            "return[n,t,r,e=>i((()=>p.Get().SetTDPLimit(e)))"@,
            "return[n,t,30,e=>i((()=>p.Get().SetTDPLimit(e)))"@,
        ),
        (
            "const t=c.Hm.deserializeBinary(e).toObject();Object.keys(t)"@,
            "const t=c.Hm.deserializeBinary(e).toObject(); fetch(`http://localhost:1338/set_tdp/${t.settings.per_app.tdp_limit}`); Object.keys(t)"@,
        ),
    ]
}

/// The quick access menu patches: a TDP slider up to 30 W, and every TDP change
/// reported to the local server.
pub fn get_patches() -> (r: Vec<Patch>)
    ensures
        r@.len() == menu_patch_texts().len(),
        forall|i: int|
            0 <= i < r@.len() ==> (#[trigger] r@[i]).text_to_find@ == menu_patch_texts()[i].0
                && r@[i].replacement_text@ == menu_patch_texts()[i].1,
{
    let mut r: Vec<Patch> = Vec::new();
    r.push(
        Patch {
            text_to_find: "return[n,t,r,e=>i((()=>p.Get().SetTDPLimit(e)))".to_string(),
            replacement_text: "return[n,t,30,e=>i((()=>p.Get().SetTDPLimit(e)))".to_string(),
        },
    );
    r.push(
        Patch {
            text_to_find: "const t=c.Hm.deserializeBinary(e).toObject();Object.keys(t)".to_string(),
            replacement_text: "const t=c.Hm.deserializeBinary(e).toObject(); fetch(`http://localhost:1338/set_tdp/${t.settings.per_app.tdp_limit}`); Object.keys(t)".to_string(),
        },
    );
    r
}

} // verus!
