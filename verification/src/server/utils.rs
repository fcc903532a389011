//! Setting the TDP with `ryzenadj` run through `sudo`.
use vstd::prelude::*;
use crate::devices::device_generic::{ryzenadj_command, ryzenadj_command_texts};

verus! {

/// The password written to `sudo`'s standard input.
pub fn sudo_password_input() -> (r: &'static str)
    ensures
        r@ == "gamer\n"@,
{
    "gamer\n"
}

/// The command line that sets the TDP to `tdp` watts: `ryzenadj` through `sudo -S`,
/// with a sustained and slow limit of `tdp` W and a fast limit 2 W above.
pub fn set_tdp(tdp: i32) -> (r: Vec<String>)
    requires
        -2147483 <= tdp <= 2147481,
    ensures
        r@.map_values(|a: String| a@) == seq!["sudo"@, "-S"@] + ryzenadj_command_texts(
            tdp * 1000,
            tdp * 1000 + 2000,
            tdp * 1000,
        ),
{
    let target_tdp = tdp * 1000;
    let boost_tdp = target_tdp + 2000;
    let mut command = ryzenadj_command(target_tdp, boost_tdp, target_tdp);
    let ghost tail = command@;
    let mut r: Vec<String> = Vec::new();
    r.push("sudo".to_string());
    r.push("-S".to_string());
    let ghost head = r@;
    r.append(&mut command);
    assert(r@ == head + tail);
    assert(head.map_values(|a: String| a@) =~= seq!["sudo"@, "-S"@]);
    assert(r@.map_values(|a: String| a@) =~= head.map_values(|a: String| a@) + tail.map_values(
        |a: String| a@,
    ));
    r
}

} // verus!
