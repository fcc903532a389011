//! Command-line handling and the user's home directory.
use vstd::prelude::*;
use crate::text::{strip_prefixes, starts_with, starts_with_text, trim_start_matches};

verus! {

/// The user the patcher works for when none is named on the command line.
pub open spec fn default_username() -> Seq<char> {
    "gamer"@
}

/// The user named by the command line `args` (the program name first): the text
/// after `--user=` when there is exactly one argument and it starts so, otherwise
/// the default user.
pub open spec fn username_of(args: Seq<String>) -> Seq<char> {
    if args.len() == 2 && starts_with_text(args[1]@, "--user="@) {
        strip_prefixes(args[1]@, "--user="@)
    } else {
        default_username()
    }
}

/// The user named by the command line `args` (the program name first).
pub fn get_username(args: &Vec<String>) -> (r: String)
    ensures
        r@ == username_of(args@),
{
    if args.len() != 2 {
        return "gamer".to_string();
    }
    let arg = &args[1];
    if starts_with(arg.as_str(), "--user=") {
        trim_start_matches(arg.as_str(), "--user=")
    } else {
        "gamer".to_string()
    }
}

/// `dirs::home_dir`: the current user's home directory, from `$HOME` or the user
/// database, written out as text; `None` when neither gives one. What it returns
/// depends on the environment, so nothing is stated of it.
#[verifier::external_body]
pub(crate) fn home_dir() -> Option<String> {
    match dirs::home_dir() {
        Some(path) => Some(path.to_string_lossy().into_owned()),
        None => None,
    }
}

/// Naming a user on the command line selects that user: `--user=<name>` as the only
/// argument gives `<name>`, unless the name itself starts with `--user=`.
pub proof fn lemma_username_round_trip(program: String, arg: String, name: Seq<char>)
    requires
        arg@ == "--user="@ + name,
        !starts_with_text(name, "--user="@),
    ensures
        username_of(seq![program, arg]) == name,
{
    reveal_strlit("--user=");
    let p = "--user="@;
    assert(arg@.subrange(0, p.len() as int) =~= p);
    assert(arg@.skip(p.len() as int) =~= name);
    assert(seq![program, arg][1] == arg);
    assert(starts_with_text(arg@, p));
    assert(strip_prefixes(name, p) == name);
    assert(strip_prefixes(arg@, p) == strip_prefixes(arg@.skip(p.len() as int), p));
}

} // verus!
