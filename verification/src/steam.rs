//! The decisions of the Steam client integration: applying and removing patches in
//! the opened UI files, reacting to the Steam log, retrying messages, and the texts
//! sent to Steam's debugger.
use vstd::prelude::*;
use crate::patch::Patch;
use crate::text::{
    concat3, contains, contains_text, digit_char, equal_text, lemma_split_at_first, lemma_undo_replace,
    occurs_at, replace, replace_all, written_at,
};
use crate::utils::home_dir;

pub mod patches;

verus! {

/// `patch` applied to `content`: every occurrence of its text to find replaced by its
/// replacement, when there is one.
pub open spec fn patched_text(content: Seq<char>, patch: Patch) -> Seq<char> {
    if contains_text(content, patch.text_to_find@) {
        replace_all(content, patch.text_to_find@, patch.replacement_text@)
    } else {
        content
    }
}

/// `patch` removed from `content`: every occurrence of its replacement put back to the
/// text it replaced, when there is one.
pub open spec fn unpatched_text(content: Seq<char>, patch: Patch) -> Seq<char> {
    if contains_text(content, patch.replacement_text@) {
        replace_all(content, patch.replacement_text@, patch.text_to_find@)
    } else {
        content
    }
}

/// `patch` applied to, or with `undo` removed from, `content`.
pub open spec fn patch_step(content: Seq<char>, patch: Patch, undo: bool) -> Seq<char> {
    if undo {
        unpatched_text(content, patch)
    } else {
        patched_text(content, patch)
    }
}

/// The file `target` of a patch is the one at `path`.
pub open spec fn targets(target: Option<String>, path: Seq<char>) -> bool {
    target matches Some(t) && t@ == path
}

/// The content of the file at `path`, first `content`, after the first `n` of
/// `patches` were applied (or with `undo` removed) in order, patch `i` going into the
/// file `targets[i]`.
pub open spec fn after_patches(
    content: Seq<char>,
    patches: Seq<Patch>,
    targets_of: Seq<Option<String>>,
    path: Seq<char>,
    undo: bool,
    n: int,
) -> Seq<char>
    decreases n,
{
    if n <= 0 {
        content
    } else {
        let before = after_patches(content, patches, targets_of, path, undo, n - 1);
        if targets(targets_of[n - 1], path) {
            patch_step(before, patches[n - 1], undo)
        } else {
            before
        }
    }
}

/// No two files have the same path.
pub open spec fn distinct_paths(files: Seq<(Seq<char>, Seq<char>)>) -> bool {
    forall|i: int, j: int|
        0 <= i < files.len() && 0 <= j < files.len() && i != j ==> #[trigger] files[i].0
            != #[trigger] files[j].0
}

/// Some file has the path `path`.
pub open spec fn has_path(files: Seq<(Seq<char>, Seq<char>)>, path: Seq<char>) -> bool {
    exists|j: int| 0 <= j < files.len() && #[trigger] files[j].0 == path
}

/// Opened files, written as (path, content) texts.
pub open spec fn files_view(files: Seq<(String, String)>) -> Seq<(Seq<char>, Seq<char>)> {
    files.map_values(|e: (String, String)| (e.0@, e.1@))
}

/// The index of the file at `path` among `files`.
fn position_in(files: &Vec<(String, String)>, path: &str) -> (r: Option<usize>)
    ensures
        r matches Some(j) ==> j < files@.len() && files_view(files@)[j as int].0 == path@,
        r is None ==> !has_path(files_view(files@), path@),
{
    let mut j: usize = 0;
    while j < files.len()
        invariant
            j <= files.len(),
            forall|k: int| 0 <= k < j ==> files_view(files@)[k].0 != path@,
        decreases files.len() - j,
    {
        if equal_text(files[j].0.as_str(), path) {
            return Some(j);
        }
        j = j + 1;
    }
    None
}

/// The UI files that patching works on: each path with its content, every path once.
pub struct OpenedFiles {
    files: Vec<(String, String)>,
}

impl View for OpenedFiles {
    type V = Seq<(Seq<char>, Seq<char>)>;

    closed spec fn view(&self) -> Seq<(Seq<char>, Seq<char>)> {
        files_view(self.files@)
    }
}

impl OpenedFiles {
    #[verifier::type_invariant]
    spec fn paths_are_distinct(&self) -> bool {
        distinct_paths(self@)
    }

    /// No file opened yet.
    pub fn new() -> (r: OpenedFiles)
        ensures
            r@ == Seq::<(Seq<char>, Seq<char>)>::empty(),
    {
        let r = OpenedFiles { files: Vec::new() };
        assert(r@ =~= Seq::<(Seq<char>, Seq<char>)>::empty());
        r
    }

    /// The index of the file at `path`.
    pub fn position(&self, path: &str) -> (r: Option<usize>)
        ensures
            r matches Some(j) ==> j < self@.len() && self@[j as int].0 == path@,
            r is None ==> !has_path(self@, path@),
    {
        position_in(&self.files, path)
    }

    /// Whether a file at `path` is open.
    pub fn contains(&self, path: &str) -> (r: bool)
        ensures
            r == has_path(self@, path@),
    {
        self.position(path).is_some()
    }

    /// Opens the file at `path` with `content`.
    pub fn insert(&mut self, path: String, content: String)
        requires
            !has_path(old(self)@, path@),
        ensures
            final(self)@ == old(self)@.push((path@, content@)),
    {
        proof {
            use_type_invariant(&*self);
        }
        let mut files: Vec<(String, String)> = Vec::new();
        std::mem::swap(&mut files, &mut self.files);
        let ghost new_entry = (path@, content@);
        files.push((path, content));
        assert(files_view(files@) =~= old(self)@.push(new_entry));
        assert(distinct_paths(files_view(files@))) by {
            let v = files_view(files@);
            assert forall|i: int, j: int|
                0 <= i < v.len() && 0 <= j < v.len() && i != j implies #[trigger] v[i].0
                != #[trigger] v[j].0 by {
                if i == v.len() - 1 {
                    assert(old(self)@[j].0 == v[j].0);
                } else if j == v.len() - 1 {
                    assert(old(self)@[i].0 == v[i].0);
                } else {
                    assert(old(self)@[i] == v[i] && old(self)@[j] == v[j]);
                }
            }
        }
        self.files = files;
    }

    /// The opened files, in the order they were opened, as (path, content).
    pub fn entries(&self) -> (r: &Vec<(String, String)>)
        ensures
            r@.len() == self@.len(),
            forall|j: int| 0 <= j < r@.len() ==> (#[trigger] r@[j]).0@ == self@[j].0 && r@[j].1@
                == self@[j].1,
    {
        &self.files
    }
}

/// `content` with `patch` applied.
pub fn patch_text(content: &str, patch: &Patch) -> (r: String)
    ensures
        r@ == patched_text(content@, *patch),
{
    if contains(content, patch.text_to_find.as_str()) {
        replace(content, patch.text_to_find.as_str(), patch.replacement_text.as_str())
    } else {
        content.to_string()
    }
}

/// `content` with `patch` removed.
pub fn unpatch_text(content: &str, patch: &Patch) -> (r: String)
    ensures
        r@ == unpatched_text(content@, *patch),
{
    if contains(content, patch.replacement_text.as_str()) {
        replace(content, patch.replacement_text.as_str(), patch.text_to_find.as_str())
    } else {
        content.to_string()
    }
}

/// Applies `patches` in order to the opened `files` (or with `undo` removes them),
/// patch `i` going into the file `targets_of[i]`; a patch without a file is skipped.
pub fn apply_patches(
    files: &mut OpenedFiles,
    patches: &Vec<Patch>,
    targets_of: &Vec<Option<String>>,
    undo: bool,
)
    requires
        targets_of.len() == patches.len(),
        forall|i: int|
            0 <= i < targets_of.len() && #[trigger] targets_of@[i] is Some ==> has_path(
                old(files)@,
                targets_of@[i]->0@,
            ),
    ensures
        final(files)@.len() == old(files)@.len(),
        forall|j: int|
            0 <= j < final(files)@.len() ==> (#[trigger] final(files)@[j]).0 == old(files)@[j].0
                && final(files)@[j].1 == after_patches(
                old(files)@[j].1,
                patches@,
                targets_of@,
                old(files)@[j].0,
                undo,
                patches@.len() as int,
            ),
{
    proof {
        use_type_invariant(&*files);
    }
    let ghost orig = files@;
    let mut v: Vec<(String, String)> = Vec::new();
    std::mem::swap(&mut v, &mut files.files);
    assert(files_view(v@) == orig);
    let mut i: usize = 0;
    while i < patches.len()
        invariant
            i <= patches.len(),
            targets_of.len() == patches.len(),
            distinct_paths(orig),
            files_view(v@).len() == orig.len(),
            forall|j: int|
                0 <= j < orig.len() ==> (#[trigger] files_view(v@)[j]).0 == orig[j].0
                    && files_view(v@)[j].1 == after_patches(
                    orig[j].1,
                    patches@,
                    targets_of@,
                    orig[j].0,
                    undo,
                    i as int,
                ),
            forall|k: int|
                0 <= k < targets_of.len() && #[trigger] targets_of@[k] is Some ==> has_path(
                    orig,
                    targets_of@[k]->0@,
                ),
        decreases patches.len() - i,
    {
        match &targets_of[i] {
            None => {
                assert forall|j: int| 0 <= j < orig.len() implies (#[trigger] files_view(
                    v@,
                )[j]).1 == after_patches(orig[j].1, patches@, targets_of@, orig[j].0, undo, i + 1)
                    by {
                    assert(!targets(targets_of@[i as int], orig[j].0));
                }
            },
            Some(path) => {
                assert(targets_of@[i as int] is Some);
                let found = position_in(&v, path.as_str());
                let j = match found {
                    Some(j) => j,
                    None => {
                        assert(has_path(files_view(v@), path@)) by {
                            let w = choose|w: int| 0 <= w < orig.len() && #[trigger] orig[w].0 == path@;
                            assert(files_view(v@)[w].0 == path@);
                        }
                        return;
                    },
                };
                let content = if undo {
                    unpatch_text(v[j].1.as_str(), &patches[i])
                } else {
                    patch_text(v[j].1.as_str(), &patches[i])
                };
                let key = v[j].0.clone();
                let ghost before = files_view(v@);
                v.set(j, (key, content));
                assert forall|k: int| 0 <= k < orig.len() implies (#[trigger] files_view(v@)[k]).0
                    == orig[k].0 && files_view(v@)[k].1 == after_patches(
                    orig[k].1,
                    patches@,
                    targets_of@,
                    orig[k].0,
                    undo,
                    i + 1,
                ) by {
                    if k == j {
                        assert(targets(targets_of@[i as int], orig[k].0));
                    } else {
                        assert(before[k] == files_view(v@)[k]);
                        assert(orig[k].0 != orig[j as int].0);
                        assert(!targets(targets_of@[i as int], orig[k].0));
                    }
                }
            },
        }
        i = i + 1;
    }
    assert(distinct_paths(files_view(v@))) by {
        let w = files_view(v@);
        assert forall|a: int, b: int|
            0 <= a < w.len() && 0 <= b < w.len() && a != b implies #[trigger] w[a].0
            != #[trigger] w[b].0 by {
            assert(w[a].0 == orig[a].0 && w[b].0 == orig[b].0);
        }
    }
    files.files = v;
}

/// Removing a patch from a file that it was applied to gives the file back, when the
/// file held no replacement text and the patch wrote the only replacement texts that
/// the patched file holds.
pub proof fn lemma_unpatch_undoes_patch(content: Seq<char>, patch: Patch)
    requires
        patch.text_to_find@.len() > 0,
        !contains_text(content, patch.replacement_text@),
        forall|i: int|
            occurs_at(
                replace_all(content, patch.text_to_find@, patch.replacement_text@),
                patch.replacement_text@,
                i,
            ) ==> #[trigger] written_at(
                content,
                patch.text_to_find@,
                patch.replacement_text@,
                i,
            ),
    ensures
        unpatched_text(patched_text(content, patch), patch) == content,
{
    let find = patch.text_to_find@;
    let repl = patch.replacement_text@;
    assert(repl.len() > 0) by {
        if repl.len() == 0 {
            assert(content.subrange(0, 0) =~= repl);
            assert(occurs_at(content, repl, 0));
        }
    }
    if contains_text(content, find) {
        let k = lemma_split_at_first(content, find, repl);
        let r = replace_all(content, find, repl);
        assert(r.subrange(k, k + repl.len()) =~= repl);
        assert(occurs_at(r, repl, k));
        lemma_undo_replace(content, find, repl);
    }
}

/// How the Steam log watcher reacts to one line of the log.
#[derive(Clone, Copy, Debug, PartialEq, Eq, Structural)]
pub struct LogReaction {
    /// Apply the device's patches.
    pub patch: bool,
    /// Remove the device's patches.
    pub unpatch: bool,
}

/// The watcher's next stage, and whether to patch and to unpatch, on reading `line` at
/// stage `stage`: `BVerifyInstalledFiles` starts an update (stage 1), `Update
/// complete` then moves to stage 2, where `Verification complete` patches the new
/// files and ends the update (stage 0); at stage 0, `Shutdown` removes the patches.
pub open spec fn log_step(stage: int, line: Seq<char>) -> (int, LogReaction) {
    let s1 = if contains_text(line, "BVerifyInstalledFiles"@) {
        1
    } else {
        stage
    };
    let patch = s1 == 2 && contains_text(line, "Verification complete"@);
    let s2 = if patch {
        0
    } else {
        s1
    };
    let s3 = if s2 == 1 && contains_text(line, "Update complete"@) {
        2
    } else {
        s2
    };
    let unpatch = s3 == 0 && contains_text(line, "Shutdown"@);
    (s3, LogReaction { patch, unpatch })
}

/// Follows the Steam bootstrap log, line by line, to patch Steam after each update and
/// unpatch it at shutdown.
pub struct LogWatcher {
    process_flow: u8,
}

impl LogWatcher {
    #[verifier::type_invariant]
    spec fn stage_in_range(&self) -> bool {
        self.process_flow <= 2
    }

    /// The stage the watcher is at: 0 idle, 1 updating, 2 update done.
    pub closed spec fn stage(&self) -> int {
        self.process_flow as int
    }

    /// A watcher at stage 0.
    pub fn new() -> (r: LogWatcher)
        ensures
            r.stage() == 0,
    {
        LogWatcher { process_flow: 0 }
    }

    /// Reacts to the last `line` of the log; the stage stays within 0 to 2.
    pub fn on_log_line(&mut self, line: &str) -> (r: LogReaction)
        ensures
            (final(self).stage(), r) == log_step(old(self).stage(), line@),
            0 <= final(self).stage() <= 2,
    {
        proof {
            use_type_invariant(&*self);
        }
        let mut flow = self.process_flow;
        if contains(line, "BVerifyInstalledFiles") {
            flow = 1;
        }
        let mut patch = false;
        if flow == 2 {
            if contains(line, "Verification complete") {
                patch = true;
                flow = 0;
            }
        }
        if flow == 1 {
            if contains(line, "Update complete") {
                flow = 2;
            }
        }
        let mut unpatch = false;
        if flow == 0 {
            if contains(line, "Shutdown") {
                unpatch = true;
            }
        }
        self.process_flow = flow;
        LogReaction { patch, unpatch }
    }
}

/// What came of one try to send a message to Steam.
#[derive(Clone, Copy, Debug, PartialEq, Eq, Structural)]
pub enum SendOutcome {
    /// The message was sent.
    Sent,
    /// Sending failed.
    Failed,
    /// There was no connection to send it on.
    NotConnected,
}

/// What to do after a try to send a message.
#[derive(Clone, Copy, Debug, PartialEq, Eq, Structural)]
pub enum SendStep {
    /// Stop: the message is sent.
    Done,
    /// Connect to Steam again, then try again while tries are left.
    Reconnect,
}

/// The tries left to send one message to Steam: three at first, one spent on each
/// reconnection.
pub struct SendRetries {
    retries: u8,
}

impl SendRetries {
    /// The number of tries left.
    pub closed spec fn left(&self) -> int {
        self.retries as int
    }

    /// Three tries.
    pub fn new() -> (r: SendRetries)
        ensures
            r.left() == 3,
    {
        SendRetries { retries: 3 }
    }

    /// Whether another try is to be made.
    pub fn should_try(&self) -> (r: bool)
        ensures
            r == (self.left() > 0),
    {
        self.retries > 0
    }

    /// Records the outcome of a try: a sent message ends the sending, anything else
    /// spends a try on reconnecting.
    pub fn record(&mut self, outcome: SendOutcome) -> (r: SendStep)
        requires
            old(self).left() > 0,
        ensures
            outcome == SendOutcome::Sent ==> r == SendStep::Done && final(self).left() == old(
                self,
            ).left(),
            outcome != SendOutcome::Sent ==> r == SendStep::Reconnect && final(self).left()
                == old(self).left() - 1,
    {
        match outcome {
            SendOutcome::Sent => SendStep::Done,
            _ => {
                self.retries = self.retries - 1;
                SendStep::Reconnect
            },
        }
    }
}

/// The debugger command that reloads the Steam UI.
pub fn reload_message() -> (r: String)
    ensures
        r@ == "{\"id\":1,\"method\":\"Page.reload\"}"@,
{
    "{\"id\":1,\"method\":\"Page.reload\"}".to_string()
}

/// The lower-case hexadecimal digit `d` (`0 <= d < 16`).
pub open spec fn hex_digit(d: int) -> char {
    if d < 10 {
        digit_char(d)
    } else if d == 10 {
        'a'
    } else if d == 11 {
        'b'
    } else if d == 12 {
        'c'
    } else if d == 13 {
        'd'
    } else if d == 14 {
        'e'
    } else {
        'f'
    }
}

/// How a JSON string writes the character `c`: a quote and a backslash behind a
/// backslash, backspace, tab, line feed, form feed and carriage return as `\b`,
/// `\t`, `\n`, `\f`, `\r`, the other control characters below `0x20` as `\u00XX`
/// with lower-case hexadecimal digits, and every other character as itself.
pub open spec fn json_escape(c: char) -> Seq<char> {
    let u = c as int;
    if c == '"' {
        seq!['\\', '"']
    } else if c == '\\' {
        seq!['\\', '\\']
    } else if u == 0x08 {
        seq!['\\', 'b']
    } else if u == 0x09 {
        seq!['\\', 't']
    } else if u == 0x0A {
        seq!['\\', 'n']
    } else if u == 0x0C {
        seq!['\\', 'f']
    } else if u == 0x0D {
        seq!['\\', 'r']
    } else if u < 0x20 {
        seq!['\\', 'u', '0', '0', hex_digit(u / 16), hex_digit(u % 16)]
    } else {
        seq![c]
    }
}

/// The characters of `s`, each written as in a JSON string.
pub open spec fn json_escaped(s: Seq<char>) -> Seq<char>
    decreases s.len(),
{
    if s.len() == 0 {
        Seq::empty()
    } else {
        json_escape(s[0]) + json_escaped(s.drop_first())
    }
}

/// The JSON string literal of `s`: its escaped characters between double quotes.
pub open spec fn json_string_text(s: Seq<char>) -> Seq<char> {
    seq!['"'] + json_escaped(s) + seq!['"']
}

#[verifier::external_type_specification]
#[verifier::external_body]
pub struct ExJsonError(serde_json::Error);

/// `serde_json::to_string` on a string: it succeeds (it writes into a `Vec`, which
/// never fails) and gives the JSON string literal of `value`, escaped as
/// `json_escape` describes (serde_json's escape table and `write_char_escape`).
#[verifier::external_body]
fn json_string(value: &str) -> (r: Result<String, serde_json::Error>)
    ensures
        r is Ok,
        r matches Ok(t) ==> t@ == json_string_text(value@),
{
    serde_json::to_string(value)
}

/// The debugger command that evaluates the script whose JSON string literal is
/// `encoded_expression`.
pub open spec fn execute_message_text(encoded_expression: Seq<char>) -> Seq<char> {
    "{\"id\":1,\"method\":\"Runtime.evaluate\",\"params\":{\"expression\":"@
        + encoded_expression + "}}"@
}

/// The debugger command that evaluates the script written as the JSON string
/// `encoded_expression`.
pub fn frame_execute_message(encoded_expression: &str) -> (r: String)
    ensures
        r@ == execute_message_text(encoded_expression@),
{
    concat3(
        "{\"id\":1,\"method\":\"Runtime.evaluate\",\"params\":{\"expression\":",
        encoded_expression,
        "}}",
    )
}

/// The debugger command that evaluates `js_code` in the Steam UI, the script passed
/// as a JSON string; it is always built.
pub fn execute_message(js_code: &str) -> (r: Option<String>)
    ensures
        r is Some,
        r matches Some(m) ==> m@ == execute_message_text(json_string_text(js_code@)),
{
    match json_string(js_code) {
        Ok(encoded) => Some(frame_execute_message(encoded.as_str())),
        Err(_) => None,
    }
}

/// A page that Steam's debugger lists.
pub struct Tab {
    pub title: String,
    pub web_socket_debugger_url: String,
}

/// The debugger address of the first of `tabs` from `i` on that is Steam's shared
/// JavaScript context and has an address.
pub open spec fn shared_context_from(tabs: Seq<Tab>, i: int) -> Option<Seq<char>>
    decreases tabs.len() - i,
{
    if i < 0 || i >= tabs.len() {
        None
    } else if tabs[i].title@ == "SharedJSContext"@ && tabs[i].web_socket_debugger_url@.len()
        > 0 {
        Some(tabs[i].web_socket_debugger_url@)
    } else {
        shared_context_from(tabs, i + 1)
    }
}

/// The debugger address of Steam's shared JavaScript context among `tabs`.
pub fn find_shared_context(tabs: &Vec<Tab>) -> (r: Option<String>)
    ensures
        match (r, shared_context_from(tabs@, 0)) {
            (Some(a), Some(b)) => a@ == b,
            (None, None) => true,
            _ => false,
        },
{
    let mut i: usize = 0;
    while i < tabs.len()
        invariant
            i <= tabs.len(),
            shared_context_from(tabs@, 0) == shared_context_from(tabs@, i as int),
        decreases tabs.len() - i,
    {
        let tab = &tabs[i];
        if equal_text(tab.title.as_str(), "SharedJSContext")
            && !tab.web_socket_debugger_url.as_str().is_empty() {
            return Some(tab.web_socket_debugger_url.clone());
        }
        i = i + 1;
    }
    None
}

/// Whether a process named `steam` is among `process_names`.
pub fn is_running(process_names: &Vec<String>) -> (r: bool)
    ensures
        r == exists|i: int| 0 <= i < process_names@.len() && (#[trigger] process_names@[i])@
            == "steam"@,
{
    let mut i: usize = 0;
    while i < process_names.len()
        invariant
            i <= process_names.len(),
            forall|k: int| 0 <= k < i ==> (#[trigger] process_names@[k])@ != "steam"@,
        decreases process_names.len() - i,
    {
        if equal_text(process_names[i].as_str(), "steam") {
            return true;
        }
        i = i + 1;
    }
    false
}

/// The Steam bootstrap log of `username`.
pub open spec fn log_path_text(username: Seq<char>) -> Seq<char> {
    "/home/"@ + username + "/.local/share/Steam/logs/bootstrap_log.txt"@
}

/// The Steam bootstrap log of `username`, when the home directory `home` is known;
/// the path does not depend on which home directory it is.
pub fn log_path_for(home: Option<String>, username: &str) -> (r: Option<String>)
    ensures
        r is Some <==> home is Some,
        r matches Some(p) ==> p@ == log_path_text(username@),
{
    match home {
        None => None,
        Some(_) => Some(concat3("/home/", username, "/.local/share/Steam/logs/bootstrap_log.txt")),
    }
}

/// The Steam bootstrap log of `username`, when the current home directory is known.
pub fn get_log_path(username: &str) -> (r: Option<String>)
    ensures
        r matches Some(p) ==> p@ == log_path_text(username@),
{
    log_path_for(home_dir(), username)
}

/// Removing a single patch from the opened files after applying it gives each file
/// back, when the file held no replacement text and the patch wrote the only
/// replacement texts that the patched file holds.
pub proof fn lemma_unpatch_files_undoes_patch_files(
    content: Seq<char>,
    patch: Patch,
    target: Option<String>,
    path: Seq<char>,
)
    requires
        patch.text_to_find@.len() > 0,
        !contains_text(content, patch.replacement_text@),
        forall|i: int|
            occurs_at(
                replace_all(content, patch.text_to_find@, patch.replacement_text@),
                patch.replacement_text@,
                i,
            ) ==> #[trigger] written_at(
                content,
                patch.text_to_find@,
                patch.replacement_text@,
                i,
            ),
    ensures
        after_patches(
            after_patches(content, seq![patch], seq![target], path, false, 1),
            seq![patch],
            seq![target],
            path,
            true,
            1,
        ) == content,
{
    let ps = seq![patch];
    let ts = seq![target];
    assert(after_patches(content, ps, ts, path, false, 0) == content);
    let patched = after_patches(content, ps, ts, path, false, 1);
    assert(after_patches(patched, ps, ts, path, true, 0) == patched);
    if targets(target, path) {
        lemma_unpatch_undoes_patch(content, patch);
    }
}

/// The log watcher patches Steam only at the end of an update: a line that patches is
/// read at stage 2 (an update was verified and completed) and leaves the watcher idle.
pub proof fn lemma_patch_needs_completed_update(stage: int, line: Seq<char>)
    requires
        log_step(stage, line).1.patch,
    ensures
        stage == 2,
        !contains_text(line, "BVerifyInstalledFiles"@),
        contains_text(line, "Verification complete"@),
        log_step(stage, line).0 == 0,
{
}

/// Patching again changes nothing when the file holds none of the texts that the
/// patches going into it look for.
pub proof fn lemma_patching_again_changes_nothing(
    content: Seq<char>,
    patches: Seq<Patch>,
    targets_of: Seq<Option<String>>,
    path: Seq<char>,
    n: int,
)
    requires
        forall|i: int|
            0 <= i < n && targets(targets_of[i], path) ==> !contains_text(
                content,
                (#[trigger] patches[i]).text_to_find@,
            ),
    ensures
        after_patches(content, patches, targets_of, path, false, n) == content,
    decreases n,
{
    if n > 0 {
        lemma_patching_again_changes_nothing(content, patches, targets_of, path, n - 1);
        if targets(targets_of[n - 1], path) {
            assert(!contains_text(content, patches[n - 1].text_to_find@));
        }
    }
}

/// Patching replaces every occurrence of the text to find whenever it occurs, as
/// `str::replace` does, whether or not the replacement text is already in the file;
/// a file without the text to find is left as it is.
pub proof fn lemma_patch_replaces_whenever_found(content: Seq<char>, patch: Patch)
    ensures
        contains_text(content, patch.text_to_find@) ==> patched_text(content, patch)
            == replace_all(content, patch.text_to_find@, patch.replacement_text@),
        !contains_text(content, patch.text_to_find@) ==> patched_text(content, patch) == content,
        contains_text(content, patch.text_to_find@) && patch.text_to_find@.len() > 0
            ==> contains_text(patched_text(content, patch), patch.replacement_text@),
{
    let find = patch.text_to_find@;
    let repl = patch.replacement_text@;
    if contains_text(content, find) && find.len() > 0 {
        let k = lemma_split_at_first(content, find, repl);
        let r = replace_all(content, find, repl);
        assert(r.subrange(k, k + repl.len()) =~= repl);
        assert(occurs_at(r, repl, k));
    }
}

/// Unpatching puts every replacement text back whenever it occurs, and leaves a file
/// without it as it is.
pub proof fn lemma_unpatch_restores_whenever_found(content: Seq<char>, patch: Patch)
    ensures
        contains_text(content, patch.replacement_text@) ==> unpatched_text(content, patch)
            == replace_all(content, patch.replacement_text@, patch.text_to_find@),
        !contains_text(content, patch.replacement_text@) ==> unpatched_text(content, patch)
            == content,
{
}

/// The log watcher unpatches only when it is idle: a line that unpatches holds
/// `Shutdown` and leaves the watcher at stage 0; at stage 1 or 2 only a line that
/// completes the verification can lead there, and a line that starts an update never
/// unpatches. At stage 0 a `Shutdown` line that starts no update always unpatches.
pub proof fn lemma_unpatch_only_when_idle(stage: int, line: Seq<char>)
    ensures
        log_step(stage, line).1.unpatch ==> contains_text(line, "Shutdown"@) && log_step(
            stage,
            line,
        ).0 == 0,
        (stage == 1 || stage == 2) && !contains_text(line, "Verification complete"@)
            ==> !log_step(stage, line).1.unpatch,
        stage == 1 ==> !log_step(stage, line).1.unpatch && !log_step(stage, line).1.patch,
        contains_text(line, "BVerifyInstalledFiles"@) ==> !log_step(stage, line).1.unpatch
            && !log_step(stage, line).1.patch && log_step(stage, line).0 != 0,
        stage == 0 && !contains_text(line, "BVerifyInstalledFiles"@) && contains_text(
            line,
            "Shutdown"@,
        ) ==> log_step(stage, line).1.unpatch && log_step(stage, line).0 == 0,
{
}

} // verus!
