use steam_patch::patch::{Patch, PatchFile};
use steam_patch::steam::{
    LogReaction, LogWatcher, OpenedFiles, SendOutcome, SendRetries, SendStep, Tab,
    apply_patches, execute_message, find_shared_context, frame_execute_message, get_log_path,
    is_running, log_path_for, patch_text, reload_message, unpatch_text,
};

fn patch(find: &str, repl: &str) -> Patch {
    Patch {
        text_to_find: find.to_string(),
        replacement_text: repl.to_string(),
        destination: PatchFile::Chunk,
    }
}

#[test]
fn patch_text_replaces_every_occurrence() {
    let p = patch("n,e", "30,e");
    assert_eq!(patch_text("x[n,e] y[n,e]", &p), "x[30,e] y[30,e]");
    assert_eq!(patch_text("nothing here", &p), "nothing here");
}

#[test]
fn unpatch_text_restores_patched_text() {
    let p = patch("return[o,t,n,e=>r", "return[o,t,28,e=>r");
    let original = "a;return[o,t,n,e=>r(x);b";
    let patched = patch_text(original, &p);
    assert_eq!(patched, "a;return[o,t,28,e=>r(x);b");
    assert_eq!(unpatch_text(&patched, &p), original);
}

#[test]
fn apply_patches_groups_by_file() {
    let mut files = OpenedFiles::new();
    files.insert("/a".to_string(), "one two".to_string());
    files.insert("/b".to_string(), "two three".to_string());
    assert!(files.contains("/a"));
    assert!(!files.contains("/c"));
    assert_eq!(files.position("/b"), Some(1));
    let patches = vec![patch("one", "1"), patch("two", "2"), patch("three", "3")];
    let targets = vec![Some("/a".to_string()), Some("/a".to_string()), None];
    apply_patches(&mut files, &patches, &targets, false);
    let e = files.entries();
    assert_eq!(e[0], ("/a".to_string(), "1 2".to_string()));
    assert_eq!(e[1], ("/b".to_string(), "two three".to_string()));
    apply_patches(&mut files, &patches, &targets, true);
    let e = files.entries();
    assert_eq!(e[0], ("/a".to_string(), "one two".to_string()));
}

#[test]
fn later_patch_sees_earlier_patch() {
    let mut files = OpenedFiles::new();
    files.insert("/a".to_string(), "x".to_string());
    let patches = vec![patch("x", "y"), patch("y", "z")];
    let targets = vec![Some("/a".to_string()), Some("/a".to_string())];
    apply_patches(&mut files, &patches, &targets, false);
    assert_eq!(files.entries()[0].1, "z");
}

#[test]
fn log_watcher_patches_after_update_and_unpatches_at_shutdown() {
    let mut w = LogWatcher::new();
    let none = LogReaction { patch: false, unpatch: false };
    assert_eq!(w.on_log_line("[2024] BVerifyInstalledFiles: start"), none);
    assert_eq!(w.on_log_line("Verification complete"), none);
    assert_eq!(w.on_log_line("Update complete"), none);
    assert_eq!(w.on_log_line("Verification complete"), LogReaction { patch: true, unpatch: false });
    assert_eq!(w.on_log_line("Shutdown"), LogReaction { patch: false, unpatch: true });
}

#[test]
fn log_watcher_ignores_shutdown_during_update() {
    let mut w = LogWatcher::new();
    w.on_log_line("BVerifyInstalledFiles");
    assert_eq!(w.on_log_line("Shutdown"), LogReaction { patch: false, unpatch: false });
}

#[test]
fn log_watcher_one_line_can_patch_and_unpatch() {
    let mut w = LogWatcher::new();
    w.on_log_line("BVerifyInstalledFiles");
    w.on_log_line("Update complete");
    assert_eq!(
        w.on_log_line("Verification complete; Shutdown"),
        LogReaction { patch: true, unpatch: true }
    );
}

#[test]
fn send_retries_three_times() {
    let mut r = SendRetries::new();
    let mut reconnects = 0;
    while r.should_try() {
        match r.record(SendOutcome::Failed) {
            SendStep::Reconnect => reconnects += 1,
            SendStep::Done => break,
        }
    }
    assert_eq!(reconnects, 3);
    let mut r = SendRetries::new();
    assert_eq!(r.record(SendOutcome::NotConnected), SendStep::Reconnect);
    assert_eq!(r.record(SendOutcome::Sent), SendStep::Done);
    assert!(r.should_try());
}

#[test]
fn debugger_messages() {
    assert_eq!(reload_message(), "{\"id\":1,\"method\":\"Page.reload\"}");
    assert_eq!(
        execute_message("window.HandleSystemKeyEvents({eKey: 0})").unwrap(),
        "{\"id\":1,\"method\":\"Runtime.evaluate\",\"params\":{\"expression\":\"window.HandleSystemKeyEvents({eKey: 0})\"}}"
    );
    assert_eq!(
        execute_message("console.log(\"Show Menu\");").unwrap(),
        "{\"id\":1,\"method\":\"Runtime.evaluate\",\"params\":{\"expression\":\"console.log(\\\"Show Menu\\\");\"}}"
    );
    assert_eq!(
        frame_execute_message("\"x\""),
        "{\"id\":1,\"method\":\"Runtime.evaluate\",\"params\":{\"expression\":\"x\"}}"
    );
}

#[test]
fn shared_context_is_first_usable_tab() {
    let tab = |t: &str, u: &str| Tab { title: t.to_string(), web_socket_debugger_url: u.to_string() };
    let tabs = vec![
        tab("Steam", "ws://a"),
        tab("SharedJSContext", ""),
        tab("SharedJSContext", "ws://b"),
        tab("SharedJSContext", "ws://c"),
    ];
    assert_eq!(find_shared_context(&tabs), Some("ws://b".to_string()));
    assert_eq!(find_shared_context(&vec![tab("Steam", "ws://a")]), None);
}

#[test]
fn steam_running_by_process_name() {
    let names = vec!["bash".to_string(), "steam".to_string()];
    assert!(is_running(&names));
    assert!(!is_running(&vec!["steamwebhelper".to_string()]));
}

#[test]
fn log_path_is_under_named_home() {
    assert_eq!(
        log_path_for(Some("/root".to_string()), "deck"),
        Some("/home/deck/.local/share/Steam/logs/bootstrap_log.txt".to_string())
    );
    assert_eq!(log_path_for(None, "deck"), None);
    if let Some(p) = get_log_path("gamer") {
        assert_eq!(p, "/home/gamer/.local/share/Steam/logs/bootstrap_log.txt");
    }
}

#[test]
fn execute_message_escapes_control_characters() {
    let js = "a\nb\tc\u{1}d\\e\"f\u{8}\u{c}\r\u{1f}é";
    let encoded = serde_json::to_string(js).unwrap();
    assert_eq!(encoded, "\"a\\nb\\tc\\u0001d\\\\e\\\"f\\b\\f\\r\\u001fé\"");
    assert_eq!(execute_message(js).unwrap(), frame_execute_message(&encoded));
}

#[test]
fn unpatch_restores_with_bordered_replacement() {
    let p = patch("q", "aba");
    let patched = patch_text("xqy", &p);
    assert_eq!(patched, "xabay");
    assert_eq!(unpatch_text(&patched, &p), "xqy");
    let p = patch("a", "b");
    assert_eq!(patch_text("xax", &p), "xbx");
    assert_eq!(unpatch_text("xbx", &p), "xax");
}

#[test]
fn patching_again_changes_nothing() {
    let mut files = OpenedFiles::new();
    files.insert("/a".to_string(), "n,e and n,e".to_string());
    let patches = vec![patch("n,e", "30,e")];
    let targets = vec![Some("/a".to_string())];
    apply_patches(&mut files, &patches, &targets, false);
    let once = files.entries()[0].1.clone();
    assert_eq!(once, "30,e and 30,e");
    apply_patches(&mut files, &patches, &targets, false);
    assert_eq!(files.entries()[0].1, once);
}
