use steam_patch::patch::{DirEntryName, GetFileError, PatchFile};
use steam_patch::steam::patches::get_patches;

fn names(v: &[&str]) -> Vec<DirEntryName> {
    v.iter().map(|s| DirEntryName::Name(s.to_string())).collect()
}

#[test]
fn regex_of_each_destination() {
    assert_eq!(PatchFile::Chunk.get_regex(), "^chunk");
    assert_eq!(PatchFile::Library.get_regex(), "^library");
}

#[test]
fn file_name_matching_is_anchored() {
    assert!(PatchFile::Chunk.matches_file_name("chunk~2dcc5aaf7.js"));
    assert!(!PatchFile::Chunk.matches_file_name("library.js"));
    assert!(!PatchFile::Chunk.matches_file_name("xchunk.js"));
    assert!(PatchFile::Library.matches_file_name("library.js"));
}

#[test]
fn steamui_dir_ignores_home_directory() {
    let d = PatchFile::steamui_dir_for(Some("/root".to_string()), "deck");
    assert_eq!(d.unwrap(), "/home/deck/.local/share/Steam/steamui");
    let e = PatchFile::steamui_dir_for(None, "deck");
    assert_eq!(e.unwrap_err(), GetFileError::HomeNotFound);
}

#[test]
fn select_single_match() {
    let entries = names(&["index.html", "chunk~abc.js", "library.js"]);
    assert_eq!(PatchFile::Chunk.select_file(Some(&entries)), Ok(Some(1)));
    assert_eq!(PatchFile::Library.select_file(Some(&entries)), Ok(Some(2)));
}

#[test]
fn select_none_when_several_or_no_match() {
    let entries = names(&["chunk1.js", "chunk2.js"]);
    assert_eq!(PatchFile::Chunk.select_file(Some(&entries)), Ok(None));
    let entries = names(&["index.html"]);
    assert_eq!(PatchFile::Chunk.select_file(Some(&entries)), Ok(None));
}

#[test]
fn select_reports_listing_errors() {
    assert_eq!(PatchFile::Chunk.select_file(None), Err(GetFileError::ReadDir));
    let entries = vec![DirEntryName::Name("a".to_string()), DirEntryName::Unreadable];
    assert_eq!(PatchFile::Chunk.select_file(Some(&entries)), Err(GetFileError::ReadEntry));
    let entries = vec![DirEntryName::NotUnicode];
    assert_eq!(PatchFile::Chunk.select_file(Some(&entries)), Err(GetFileError::NotUnicode));
    // a second match ends the search before a later bad entry is read
    let entries = vec![
        DirEntryName::Name("chunk1".to_string()),
        DirEntryName::Name("chunk2".to_string()),
        DirEntryName::Unreadable,
    ];
    assert_eq!(PatchFile::Chunk.select_file(Some(&entries)), Ok(None));
}

#[test]
fn error_messages() {
    assert_eq!(GetFileError::HomeNotFound.message(), "Home directory not found");
    assert_eq!(GetFileError::ReadDir.message(), "Failed to read Steam UI directory");
    assert_eq!(
        GetFileError::ReadEntry.message(),
        "Failed to read an entry in the Steam UI directory"
    );
    assert_eq!(GetFileError::NotUnicode.message(), "Failed to convert OsString to String");
}

#[test]
fn menu_patches_set_max_tdp_thirty() {
    let p = get_patches();
    assert_eq!(p.len(), 2);
    assert_eq!(p[0].text_to_find, "return[n,t,r,e=>i((()=>p.Get().SetTDPLimit(e)))");
    assert_eq!(p[0].replacement_text, "return[n,t,30,e=>i((()=>p.Get().SetTDPLimit(e)))");
    assert!(p[1].replacement_text.contains("http://localhost:1338/set_tdp/"));
}
