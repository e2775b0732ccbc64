use notes_store::{
    cleanup_database, delete_folder_permanently, delete_note_permanently, delete_tag,
    init_database, load_all_folders, load_all_notes, load_all_tags, load_all_ui_state, load_note,
    load_ui_state, save_folder, save_note, save_tag, save_ui_state, search_notes, DbConnection,
    Folder, Note, StoreError, Tag,
};

fn fresh_store() -> DbConnection {
    let mut state = DbConnection::new();
    init_database(":memory:", &mut state).expect("in-memory database must open");
    state
}

fn make_note(id: &str, title: &str, content: &str, tags: &[&str]) -> Note {
    Note {
        id: id.to_string(),
        title: title.to_string(),
        description: "".to_string(),
        description_visible: true,
        emoji: None,
        content: content.to_string(),
        tags: tags.iter().map(|t| t.to_string()).collect(),
        tags_visible: true,
        is_favorite: false,
        folder_id: None,
        daily_note_date: None,
        created_at: "2024-01-01T00:00:00Z".to_string(),
        updated_at: "2024-01-01T00:00:00Z".to_string(),
        deleted_at: None,
    }
}

fn make_folder(id: &str, name: &str, tags: &[&str]) -> Folder {
    Folder {
        id: id.to_string(),
        name: name.to_string(),
        parent_id: None,
        description: "".to_string(),
        description_visible: true,
        color: None,
        emoji: None,
        tags: tags.iter().map(|t| t.to_string()).collect(),
        tags_visible: true,
        is_favorite: false,
        is_expanded: false,
        created_at: "2024-01-01T00:00:00Z".to_string(),
        updated_at: "2024-01-01T00:00:00Z".to_string(),
        deleted_at: None,
    }
}

#[test]
fn init_gives_empty_store() {
    let state = fresh_store();
    assert_eq!(load_all_notes(&state).unwrap().len(), 0);
    assert_eq!(load_all_folders(&state).unwrap().len(), 0);
    assert_eq!(load_all_tags(&state).unwrap().len(), 0);
}

#[test]
fn operations_before_init_fail() {
    let mut state = DbConnection::new();
    let note = make_note("n1", "t", "c", &[]);
    assert_eq!(save_note(&note, &mut state), Err(StoreError::NotInitialized));
    assert!(matches!(load_all_notes(&state), Err(StoreError::NotInitialized)));
    assert!(matches!(load_note("n1", &state), Err(StoreError::NotInitialized)));
    assert!(matches!(cleanup_database(&state), Err(StoreError::NotInitialized)));
    assert!(matches!(load_ui_state("ui.k", &state), Err(StoreError::NotInitialized)));
}

#[test]
fn save_and_load_round_trip() {
    let mut state = fresh_store();
    let mut note = make_note("n1", "My title", "Some body text", &["alpha", "beta"]);
    note.description = "desc".to_string();
    note.description_visible = false;
    note.emoji = Some("e".to_string());
    note.is_favorite = true;
    note.daily_note_date = Some("2024-02-03".to_string());
    save_note(&note, &mut state).unwrap();

    let loaded = load_note("n1", &state).unwrap();
    assert_eq!(loaded.id, note.id);
    assert_eq!(loaded.title, note.title);
    assert_eq!(loaded.description, note.description);
    assert_eq!(loaded.description_visible, note.description_visible);
    assert_eq!(loaded.emoji, note.emoji);
    assert_eq!(loaded.content, note.content);
    assert_eq!(loaded.tags_visible, note.tags_visible);
    assert_eq!(loaded.is_favorite, note.is_favorite);
    assert_eq!(loaded.folder_id, note.folder_id);
    assert_eq!(loaded.daily_note_date, note.daily_note_date);
    assert_eq!(loaded.created_at, note.created_at);
    assert_eq!(loaded.updated_at, note.updated_at);
    assert_eq!(loaded.deleted_at, note.deleted_at);
    let mut tags = loaded.tags.clone();
    tags.sort();
    assert_eq!(tags, vec!["alpha".to_string(), "beta".to_string()]);
}

#[test]
fn upsert_preserves_creation_timestamp() {
    let mut state = fresh_store();
    let mut note = make_note("n1", "first", "body one", &[]);
    save_note(&note, &mut state).unwrap();
    note.title = "second".to_string();
    note.created_at = "2030-12-31T00:00:00Z".to_string();
    note.updated_at = "2024-06-01T00:00:00Z".to_string();
    save_note(&note, &mut state).unwrap();
    let loaded = load_note("n1", &state).unwrap();
    assert_eq!(loaded.title, "second");
    assert_eq!(loaded.created_at, "2024-01-01T00:00:00Z");
    assert_eq!(loaded.updated_at, "2024-06-01T00:00:00Z");
    assert_eq!(load_all_notes(&state).unwrap().len(), 1);
}

#[test]
fn guard_blocks_boot_state_over_long_content() {
    let mut state = fresh_store();
    let long_body: String = "x".repeat(201);
    let note = make_note("n1", "keep me", &long_body, &[]);
    save_note(&note, &mut state).unwrap();

    for boot in ["", "\"\"", "{}"] {
        let wipe = make_note("n1", "wiped", boot, &[]);
        let r = save_note(&wipe, &mut state);
        assert!(matches!(r, Err(StoreError::GuardedOverwrite(_))), "{boot:?} must be blocked");
        let kept = load_note("n1", &state).unwrap();
        assert_eq!(kept.title, "keep me");
        assert_eq!(kept.content, long_body);
    }
}

#[test]
fn guard_allows_boot_state_without_prior_row() {
    for boot in ["", "\"\"", "{}"] {
        let mut state = fresh_store();
        let note = make_note("n1", "new", boot, &[]);
        save_note(&note, &mut state).unwrap();
        assert_eq!(load_note("n1", &state).unwrap().content, boot);
    }
}

#[test]
fn guard_allows_boot_state_over_short_content() {
    let mut state = fresh_store();
    let note = make_note("n1", "short", &"y".repeat(200), &[]);
    save_note(&note, &mut state).unwrap();
    let wipe = make_note("n1", "cleared", "{}", &[]);
    save_note(&wipe, &mut state).unwrap();
    assert_eq!(load_note("n1", &state).unwrap().content, "{}");
}

#[test]
fn guard_allows_structured_empty_content() {
    let mut state = fresh_store();
    let note = make_note("n1", "long", &"z".repeat(300), &[]);
    save_note(&note, &mut state).unwrap();
    // A deliberate clear that is not a boot-state literal passes the guard.
    let clear = make_note("n1", "cleared", "{\"blocks\":[]}", &[]);
    save_note(&clear, &mut state).unwrap();
    assert_eq!(load_note("n1", &state).unwrap().content, "{\"blocks\":[]}");
}

#[test]
fn resave_replaces_tag_associations() {
    let mut state = fresh_store();
    save_note(&make_note("n1", "t", "c", &["A", "B"]), &mut state).unwrap();
    save_note(&make_note("n1", "t", "c", &["B", "C"]), &mut state).unwrap();
    let mut tags = load_note("n1", &state).unwrap().tags;
    tags.sort();
    assert_eq!(tags, vec!["B".to_string(), "C".to_string()]);
    // The tag rows themselves remain, even the dissociated one.
    let names: Vec<String> = load_all_tags(&state).unwrap().into_iter().map(|t| t.name).collect();
    assert!(names.contains(&"A".to_string()));
}

#[test]
fn delete_tag_cascades_associations_only() {
    let mut state = fresh_store();
    save_note(&make_note("n1", "note", "body", &["shared"]), &mut state).unwrap();
    save_folder(&make_folder("f1", "folder", &["shared"]), &mut state).unwrap();
    delete_tag("shared", &mut state).unwrap();

    let note = load_note("n1", &state).unwrap();
    assert_eq!(note.title, "note");
    assert_eq!(note.tags, Vec::<String>::new());
    let folders = load_all_folders(&state).unwrap();
    assert_eq!(folders.len(), 1);
    assert_eq!(folders[0].tags, Vec::<String>::new());
    assert!(load_all_tags(&state).unwrap().iter().all(|t| t.name != "shared"));
}

#[test]
fn delete_missing_rows_is_not_an_error() {
    let mut state = fresh_store();
    delete_note_permanently("ghost", &mut state).unwrap();
    delete_folder_permanently("ghost", &mut state).unwrap();
    delete_tag("ghost", &mut state).unwrap();
}

#[test]
fn deleted_note_gone_from_listing_and_search() {
    let mut state = fresh_store();
    save_note(&make_note("n1", "alpha", "unique pelican", &["x"]), &mut state).unwrap();
    save_note(&make_note("n2", "beta", "unique pelican too", &[]), &mut state).unwrap();
    delete_note_permanently("n1", &mut state).unwrap();

    let ids: Vec<String> = load_all_notes(&state).unwrap().into_iter().map(|n| n.id).collect();
    assert_eq!(ids, vec!["n2".to_string()]);
    let hits: Vec<String> =
        search_notes("pelican", &state).unwrap().into_iter().map(|n| n.id).collect();
    assert_eq!(hits, vec!["n2".to_string()]);
    assert!(matches!(load_note("n1", &state), Err(StoreError::NotFound(_))));
}

#[test]
fn scenario_fresh_store_lifecycle() {
    let mut state = fresh_store();
    save_note(&make_note("n1", "Hi", "hello world", &["x"]), &mut state).unwrap();
    assert!(load_all_tags(&state).unwrap().iter().any(|t| t.name == "x"));
    let hits: Vec<String> =
        search_notes("hello", &state).unwrap().into_iter().map(|n| n.id).collect();
    assert_eq!(hits, vec!["n1".to_string()]);
    delete_tag("x", &mut state).unwrap();
    let note = load_note("n1", &state).unwrap();
    assert_eq!(note.title, "Hi");
    assert_eq!(note.tags, Vec::<String>::new());
}

#[test]
fn missing_ui_key_is_absent_not_error() {
    let state = fresh_store();
    assert_eq!(load_ui_state("missing.key", &state), Ok(None));
}

#[test]
fn ui_state_set_get_and_prefix_listing() {
    let mut state = fresh_store();
    save_ui_state("ui.sidebar", "open", &mut state).unwrap();
    save_ui_state("ui.sidebar", "closed", &mut state).unwrap();
    save_ui_state("other.setting", "ignored", &mut state).unwrap();
    assert_eq!(load_ui_state("ui.sidebar", &state), Ok(Some("closed".to_string())));

    let all = load_all_ui_state(&state).unwrap();
    assert_eq!(all.len(), 1);
    assert_eq!(all[0].key, "ui.sidebar");
    assert_eq!(all[0].value, "closed");
}

#[test]
fn ui_prefix_matches_ascii_case_insensitively() {
    let mut state = fresh_store();
    save_ui_state("UI.theme", "dark", &mut state).unwrap();
    let all = load_all_ui_state(&state).unwrap();
    assert_eq!(all.len(), 1);
    assert_eq!(all[0].key, "UI.theme");
}

#[test]
fn cleanup_succeeds_once_initialized() {
    let state = fresh_store();
    assert_eq!(cleanup_database(&state), Ok(()));
}

#[test]
fn guard_counts_characters_past_embedded_nul() {
    let mut state = fresh_store();
    // Content whose first character is NUL: the guard must still see the
    // full stored length, not stop counting at the terminator.
    let mut body = String::from("\0");
    body.push_str(&"x".repeat(250));
    save_note(&make_note("n1", "nul body", &body, &[]), &mut state).unwrap();
    let r = save_note(&make_note("n1", "wiped", "", &[]), &mut state);
    assert!(matches!(r, Err(StoreError::GuardedOverwrite(_))));
    assert_eq!(load_note("n1", &state).unwrap().content, body);
}
