use notes_store::{
    delete_folder_permanently, init_database, load_all_folders, load_all_notes, load_all_tags,
    save_folder, save_note, save_tag, search_notes, DbConnection, Folder, Note, StoreError, Tag,
};

fn fresh_store() -> DbConnection {
    let mut state = DbConnection::new();
    init_database(":memory:", &mut state).expect("in-memory database must open");
    state
}

fn plain_note(id: &str, title: &str, content: &str, updated_at: &str) -> Note {
    Note {
        id: id.to_string(),
        title: title.to_string(),
        description: "".to_string(),
        description_visible: true,
        emoji: None,
        content: content.to_string(),
        tags: Vec::new(),
        tags_visible: true,
        is_favorite: false,
        folder_id: None,
        daily_note_date: None,
        created_at: "2024-01-01T00:00:00Z".to_string(),
        updated_at: updated_at.to_string(),
        deleted_at: None,
    }
}

#[test]
fn search_matches_title_and_content_tokens() {
    let mut state = fresh_store();
    save_note(&plain_note("a", "grocery list", "eggs and milk", "1"), &mut state).unwrap();
    save_note(&plain_note("b", "meeting", "discuss grocery budget", "2"), &mut state).unwrap();
    save_note(&plain_note("c", "unrelated", "nothing here", "3"), &mut state).unwrap();

    let mut hits: Vec<String> =
        search_notes("grocery", &state).unwrap().into_iter().map(|n| n.id).collect();
    hits.sort();
    assert_eq!(hits, vec!["a".to_string(), "b".to_string()]);
}

#[test]
fn search_excludes_soft_deleted_notes() {
    let mut state = fresh_store();
    save_note(&plain_note("live", "falcon watch", "falcon", "1"), &mut state).unwrap();
    let mut gone = plain_note("gone", "falcon gone", "falcon", "2");
    gone.deleted_at = Some("2024-05-05T00:00:00Z".to_string());
    save_note(&gone, &mut state).unwrap();

    let hits: Vec<String> =
        search_notes("falcon", &state).unwrap().into_iter().map(|n| n.id).collect();
    assert_eq!(hits, vec!["live".to_string()]);
}

#[test]
fn search_caps_results_at_fifty() {
    let mut state = fresh_store();
    for i in 0..60 {
        let id = format!("n{i:02}");
        save_note(&plain_note(&id, "heron sighting", "a heron", &id), &mut state).unwrap();
    }
    let hits = search_notes("heron", &state).unwrap();
    assert_eq!(hits.len(), 50);
}

#[test]
fn search_attaches_tags_to_hits() {
    let mut state = fresh_store();
    let mut note = plain_note("n1", "tagged", "osprey dive", "1");
    note.tags = vec!["bird".to_string()];
    save_note(&note, &mut state).unwrap();
    let hits = search_notes("osprey", &state).unwrap();
    assert_eq!(hits.len(), 1);
    assert_eq!(hits[0].tags, vec!["bird".to_string()]);
}

#[test]
fn listing_orders_by_most_recent_update() {
    let mut state = fresh_store();
    save_note(&plain_note("old", "old", "c", "2024-01-01T00:00:00Z"), &mut state).unwrap();
    save_note(&plain_note("mid", "mid", "c", "2024-03-01T00:00:00Z"), &mut state).unwrap();
    save_note(&plain_note("new", "new", "c", "2024-09-01T00:00:00Z"), &mut state).unwrap();
    let ids: Vec<String> = load_all_notes(&state).unwrap().into_iter().map(|n| n.id).collect();
    assert_eq!(ids, vec!["new".to_string(), "mid".to_string(), "old".to_string()]);
}

#[test]
fn listing_includes_soft_deleted_notes() {
    let mut state = fresh_store();
    let mut note = plain_note("n1", "soft", "c", "1");
    note.deleted_at = Some("2024-05-05T00:00:00Z".to_string());
    save_note(&note, &mut state).unwrap();
    assert_eq!(load_all_notes(&state).unwrap().len(), 1);
}

#[test]
fn note_with_unknown_folder_is_a_constraint_error() {
    let mut state = fresh_store();
    let mut note = plain_note("n1", "orphan", "c", "1");
    note.folder_id = Some("no-such-folder".to_string());
    assert!(matches!(save_note(&note, &mut state), Err(StoreError::Constraint(_))));
    assert_eq!(load_all_notes(&state).unwrap().len(), 0);
}

#[test]
fn deleting_a_folder_leaves_its_notes_dangling() {
    let mut state = fresh_store();
    let folder = Folder {
        id: "f1".to_string(),
        name: "inbox".to_string(),
        parent_id: None,
        description: "".to_string(),
        description_visible: true,
        color: None,
        emoji: None,
        tags: Vec::new(),
        tags_visible: true,
        is_favorite: false,
        is_expanded: true,
        created_at: "1".to_string(),
        updated_at: "1".to_string(),
        deleted_at: None,
    };
    save_folder(&folder, &mut state).unwrap();
    let mut note = plain_note("n1", "inside", "c", "1");
    note.folder_id = Some("f1".to_string());
    save_note(&note, &mut state).unwrap();
    // Notes in the folder do not block the removal: the folder row goes
    // and the note keeps its now-dangling reference.
    assert_eq!(delete_folder_permanently("f1", &mut state), Ok(()));
    assert_eq!(load_all_folders(&state).unwrap().len(), 0);
    let kept = load_all_notes(&state).unwrap();
    assert_eq!(kept.len(), 1);
    assert_eq!(kept[0].folder_id, Some("f1".to_string()));
}

#[test]
fn implicit_tags_get_default_metadata() {
    let mut state = fresh_store();
    let mut note = plain_note("n1", "t", "c", "2024-04-04T00:00:00Z");
    note.tags = vec!["fresh".to_string()];
    save_note(&note, &mut state).unwrap();
    let tags = load_all_tags(&state).unwrap();
    let tag = tags.iter().find(|t| t.name == "fresh").expect("implicit tag created");
    assert_eq!(tag.description, "");
    assert!(tag.description_visible);
    assert!(!tag.is_favorite);
    assert_eq!(tag.color, None);
    assert_eq!(tag.created_at, "2024-04-04T00:00:00Z");
    assert_eq!(tag.deleted_at, None);
}

#[test]
fn implicit_tag_save_keeps_existing_metadata() {
    let mut state = fresh_store();
    let tag = Tag {
        name: "kept".to_string(),
        description: "hand written".to_string(),
        description_visible: false,
        is_favorite: true,
        color: Some("red".to_string()),
        created_at: "1".to_string(),
        updated_at: "1".to_string(),
        deleted_at: None,
    };
    save_tag(&tag, &mut state).unwrap();
    let mut note = plain_note("n1", "t", "c", "2");
    note.tags = vec!["kept".to_string()];
    save_note(&note, &mut state).unwrap();

    let tags = load_all_tags(&state).unwrap();
    let kept = tags.iter().find(|t| t.name == "kept").unwrap();
    assert_eq!(kept.description, "hand written");
    assert!(kept.is_favorite);
    assert_eq!(kept.color, Some("red".to_string()));
}

#[test]
fn explicit_tag_save_overwrites_all_but_creation() {
    let mut state = fresh_store();
    let mut tag = Tag {
        name: "t1".to_string(),
        description: "one".to_string(),
        description_visible: true,
        is_favorite: false,
        color: None,
        created_at: "1".to_string(),
        updated_at: "1".to_string(),
        deleted_at: None,
    };
    save_tag(&tag, &mut state).unwrap();
    tag.description = "two".to_string();
    tag.created_at = "9".to_string();
    tag.updated_at = "2".to_string();
    save_tag(&tag, &mut state).unwrap();

    let tags = load_all_tags(&state).unwrap();
    assert_eq!(tags.len(), 1);
    assert_eq!(tags[0].description, "two");
    assert_eq!(tags[0].created_at, "1");
    assert_eq!(tags[0].updated_at, "2");
}

#[test]
fn duplicate_tags_in_one_save_are_a_constraint_error() {
    let mut state = fresh_store();
    let mut note = plain_note("n1", "t", "c", "1");
    note.tags = vec!["dup".to_string(), "dup".to_string()];
    assert!(matches!(save_note(&note, &mut state), Err(StoreError::Constraint(_))));
}

#[test]
fn bare_ui_prefix_key_is_listed() {
    let mut state = fresh_store();
    notes_store::save_ui_state("ui.", "bare", &mut state).unwrap();
    let all = notes_store::load_all_ui_state(&state).unwrap();
    assert_eq!(all.len(), 1);
    assert_eq!(all[0].key, "ui.");
}

#[test]
fn folder_with_child_folder_cannot_be_deleted() {
    let mut state = fresh_store();
    let mut parent = Folder {
        id: "p".to_string(),
        name: "parent".to_string(),
        parent_id: None,
        description: "".to_string(),
        description_visible: true,
        color: None,
        emoji: None,
        tags: Vec::new(),
        tags_visible: true,
        is_favorite: false,
        is_expanded: false,
        created_at: "1".to_string(),
        updated_at: "1".to_string(),
        deleted_at: None,
    };
    save_folder(&parent, &mut state).unwrap();
    parent.id = "c".to_string();
    parent.name = "child".to_string();
    parent.parent_id = Some("p".to_string());
    save_folder(&parent, &mut state).unwrap();
    assert!(matches!(
        delete_folder_permanently("p", &mut state),
        Err(StoreError::Constraint(_))
    ));
    assert_eq!(delete_folder_permanently("c", &mut state), Ok(()));
    assert_eq!(delete_folder_permanently("p", &mut state), Ok(()));
}
