//! The storage engine: every operation the host application can invoke,
//! verified against the model transformations of [`crate::data`].

use vstd::prelude::*;
use crate::data::{Note, Folder, Tag, SettingPair, StoreError};
use crate::data::{note_saved, folder_saved, tag_saved, note_deleted, folder_deleted, tag_deleted,
    setting_saved, note_row, folder_row, tag_set_matches, tag_rows_listed, ui_settings_listed,
    notes_report, folders_report, search_report, notes_recency_ordered, link_pairs, TagLink,
    dangling_folder_ref, folder_has_children, matching_ids, search_complete, search_ranked};
use vstd::string::StringExecFns;
use crate::db::{store_model, schema_ready, open_connection, install_schema,
    add_tags_deleted_column, apply_tuning_pragmas, checkpoint_wal, now_rfc3339, error_text,
    is_constraint_error, query_note_content, upsert_note_row, upsert_folder_row,
    upsert_tag_row, ensure_tag_row, clear_note_assocs, insert_note_assoc, clear_folder_assocs,
    insert_folder_assoc, delete_note_row, delete_folder_row, delete_tag_row, upsert_setting,
    query_setting, query_ui_settings, query_note_row, query_note_tags, query_all_notes, folder_exists,
    query_all_note_links, query_search_notes, query_all_folders, query_all_folder_links,
    query_all_tags};
use crate::model::{StoreModel, guard_blocks, ensure_tags, assocs_without, pair_set,
    replace_assocs, lex_le, model_wf, CONTENT_GUARD_LIMIT};
use crate::model::is_boot_state;

verus! {

/// The engine's owned handle on the database: absent until initialization
/// succeeds, after which it carries a connection with the schema installed.
pub struct DbConnection {
    conn: Option<rusqlite::Connection>,
}

impl DbConnection {
    /// Whether initialization has succeeded.
    pub closed spec fn ready(self) -> bool {
        self.conn is Some
    }

    /// The logical database content behind the handle.
    pub closed spec fn model(self) -> StoreModel
        recommends
            self.ready(),
    {
        store_model(self.conn->0)
    }

    /// A held connection always carries the engine's schema, and the rows
    /// behind it satisfy the store's referential integrity.
    pub closed spec fn wf(self) -> bool {
        self.conn matches Some(c) ==> schema_ready(c) && model_wf(store_model(c))
    }

    /// A fresh, uninitialized handle.
    pub fn new() -> (r: DbConnection)
        ensures
            !r.ready(),
            r.wf(),
    {
        DbConnection { conn: None }
    }
}

/// Sorts a database failure into the error taxonomy: a constraint breach
/// keeps its own variant, everything else is an engine/file failure.
fn sql_error(e: rusqlite::Error) -> (r: StoreError)
    ensures
        r is Constraint || r is Io,
{
    let msg = error_text(&e);
    if is_constraint_error(&e) {
        StoreError::Constraint(msg)
    } else {
        StoreError::Io(msg)
    }
}

/// Opens (or creates) the database file at the given path, installs the
/// schema idempotently, applies best-effort tuning, and stores the
/// connection in the handle, replacing any previously held one.  On
/// failure the handle is left as it was.
pub fn init_database(db_path: &str, state: &mut DbConnection) -> (r: Result<(), StoreError>)
    requires
        old(state).wf(),
    ensures
        final(state).wf(),
        r is Ok ==> final(state).ready(),
        r is Err ==> *final(state) == *old(state),
        r is Err ==> (r matches Err(e) && (e is Constraint || e is Io)),
{
    let mut conn = match open_connection(db_path) {
        Ok(c) => c,
        Err(e) => return Err(sql_error(e)),
    };
    match install_schema(&mut conn) {
        Ok(u) => u,
        Err(e) => return Err(sql_error(e)),
    }
    add_tags_deleted_column(&mut conn);
    apply_tuning_pragmas(&mut conn);
    state.conn = Some(conn);
    Ok(())
}

/// Saves a note: upserts its row (a new id keeps the given creation
/// timestamp, an existing id keeps its stored one), creates any missing
/// tags with default metadata, and replaces the note's association rows
/// with exactly the given tag set.  The data-loss guard first refuses the
/// save when boot-state content would overwrite stored content longer than
/// the guard limit, leaving the store untouched; deliberate structured
/// clears pass.  A note naming a folder that has no row is refused with a
/// constraint error before anything is written: referential integrity is
/// enforced at write time, by the engine itself, since the durable schema
/// declares no foreign key on the notes table.  Folders and settings are
/// never touched.
pub fn save_note(note: &Note, state: &mut DbConnection) -> (r: Result<(), StoreError>)
    requires
        old(state).wf(),
    ensures
        final(state).wf(),
        final(state).ready() == old(state).ready(),
        !old(state).ready() ==> (r matches Err(e) && e == StoreError::NotInitialized
            && *final(state) == *old(state)),
        old(state).ready() ==> !(r matches Err(StoreError::NotInitialized)),
        !(r matches Err(StoreError::NotFound(_))),
        (r matches Err(StoreError::GuardedOverwrite(_))) ==> old(state).ready() && guard_blocks(
            old(state).model().notes,
            note@.id,
            note@.content,
        ) && final(state).model() == old(state).model(),
        old(state).ready() && guard_blocks(old(state).model().notes, note@.id, note@.content)
            ==> r is Err && final(state).model() == old(state).model(),
        old(state).ready() && dangling_folder_ref(note@, old(state).model().folders)
            ==> r is Err && final(state).model() == old(state).model(),
        r is Ok ==> old(state).ready() && final(state).model() == note_saved(
            old(state).model(),
            note@,
        ),
        old(state).ready() ==> final(state).model().folders == old(state).model().folders
            && final(state).model().folder_tags == old(state).model().folder_tags
            && final(state).model().settings == old(state).model().settings,
        old(state).ready() ==> (final(state).model().notes == old(state).model().notes
            || final(state).model().notes == crate::model::upsert_note(
            old(state).model().notes,
            note@.id,
            note_row(note@),
        )),
        old(state).ready() ==> (final(state).model().tags == old(state).model().tags
            || final(state).model().tags == ensure_tags(
            old(state).model().tags,
            note@.tags,
            note@.updated_at,
        ) || (exists|k: int|
            0 <= k <= note@.tags.len() && final(state).model().tags == ensure_tags(
                old(state).model().tags,
                note@.tags.take(k),
                note@.updated_at,
            ))),
        old(state).ready() ==> (final(state).model().note_tags == old(state).model().note_tags
            || (exists|k: int|
            0 <= k <= note@.tags.len() && final(state).model().note_tags == assocs_without(
                old(state).model().note_tags,
                note@.id,
            ).union(pair_set(note@.id, note@.tags.take(k))))),
{
    match &mut state.conn {
        Some(c) => save_note_on(note, c),
        None => Err(StoreError::NotInitialized),
    }
}

/// [`save_note`] on the held connection.
fn save_note_on(note: &Note, conn: &mut rusqlite::Connection) -> (r: Result<(), StoreError>)
    requires
        schema_ready(*old(conn)),
        model_wf(store_model(*old(conn))),
    ensures
        schema_ready(*final(conn)),
        model_wf(store_model(*final(conn))),
        !(r matches Err(StoreError::NotInitialized)),
        !(r matches Err(StoreError::NotFound(_))),
        (r matches Err(StoreError::GuardedOverwrite(_))) ==> guard_blocks(
            store_model(*old(conn)).notes,
            note@.id,
            note@.content,
        ) && store_model(*final(conn)) == store_model(*old(conn)),
        guard_blocks(store_model(*old(conn)).notes, note@.id, note@.content) ==> r is Err
            && store_model(*final(conn)) == store_model(*old(conn)),
        dangling_folder_ref(note@, store_model(*old(conn)).folders) ==> r is Err
            && store_model(*final(conn)) == store_model(*old(conn)),
        r is Ok ==> store_model(*final(conn)) == note_saved(store_model(*old(conn)), note@),
        store_model(*final(conn)).folders == store_model(*old(conn)).folders,
        store_model(*final(conn)).folder_tags == store_model(*old(conn)).folder_tags,
        store_model(*final(conn)).settings == store_model(*old(conn)).settings,
        store_model(*final(conn)).notes == store_model(*old(conn)).notes || store_model(
            *final(conn),
        ).notes == crate::model::upsert_note(
            store_model(*old(conn)).notes,
            note@.id,
            note_row(note@),
        ),
        store_model(*final(conn)).tags == store_model(*old(conn)).tags || store_model(
            *final(conn),
        ).tags == ensure_tags(store_model(*old(conn)).tags, note@.tags, note@.updated_at) || (
        exists|k: int|
            0 <= k <= note@.tags.len() && store_model(*final(conn)).tags == ensure_tags(
                store_model(*old(conn)).tags,
                note@.tags.take(k),
                note@.updated_at,
            )),
        store_model(*final(conn)).note_tags == store_model(*old(conn)).note_tags || (exists|k: int|
            0 <= k <= note@.tags.len() && store_model(*final(conn)).note_tags == assocs_without(
                store_model(*old(conn)).note_tags,
                note@.id,
            ).union(pair_set(note@.id, note@.tags.take(k)))),
{
    let ghost m0 = store_model(*conn);
    if is_boot_state(note.content.as_str()) {
        match query_note_content(conn, note.id.as_str()) {
            Ok(Some(stored)) => {
                if stored.as_str().unicode_len() > CONTENT_GUARD_LIMIT {
                    return Err(StoreError::GuardedOverwrite(note.id.clone()));
                }
            },
            Ok(None) => {},
            Err(e) => return Err(sql_error(e)),
        }
    }
    match &note.folder_id {
        Some(parent) => {
            match folder_exists(conn, parent.as_str()) {
                Ok(b) => {
                    if !b {
                        return Err(StoreError::Constraint(String::from_str(
                            "note references a folder that does not exist",
                        )));
                    }
                },
                Err(e) => return Err(sql_error(e)),
            }
        },
        None => {},
    }
    match upsert_note_row(conn, note) {
        Ok(u) => u,
        Err(e) => return Err(sql_error(e)),
    }
    let ghost m1 = store_model(*conn);
    proof {
        assert(note@.tags.take(0) =~= Seq::<Seq<char>>::empty());
        assert(m0.notes.dom().subset_of(m1.notes.dom()));
        crate::data::lemma_wf_wider_notes(m0, m1.notes);
    }
    let mut i: usize = 0;
    while i < note.tags.len()
        invariant
            i <= note.tags@.len(),
            schema_ready(*conn),
            m0 == store_model(*old(conn)),
            model_wf(m0),
            !dangling_folder_ref(note@, m0.folders),
            !guard_blocks(m0.notes, note@.id, note@.content),
            m1 == (StoreModel {
                notes: crate::model::upsert_note(m0.notes, note@.id, note_row(note@)),
                ..m0
            }),
            store_model(*conn) == (StoreModel {
                tags: ensure_tags(m1.tags, note@.tags.take(i as int), note@.updated_at),
                ..m1
            }),
            model_wf(store_model(*conn)),
        decreases note.tags@.len() - i,
    {
        match ensure_tag_row(conn, note.tags[i].as_str(), note.updated_at.as_str()) {
            Ok(u) => u,
            Err(e) => return Err(sql_error(e)),
        }
        proof {
            assert(note@.tags.take(i + 1) =~= note@.tags.take(i as int).push(
                note@.tags[i as int],
            ));
            crate::model::lemma_ensure_tags_push(
                m1.tags,
                note@.tags.take(i as int),
                note@.tags[i as int],
                note@.updated_at,
            );
            assert(m0.notes.dom().subset_of(m1.notes.dom()));
            crate::data::lemma_wf_wider_notes(m0, m1.notes);
            crate::model::lemma_ensure_tags_dom(m1.tags, note@.tags.take(i + 1), note@.updated_at);
            assert(m1.tags.dom().subset_of(
                ensure_tags(m1.tags, note@.tags.take(i + 1), note@.updated_at).dom(),
            ));
            crate::data::lemma_wf_wider_tags(
                m1,
                ensure_tags(m1.tags, note@.tags.take(i + 1), note@.updated_at),
            );
        }
        i += 1;
    }
    proof {
        assert(note@.tags.take(note@.tags.len() as int) =~= note@.tags);
    }
    let ghost ma = store_model(*conn);
    match clear_note_assocs(conn, note.id.as_str()) {
        Ok(u) => u,
        Err(e) => return Err(sql_error(e)),
    }
    let ghost m2 = store_model(*conn);
    proof {
        assert forall|p: (Seq<char>, Seq<char>)| #[trigger] m2.note_tags.contains(p)
            implies ma.note_tags.contains(p) by {}
        crate::data::lemma_wf_fewer_note_pairs(ma, m2.note_tags);
        assert(note@.tags.take(0) =~= Seq::<Seq<char>>::empty());
        assert(m2.note_tags.union(pair_set(note@.id, note@.tags.take(0))) =~= m2.note_tags);
        crate::model::lemma_ensure_tags_dom(m0.tags, note@.tags, note@.updated_at);
    }
    let mut i: usize = 0;
    while i < note.tags.len()
        invariant
            i <= note.tags@.len(),
            schema_ready(*conn),
            m0 == store_model(*old(conn)),
            model_wf(m0),
            !dangling_folder_ref(note@, m0.folders),
            !guard_blocks(m0.notes, note@.id, note@.content),
            m2 == (StoreModel {
                notes: crate::model::upsert_note(m0.notes, note@.id, note_row(note@)),
                tags: ensure_tags(m0.tags, note@.tags, note@.updated_at),
                note_tags: assocs_without(m0.note_tags, note@.id),
                ..m0
            }),
            store_model(*conn) == (StoreModel {
                note_tags: m2.note_tags.union(pair_set(note@.id, note@.tags.take(i as int))),
                ..m2
            }),
            model_wf(store_model(*conn)),
        decreases note.tags@.len() - i,
    {
        let ghost before = store_model(*conn);
        match insert_note_assoc(conn, note.id.as_str(), note.tags[i].as_str()) {
            Ok(u) => u,
            Err(e) => return Err(sql_error(e)),
        }
        proof {
            assert(note@.tags.take(i + 1) =~= note@.tags.take(i as int).push(
                note@.tags[i as int],
            ));
            crate::model::lemma_pair_set_push(
                note@.id,
                note@.tags.take(i as int),
                note@.tags[i as int],
            );
            assert(m2.note_tags.union(pair_set(note@.id, note@.tags.take(i as int))).insert(
                (note@.id, note@.tags[i as int]),
            ) =~= m2.note_tags.union(pair_set(note@.id, note@.tags.take(i + 1))));
            crate::model::lemma_ensure_tags_dom(m0.tags, note@.tags, note@.updated_at);
            crate::data::lemma_wf_add_note_pair(before, note@.id, note@.tags[i as int]);
        }
        i += 1;
    }
    proof {
        assert(note@.tags.take(note@.tags.len() as int) =~= note@.tags);
        assert(store_model(*conn).note_tags =~= replace_assocs(m0.note_tags, note@.id, note@.tags));
        assert(store_model(*conn) == note_saved(m0, note@));
    }
    Ok(())
}

/// Saves a folder: upserts its row (a new id keeps the given creation
/// timestamp, an existing id keeps its stored one), creates any missing
/// tags with default metadata, and replaces the folder's association rows
/// with exactly the given tag set.  Folders carry no boot-state risk, so
/// there is no guard.  Notes and settings are never touched.
pub fn save_folder(folder: &Folder, state: &mut DbConnection) -> (r: Result<(), StoreError>)
    requires
        old(state).wf(),
    ensures
        final(state).wf(),
        final(state).ready() == old(state).ready(),
        !old(state).ready() ==> (r matches Err(e) && e == StoreError::NotInitialized
            && *final(state) == *old(state)),
        old(state).ready() ==> !(r matches Err(StoreError::NotInitialized)),
        !(r matches Err(StoreError::NotFound(_))),
        !(r matches Err(StoreError::GuardedOverwrite(_))),
        r is Ok ==> old(state).ready() && final(state).model() == folder_saved(
            old(state).model(),
            folder@,
        ),
        old(state).ready() ==> final(state).model().notes == old(state).model().notes
            && final(state).model().note_tags == old(state).model().note_tags
            && final(state).model().settings == old(state).model().settings,
        old(state).ready() ==> (final(state).model().folders == old(state).model().folders
            || final(state).model().folders == crate::model::upsert_folder(
            old(state).model().folders,
            folder@.id,
            folder_row(folder@),
        )),
        old(state).ready() ==> (final(state).model().tags == old(state).model().tags
            || final(state).model().tags == ensure_tags(
            old(state).model().tags,
            folder@.tags,
            folder@.updated_at,
        ) || (exists|k: int|
            0 <= k <= folder@.tags.len() && final(state).model().tags == ensure_tags(
                old(state).model().tags,
                folder@.tags.take(k),
                folder@.updated_at,
            ))),
        old(state).ready() ==> (final(state).model().folder_tags == old(state).model().folder_tags
            || (exists|k: int|
            0 <= k <= folder@.tags.len() && final(state).model().folder_tags == assocs_without(
                old(state).model().folder_tags,
                folder@.id,
            ).union(pair_set(folder@.id, folder@.tags.take(k))))),
{
    match &mut state.conn {
        Some(c) => save_folder_on(folder, c),
        None => Err(StoreError::NotInitialized),
    }
}

/// [`save_folder`] on the held connection.
fn save_folder_on(folder: &Folder, conn: &mut rusqlite::Connection) -> (r: Result<(), StoreError>)
    requires
        schema_ready(*old(conn)),
        model_wf(store_model(*old(conn))),
    ensures
        schema_ready(*final(conn)),
        model_wf(store_model(*final(conn))),
        !(r matches Err(StoreError::NotInitialized)),
        !(r matches Err(StoreError::NotFound(_))),
        !(r matches Err(StoreError::GuardedOverwrite(_))),
        r is Ok ==> store_model(*final(conn)) == folder_saved(store_model(*old(conn)), folder@),
        store_model(*final(conn)).notes == store_model(*old(conn)).notes,
        store_model(*final(conn)).note_tags == store_model(*old(conn)).note_tags,
        store_model(*final(conn)).settings == store_model(*old(conn)).settings,
        store_model(*final(conn)).folders == store_model(*old(conn)).folders || store_model(
            *final(conn),
        ).folders == crate::model::upsert_folder(
            store_model(*old(conn)).folders,
            folder@.id,
            folder_row(folder@),
        ),
        store_model(*final(conn)).tags == store_model(*old(conn)).tags || store_model(
            *final(conn),
        ).tags == ensure_tags(store_model(*old(conn)).tags, folder@.tags, folder@.updated_at) || (
        exists|k: int|
            0 <= k <= folder@.tags.len() && store_model(*final(conn)).tags == ensure_tags(
                store_model(*old(conn)).tags,
                folder@.tags.take(k),
                folder@.updated_at,
            )),
        store_model(*final(conn)).folder_tags == store_model(*old(conn)).folder_tags || (exists|
            k: int,
        |
            0 <= k <= folder@.tags.len() && store_model(*final(conn)).folder_tags == assocs_without(
                store_model(*old(conn)).folder_tags,
                folder@.id,
            ).union(pair_set(folder@.id, folder@.tags.take(k)))),
{
    let ghost m0 = store_model(*conn);
    match upsert_folder_row(conn, folder) {
        Ok(u) => u,
        Err(e) => return Err(sql_error(e)),
    }
    let ghost m1 = store_model(*conn);
    proof {
        assert(folder@.tags.take(0) =~= Seq::<Seq<char>>::empty());
        assert(m0.folders.dom().subset_of(m1.folders.dom()));
        crate::data::lemma_wf_wider_folders(m0, m1.folders);
    }
    let mut i: usize = 0;
    while i < folder.tags.len()
        invariant
            i <= folder.tags@.len(),
            schema_ready(*conn),
            m0 == store_model(*old(conn)),
            model_wf(m0),
            m1 == (StoreModel {
                folders: crate::model::upsert_folder(m0.folders, folder@.id, folder_row(folder@)),
                ..m0
            }),
            store_model(*conn) == (StoreModel {
                tags: ensure_tags(m1.tags, folder@.tags.take(i as int), folder@.updated_at),
                ..m1
            }),
            model_wf(store_model(*conn)),
        decreases folder.tags@.len() - i,
    {
        match ensure_tag_row(conn, folder.tags[i].as_str(), folder.updated_at.as_str()) {
            Ok(u) => u,
            Err(e) => return Err(sql_error(e)),
        }
        proof {
            assert(folder@.tags.take(i + 1) =~= folder@.tags.take(i as int).push(
                folder@.tags[i as int],
            ));
            crate::model::lemma_ensure_tags_push(
                m1.tags,
                folder@.tags.take(i as int),
                folder@.tags[i as int],
                folder@.updated_at,
            );
            assert(m0.folders.dom().subset_of(m1.folders.dom()));
            crate::data::lemma_wf_wider_folders(m0, m1.folders);
            crate::model::lemma_ensure_tags_dom(m1.tags, folder@.tags.take(i + 1), folder@.updated_at);
            assert(m1.tags.dom().subset_of(
                ensure_tags(m1.tags, folder@.tags.take(i + 1), folder@.updated_at).dom(),
            ));
            crate::data::lemma_wf_wider_tags(
                m1,
                ensure_tags(m1.tags, folder@.tags.take(i + 1), folder@.updated_at),
            );
        }
        i += 1;
    }
    proof {
        assert(folder@.tags.take(folder@.tags.len() as int) =~= folder@.tags);
    }
    let ghost ma = store_model(*conn);
    match clear_folder_assocs(conn, folder.id.as_str()) {
        Ok(u) => u,
        Err(e) => return Err(sql_error(e)),
    }
    let ghost m2 = store_model(*conn);
    proof {
        assert forall|p: (Seq<char>, Seq<char>)| #[trigger] m2.folder_tags.contains(p)
            implies ma.folder_tags.contains(p) by {}
        crate::data::lemma_wf_fewer_folder_pairs(ma, m2.folder_tags);
        assert(folder@.tags.take(0) =~= Seq::<Seq<char>>::empty());
        assert(m2.folder_tags.union(pair_set(folder@.id, folder@.tags.take(0))) =~= m2.folder_tags);
        crate::model::lemma_ensure_tags_dom(m0.tags, folder@.tags, folder@.updated_at);
    }
    let mut i: usize = 0;
    while i < folder.tags.len()
        invariant
            i <= folder.tags@.len(),
            schema_ready(*conn),
            m0 == store_model(*old(conn)),
            model_wf(m0),
            m2 == (StoreModel {
                folders: crate::model::upsert_folder(m0.folders, folder@.id, folder_row(folder@)),
                tags: ensure_tags(m0.tags, folder@.tags, folder@.updated_at),
                folder_tags: assocs_without(m0.folder_tags, folder@.id),
                ..m0
            }),
            store_model(*conn) == (StoreModel {
                folder_tags: m2.folder_tags.union(pair_set(folder@.id, folder@.tags.take(i as int))),
                ..m2
            }),
            model_wf(store_model(*conn)),
        decreases folder.tags@.len() - i,
    {
        let ghost before = store_model(*conn);
        match insert_folder_assoc(conn, folder.id.as_str(), folder.tags[i].as_str()) {
            Ok(u) => u,
            Err(e) => return Err(sql_error(e)),
        }
        proof {
            assert(folder@.tags.take(i + 1) =~= folder@.tags.take(i as int).push(
                folder@.tags[i as int],
            ));
            crate::model::lemma_pair_set_push(
                folder@.id,
                folder@.tags.take(i as int),
                folder@.tags[i as int],
            );
            assert(m2.folder_tags.union(pair_set(folder@.id, folder@.tags.take(i as int))).insert(
                (folder@.id, folder@.tags[i as int]),
            ) =~= m2.folder_tags.union(pair_set(folder@.id, folder@.tags.take(i + 1))));
            crate::model::lemma_ensure_tags_dom(m0.tags, folder@.tags, folder@.updated_at);
            crate::data::lemma_wf_add_folder_pair(before, folder@.id, folder@.tags[i as int]);
        }
        i += 1;
    }
    proof {
        assert(folder@.tags.take(folder@.tags.len() as int) =~= folder@.tags);
        assert(store_model(*conn).folder_tags =~= replace_assocs(
            m0.folder_tags,
            folder@.id,
            folder@.tags,
        ));
        assert(store_model(*conn) == folder_saved(m0, folder@));
    }
    Ok(())
}

/// Permanently removes a note row; its association rows cascade away.  A
/// missing id is not an error: the model is unchanged by the removal.
pub fn delete_note_permanently(note_id: &str, state: &mut DbConnection) -> (r: Result<
    (),
    StoreError,
>)
    requires
        old(state).wf(),
    ensures
        final(state).wf(),
        final(state).ready() == old(state).ready(),
        !old(state).ready() ==> (r matches Err(e) && e == StoreError::NotInitialized
            && *final(state) == *old(state)),
        old(state).ready() ==> !(r matches Err(StoreError::NotInitialized)),
        !(r matches Err(StoreError::NotFound(_))),
        !(r matches Err(StoreError::GuardedOverwrite(_))),
        r is Ok ==> old(state).ready() && final(state).model() == note_deleted(
            old(state).model(),
            note_id@,
        ),
        old(state).ready() && r is Ok && !old(state).model().notes.dom().contains(note_id@)
            ==> final(state).model() == old(state).model(),
        old(state).ready() && r is Err ==> final(state).model() == old(state).model(),
{
    let conn = match &mut state.conn {
        Some(c) => c,
        None => return Err(StoreError::NotInitialized),
    };
    let ghost m0 = store_model(*conn);
    match delete_note_row(conn, note_id) {
        Ok(u) => u,
        Err(e) => return Err(sql_error(e)),
    }
    proof {
        crate::data::lemma_wf_note_deleted(m0, note_id@);
        if !m0.notes.dom().contains(note_id@) {
            crate::data::lemma_missing_note_delete_is_noop(m0, note_id@);
        }
    }
    Ok(())
}

/// Permanently removes a folder row; its association rows cascade away.  A
/// missing id is not an error.  A folder still named as parent by a child
/// folder cannot be removed: the constraint error is surfaced.  Notes
/// stored in the folder do not block removal; their folder references are
/// left dangling, and filtering such references is the caller's concern.
pub fn delete_folder_permanently(folder_id: &str, state: &mut DbConnection) -> (r: Result<
    (),
    StoreError,
>)
    requires
        old(state).wf(),
    ensures
        final(state).wf(),
        final(state).ready() == old(state).ready(),
        !old(state).ready() ==> (r matches Err(e) && e == StoreError::NotInitialized
            && *final(state) == *old(state)),
        old(state).ready() ==> !(r matches Err(StoreError::NotInitialized)),
        !(r matches Err(StoreError::NotFound(_))),
        !(r matches Err(StoreError::GuardedOverwrite(_))),
        r is Ok ==> old(state).ready() && final(state).model() == folder_deleted(
            old(state).model(),
            folder_id@,
        ),
        old(state).ready() && r is Ok && !old(state).model().folders.dom().contains(folder_id@)
            ==> final(state).model() == old(state).model(),
        old(state).ready() && folder_has_children(old(state).model().folders, folder_id@)
            ==> r is Err,
        old(state).ready() && r is Err ==> final(state).model() == old(state).model(),
{
    let conn = match &mut state.conn {
        Some(c) => c,
        None => return Err(StoreError::NotInitialized),
    };
    let ghost m0 = store_model(*conn);
    match delete_folder_row(conn, folder_id) {
        Ok(u) => u,
        Err(e) => return Err(sql_error(e)),
    }
    proof {
        crate::data::lemma_wf_folder_deleted(m0, folder_id@);
        if !m0.folders.dom().contains(folder_id@) {
            crate::data::lemma_missing_folder_delete_is_noop(m0, folder_id@);
        }
    }
    Ok(())
}

/// Removes a tag row by name; every association row naming it, in both
/// association tables, cascades away, while the notes and folders that
/// carried the tag stay.  A missing name is not an error.
pub fn delete_tag(tag_name: &str, state: &mut DbConnection) -> (r: Result<(), StoreError>)
    requires
        old(state).wf(),
    ensures
        final(state).wf(),
        final(state).ready() == old(state).ready(),
        !old(state).ready() ==> (r matches Err(e) && e == StoreError::NotInitialized
            && *final(state) == *old(state)),
        old(state).ready() ==> !(r matches Err(StoreError::NotInitialized)),
        !(r matches Err(StoreError::NotFound(_))),
        !(r matches Err(StoreError::GuardedOverwrite(_))),
        r is Ok ==> old(state).ready() && final(state).model() == tag_deleted(
            old(state).model(),
            tag_name@,
        ),
        old(state).ready() && r is Ok && !old(state).model().tags.dom().contains(tag_name@)
            ==> final(state).model() == old(state).model(),
        old(state).ready() && r is Err ==> final(state).model() == old(state).model(),
{
    let conn = match &mut state.conn {
        Some(c) => c,
        None => return Err(StoreError::NotInitialized),
    };
    let ghost m0 = store_model(*conn);
    match delete_tag_row(conn, tag_name) {
        Ok(u) => u,
        Err(e) => return Err(sql_error(e)),
    }
    proof {
        crate::data::lemma_wf_tag_deleted(m0, tag_name@);
        if !m0.tags.dom().contains(tag_name@) {
            crate::data::lemma_missing_tag_delete_is_noop(m0, tag_name@);
        }
    }
    Ok(())
}

/// Upserts tag metadata by name: a new name is inserted as given, an
/// existing one keeps only its name and creation timestamp.
pub fn save_tag(tag: &Tag, state: &mut DbConnection) -> (r: Result<(), StoreError>)
    requires
        old(state).wf(),
    ensures
        final(state).wf(),
        final(state).ready() == old(state).ready(),
        !old(state).ready() ==> (r matches Err(e) && e == StoreError::NotInitialized
            && *final(state) == *old(state)),
        old(state).ready() ==> !(r matches Err(StoreError::NotInitialized)),
        !(r matches Err(StoreError::NotFound(_))),
        !(r matches Err(StoreError::GuardedOverwrite(_))),
        r is Ok ==> old(state).ready() && final(state).model() == tag_saved(
            old(state).model(),
            tag@,
        ),
        old(state).ready() && r is Err ==> final(state).model() == old(state).model(),
{
    let conn = match &mut state.conn {
        Some(c) => c,
        None => return Err(StoreError::NotInitialized),
    };
    match upsert_tag_row(conn, tag) {
        Ok(u) => u,
        Err(e) => return Err(sql_error(e)),
    }
    Ok(())
}

/// Returns every tag row, soft-deleted ones included, each name once.
pub fn load_all_tags(state: &DbConnection) -> (r: Result<Vec<Tag>, StoreError>)
    requires
        state.wf(),
    ensures
        !state.ready() ==> (r matches Err(e) && e == StoreError::NotInitialized),
        state.ready() ==> !(r matches Err(StoreError::NotInitialized)),
        !(r matches Err(StoreError::NotFound(_))),
        !(r matches Err(StoreError::GuardedOverwrite(_))),
        r is Ok ==> state.ready(),
        r matches Ok(v) ==> tag_rows_listed(v@, state.model().tags),
{
    let conn = match &state.conn {
        Some(c) => c,
        None => return Err(StoreError::NotInitialized),
    };
    match query_all_tags(conn) {
        Ok(v) => Ok(v),
        Err(e) => Err(sql_error(e)),
    }
}

/// Best-effort checkpoint of the write-ahead log into the main database
/// file; never fails once the engine is initialized and never changes the
/// logical content.
pub fn cleanup_database(state: &DbConnection) -> (r: Result<(), StoreError>)
    requires
        state.wf(),
    ensures
        r is Ok <==> state.ready(),
        !state.ready() ==> (r matches Err(e) && e == StoreError::NotInitialized),
        state.ready() ==> !(r matches Err(StoreError::NotInitialized)),
        r is Err ==> (r matches Err(e) && e == StoreError::NotInitialized),
{
    let conn = match &state.conn {
        Some(c) => c,
        None => return Err(StoreError::NotInitialized),
    };
    checkpoint_wal(conn);
    Ok(())
}

/// Binds a UI-state key to a value under a freshly generated timestamp,
/// overwriting any previous binding.
pub fn save_ui_state(key: &str, value: &str, state: &mut DbConnection) -> (r: Result<
    (),
    StoreError,
>)
    requires
        old(state).wf(),
    ensures
        final(state).wf(),
        final(state).ready() == old(state).ready(),
        !old(state).ready() ==> (r matches Err(e) && e == StoreError::NotInitialized
            && *final(state) == *old(state)),
        old(state).ready() ==> !(r matches Err(StoreError::NotInitialized)),
        !(r matches Err(StoreError::NotFound(_))),
        !(r matches Err(StoreError::GuardedOverwrite(_))),
        r is Ok ==> old(state).ready() && exists|ts: Seq<char>|
            final(state).model() == setting_saved(old(state).model(), key@, value@, ts),
        old(state).ready() && r is Err ==> final(state).model() == old(state).model(),
{
    let conn = match &mut state.conn {
        Some(c) => c,
        None => return Err(StoreError::NotInitialized),
    };
    let now = now_rfc3339();
    match upsert_setting(conn, key, value, now.as_str()) {
        Ok(u) => u,
        Err(e) => return Err(sql_error(e)),
    }
    proof {
        assert(final(state).model() == setting_saved(old(state).model(), key@, value@, now@));
    }
    Ok(())
}

/// Looks a UI-state key up: the stored value, or None where the key is
/// unset — an absent key is not an error.
pub fn load_ui_state(key: &str, state: &DbConnection) -> (r: Result<Option<String>, StoreError>)
    requires
        state.wf(),
    ensures
        !state.ready() ==> (r matches Err(e) && e == StoreError::NotInitialized),
        state.ready() ==> !(r matches Err(StoreError::NotInitialized)),
        !(r matches Err(StoreError::GuardedOverwrite(_))),
        r matches Ok(v) ==> {
            &&& state.ready()
            &&& (v is Some <==> state.model().settings.dom().contains(key@))
            &&& (v matches Some(s) ==> s@ == state.model().settings[key@].value)
        },
        !(r matches Err(StoreError::NotFound(_))),
{
    let conn = match &state.conn {
        Some(c) => c,
        None => return Err(StoreError::NotInitialized),
    };
    match query_setting(conn, key) {
        Ok(v) => Ok(v),
        Err(e) => Err(sql_error(e)),
    }
}

/// Returns every setting in the reserved `ui.` namespace, each key once.
pub fn load_all_ui_state(state: &DbConnection) -> (r: Result<Vec<SettingPair>, StoreError>)
    requires
        state.wf(),
    ensures
        !state.ready() ==> (r matches Err(e) && e == StoreError::NotInitialized),
        state.ready() ==> !(r matches Err(StoreError::NotInitialized)),
        !(r matches Err(StoreError::NotFound(_))),
        !(r matches Err(StoreError::GuardedOverwrite(_))),
        r is Ok ==> state.ready(),
        r matches Ok(v) ==> ui_settings_listed(v@, state.model().settings),
{
    let conn = match &state.conn {
        Some(c) => c,
        None => return Err(StoreError::NotInitialized),
    };
    match query_ui_settings(conn) {
        Ok(v) => Ok(v),
        Err(e) => Err(sql_error(e)),
    }
}

/// Gathers, from one pass over the association listing, the tag names that
/// belong to the given owner id.
fn collect_tags(id: &String, links: &Vec<TagLink>) -> (r: Vec<String>)
    requires
        forall|a: int, b: int|
            0 <= a < b < links@.len() ==> (#[trigger] links@[a])@ != (#[trigger] links@[b])@,
    ensures
        tag_set_matches(r.deep_view(), link_pairs(links@), id@),
{
    let mut out: Vec<String> = Vec::new();
    let mut j: usize = 0;
    while j < links.len()
        invariant
            j <= links@.len(),
            forall|a: int, b: int|
                0 <= a < b < links@.len() ==> (#[trigger] links@[a])@ != (#[trigger] links@[b])@,
            forall|t: Seq<char>|
                #[trigger] out.deep_view().contains(t) <==> exists|k: int|
                    0 <= k < j && (#[trigger] links@[k])@ == (id@, t),
            forall|a: int, b: int|
                0 <= a < b < out.deep_view().len() ==> out.deep_view()[a] != out.deep_view()[b],
        decreases links@.len() - j,
    {
        let ghost dv0 = out.deep_view();
        if links[j].id == *id {
            out.push(links[j].tag.clone());
            proof {
                assert(out.deep_view() =~= dv0.push(links@[j as int].tag@));
                assert(links@[j as int]@ == (id@, links@[j as int].tag@));
                assert forall|t: Seq<char>| #[trigger] out.deep_view().contains(t) implies exists|
                    k: int,
                |
                    0 <= k < j + 1 && (#[trigger] links@[k])@ == (id@, t) by {
                    let a = choose|a: int|
                        0 <= a < out.deep_view().len() && out.deep_view()[a] == t;
                    if a < dv0.len() {
                        assert(dv0.contains(t));
                    } else {
                        assert(links@[j as int]@ == (id@, t));
                    }
                }
                assert forall|t: Seq<char>|
                    (exists|k: int| 0 <= k < j + 1 && (#[trigger] links@[k])@ == (id@, t))
                        implies #[trigger] out.deep_view().contains(t) by {
                    let k = choose|k: int| 0 <= k < j + 1 && (#[trigger] links@[k])@ == (id@, t);
                    if k < j {
                        assert(dv0.contains(t));
                        let a = choose|a: int| 0 <= a < dv0.len() && dv0[a] == t;
                        assert(out.deep_view()[a] == t);
                    } else {
                        assert(out.deep_view()[dv0.len() as int] == t);
                    }
                }
                assert forall|a: int, b: int|
                    0 <= a < b < out.deep_view().len() implies out.deep_view()[a]
                    != out.deep_view()[b] by {
                    if b == dv0.len() {
                        if dv0[a] == links@[j as int].tag@ {
                            assert(dv0.contains(links@[j as int].tag@));
                            let k = choose|k: int|
                                0 <= k < j && (#[trigger] links@[k])@ == (
                                id@,
                                links@[j as int].tag@,
                                );
                            assert(links@[k]@ == links@[j as int]@);
                        }
                    }
                }
            }
        } else {
            proof {
                assert forall|t: Seq<char>|
                    (exists|k: int| 0 <= k < j + 1 && (#[trigger] links@[k])@ == (id@, t))
                        implies #[trigger] out.deep_view().contains(t) by {
                    let k = choose|k: int| 0 <= k < j + 1 && (#[trigger] links@[k])@ == (id@, t);
                    assert(links@[j as int]@.0 == links@[j as int].id@);
                    assert(k < j);
                }
            }
        }
        j += 1;
    }
    proof {
        assert forall|t: Seq<char>| #[trigger] out.deep_view().contains(t) implies link_pairs(
            links@,
        ).contains((id@, t)) by {
            let k = choose|k: int| 0 <= k < links@.len() && (#[trigger] links@[k])@ == (id@, t);
            assert(link_pairs(links@).contains(links@[k]@));
        }
        assert forall|t: Seq<char>| #[trigger] link_pairs(links@).contains((id@, t))
            implies out.deep_view().contains(t) by {
            let k = choose|k: int| 0 <= k < links@.len() && (#[trigger] links@[k])@ == (id@, t);
        }
    }
    out
}

/// Replaces each note's empty tag list with the tag set the association
/// listing gives it; every other field is kept.
fn attach_note_tags(notes: Vec<Note>, links: &Vec<TagLink>) -> (r: Vec<Note>)
    requires
        forall|a: int, b: int|
            0 <= a < b < links@.len() ==> (#[trigger] links@[a])@ != (#[trigger] links@[b])@,
    ensures
        r@.len() == notes@.len(),
        forall|i: int| 0 <= i < r@.len() ==> {
            &&& (#[trigger] r@[i])@.id == notes@[i]@.id
            &&& note_row(r@[i]@) == note_row(notes@[i]@)
            &&& tag_set_matches(r@[i]@.tags, link_pairs(links@), r@[i]@.id)
        },
{
    let ghost orig = notes@;
    let mut rest = notes;
    let mut out: Vec<Note> = Vec::new();
    while rest.len() > 0
        invariant
            forall|a: int, b: int|
                0 <= a < b < links@.len() ==> (#[trigger] links@[a])@ != (#[trigger] links@[b])@,
            out@.len() + rest@.len() == orig.len(),
            rest@ == orig.skip(out@.len() as int),
            forall|i: int| 0 <= i < out@.len() ==> {
                &&& (#[trigger] out@[i])@.id == orig[i]@.id
                &&& note_row(out@[i]@) == note_row(orig[i]@)
                &&& tag_set_matches(out@[i]@.tags, link_pairs(links@), out@[i]@.id)
            },
        decreases rest@.len(),
    {
        let mut n = rest.remove(0);
        proof {
            assert(orig.skip(out@.len() as int).drop_first() =~= orig.skip(out@.len() as int + 1));
            assert(n == orig[out@.len() as int]);
        }
        let tags = collect_tags(&n.id, links);
        n.tags = tags;
        out.push(n);
    }
    out
}

/// Replaces each folder's empty tag list with the tag set the association
/// listing gives it; every other field is kept.
fn attach_folder_tags(folders: Vec<Folder>, links: &Vec<TagLink>) -> (r: Vec<Folder>)
    requires
        forall|a: int, b: int|
            0 <= a < b < links@.len() ==> (#[trigger] links@[a])@ != (#[trigger] links@[b])@,
    ensures
        r@.len() == folders@.len(),
        forall|i: int| 0 <= i < r@.len() ==> {
            &&& (#[trigger] r@[i])@.id == folders@[i]@.id
            &&& folder_row(r@[i]@) == folder_row(folders@[i]@)
            &&& tag_set_matches(r@[i]@.tags, link_pairs(links@), r@[i]@.id)
        },
{
    let ghost orig = folders@;
    let mut rest = folders;
    let mut out: Vec<Folder> = Vec::new();
    while rest.len() > 0
        invariant
            forall|a: int, b: int|
                0 <= a < b < links@.len() ==> (#[trigger] links@[a])@ != (#[trigger] links@[b])@,
            out@.len() + rest@.len() == orig.len(),
            rest@ == orig.skip(out@.len() as int),
            forall|i: int| 0 <= i < out@.len() ==> {
                &&& (#[trigger] out@[i])@.id == orig[i]@.id
                &&& folder_row(out@[i]@) == folder_row(orig[i]@)
                &&& tag_set_matches(out@[i]@.tags, link_pairs(links@), out@[i]@.id)
            },
        decreases rest@.len(),
    {
        let mut f = rest.remove(0);
        proof {
            assert(orig.skip(out@.len() as int).drop_first() =~= orig.skip(out@.len() as int + 1));
            assert(f == orig[out@.len() as int]);
        }
        let tags = collect_tags(&f.id, links);
        f.tags = tags;
        out.push(f);
    }
    out
}

/// Returns every note, soft-deleted ones included, most recently updated
/// first, each with its tag set attached; the tag attachment is batched
/// from a single association query.
pub fn load_all_notes(state: &DbConnection) -> (r: Result<Vec<Note>, StoreError>)
    requires
        state.wf(),
    ensures
        !state.ready() ==> (r matches Err(e) && e == StoreError::NotInitialized),
        state.ready() ==> !(r matches Err(StoreError::NotInitialized)),
        !(r matches Err(StoreError::NotFound(_))),
        !(r matches Err(StoreError::GuardedOverwrite(_))),
        r is Ok ==> state.ready(),
        r matches Ok(v) ==> notes_report(v@, state.model()),
        r matches Ok(v) ==> notes_recency_ordered(v@),
{
    let conn = match &state.conn {
        Some(c) => c,
        None => return Err(StoreError::NotInitialized),
    };
    let rows = match query_all_notes(conn) {
        Ok(v) => v,
        Err(e) => return Err(sql_error(e)),
    };
    let links = match query_all_note_links(conn) {
        Ok(v) => v,
        Err(e) => return Err(sql_error(e)),
    };
    let ghost rows0 = rows@;
    let out = attach_note_tags(rows, &links);
    proof {
        crate::data::lemma_links_listed_pairs(links@, crate::db::db_note_tags(*conn));
        assert forall|id: Seq<char>| #[trigger] state.model().notes.dom().contains(id)
            implies exists|i: int| 0 <= i < out@.len() && (#[trigger] out@[i])@.id == id by {
            assert(crate::db::db_notes(*conn).dom().contains(id));
            let i = choose|i: int| 0 <= i < rows0.len() && (#[trigger] rows0[i])@.id == id;
            assert(out@[i]@.id == id);
        }
        assert forall|i: int, j: int| 0 <= i < j < out@.len() implies lex_le(
            (#[trigger] out@[j])@.updated_at,
            (#[trigger] out@[i])@.updated_at,
        ) by {
            assert(note_row(out@[i]@).updated_at == note_row(rows0[i]@).updated_at);
            assert(note_row(out@[j]@).updated_at == note_row(rows0[j]@).updated_at);
        }
        assert(notes_report(out@, state.model()));
        assert(notes_recency_ordered(out@));
    }
    Ok(out)
}

/// Returns every folder, soft-deleted ones included, each with its tag set
/// attached; the tag attachment is batched from a single association
/// query.
pub fn load_all_folders(state: &DbConnection) -> (r: Result<Vec<Folder>, StoreError>)
    requires
        state.wf(),
    ensures
        !state.ready() ==> (r matches Err(e) && e == StoreError::NotInitialized),
        state.ready() ==> !(r matches Err(StoreError::NotInitialized)),
        !(r matches Err(StoreError::NotFound(_))),
        !(r matches Err(StoreError::GuardedOverwrite(_))),
        r is Ok ==> state.ready(),
        r matches Ok(v) ==> folders_report(v@, state.model()),
{
    let conn = match &state.conn {
        Some(c) => c,
        None => return Err(StoreError::NotInitialized),
    };
    let rows = match query_all_folders(conn) {
        Ok(v) => v,
        Err(e) => return Err(sql_error(e)),
    };
    let links = match query_all_folder_links(conn) {
        Ok(v) => v,
        Err(e) => return Err(sql_error(e)),
    };
    let ghost rows0 = rows@;
    let out = attach_folder_tags(rows, &links);
    proof {
        crate::data::lemma_links_listed_pairs(links@, crate::db::db_folder_tags(*conn));
        assert forall|id: Seq<char>| #[trigger] state.model().folders.dom().contains(id)
            implies exists|i: int| 0 <= i < out@.len() && (#[trigger] out@[i])@.id == id by {
            assert(crate::db::db_folders(*conn).dom().contains(id));
            let i = choose|i: int| 0 <= i < rows0.len() && (#[trigger] rows0[i])@.id == id;
            assert(out@[i]@.id == id);
        }
        assert(folders_report(out@, state.model()));
    }
    Ok(out)
}

/// Full-text search: notes whose stored title or content matches the
/// query, soft-deleted ones excluded, best rank first, at most fifty and
/// all of them whenever fewer than fifty match, each with its tag set
/// attached.
pub fn search_notes(query: &str, state: &DbConnection) -> (r: Result<Vec<Note>, StoreError>)
    requires
        state.wf(),
    ensures
        !state.ready() ==> (r matches Err(e) && e == StoreError::NotInitialized),
        state.ready() ==> !(r matches Err(StoreError::NotInitialized)),
        !(r matches Err(StoreError::NotFound(_))),
        !(r matches Err(StoreError::GuardedOverwrite(_))),
        r is Ok ==> state.ready(),
        r matches Ok(v) ==> search_report(v@, query@, state.model()),
        r matches Ok(v) ==> search_complete(v@, query@, state.model().notes),
        r matches Ok(v) ==> search_ranked(v@, query@, state.model().notes),
{
    let conn = match &state.conn {
        Some(c) => c,
        None => return Err(StoreError::NotInitialized),
    };
    let rows = match query_search_notes(conn, query) {
        Ok(v) => v,
        Err(e) => return Err(sql_error(e)),
    };
    let links = match query_all_note_links(conn) {
        Ok(v) => v,
        Err(e) => return Err(sql_error(e)),
    };
    let ghost rows0 = rows@;
    let out = attach_note_tags(rows, &links);
    proof {
        crate::data::lemma_links_listed_pairs(links@, crate::db::db_note_tags(*conn));
        assert forall|i: int| 0 <= i < out@.len() implies {
            &&& state.model().notes.dom().contains((#[trigger] out@[i])@.id)
            &&& note_row(out@[i]@) == state.model().notes[out@[i]@.id]
            &&& out@[i]@.deleted_at is None
            &&& crate::db::fts_matches(query@, out@[i]@.title, out@[i]@.content)
            &&& tag_set_matches(out@[i]@.tags, state.model().note_tags, out@[i]@.id)
        } by {
            assert(note_row(out@[i]@) == note_row(rows0[i]@));
            assert(out@[i]@.deleted_at == note_row(out@[i]@).deleted_at);
            assert(out@[i]@.title == note_row(out@[i]@).title);
            assert(out@[i]@.content == note_row(out@[i]@).content);
        }
        assert(search_report(out@, query@, state.model()));
        if out@.len() < 50 {
            assert forall|id: Seq<char>|
                #[trigger] matching_ids(query@, state.model().notes).contains(id)
                    implies exists|i: int|
                    0 <= i < out@.len() && (#[trigger] out@[i])@.id == id by {
                assert(matching_ids(query@, crate::db::db_notes(*conn)).contains(id));
                let i = choose|i: int| 0 <= i < rows0.len() && (#[trigger] rows0[i])@.id == id;
                assert(out@[i]@.id == id);
            }
        }
        assert(search_complete(out@, query@, state.model().notes));
        assert forall|i: int, j: int| 0 <= i < j < out@.len() implies crate::db::fts_rank(
            query@,
            state.model().notes,
            (#[trigger] out@[i])@.id,
        ) <= crate::db::fts_rank(query@, state.model().notes, (#[trigger] out@[j])@.id) by {
            assert(out@[i]@.id == rows0[i]@.id);
            assert(out@[j]@.id == rows0[j]@.id);
            assert(crate::db::fts_rank(query@, crate::db::db_notes(*conn), rows0[i]@.id)
                <= crate::db::fts_rank(query@, crate::db::db_notes(*conn), rows0[j]@.id));
        }
        assert(search_ranked(out@, query@, state.model().notes));
    }
    Ok(out)
}

/// Loads one note by id together with its associated tag names; a missing
/// id is a not-found error.
pub fn load_note(note_id: &str, state: &DbConnection) -> (r: Result<Note, StoreError>)
    requires
        state.wf(),
    ensures
        !state.ready() ==> (r matches Err(e) && e == StoreError::NotInitialized),
        state.ready() ==> !(r matches Err(StoreError::NotInitialized)),
        !(r matches Err(StoreError::GuardedOverwrite(_))),
        r matches Ok(n) ==> {
            &&& state.ready()
            &&& state.model().notes.dom().contains(note_id@)
            &&& n@.id == note_id@
            &&& note_row(n@) == state.model().notes[note_id@]
            &&& tag_set_matches(n@.tags, state.model().note_tags, note_id@)
        },
        r matches Err(StoreError::NotFound(_)) ==> state.ready()
            && !state.model().notes.dom().contains(note_id@),
        state.ready() && !state.model().notes.dom().contains(note_id@) ==> !(r is Ok),
{
    let conn = match &state.conn {
        Some(c) => c,
        None => return Err(StoreError::NotInitialized),
    };
    let mut note = match query_note_row(conn, note_id) {
        Ok(Some(n)) => n,
        Ok(None) => return Err(StoreError::NotFound(note_id.to_string())),
        Err(e) => return Err(sql_error(e)),
    };
    let tags = match query_note_tags(conn, note_id) {
        Ok(t) => t,
        Err(e) => return Err(sql_error(e)),
    };
    note.tags = tags;
    Ok(note)
}

} // verus!
