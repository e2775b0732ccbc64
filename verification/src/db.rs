//! Trusted boundary to the embedded relational engine.
//!
//! Everything in this module is a thin wrapper around one `rusqlite` call
//! with a contract over the table models of [`crate::model`].  The names
//! `db_notes`, `db_folders`, `db_tags`, `db_note_tags`, `db_folder_tags` and
//! `db_settings` stand for the rows each table holds on a connection;
//! `schema_ready` stands for a connection on which the engine's schema has
//! been installed and foreign-key enforcement switched on — the cascades and
//! full-text triggers that several contracts below lean on exist only then.
//! A failed statement leaves the database unchanged: the engine executes
//! every statement atomically.

use vstd::prelude::*;
use crate::data::{Note, Folder, Tag, TagLink, SettingPair};
use crate::model::{NoteRow, FolderRow, TagRow, SettingRow, StoreModel};
use crate::model::{upsert_note, upsert_folder, upsert_tag, ensure_tag, assocs_without,
    assocs_without_tag};
use crate::data::{note_row, folder_row, tag_row, tag_set_matches, note_rows_listed,
    folder_rows_listed, tag_rows_listed, links_listed, ui_settings_listed, search_rows_listed,
    search_complete, search_ranked, folder_has_children};
use rusqlite::OptionalExtension;

verus! {

#[verifier::external_type_specification]
#[verifier::external_body]
pub struct ExConnection(rusqlite::Connection);

#[verifier::external_type_specification]
#[verifier::external_body]
pub struct ExSqlError(rusqlite::Error);

#[verifier::external_type_specification]
#[verifier::external_body]
pub struct ExRow<'a>(rusqlite::Row<'a>);

/// The rows of the notes table, keyed by note id.
pub uninterp spec fn db_notes(c: rusqlite::Connection) -> Map<Seq<char>, NoteRow>;

/// The rows of the folders table, keyed by folder id.
pub uninterp spec fn db_folders(c: rusqlite::Connection) -> Map<Seq<char>, FolderRow>;

/// The rows of the tags table, keyed by tag name.
pub uninterp spec fn db_tags(c: rusqlite::Connection) -> Map<Seq<char>, TagRow>;

/// The (note id, tag name) rows of the note_tags table.
pub uninterp spec fn db_note_tags(c: rusqlite::Connection) -> Set<(Seq<char>, Seq<char>)>;

/// The (folder id, tag name) rows of the folder_tags table.
pub uninterp spec fn db_folder_tags(c: rusqlite::Connection) -> Set<(Seq<char>, Seq<char>)>;

/// The rows of the settings table, keyed by setting key.
pub uninterp spec fn db_settings(c: rusqlite::Connection) -> Map<Seq<char>, SettingRow>;

/// Whether the connection carries the engine's schema: the six tables with
/// their cascading foreign keys, the indexes, the full-text index with its
/// three synchronization triggers, and foreign-key enforcement switched on.
pub uninterp spec fn schema_ready(c: rusqlite::Connection) -> bool;

/// Whether a full-text query matches a note with the given title and
/// content, under the engine's Unicode word-boundary tokenizer.  The match
/// is a function of these three texts alone.
pub uninterp spec fn fts_matches(pattern: Seq<char>, title: Seq<char>, content: Seq<char>) -> bool;

/// The relevance rank the full-text index assigns a note for a query;
/// smaller is more relevant.  For the engine statically linked here it is
/// a function of the query and the indexed rows, which the notes table
/// determines; ties leave the order between equally ranked notes open.
pub uninterp spec fn fts_rank(pattern: Seq<char>, notes: Map<Seq<char>, NoteRow>, id: Seq<char>) -> int;

/// The logical content of the whole database on a connection.
pub open spec fn store_model(c: rusqlite::Connection) -> StoreModel {
    StoreModel {
        notes: db_notes(c),
        folders: db_folders(c),
        tags: db_tags(c),
        note_tags: db_note_tags(c),
        folder_tags: db_folder_tags(c),
        settings: db_settings(c),
    }
}

/// Relies on rusqlite::Connection::open: opens or creates the database file
/// at the given path.  Nothing is assumed of the contents found there.
/// The storage engine owns its database file exclusively: the contracts of
/// this module read the file as one this engine created and has maintained,
/// not as an arbitrary hand-crafted database.
#[verifier::external_body]
pub(crate) fn open_connection(path: &str) -> (r: Result<rusqlite::Connection, rusqlite::Error>)
{
    rusqlite::Connection::open(path)
}

const SCHEMA_SQL: &'static str = "PRAGMA foreign_keys = ON;
    CREATE TABLE IF NOT EXISTS folders (
        id TEXT PRIMARY KEY, name TEXT NOT NULL, parent_id TEXT,
        description TEXT NOT NULL, description_visible INTEGER NOT NULL,
        color TEXT, emoji TEXT, tags_visible INTEGER NOT NULL,
        is_favorite INTEGER NOT NULL, is_expanded INTEGER NOT NULL,
        created_at TEXT NOT NULL, updated_at TEXT NOT NULL, deleted_at TEXT,
        FOREIGN KEY (parent_id) REFERENCES folders(id)
    );
    CREATE TABLE IF NOT EXISTS notes (
        id TEXT PRIMARY KEY, title TEXT NOT NULL, description TEXT NOT NULL,
        description_visible INTEGER NOT NULL, emoji TEXT, content TEXT NOT NULL,
        tags_visible INTEGER NOT NULL, is_favorite INTEGER NOT NULL,
        folder_id TEXT, daily_note_date TEXT,
        created_at TEXT NOT NULL, updated_at TEXT NOT NULL, deleted_at TEXT
    );
    CREATE TABLE IF NOT EXISTS tags (
        name TEXT PRIMARY KEY, description TEXT NOT NULL,
        description_visible INTEGER NOT NULL, is_favorite INTEGER NOT NULL,
        color TEXT, created_at TEXT NOT NULL, updated_at TEXT NOT NULL, deleted_at TEXT
    );
    CREATE TABLE IF NOT EXISTS note_tags (
        note_id TEXT NOT NULL, tag_name TEXT NOT NULL,
        PRIMARY KEY (note_id, tag_name),
        FOREIGN KEY (note_id) REFERENCES notes(id) ON DELETE CASCADE,
        FOREIGN KEY (tag_name) REFERENCES tags(name) ON DELETE CASCADE
    );
    CREATE TABLE IF NOT EXISTS folder_tags (
        folder_id TEXT NOT NULL, tag_name TEXT NOT NULL,
        PRIMARY KEY (folder_id, tag_name),
        FOREIGN KEY (folder_id) REFERENCES folders(id) ON DELETE CASCADE,
        FOREIGN KEY (tag_name) REFERENCES tags(name) ON DELETE CASCADE
    );
    CREATE TABLE IF NOT EXISTS settings (
        key TEXT PRIMARY KEY, value TEXT NOT NULL, updated_at TEXT NOT NULL
    );
    CREATE INDEX IF NOT EXISTS idx_notes_folder ON notes(folder_id);
    CREATE INDEX IF NOT EXISTS idx_notes_daily_date ON notes(daily_note_date);
    CREATE INDEX IF NOT EXISTS idx_notes_deleted ON notes(deleted_at);
    CREATE INDEX IF NOT EXISTS idx_notes_favorite ON notes(is_favorite);
    CREATE INDEX IF NOT EXISTS idx_notes_updated ON notes(updated_at);
    CREATE INDEX IF NOT EXISTS idx_folders_parent ON folders(parent_id);
    CREATE INDEX IF NOT EXISTS idx_folders_deleted ON folders(deleted_at);
    CREATE INDEX IF NOT EXISTS idx_note_tags_note ON note_tags(note_id);
    CREATE INDEX IF NOT EXISTS idx_note_tags_tag ON note_tags(tag_name);
    CREATE INDEX IF NOT EXISTS idx_folder_tags_folder ON folder_tags(folder_id);
    CREATE INDEX IF NOT EXISTS idx_folder_tags_tag ON folder_tags(tag_name);
    CREATE VIRTUAL TABLE IF NOT EXISTS notes_fts USING fts5(
        note_id UNINDEXED, title, content, tokenize='unicode61'
    );
    CREATE TRIGGER IF NOT EXISTS notes_fts_insert AFTER INSERT ON notes BEGIN
        INSERT INTO notes_fts(note_id, title, content) VALUES (new.id, new.title, new.content);
    END;
    CREATE TRIGGER IF NOT EXISTS notes_fts_update AFTER UPDATE ON notes BEGIN
        UPDATE notes_fts SET title = new.title, content = new.content WHERE note_id = old.id;
    END;
    CREATE TRIGGER IF NOT EXISTS notes_fts_delete AFTER DELETE ON notes BEGIN
        DELETE FROM notes_fts WHERE note_id = old.id;
    END;";

/// Relies on rusqlite::Connection::execute_batch with the schema batch
/// above: turns foreign-key enforcement on and creates, only where absent,
/// the tables, indexes, full-text index and triggers.  No statement in the
/// batch touches existing rows.  On a file this engine created and has
/// maintained (the engine owns its database exclusively), the rows found
/// satisfy the referential integrity the schema has always enforced.
#[verifier::external_body]
pub(crate) fn install_schema(c: &mut rusqlite::Connection) -> (r: Result<(), rusqlite::Error>)
    ensures
        r is Ok ==> schema_ready(*final(c)),
        r is Ok ==> db_notes(*final(c)) == db_notes(*old(c)),
        r is Ok ==> db_folders(*final(c)) == db_folders(*old(c)),
        r is Ok ==> db_tags(*final(c)) == db_tags(*old(c)),
        r is Ok ==> db_note_tags(*final(c)) == db_note_tags(*old(c)),
        r is Ok ==> db_folder_tags(*final(c)) == db_folder_tags(*old(c)),
        r is Ok ==> db_settings(*final(c)) == db_settings(*old(c)),
        r is Ok ==> crate::model::model_wf(store_model(*final(c))),
        r is Err ==> store_model(*final(c)) == store_model(*old(c)),
{
    c.execute_batch(SCHEMA_SQL)
}

/// Relies on rusqlite::Connection::execute with an additive column change:
/// brings a tags table from before the soft-delete column up to date.  The
/// call fails harmlessly when the column already exists; the added column
/// is null, which reads back as the absent timestamp.
#[verifier::external_body]
pub(crate) fn add_tags_deleted_column(c: &mut rusqlite::Connection)
    ensures
        schema_ready(*old(c)) ==> schema_ready(*final(c)),
        store_model(*final(c)) == store_model(*old(c)),
{
    let _ = c.execute("ALTER TABLE tags ADD COLUMN deleted_at TEXT", []);
}

/// Relies on rusqlite::Connection::query_row for the engine's tuning
/// pragmas: write-ahead journal, relaxed-but-safe synchronous mode, and a
/// modest page cache.  Purely performance tuning; failures are ignored and
/// no pragma changes any row.
#[verifier::external_body]
pub(crate) fn apply_tuning_pragmas(c: &mut rusqlite::Connection)
    ensures
        schema_ready(*old(c)) ==> schema_ready(*final(c)),
        store_model(*final(c)) == store_model(*old(c)),
{
    c.query_row("PRAGMA journal_mode = WAL", [], |_| Ok(())).ok();
    c.query_row("PRAGMA synchronous = NORMAL", [], |_| Ok(())).ok();
    c.query_row("PRAGMA cache_size = -8000", [], |_| Ok(())).ok();
}

/// Both the schema predicate and the whole logical content agree between
/// two connection states: how a failed statement leaves the database.
pub open spec fn same_store(a: rusqlite::Connection, b: rusqlite::Connection) -> bool {
    schema_ready(a) == schema_ready(b) && store_model(a) == store_model(b)
}

/// Relies on rusqlite::Connection::query_row with
/// OptionalExtension::optional: the stored content text for an id, read
/// back in full (embedded NUL characters included), or None where no row
/// exists.
#[verifier::external_body]
pub(crate) fn query_note_content(c: &rusqlite::Connection, id: &str) -> (r: Result<
    Option<String>,
    rusqlite::Error,
>)
    ensures
        r matches Ok(v) ==> {
            &&& (v is Some <==> db_notes(*c).dom().contains(id@))
            &&& (v matches Some(s) ==> s@ == db_notes(*c)[id@].content)
        },
{
    c.query_row("SELECT content FROM notes WHERE id = ?1", [id], |row| row.get(0)).optional()
}

/// Relies on rusqlite::Connection::execute with the single-row upsert
/// below: inserts the note row keyed by its id or, on an id conflict,
/// overwrites every column except id and created_at.  The notes table
/// declares no foreign key on folder_id: the engine checks the reference
/// itself before calling here.
#[verifier::external_body]
pub(crate) fn upsert_note_row(c: &mut rusqlite::Connection, n: &Note) -> (r: Result<
    (),
    rusqlite::Error,
>)
    requires
        schema_ready(*old(c)),
    ensures
        schema_ready(*final(c)),
        r is Ok ==> store_model(*final(c)) == (StoreModel {
            notes: upsert_note(db_notes(*old(c)), n@.id, note_row(n@)),
            ..store_model(*old(c))
        }),
        r is Err ==> same_store(*old(c), *final(c)),
{
    let r = c.execute(
        "INSERT INTO notes (id, title, description, description_visible, emoji, content, tags_visible, is_favorite, folder_id, daily_note_date, created_at, updated_at, deleted_at)
         VALUES (?1, ?2, ?3, ?4, ?5, ?6, ?7, ?8, ?9, ?10, ?11, ?12, ?13)
         ON CONFLICT(id) DO UPDATE SET title = excluded.title, description = excluded.description, description_visible = excluded.description_visible, emoji = excluded.emoji, content = excluded.content, tags_visible = excluded.tags_visible, is_favorite = excluded.is_favorite, folder_id = excluded.folder_id, daily_note_date = excluded.daily_note_date, updated_at = excluded.updated_at, deleted_at = excluded.deleted_at",
        (&n.id, &n.title, &n.description, n.description_visible, &n.emoji, &n.content,
         n.tags_visible, n.is_favorite, &n.folder_id, &n.daily_note_date, &n.created_at,
         &n.updated_at, &n.deleted_at),
    );
    match r { Ok(_) => Ok(()), Err(e) => Err(e) }
}

/// Relies on rusqlite::Connection::query_row with
/// OptionalExtension::optional: whether a folder row with the given id
/// exists.
#[verifier::external_body]
pub(crate) fn folder_exists(c: &rusqlite::Connection, id: &str) -> (r: Result<
    bool,
    rusqlite::Error,
>)
    ensures
        r matches Ok(b) ==> (b <==> db_folders(*c).dom().contains(id@)),
{
    let r = c.query_row("SELECT 1 FROM folders WHERE id = ?1", [id], |row| {
        row.get::<_, i64>(0)
    }).optional();
    match r {
        Ok(v) => Ok(v.is_some()),
        Err(e) => Err(e),
    }
}

/// Relies on rusqlite::Connection::execute with the single-row upsert
/// below: inserts the folder row keyed by its id or, on an id conflict,
/// overwrites every column except id and created_at.
#[verifier::external_body]
pub(crate) fn upsert_folder_row(c: &mut rusqlite::Connection, f: &Folder) -> (r: Result<
    (),
    rusqlite::Error,
>)
    requires
        schema_ready(*old(c)),
    ensures
        schema_ready(*final(c)),
        r is Ok ==> store_model(*final(c)) == (StoreModel {
            folders: upsert_folder(db_folders(*old(c)), f@.id, folder_row(f@)),
            ..store_model(*old(c))
        }),
        r is Err ==> same_store(*old(c), *final(c)),
{
    let r = c.execute(
        "INSERT INTO folders (id, name, parent_id, description, description_visible, color, emoji, tags_visible, is_favorite, is_expanded, created_at, updated_at, deleted_at)
         VALUES (?1, ?2, ?3, ?4, ?5, ?6, ?7, ?8, ?9, ?10, ?11, ?12, ?13)
         ON CONFLICT(id) DO UPDATE SET name = excluded.name, parent_id = excluded.parent_id, description = excluded.description, description_visible = excluded.description_visible, color = excluded.color, emoji = excluded.emoji, tags_visible = excluded.tags_visible, is_favorite = excluded.is_favorite, is_expanded = excluded.is_expanded, updated_at = excluded.updated_at, deleted_at = excluded.deleted_at",
        (&f.id, &f.name, &f.parent_id, &f.description, f.description_visible, &f.color,
         &f.emoji, f.tags_visible, f.is_favorite, f.is_expanded, &f.created_at,
         &f.updated_at, &f.deleted_at),
    );
    match r { Ok(_) => Ok(()), Err(e) => Err(e) }
}

/// Relies on rusqlite::Connection::execute with the single-row upsert
/// below: inserts the tag row keyed by its name or, on a name conflict,
/// overwrites every column except name and created_at.
#[verifier::external_body]
pub(crate) fn upsert_tag_row(c: &mut rusqlite::Connection, t: &Tag) -> (r: Result<
    (),
    rusqlite::Error,
>)
    requires
        schema_ready(*old(c)),
    ensures
        schema_ready(*final(c)),
        r is Ok ==> store_model(*final(c)) == (StoreModel {
            tags: upsert_tag(db_tags(*old(c)), t@.name, tag_row(t@)),
            ..store_model(*old(c))
        }),
        r is Err ==> same_store(*old(c), *final(c)),
{
    let r = c.execute(
        "INSERT INTO tags (name, description, description_visible, is_favorite, color, created_at, updated_at, deleted_at)
         VALUES (?1, ?2, ?3, ?4, ?5, ?6, ?7, ?8)
         ON CONFLICT(name) DO UPDATE SET description = excluded.description, description_visible = excluded.description_visible, is_favorite = excluded.is_favorite, color = excluded.color, updated_at = excluded.updated_at, deleted_at = excluded.deleted_at",
        (&t.name, &t.description, t.description_visible, t.is_favorite, &t.color,
         &t.created_at, &t.updated_at, &t.deleted_at),
    );
    match r { Ok(_) => Ok(()), Err(e) => Err(e) }
}

/// Relies on rusqlite::Connection::execute with an insert that does nothing
/// on a name conflict: creates the tag with its default metadata only where
/// the name is new, never touching an existing tag's metadata.
#[verifier::external_body]
pub(crate) fn ensure_tag_row(c: &mut rusqlite::Connection, name: &str, ts: &str) -> (r: Result<
    (),
    rusqlite::Error,
>)
    requires
        schema_ready(*old(c)),
    ensures
        schema_ready(*final(c)),
        r is Ok ==> store_model(*final(c)) == (StoreModel {
            tags: ensure_tag(db_tags(*old(c)), name@, ts@),
            ..store_model(*old(c))
        }),
        r is Err ==> same_store(*old(c), *final(c)),
{
    let r = c.execute(
        "INSERT INTO tags (name, description, description_visible, is_favorite, color, created_at, updated_at)
         VALUES (?1, '', 1, 0, NULL, ?2, ?2) ON CONFLICT(name) DO NOTHING",
        (name, ts),
    );
    match r { Ok(_) => Ok(()), Err(e) => Err(e) }
}

/// Relies on rusqlite::Connection::execute deleting every association row
/// owned by one note id.
#[verifier::external_body]
pub(crate) fn clear_note_assocs(c: &mut rusqlite::Connection, id: &str) -> (r: Result<
    (),
    rusqlite::Error,
>)
    requires
        schema_ready(*old(c)),
    ensures
        schema_ready(*final(c)),
        r is Ok ==> store_model(*final(c)) == (StoreModel {
            note_tags: assocs_without(db_note_tags(*old(c)), id@),
            ..store_model(*old(c))
        }),
        r is Err ==> same_store(*old(c), *final(c)),
{
    let r = c.execute("DELETE FROM note_tags WHERE note_id = ?1", [id]);
    match r { Ok(_) => Ok(()), Err(e) => Err(e) }
}

/// Relies on rusqlite::Connection::execute inserting one association row;
/// fails on a duplicate pair or an unknown note or tag, changing nothing.
#[verifier::external_body]
pub(crate) fn insert_note_assoc(c: &mut rusqlite::Connection, id: &str, tag: &str) -> (r: Result<
    (),
    rusqlite::Error,
>)
    requires
        schema_ready(*old(c)),
    ensures
        schema_ready(*final(c)),
        r is Ok ==> store_model(*final(c)) == (StoreModel {
            note_tags: db_note_tags(*old(c)).insert((id@, tag@)),
            ..store_model(*old(c))
        }),
        r is Err ==> same_store(*old(c), *final(c)),
{
    let r = c.execute("INSERT INTO note_tags (note_id, tag_name) VALUES (?1, ?2)", (id, tag));
    match r { Ok(_) => Ok(()), Err(e) => Err(e) }
}

/// Relies on rusqlite::Connection::execute deleting every association row
/// owned by one folder id.
#[verifier::external_body]
pub(crate) fn clear_folder_assocs(c: &mut rusqlite::Connection, id: &str) -> (r: Result<
    (),
    rusqlite::Error,
>)
    requires
        schema_ready(*old(c)),
    ensures
        schema_ready(*final(c)),
        r is Ok ==> store_model(*final(c)) == (StoreModel {
            folder_tags: assocs_without(db_folder_tags(*old(c)), id@),
            ..store_model(*old(c))
        }),
        r is Err ==> same_store(*old(c), *final(c)),
{
    let r = c.execute("DELETE FROM folder_tags WHERE folder_id = ?1", [id]);
    match r { Ok(_) => Ok(()), Err(e) => Err(e) }
}

/// Relies on rusqlite::Connection::execute inserting one association row;
/// fails on a duplicate pair or an unknown folder or tag, changing nothing.
#[verifier::external_body]
pub(crate) fn insert_folder_assoc(c: &mut rusqlite::Connection, id: &str, tag: &str) -> (r: Result<
    (),
    rusqlite::Error,
>)
    requires
        schema_ready(*old(c)),
    ensures
        schema_ready(*final(c)),
        r is Ok ==> store_model(*final(c)) == (StoreModel {
            folder_tags: db_folder_tags(*old(c)).insert((id@, tag@)),
            ..store_model(*old(c))
        }),
        r is Err ==> same_store(*old(c), *final(c)),
{
    let r = c.execute("INSERT INTO folder_tags (folder_id, tag_name) VALUES (?1, ?2)", (id, tag));
    match r { Ok(_) => Ok(()), Err(e) => Err(e) }
}

/// Relies on rusqlite::Connection::execute deleting one note row; the
/// cascade on note_tags removes the note's association rows with it.
#[verifier::external_body]
pub(crate) fn delete_note_row(c: &mut rusqlite::Connection, id: &str) -> (r: Result<
    (),
    rusqlite::Error,
>)
    requires
        schema_ready(*old(c)),
    ensures
        schema_ready(*final(c)),
        r is Ok ==> store_model(*final(c)) == (StoreModel {
            notes: db_notes(*old(c)).remove(id@),
            note_tags: assocs_without(db_note_tags(*old(c)), id@),
            ..store_model(*old(c))
        }),
        r is Err ==> same_store(*old(c), *final(c)),
{
    let r = c.execute("DELETE FROM notes WHERE id = ?1", [id]);
    match r { Ok(_) => Ok(()), Err(e) => Err(e) }
}

/// Relies on rusqlite::Connection::execute deleting one folder row; the
/// cascade on folder_tags removes the folder's association rows with it.
/// The self-referential parent foreign key, declared with no delete
/// action, makes the statement fail while a child folder still references
/// the folder; notes do not block it, as the notes table declares no
/// foreign key, and any folder reference they carry is left dangling.
#[verifier::external_body]
pub(crate) fn delete_folder_row(c: &mut rusqlite::Connection, id: &str) -> (r: Result<
    (),
    rusqlite::Error,
>)
    requires
        schema_ready(*old(c)),
    ensures
        schema_ready(*final(c)),
        r is Ok ==> store_model(*final(c)) == (StoreModel {
            folders: db_folders(*old(c)).remove(id@),
            folder_tags: assocs_without(db_folder_tags(*old(c)), id@),
            ..store_model(*old(c))
        }),
        folder_has_children(db_folders(*old(c)), id@) ==> r is Err,
        r is Err ==> same_store(*old(c), *final(c)),
{
    let r = c.execute("DELETE FROM folders WHERE id = ?1", [id]);
    match r { Ok(_) => Ok(()), Err(e) => Err(e) }
}

/// Relies on rusqlite::Connection::execute deleting one tag row; the
/// cascades on note_tags and folder_tags remove every association row
/// naming the tag, in both tables, leaving notes and folders themselves.
#[verifier::external_body]
pub(crate) fn delete_tag_row(c: &mut rusqlite::Connection, name: &str) -> (r: Result<
    (),
    rusqlite::Error,
>)
    requires
        schema_ready(*old(c)),
    ensures
        schema_ready(*final(c)),
        r is Ok ==> store_model(*final(c)) == (StoreModel {
            tags: db_tags(*old(c)).remove(name@),
            note_tags: assocs_without_tag(db_note_tags(*old(c)), name@),
            folder_tags: assocs_without_tag(db_folder_tags(*old(c)), name@),
            ..store_model(*old(c))
        }),
        r is Err ==> same_store(*old(c), *final(c)),
{
    let r = c.execute("DELETE FROM tags WHERE name = ?1", [name]);
    match r { Ok(_) => Ok(()), Err(e) => Err(e) }
}

/// Relies on rusqlite::Connection::execute with the single-row upsert
/// below: binds the key to the value and the given timestamp, overwriting
/// any previous binding.
#[verifier::external_body]
pub(crate) fn upsert_setting(c: &mut rusqlite::Connection, key: &str, value: &str, ts: &str) -> (r:
    Result<(), rusqlite::Error>)
    requires
        schema_ready(*old(c)),
    ensures
        schema_ready(*final(c)),
        r is Ok ==> store_model(*final(c)) == (StoreModel {
            settings: db_settings(*old(c)).insert(key@, SettingRow { value: value@, updated_at: ts@ }),
            ..store_model(*old(c))
        }),
        r is Err ==> same_store(*old(c), *final(c)),
{
    let r = c.execute(
        "INSERT INTO settings (key, value, updated_at) VALUES (?1, ?2, ?3)
         ON CONFLICT(key) DO UPDATE SET value = excluded.value, updated_at = excluded.updated_at",
        (key, value, ts),
    );
    match r { Ok(_) => Ok(()), Err(e) => Err(e) }
}

/// Relies on rusqlite::Connection::query_row with
/// OptionalExtension::optional: the stored value, or None where the key is
/// unset.
#[verifier::external_body]
pub(crate) fn query_setting(c: &rusqlite::Connection, key: &str) -> (r: Result<
    Option<String>,
    rusqlite::Error,
>)
    ensures
        r matches Ok(v) ==> {
            &&& (v is Some <==> db_settings(*c).dom().contains(key@))
            &&& (v matches Some(s) ==> s@ == db_settings(*c)[key@].value)
        },
{
    c.query_row("SELECT value FROM settings WHERE key = ?1", [key], |row| row.get(0)).optional()
}

/// Relies on rusqlite::Connection::prepare and Statement::query_map over a
/// LIKE filter: every setting whose key starts, case-insensitively over
/// ASCII, with the reserved `ui.` prefix, each key once.
#[verifier::external_body]
pub(crate) fn query_ui_settings(c: &rusqlite::Connection) -> (r: Result<
    Vec<SettingPair>,
    rusqlite::Error,
>)
    ensures
        r matches Ok(v) ==> ui_settings_listed(v@, db_settings(*c)),
{
    let mut stmt = match c.prepare("SELECT key, value FROM settings WHERE key LIKE 'ui.%'") {
        Ok(s) => s,
        Err(e) => return Err(e),
    };
    let rows = match stmt.query_map([], |row| {
        Ok(SettingPair { key: row.get(0)?, value: row.get(1)? })
    }) {
        Ok(r) => r,
        Err(e) => return Err(e),
    };
    rows.collect()
}


/// Relies on rusqlite::Row::get for each column of the note row select
/// order used throughout this module; the tag list starts empty.
#[verifier::external_body]
fn note_from_row(row: &rusqlite::Row<'_>) -> (r: Result<Note, rusqlite::Error>)
{
    Ok(Note {
        id: row.get(0)?, title: row.get(1)?, description: row.get(2)?,
        description_visible: row.get(3)?, emoji: row.get(4)?, content: row.get(5)?,
        tags: Vec::new(), tags_visible: row.get(6)?, is_favorite: row.get(7)?,
        folder_id: row.get(8)?, daily_note_date: row.get(9)?, created_at: row.get(10)?,
        updated_at: row.get(11)?, deleted_at: row.get(12)?,
    })
}

/// Relies on rusqlite::Row::get for each column of the folder row select
/// order used throughout this module; the tag list starts empty.
#[verifier::external_body]
fn folder_from_row(row: &rusqlite::Row<'_>) -> (r: Result<Folder, rusqlite::Error>)
{
    Ok(Folder {
        id: row.get(0)?, name: row.get(1)?, parent_id: row.get(2)?, description: row.get(3)?,
        description_visible: row.get(4)?, color: row.get(5)?, emoji: row.get(6)?,
        tags: Vec::new(), tags_visible: row.get(7)?, is_favorite: row.get(8)?,
        is_expanded: row.get(9)?, created_at: row.get(10)?, updated_at: row.get(11)?,
        deleted_at: row.get(12)?,
    })
}

/// Relies on rusqlite::Row::get for each column of the tag row select
/// order used throughout this module.
#[verifier::external_body]
fn tag_from_row(row: &rusqlite::Row<'_>) -> (r: Result<Tag, rusqlite::Error>)
{
    Ok(Tag {
        name: row.get(0)?, description: row.get(1)?, description_visible: row.get(2)?,
        is_favorite: row.get(3)?, color: row.get(4)?, created_at: row.get(5)?,
        updated_at: row.get(6)?, deleted_at: row.get(7)?,
    })
}

/// Relies on rusqlite::Connection::query_row with
/// OptionalExtension::optional: the stored note row for an id, its tag list
/// left empty for the caller to attach, or None where no row exists.
#[verifier::external_body]
pub(crate) fn query_note_row(c: &rusqlite::Connection, id: &str) -> (r: Result<
    Option<Note>,
    rusqlite::Error,
>)
    ensures
        r matches Ok(v) ==> {
            &&& (v is Some <==> db_notes(*c).dom().contains(id@))
            &&& (v matches Some(n) ==> n@.id == id@ && note_row(n@) == db_notes(*c)[id@]
                && n@.tags == Seq::<Seq<char>>::empty())
        },
{
    c.query_row(
        "SELECT id, title, description, description_visible, emoji, content, tags_visible, is_favorite, folder_id, daily_note_date, created_at, updated_at, deleted_at FROM notes WHERE id = ?1",
        [id],
        |row| note_from_row(row),
    ).optional()
}

/// Relies on rusqlite::Connection::prepare and Statement::query_map: the
/// tag names associated with one note id, each once, in no stated order.
#[verifier::external_body]
pub(crate) fn query_note_tags(c: &rusqlite::Connection, id: &str) -> (r: Result<
    Vec<String>,
    rusqlite::Error,
>)
    ensures
        r matches Ok(v) ==> tag_set_matches(v.deep_view(), db_note_tags(*c), id@),
{
    let mut stmt = match c.prepare("SELECT tag_name FROM note_tags WHERE note_id = ?1") {
        Ok(s) => s,
        Err(e) => return Err(e),
    };
    let rows = match stmt.query_map([id], |row| row.get(0)) {
        Ok(r) => r,
        Err(e) => return Err(e),
    };
    rows.collect()
}

/// Relies on rusqlite::Connection::prepare and Statement::query_map: every
/// note row, soft-deleted ones included, each id once, most recently
/// updated first (the engine compares the timestamp text bytewise, which
/// for its UTF-8 values is the code-point order of `lex_le`); tag lists are
/// left empty for the caller to attach.
#[verifier::external_body]
pub(crate) fn query_all_notes(c: &rusqlite::Connection) -> (r: Result<Vec<Note>, rusqlite::Error>)
    ensures
        r matches Ok(v) ==> note_rows_listed(v@, db_notes(*c)),
        r matches Ok(v) ==> crate::data::notes_recency_ordered(v@),
{
    let mut stmt = match c.prepare(
        "SELECT id, title, description, description_visible, emoji, content, tags_visible, is_favorite, folder_id, daily_note_date, created_at, updated_at, deleted_at FROM notes ORDER BY updated_at DESC",
    ) {
        Ok(s) => s,
        Err(e) => return Err(e),
    };
    let rows = match stmt.query_map([], |row| note_from_row(row)) {
        Ok(r) => r,
        Err(e) => return Err(e),
    };
    rows.collect()
}

/// Relies on rusqlite::Connection::prepare and Statement::query_map: every
/// (note id, tag name) association row, each pair once.
#[verifier::external_body]
pub(crate) fn query_all_note_links(c: &rusqlite::Connection) -> (r: Result<
    Vec<TagLink>,
    rusqlite::Error,
>)
    ensures
        r matches Ok(v) ==> links_listed(v@, db_note_tags(*c)),
{
    let mut stmt = match c.prepare("SELECT note_id, tag_name FROM note_tags") {
        Ok(s) => s,
        Err(e) => return Err(e),
    };
    let rows = match stmt.query_map([], |row| {
        Ok(TagLink { id: row.get(0)?, tag: row.get(1)? })
    }) {
        Ok(r) => r,
        Err(e) => return Err(e),
    };
    rows.collect()
}

/// Relies on rusqlite::Connection::prepare and Statement::query_map over
/// the full-text index: notes whose indexed title or content matches the
/// query, soft-deleted notes excluded, each id once, at most fifty, best
/// rank first, and all of them whenever fewer than fifty match; tag lists
/// are left empty for the caller to attach.  The index mirrors the notes
/// table through the schema's triggers.
#[verifier::external_body]
pub(crate) fn query_search_notes(c: &rusqlite::Connection, pattern: &str) -> (r: Result<
    Vec<Note>,
    rusqlite::Error,
>)
    requires
        schema_ready(*c),
    ensures
        r matches Ok(v) ==> search_rows_listed(v@, pattern@, db_notes(*c)),
        r matches Ok(v) ==> forall|i: int|
            0 <= i < v@.len() ==> fts_matches(pattern@, (#[trigger] v@[i])@.title, v@[i]@.content),
        r matches Ok(v) ==> search_complete(v@, pattern@, db_notes(*c)),
        r matches Ok(v) ==> search_ranked(v@, pattern@, db_notes(*c)),
        r matches Ok(v) ==> forall|i: int, j: int|
            0 <= i < j < v@.len() ==> fts_rank(pattern@, db_notes(*c), (#[trigger] v@[i])@.id)
                <= fts_rank(pattern@, db_notes(*c), (#[trigger] v@[j])@.id),
{
    let mut stmt = match c.prepare(
        "SELECT notes.id, notes.title, notes.description, notes.description_visible, notes.emoji, notes.content, notes.tags_visible, notes.is_favorite, notes.folder_id, notes.daily_note_date, notes.created_at, notes.updated_at, notes.deleted_at
         FROM notes JOIN notes_fts ON notes.id = notes_fts.note_id
         WHERE notes_fts MATCH ?1 AND notes.deleted_at IS NULL ORDER BY rank LIMIT 50",
    ) {
        Ok(s) => s,
        Err(e) => return Err(e),
    };
    let rows = match stmt.query_map([pattern], |row| note_from_row(row)) {
        Ok(r) => r,
        Err(e) => return Err(e),
    };
    rows.collect()
}

/// Relies on rusqlite::Connection::prepare and Statement::query_map: every
/// folder row, soft-deleted ones included, each id once; tag lists are left
/// empty for the caller to attach.
#[verifier::external_body]
pub(crate) fn query_all_folders(c: &rusqlite::Connection) -> (r: Result<
    Vec<Folder>,
    rusqlite::Error,
>)
    ensures
        r matches Ok(v) ==> folder_rows_listed(v@, db_folders(*c)),
{
    let mut stmt = match c.prepare(
        "SELECT id, name, parent_id, description, description_visible, color, emoji, tags_visible, is_favorite, is_expanded, created_at, updated_at, deleted_at FROM folders",
    ) {
        Ok(s) => s,
        Err(e) => return Err(e),
    };
    let rows = match stmt.query_map([], |row| folder_from_row(row)) {
        Ok(r) => r,
        Err(e) => return Err(e),
    };
    rows.collect()
}

/// Relies on rusqlite::Connection::prepare and Statement::query_map: every
/// (folder id, tag name) association row, each pair once.
#[verifier::external_body]
pub(crate) fn query_all_folder_links(c: &rusqlite::Connection) -> (r: Result<
    Vec<TagLink>,
    rusqlite::Error,
>)
    ensures
        r matches Ok(v) ==> links_listed(v@, db_folder_tags(*c)),
{
    let mut stmt = match c.prepare("SELECT folder_id, tag_name FROM folder_tags") {
        Ok(s) => s,
        Err(e) => return Err(e),
    };
    let rows = match stmt.query_map([], |row| {
        Ok(TagLink { id: row.get(0)?, tag: row.get(1)? })
    }) {
        Ok(r) => r,
        Err(e) => return Err(e),
    };
    rows.collect()
}

/// Relies on rusqlite::Connection::prepare and Statement::query_map: every
/// tag row, soft-deleted ones included, each name once.
#[verifier::external_body]
pub(crate) fn query_all_tags(c: &rusqlite::Connection) -> (r: Result<Vec<Tag>, rusqlite::Error>)
    ensures
        r matches Ok(v) ==> tag_rows_listed(v@, db_tags(*c)),
{
    let mut stmt = match c.prepare(
        "SELECT name, description, description_visible, is_favorite, color, created_at, updated_at, deleted_at FROM tags",
    ) {
        Ok(s) => s,
        Err(e) => return Err(e),
    };
    let rows = match stmt.query_map([], |row| tag_from_row(row)) {
        Ok(r) => r,
        Err(e) => return Err(e),
    };
    rows.collect()
}

/// Relies on rusqlite::Connection::query_row with a passive write-ahead-log
/// checkpoint: a best-effort flush that never changes the logical content.
#[verifier::external_body]
pub(crate) fn checkpoint_wal(c: &rusqlite::Connection)
{
    c.query_row("PRAGMA wal_checkpoint(PASSIVE)", [], |_| Ok(())).ok();
}

/// Relies on chrono::Utc::now and its ISO-8601 rendering for the timestamp
/// attached to UI-state writes.  Nothing is assumed of the clock's value.
#[verifier::external_body]
pub(crate) fn now_rfc3339() -> (r: String)
{
    chrono::Utc::now().to_rfc3339()
}

/// Relies on rusqlite::Error's message rendering.
#[verifier::external_body]
pub(crate) fn error_text(e: &rusqlite::Error) -> (r: String)
{
    e.to_string()
}

/// Relies on rusqlite::Error exposing the engine's error code: tells a
/// constraint breach apart from every other failure.
#[verifier::external_body]
pub(crate) fn is_constraint_error(e: &rusqlite::Error) -> (r: bool)
{
    match e {
        rusqlite::Error::SqliteFailure(f, _) => f.code == rusqlite::ErrorCode::ConstraintViolation,
        _ => false,
    }
}

} // verus!
