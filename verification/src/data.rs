//! Entity types exchanged with the caller, their views, and the engine's
//! error taxonomy.

use vstd::prelude::*;
use crate::model::{
    assocs_without, assocs_without_tag, ensure_tags, lex_le, model_wf, replace_assocs,
    ui_prefixed, upsert_folder, upsert_note, upsert_tag, FolderRow, NoteRow, SettingRow,
    StoreModel, TagRow,
};

verus! {

/// A note as exchanged with the caller: one row of the notes table together
/// with the names of its associated tags.
#[derive(Debug, Clone, PartialEq)]
pub struct Note {
    pub id: String,
    pub title: String,
    pub description: String,
    pub description_visible: bool,
    pub emoji: Option<String>,
    pub content: String,
    pub tags: Vec<String>,
    pub tags_visible: bool,
    pub is_favorite: bool,
    pub folder_id: Option<String>,
    pub daily_note_date: Option<String>,
    pub created_at: String,
    pub updated_at: String,
    pub deleted_at: Option<String>,
}

/// A folder as exchanged with the caller.
#[derive(Debug, Clone, PartialEq)]
pub struct Folder {
    pub id: String,
    pub name: String,
    pub parent_id: Option<String>,
    pub description: String,
    pub description_visible: bool,
    pub color: Option<String>,
    pub emoji: Option<String>,
    pub tags: Vec<String>,
    pub tags_visible: bool,
    pub is_favorite: bool,
    pub is_expanded: bool,
    pub created_at: String,
    pub updated_at: String,
    pub deleted_at: Option<String>,
}

/// Tag metadata as exchanged with the caller; the name is the primary key.
#[derive(Debug, Clone, PartialEq)]
pub struct Tag {
    pub name: String,
    pub description: String,
    pub description_visible: bool,
    pub is_favorite: bool,
    pub color: Option<String>,
    pub created_at: String,
    pub updated_at: String,
    pub deleted_at: Option<String>,
}

/// One (owner id, tag name) association row.
#[derive(Debug, Clone, PartialEq)]
pub struct TagLink {
    pub id: String,
    pub tag: String,
}

/// One (key, value) row of the settings table.
#[derive(Debug, Clone, PartialEq)]
pub struct SettingPair {
    pub key: String,
    pub value: String,
}

/// Mathematical image of a [`Note`].
pub ghost struct NoteView {
    pub id: Seq<char>,
    pub title: Seq<char>,
    pub description: Seq<char>,
    pub description_visible: bool,
    pub emoji: Option<Seq<char>>,
    pub content: Seq<char>,
    pub tags: Seq<Seq<char>>,
    pub tags_visible: bool,
    pub is_favorite: bool,
    pub folder_id: Option<Seq<char>>,
    pub daily_note_date: Option<Seq<char>>,
    pub created_at: Seq<char>,
    pub updated_at: Seq<char>,
    pub deleted_at: Option<Seq<char>>,
}

/// Mathematical image of a [`Folder`].
pub ghost struct FolderView {
    pub id: Seq<char>,
    pub name: Seq<char>,
    pub parent_id: Option<Seq<char>>,
    pub description: Seq<char>,
    pub description_visible: bool,
    pub color: Option<Seq<char>>,
    pub emoji: Option<Seq<char>>,
    pub tags: Seq<Seq<char>>,
    pub tags_visible: bool,
    pub is_favorite: bool,
    pub is_expanded: bool,
    pub created_at: Seq<char>,
    pub updated_at: Seq<char>,
    pub deleted_at: Option<Seq<char>>,
}

/// Mathematical image of a [`Tag`].
pub ghost struct TagView {
    pub name: Seq<char>,
    pub description: Seq<char>,
    pub description_visible: bool,
    pub is_favorite: bool,
    pub color: Option<Seq<char>>,
    pub created_at: Seq<char>,
    pub updated_at: Seq<char>,
    pub deleted_at: Option<Seq<char>>,
}

impl View for Note {
    type V = NoteView;

    open spec fn view(&self) -> NoteView {
        NoteView {
            id: self.id@,
            title: self.title@,
            description: self.description@,
            description_visible: self.description_visible,
            emoji: self.emoji.deep_view(),
            content: self.content@,
            tags: self.tags.deep_view(),
            tags_visible: self.tags_visible,
            is_favorite: self.is_favorite,
            folder_id: self.folder_id.deep_view(),
            daily_note_date: self.daily_note_date.deep_view(),
            created_at: self.created_at@,
            updated_at: self.updated_at@,
            deleted_at: self.deleted_at.deep_view(),
        }
    }
}

impl View for Folder {
    type V = FolderView;

    open spec fn view(&self) -> FolderView {
        FolderView {
            id: self.id@,
            name: self.name@,
            parent_id: self.parent_id.deep_view(),
            description: self.description@,
            description_visible: self.description_visible,
            color: self.color.deep_view(),
            emoji: self.emoji.deep_view(),
            tags: self.tags.deep_view(),
            tags_visible: self.tags_visible,
            is_favorite: self.is_favorite,
            is_expanded: self.is_expanded,
            created_at: self.created_at@,
            updated_at: self.updated_at@,
            deleted_at: self.deleted_at.deep_view(),
        }
    }
}

impl View for Tag {
    type V = TagView;

    open spec fn view(&self) -> TagView {
        TagView {
            name: self.name@,
            description: self.description@,
            description_visible: self.description_visible,
            is_favorite: self.is_favorite,
            color: self.color.deep_view(),
            created_at: self.created_at@,
            updated_at: self.updated_at@,
            deleted_at: self.deleted_at.deep_view(),
        }
    }
}

impl View for TagLink {
    type V = (Seq<char>, Seq<char>);

    open spec fn view(&self) -> (Seq<char>, Seq<char>) {
        (self.id@, self.tag@)
    }
}

impl View for SettingPair {
    type V = (Seq<char>, Seq<char>);

    open spec fn view(&self) -> (Seq<char>, Seq<char>) {
        (self.key@, self.value@)
    }
}

/// The notes-table row described by a note value.
pub open spec fn note_row(n: NoteView) -> NoteRow {
    NoteRow {
        title: n.title,
        description: n.description,
        description_visible: n.description_visible,
        emoji: n.emoji,
        content: n.content,
        tags_visible: n.tags_visible,
        is_favorite: n.is_favorite,
        folder_id: n.folder_id,
        daily_note_date: n.daily_note_date,
        created_at: n.created_at,
        updated_at: n.updated_at,
        deleted_at: n.deleted_at,
    }
}

/// The folders-table row described by a folder value.
pub open spec fn folder_row(f: FolderView) -> FolderRow {
    FolderRow {
        name: f.name,
        parent_id: f.parent_id,
        description: f.description,
        description_visible: f.description_visible,
        color: f.color,
        emoji: f.emoji,
        tags_visible: f.tags_visible,
        is_favorite: f.is_favorite,
        is_expanded: f.is_expanded,
        created_at: f.created_at,
        updated_at: f.updated_at,
        deleted_at: f.deleted_at,
    }
}

/// The tags-table row described by a tag value.
pub open spec fn tag_row(t: TagView) -> TagRow {
    TagRow {
        description: t.description,
        description_visible: t.description_visible,
        is_favorite: t.is_favorite,
        color: t.color,
        created_at: t.created_at,
        updated_at: t.updated_at,
        deleted_at: t.deleted_at,
    }
}

/// Saving a note: upsert its row, create its tags where absent, and replace
/// its association rows; folders and settings are untouched.
pub open spec fn note_saved(m: StoreModel, n: NoteView) -> StoreModel {
    StoreModel {
        notes: upsert_note(m.notes, n.id, note_row(n)),
        tags: ensure_tags(m.tags, n.tags, n.updated_at),
        note_tags: replace_assocs(m.note_tags, n.id, n.tags),
        ..m
    }
}

/// Saving a folder: upsert its row, create its tags where absent, and
/// replace its association rows; notes and settings are untouched.
pub open spec fn folder_saved(m: StoreModel, f: FolderView) -> StoreModel {
    StoreModel {
        folders: upsert_folder(m.folders, f.id, folder_row(f)),
        tags: ensure_tags(m.tags, f.tags, f.updated_at),
        folder_tags: replace_assocs(m.folder_tags, f.id, f.tags),
        ..m
    }
}

/// Saving tag metadata: upsert the tag row alone.
pub open spec fn tag_saved(m: StoreModel, t: TagView) -> StoreModel {
    StoreModel { tags: upsert_tag(m.tags, t.name, tag_row(t)), ..m }
}

/// Permanent note deletion: the row goes and its association rows cascade.
pub open spec fn note_deleted(m: StoreModel, id: Seq<char>) -> StoreModel {
    StoreModel {
        notes: m.notes.remove(id),
        note_tags: assocs_without(m.note_tags, id),
        ..m
    }
}

/// Permanent folder deletion: the row goes and its association rows cascade.
pub open spec fn folder_deleted(m: StoreModel, id: Seq<char>) -> StoreModel {
    StoreModel {
        folders: m.folders.remove(id),
        folder_tags: assocs_without(m.folder_tags, id),
        ..m
    }
}

/// Tag deletion: the tag row goes and every association row naming it, in
/// both association tables, cascades; notes and folders themselves stay.
pub open spec fn tag_deleted(m: StoreModel, name: Seq<char>) -> StoreModel {
    StoreModel {
        tags: m.tags.remove(name),
        note_tags: assocs_without_tag(m.note_tags, name),
        folder_tags: assocs_without_tag(m.folder_tags, name),
        ..m
    }
}

/// UI-state write: the key is bound to the value with a fresh timestamp.
pub open spec fn setting_saved(m: StoreModel, key: Seq<char>, value: Seq<char>, ts: Seq<char>) -> StoreModel {
    StoreModel {
        settings: m.settings.insert(key, SettingRow { value, updated_at: ts }),
        ..m
    }
}

/// The tag list carries, without repetition, exactly the tag names that the
/// association set pairs with `id`.
pub open spec fn tag_set_matches(tags: Seq<Seq<char>>, assocs: Set<(Seq<char>, Seq<char>)>, id: Seq<char>) -> bool {
    &&& (forall|t: Seq<char>| #[trigger] tags.contains(t) ==> assocs.contains((id, t)))
    &&& (forall|t: Seq<char>| #[trigger] assocs.contains((id, t)) ==> tags.contains(t))
    &&& (forall|i: int, j: int| 0 <= i < j < tags.len() ==> tags[i] != tags[j])
}

/// The listing holds exactly the note rows of the map, each id once, with
/// every tag list still empty (the form the row queries return).
pub open spec fn note_rows_listed(v: Seq<Note>, notes: Map<Seq<char>, NoteRow>) -> bool {
    &&& (forall|i: int| 0 <= i < v.len() ==> {
        &&& notes.dom().contains((#[trigger] v[i])@.id)
        &&& note_row(v[i]@) == notes[v[i]@.id]
        &&& v[i]@.tags == Seq::<Seq<char>>::empty()
    })
    &&& (forall|id: Seq<char>| #[trigger] notes.dom().contains(id) ==> exists|i: int|
        0 <= i < v.len() && (#[trigger] v[i])@.id == id)
    &&& (forall|i: int, j: int| 0 <= i < j < v.len() ==> (#[trigger] v[i])@.id != (#[trigger] v[j])@.id)
}

/// The listing holds exactly the note rows of the store, each id once, with
/// its tag set attached.
pub open spec fn notes_report(v: Seq<Note>, m: StoreModel) -> bool {
    &&& (forall|i: int| 0 <= i < v.len() ==> {
        &&& m.notes.dom().contains((#[trigger] v[i])@.id)
        &&& note_row(v[i]@) == m.notes[v[i]@.id]
        &&& tag_set_matches(v[i]@.tags, m.note_tags, v[i]@.id)
    })
    &&& (forall|id: Seq<char>| #[trigger] m.notes.dom().contains(id) ==> exists|i: int|
        0 <= i < v.len() && (#[trigger] v[i])@.id == id)
    &&& (forall|i: int, j: int| 0 <= i < j < v.len() ==> (#[trigger] v[i])@.id != (#[trigger] v[j])@.id)
}

/// Most recently updated first: the timestamps never grow along the
/// listing, in the engine's bytewise text order.
pub open spec fn notes_recency_ordered(v: Seq<Note>) -> bool {
    forall|i: int, j: int|
        0 <= i < j < v.len() ==> lex_le((#[trigger] v[j])@.updated_at, (#[trigger] v[i])@.updated_at)
}

/// The listing holds exactly the folder rows of the map, each id once, with
/// every tag list still empty (the form the row queries return).
pub open spec fn folder_rows_listed(v: Seq<Folder>, folders: Map<Seq<char>, FolderRow>) -> bool {
    &&& (forall|i: int| 0 <= i < v.len() ==> {
        &&& folders.dom().contains((#[trigger] v[i])@.id)
        &&& folder_row(v[i]@) == folders[v[i]@.id]
        &&& v[i]@.tags == Seq::<Seq<char>>::empty()
    })
    &&& (forall|id: Seq<char>| #[trigger] folders.dom().contains(id) ==> exists|i: int|
        0 <= i < v.len() && (#[trigger] v[i])@.id == id)
    &&& (forall|i: int, j: int| 0 <= i < j < v.len() ==> (#[trigger] v[i])@.id != (#[trigger] v[j])@.id)
}

/// The listing holds exactly the folder rows of the store, each id once,
/// with its tag set attached.
pub open spec fn folders_report(v: Seq<Folder>, m: StoreModel) -> bool {
    &&& (forall|i: int| 0 <= i < v.len() ==> {
        &&& m.folders.dom().contains((#[trigger] v[i])@.id)
        &&& folder_row(v[i]@) == m.folders[v[i]@.id]
        &&& tag_set_matches(v[i]@.tags, m.folder_tags, v[i]@.id)
    })
    &&& (forall|id: Seq<char>| #[trigger] m.folders.dom().contains(id) ==> exists|i: int|
        0 <= i < v.len() && (#[trigger] v[i])@.id == id)
    &&& (forall|i: int, j: int| 0 <= i < j < v.len() ==> (#[trigger] v[i])@.id != (#[trigger] v[j])@.id)
}

/// The listing holds exactly the tag rows of the map, each name once.
pub open spec fn tag_rows_listed(v: Seq<Tag>, tags: Map<Seq<char>, TagRow>) -> bool {
    &&& (forall|i: int| 0 <= i < v.len() ==> {
        &&& tags.dom().contains((#[trigger] v[i])@.name)
        &&& tag_row(v[i]@) == tags[v[i]@.name]
    })
    &&& (forall|name: Seq<char>| #[trigger] tags.dom().contains(name) ==> exists|i: int|
        0 <= i < v.len() && (#[trigger] v[i])@.name == name)
    &&& (forall|i: int, j: int| 0 <= i < j < v.len() ==> (#[trigger] v[i])@.name != (#[trigger] v[j])@.name)
}

/// The listing holds exactly the association pairs of the set, each once.
pub open spec fn links_listed(v: Seq<TagLink>, assocs: Set<(Seq<char>, Seq<char>)>) -> bool {
    &&& (forall|i: int| 0 <= i < v.len() ==> assocs.contains((#[trigger] v[i])@))
    &&& (forall|p: (Seq<char>, Seq<char>)| #[trigger] assocs.contains(p) ==> exists|i: int|
        0 <= i < v.len() && (#[trigger] v[i])@ == p)
    &&& (forall|i: int, j: int| 0 <= i < j < v.len() ==> (#[trigger] v[i])@ != (#[trigger] v[j])@)
}

/// The association pairs a link listing stands for.
pub open spec fn link_pairs(ls: Seq<TagLink>) -> Set<(Seq<char>, Seq<char>)> {
    Set::new(|p: (Seq<char>, Seq<char>)| exists|j: int| 0 <= j < ls.len() && (#[trigger] ls[j])@ == p)
}

/// A faithful link listing stands for exactly the association set.
pub proof fn lemma_links_listed_pairs(ls: Seq<TagLink>, assocs: Set<(Seq<char>, Seq<char>)>)
    requires
        links_listed(ls, assocs),
    ensures
        link_pairs(ls) == assocs,
{
    assert forall|p: (Seq<char>, Seq<char>)| link_pairs(ls).contains(p) implies assocs.contains(
        p,
    ) by {
        let j = choose|j: int| 0 <= j < ls.len() && (#[trigger] ls[j])@ == p;
        assert(assocs.contains(ls[j]@));
    }
    assert(link_pairs(ls) =~= assocs);
}

/// The listing holds exactly the settings of the reserved `ui.` namespace,
/// each key once, with its stored value.
pub open spec fn ui_settings_listed(v: Seq<SettingPair>, settings: Map<Seq<char>, SettingRow>) -> bool {
    &&& (forall|i: int| 0 <= i < v.len() ==> {
        &&& settings.dom().contains((#[trigger] v[i]).key@)
        &&& ui_prefixed(v[i].key@)
        &&& v[i].value@ == settings[v[i].key@].value
    })
    &&& (forall|k: Seq<char>| #[trigger] settings.dom().contains(k) && ui_prefixed(k) ==> exists|i: int|
        0 <= i < v.len() && (#[trigger] v[i]).key@ == k)
    &&& (forall|i: int, j: int| 0 <= i < j < v.len() ==> (#[trigger] v[i]).key@ != (#[trigger] v[j]).key@)
}

/// Every note in the listing matched the full-text query on its stored
/// title or content, none is soft-deleted, each id appears once, the cap
/// of fifty holds, and every tag list is still empty (the form the search
/// query returns).
pub open spec fn search_rows_listed(v: Seq<Note>, pattern: Seq<char>, notes: Map<Seq<char>, NoteRow>) -> bool {
    &&& v.len() <= 50
    &&& (forall|i: int| 0 <= i < v.len() ==> {
        &&& notes.dom().contains((#[trigger] v[i])@.id)
        &&& note_row(v[i]@) == notes[v[i]@.id]
        &&& v[i]@.tags == Seq::<Seq<char>>::empty()
        &&& v[i]@.deleted_at is None
        &&& crate::db::fts_matches(pattern, v[i]@.title, v[i]@.content)
    })
    &&& (forall|i: int, j: int| 0 <= i < j < v.len() ==> (#[trigger] v[i])@.id != (#[trigger] v[j])@.id)
}

/// Every note in the listing matched the full-text query on its stored
/// title or content, none is soft-deleted, each id appears once, and the
/// cap of fifty holds; rows and tag sets are those of the store.
pub open spec fn search_report(v: Seq<Note>, pattern: Seq<char>, m: StoreModel) -> bool {
    &&& v.len() <= 50
    &&& (forall|i: int| 0 <= i < v.len() ==> {
        &&& m.notes.dom().contains((#[trigger] v[i])@.id)
        &&& note_row(v[i]@) == m.notes[v[i]@.id]
        &&& v[i]@.deleted_at is None
        &&& crate::db::fts_matches(pattern, v[i]@.title, v[i]@.content)
        &&& tag_set_matches(v[i]@.tags, m.note_tags, v[i]@.id)
    })
    &&& (forall|i: int, j: int| 0 <= i < j < v.len() ==> (#[trigger] v[i])@.id != (#[trigger] v[j])@.id)
}

/// A note names a parent folder that has no row: the write-time
/// referential-integrity check must refuse to store it.
pub open spec fn dangling_folder_ref(n: NoteView, folders: Map<Seq<char>, FolderRow>) -> bool {
    n.folder_id matches Some(f) && !folders.dom().contains(f)
}

/// Another folder still names this one as its parent.  Such a folder
/// cannot be removed; notes stored in it do not block removal.
pub open spec fn folder_has_children(folders: Map<Seq<char>, FolderRow>, id: Seq<char>) -> bool {
    exists|fid: Seq<char>|
        #[trigger] folders.dom().contains(fid) && fid != id && folders[fid].parent_id == Some(id)
}

/// The note ids a full-text query selects: stored, not soft-deleted, and
/// matching on title or content.
pub open spec fn matching_ids(pattern: Seq<char>, notes: Map<Seq<char>, NoteRow>) -> Set<Seq<char>> {
    notes.dom().filter(
        |id: Seq<char>|
            notes[id].deleted_at is None && crate::db::fts_matches(
                pattern,
                notes[id].title,
                notes[id].content,
            ),
    )
}

/// Below the cap, the search is complete: every matching note appears.
/// A listing of fifty may have been truncated by the cap.
pub open spec fn search_complete(v: Seq<Note>, pattern: Seq<char>, notes: Map<Seq<char>, NoteRow>) -> bool {
    v.len() < 50 ==> forall|id: Seq<char>|
        #[trigger] matching_ids(pattern, notes).contains(id) ==> exists|i: int|
            0 <= i < v.len() && (#[trigger] v[i])@.id == id
}

/// Best match first: along the listing the index's relevance rank never
/// improves.
pub open spec fn search_ranked(v: Seq<Note>, pattern: Seq<char>, notes: Map<Seq<char>, NoteRow>) -> bool {
    forall|i: int, j: int|
        0 <= i < j < v.len() ==> crate::db::fts_rank(pattern, notes, (#[trigger] v[i])@.id)
            <= crate::db::fts_rank(pattern, notes, (#[trigger] v[j])@.id)
}

/// Growing the notes table preserves referential integrity.
pub proof fn lemma_wf_wider_notes(m: StoreModel, notes2: Map<Seq<char>, NoteRow>)
    requires
        model_wf(m),
        m.notes.dom().subset_of(notes2.dom()),
    ensures
        model_wf(StoreModel { notes: notes2, ..m }),
{
}

/// Growing the folders table preserves referential integrity.
pub proof fn lemma_wf_wider_folders(m: StoreModel, folders2: Map<Seq<char>, FolderRow>)
    requires
        model_wf(m),
        m.folders.dom().subset_of(folders2.dom()),
    ensures
        model_wf(StoreModel { folders: folders2, ..m }),
{
}

/// Growing the tags table preserves referential integrity.
pub proof fn lemma_wf_wider_tags(m: StoreModel, tags2: Map<Seq<char>, TagRow>)
    requires
        model_wf(m),
        m.tags.dom().subset_of(tags2.dom()),
    ensures
        model_wf(StoreModel { tags: tags2, ..m }),
{
}

/// Dropping note-association pairs preserves referential integrity.
pub proof fn lemma_wf_fewer_note_pairs(m: StoreModel, pairs2: Set<(Seq<char>, Seq<char>)>)
    requires
        model_wf(m),
        forall|p: (Seq<char>, Seq<char>)| #[trigger] pairs2.contains(p) ==> m.note_tags.contains(p),
    ensures
        model_wf(StoreModel { note_tags: pairs2, ..m }),
{
}

/// Dropping folder-association pairs preserves referential integrity.
pub proof fn lemma_wf_fewer_folder_pairs(m: StoreModel, pairs2: Set<(Seq<char>, Seq<char>)>)
    requires
        model_wf(m),
        forall|p: (Seq<char>, Seq<char>)| #[trigger] pairs2.contains(p) ==> m.folder_tags.contains(
            p,
        ),
    ensures
        model_wf(StoreModel { folder_tags: pairs2, ..m }),
{
}

/// Associating an existing note with an existing tag preserves referential
/// integrity.
pub proof fn lemma_wf_add_note_pair(m: StoreModel, id: Seq<char>, tag: Seq<char>)
    requires
        model_wf(m),
        m.notes.dom().contains(id),
        m.tags.dom().contains(tag),
    ensures
        model_wf(StoreModel { note_tags: m.note_tags.insert((id, tag)), ..m }),
{
}

/// Associating an existing folder with an existing tag preserves
/// referential integrity.
pub proof fn lemma_wf_add_folder_pair(m: StoreModel, id: Seq<char>, tag: Seq<char>)
    requires
        model_wf(m),
        m.folders.dom().contains(id),
        m.tags.dom().contains(tag),
    ensures
        model_wf(StoreModel { folder_tags: m.folder_tags.insert((id, tag)), ..m }),
{
}

/// Deleting a note cascades its pairs away, preserving referential
/// integrity.
pub proof fn lemma_wf_note_deleted(m: StoreModel, id: Seq<char>)
    requires
        model_wf(m),
    ensures
        model_wf(note_deleted(m, id)),
{
}

/// Deleting a folder cascades its pairs away, preserving referential
/// integrity.
pub proof fn lemma_wf_folder_deleted(m: StoreModel, id: Seq<char>)
    requires
        model_wf(m),
    ensures
        model_wf(folder_deleted(m, id)),
{
}

/// Deleting a tag cascades every pair naming it away, preserving
/// referential integrity.
pub proof fn lemma_wf_tag_deleted(m: StoreModel, name: Seq<char>)
    requires
        model_wf(m),
    ensures
        model_wf(tag_deleted(m, name)),
{
}

/// Removing a note that has no row changes nothing: there is no row to
/// drop, and referential integrity rules out stray pairs.
pub proof fn lemma_missing_note_delete_is_noop(m: StoreModel, id: Seq<char>)
    requires
        model_wf(m),
        !m.notes.dom().contains(id),
    ensures
        note_deleted(m, id) == m,
{
    assert(m.notes.remove(id) =~= m.notes);
    assert(assocs_without(m.note_tags, id) =~= m.note_tags);
}

/// Removing a folder that has no row changes nothing.
pub proof fn lemma_missing_folder_delete_is_noop(m: StoreModel, id: Seq<char>)
    requires
        model_wf(m),
        !m.folders.dom().contains(id),
    ensures
        folder_deleted(m, id) == m,
{
    assert(m.folders.remove(id) =~= m.folders);
    assert(assocs_without(m.folder_tags, id) =~= m.folder_tags);
}

/// Removing a tag that has no row changes nothing: referential integrity
/// rules out association pairs naming an absent tag.
pub proof fn lemma_missing_tag_delete_is_noop(m: StoreModel, name: Seq<char>)
    requires
        model_wf(m),
        !m.tags.dom().contains(name),
    ensures
        tag_deleted(m, name) == m,
{
    assert(m.tags.remove(name) =~= m.tags);
    assert(assocs_without_tag(m.note_tags, name) =~= m.note_tags);
    assert(assocs_without_tag(m.folder_tags, name) =~= m.folder_tags);
}

/// The engine's error taxonomy.  Messages are rendered only at the outermost
/// boundary; each variant carries the identifying context.
#[derive(Debug, Clone, PartialEq)]
pub enum StoreError {
    /// An operation was invoked before the schema was initialized.
    NotInitialized,
    /// A load by id found no row; carries the missing id.
    NotFound(String),
    /// The data-loss guard refused to overwrite stored content with a
    /// boot-state literal; carries the note id.
    GuardedOverwrite(String),
    /// A foreign-key or uniqueness breach, with the engine's message.
    Constraint(String),
    /// A file-system or database-engine failure, with the engine's message.
    Io(String),
}

} // verus!
