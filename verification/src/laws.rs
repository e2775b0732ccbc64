//! Laws of the storage model: what the operation specs of [`crate::data`]
//! and [`crate::model`] guarantee in combination.  Each law is stated over
//! the model transformations that the engine's contracts pin down, so it
//! holds of every execution of the corresponding operations.

use vstd::prelude::*;
use crate::data::{note_row, note_saved, note_deleted, tag_deleted, notes_report, search_report,
    NoteView};
use crate::model::{guard_blocks, is_boot_content, pair_set, StoreModel, CONTENT_GUARD_LIMIT};

verus! {

/// Content that is not a boot-state literal is never refused by the guard:
/// a save of it is owed the full upsert whenever the statements succeed.
pub proof fn law_non_boot_content_passes_guard(m: StoreModel, id: Seq<char>, content: Seq<char>)
    requires
        !is_boot_content(content),
    ensures
        !guard_blocks(m.notes, id, content),
{
}

/// Overwriting a stored body longer than the guard limit with a boot-state
/// literal is always blocked: the engine then refuses the save and leaves
/// the store unchanged.
pub proof fn law_guard_blocks_large_overwrite(m: StoreModel, id: Seq<char>, content: Seq<char>)
    requires
        is_boot_content(content),
        m.notes.dom().contains(id),
        m.notes[id].content.len() > CONTENT_GUARD_LIMIT,
    ensures
        guard_blocks(m.notes, id, content),
{
}

/// A boot-state literal may be saved where no row exists yet, or where the
/// stored body is within the guard limit: the guard does not fire.
pub proof fn law_guard_allows_small_or_new(m: StoreModel, id: Seq<char>, content: Seq<char>)
    requires
        !m.notes.dom().contains(id) || m.notes[id].content.len() <= CONTENT_GUARD_LIMIT,
    ensures
        !guard_blocks(m.notes, id, content),
{
}

/// A saved note reads back equal in every field: the stored row is exactly
/// the note's row, and the stored association set holds exactly the note's
/// tag names.  For an id that already existed, the row keeps the stored
/// creation timestamp, so the read-back equality asks that the note carry
/// it; a fresh id keeps the note's own.
pub proof fn law_save_then_load(m: StoreModel, n: NoteView)
    requires
        !m.notes.dom().contains(n.id) || m.notes[n.id].created_at == n.created_at,
    ensures
        note_saved(m, n).notes.dom().contains(n.id),
        note_saved(m, n).notes[n.id] == note_row(n),
        forall|t: Seq<char>|
            #[trigger] note_saved(m, n).note_tags.contains((n.id, t)) <==> n.tags.contains(t),
{
    if m.notes.dom().contains(n.id) {
        assert(note_saved(m, n).notes[n.id] == note_row(n));
    }
    assert forall|t: Seq<char>| #[trigger] note_saved(m, n).note_tags.contains((n.id, t))
        implies n.tags.contains(t) by {
        assert(pair_set(n.id, n.tags).contains((n.id, t)));
    }
    assert forall|t: Seq<char>| n.tags.contains(t) implies #[trigger] note_saved(
        m,
        n,
    ).note_tags.contains((n.id, t)) by {
        assert(pair_set(n.id, n.tags).contains((n.id, t)));
    }
}

/// After any save, the association set for that note holds exactly the
/// saved tag names: no duplicates enter a set, and nothing of an earlier
/// tag set is left over.
pub proof fn law_save_replaces_tag_set(m: StoreModel, n: NoteView)
    ensures
        forall|t: Seq<char>|
            #[trigger] note_saved(m, n).note_tags.contains((n.id, t)) <==> n.tags.contains(t),
        forall|p: (Seq<char>, Seq<char>)| p.0 != n.id ==>
            (#[trigger] note_saved(m, n).note_tags.contains(p) <==> m.note_tags.contains(p)),
{
    assert forall|t: Seq<char>| #[trigger] note_saved(m, n).note_tags.contains((n.id, t))
        implies n.tags.contains(t) by {
        assert(pair_set(n.id, n.tags).contains((n.id, t)));
    }
    assert forall|t: Seq<char>| n.tags.contains(t) implies #[trigger] note_saved(
        m,
        n,
    ).note_tags.contains((n.id, t)) by {
        assert(pair_set(n.id, n.tags).contains((n.id, t)));
    }
}

/// Saving a note twice leaves the association set of the second save: the
/// first save's tags are fully replaced, with no duplicates and no
/// leftovers.
pub proof fn law_resave_replaces_tag_set(m: StoreModel, first: NoteView, second: NoteView)
    requires
        first.id == second.id,
    ensures
        forall|t: Seq<char>|
            #[trigger] note_saved(note_saved(m, first), second).note_tags.contains((second.id, t))
                <==> second.tags.contains(t),
{
    law_save_replaces_tag_set(note_saved(m, first), second);
}

/// Deleting a tag removes every association row naming it, in both
/// association tables, while the note and folder rows themselves stay
/// exactly as they were.
pub proof fn law_delete_tag_keeps_rows(m: StoreModel, name: Seq<char>)
    ensures
        tag_deleted(m, name).notes == m.notes,
        tag_deleted(m, name).folders == m.folders,
        tag_deleted(m, name).settings == m.settings,
        !tag_deleted(m, name).tags.dom().contains(name),
        forall|id: Seq<char>| !#[trigger] tag_deleted(m, name).note_tags.contains((id, name)),
        forall|id: Seq<char>| !#[trigger] tag_deleted(m, name).folder_tags.contains((id, name)),
        forall|p: (Seq<char>, Seq<char>)| p.1 != name ==>
            (#[trigger] tag_deleted(m, name).note_tags.contains(p) <==> m.note_tags.contains(p)),
        forall|p: (Seq<char>, Seq<char>)| p.1 != name ==>
            (#[trigger] tag_deleted(m, name).folder_tags.contains(p) <==> m.folder_tags.contains(p)),
{
}

/// A permanently deleted note appears in no later full listing: whatever
/// listing the store then reports, none of its entries carries the id.
pub proof fn law_deleted_note_unlisted(m: StoreModel, id: Seq<char>, v: Seq<crate::data::Note>)
    requires
        notes_report(v, note_deleted(m, id)),
    ensures
        forall|i: int| 0 <= i < v.len() ==> (#[trigger] v[i])@.id != id,
{
    assert forall|i: int| 0 <= i < v.len() implies (#[trigger] v[i])@.id != id by {
        assert(note_deleted(m, id).notes.dom().contains(v[i]@.id));
        assert(!note_deleted(m, id).notes.dom().contains(id));
    }
}

/// A permanently deleted note appears in no later search result, whatever
/// the query.
pub proof fn law_deleted_note_unsearched(
    m: StoreModel,
    id: Seq<char>,
    pattern: Seq<char>,
    v: Seq<crate::data::Note>,
)
    requires
        search_report(v, pattern, note_deleted(m, id)),
    ensures
        forall|i: int| 0 <= i < v.len() ==> (#[trigger] v[i])@.id != id,
{
    assert forall|i: int| 0 <= i < v.len() implies (#[trigger] v[i])@.id != id by {
        assert(note_deleted(m, id).notes.dom().contains(v[i]@.id));
        assert(!note_deleted(m, id).notes.dom().contains(id));
    }
}

} // verus!
