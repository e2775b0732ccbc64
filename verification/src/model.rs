//! Mathematical model of the database contents.
//!
//! Each table is modelled as a map from its primary key to a record of the
//! remaining columns; the two many-to-many association tables are modelled as
//! sets of (owner id, tag name) pairs.  Every storage operation is given a
//! spec-level meaning as a transformation of a [`StoreModel`], and the
//! executable engine is proved to realize exactly these transformations.

use vstd::prelude::*;

verus! {

/// Character count above which existing note content is protected from being
/// overwritten by a boot-state literal.
pub const CONTENT_GUARD_LIMIT: usize = 200;

/// A row of the notes table, keyed externally by the note id.
pub ghost struct NoteRow {
    pub title: Seq<char>,
    pub description: Seq<char>,
    pub description_visible: bool,
    pub emoji: Option<Seq<char>>,
    pub content: Seq<char>,
    pub tags_visible: bool,
    pub is_favorite: bool,
    pub folder_id: Option<Seq<char>>,
    pub daily_note_date: Option<Seq<char>>,
    pub created_at: Seq<char>,
    pub updated_at: Seq<char>,
    pub deleted_at: Option<Seq<char>>,
}

/// A row of the folders table, keyed externally by the folder id.
pub ghost struct FolderRow {
    pub name: Seq<char>,
    pub parent_id: Option<Seq<char>>,
    pub description: Seq<char>,
    pub description_visible: bool,
    pub color: Option<Seq<char>>,
    pub emoji: Option<Seq<char>>,
    pub tags_visible: bool,
    pub is_favorite: bool,
    pub is_expanded: bool,
    pub created_at: Seq<char>,
    pub updated_at: Seq<char>,
    pub deleted_at: Option<Seq<char>>,
}

/// A row of the tags table, keyed externally by the tag name.
pub ghost struct TagRow {
    pub description: Seq<char>,
    pub description_visible: bool,
    pub is_favorite: bool,
    pub color: Option<Seq<char>>,
    pub created_at: Seq<char>,
    pub updated_at: Seq<char>,
    pub deleted_at: Option<Seq<char>>,
}

/// A row of the settings table, keyed externally by the setting key.
pub ghost struct SettingRow {
    pub value: Seq<char>,
    pub updated_at: Seq<char>,
}

/// The logical content of the whole database.
pub ghost struct StoreModel {
    pub notes: Map<Seq<char>, NoteRow>,
    pub folders: Map<Seq<char>, FolderRow>,
    pub tags: Map<Seq<char>, TagRow>,
    pub note_tags: Set<(Seq<char>, Seq<char>)>,
    pub folder_tags: Set<(Seq<char>, Seq<char>)>,
    pub settings: Map<Seq<char>, SettingRow>,
}

/// Content that looks like an uninitialized editor ("boot state"): the empty
/// string, an empty quoted-string literal, or an empty object literal.
pub open spec fn is_boot_content(c: Seq<char>) -> bool {
    c =~= Seq::<char>::empty() || c =~= seq!['"', '"'] || c =~= seq!['{', '}']
}

/// Decides whether note content matches one of the boot-state literals that
/// the save guard refuses to let overwrite a large existing body.
pub fn is_boot_state(content: &str) -> (r: bool)
    ensures
        r == is_boot_content(content@),
{
    let n = content.unicode_len();
    if n == 0 {
        proof {
            assert(content@ =~= Seq::<char>::empty());
        }
        true
    } else if n == 2 {
        let c0 = content.get_char(0);
        let c1 = content.get_char(1);
        proof {
            assert(content@ =~= seq![content@[0], content@[1]]);
        }
        (c0 == '"' && c1 == '"') || (c0 == '{' && c1 == '}')
    } else {
        false
    }
}

/// The data-loss guard refuses a save exactly when boot-state content would
/// overwrite stored content longer than the guard limit.
pub open spec fn guard_blocks(notes: Map<Seq<char>, NoteRow>, id: Seq<char>, content: Seq<char>) -> bool {
    &&& is_boot_content(content)
    &&& notes.dom().contains(id)
    &&& notes[id].content.len() > CONTENT_GUARD_LIMIT
}

/// Upsert of a note row: insert, or on an existing id replace every column
/// except the creation timestamp.
pub open spec fn upsert_note(m: Map<Seq<char>, NoteRow>, id: Seq<char>, r: NoteRow) -> Map<Seq<char>, NoteRow> {
    if m.dom().contains(id) {
        m.insert(id, NoteRow { created_at: m[id].created_at, ..r })
    } else {
        m.insert(id, r)
    }
}

/// Upsert of a folder row: insert, or on an existing id replace every column
/// except the creation timestamp.
pub open spec fn upsert_folder(m: Map<Seq<char>, FolderRow>, id: Seq<char>, r: FolderRow) -> Map<Seq<char>, FolderRow> {
    if m.dom().contains(id) {
        m.insert(id, FolderRow { created_at: m[id].created_at, ..r })
    } else {
        m.insert(id, r)
    }
}

/// Upsert of a tag row: insert, or on an existing name replace every column
/// except the creation timestamp.
pub open spec fn upsert_tag(m: Map<Seq<char>, TagRow>, name: Seq<char>, r: TagRow) -> Map<Seq<char>, TagRow> {
    if m.dom().contains(name) {
        m.insert(name, TagRow { created_at: m[name].created_at, ..r })
    } else {
        m.insert(name, r)
    }
}

/// The default metadata a tag receives when it is created implicitly by a
/// note or folder save: empty description, visible, not favorite, no color.
pub open spec fn fresh_tag(ts: Seq<char>) -> TagRow {
    TagRow {
        description: Seq::empty(),
        description_visible: true,
        is_favorite: false,
        color: None,
        created_at: ts,
        updated_at: ts,
        deleted_at: None,
    }
}

/// Create a tag with default metadata if absent; an existing tag keeps its
/// explicit metadata untouched.
pub open spec fn ensure_tag(m: Map<Seq<char>, TagRow>, name: Seq<char>, ts: Seq<char>) -> Map<Seq<char>, TagRow> {
    if m.dom().contains(name) {
        m
    } else {
        m.insert(name, fresh_tag(ts))
    }
}

/// [`ensure_tag`] applied left to right over a list of tag names.
pub open spec fn ensure_tags(m: Map<Seq<char>, TagRow>, names: Seq<Seq<char>>, ts: Seq<char>) -> Map<Seq<char>, TagRow>
    decreases names.len(),
{
    if names.len() == 0 {
        m
    } else {
        ensure_tag(ensure_tags(m, names.drop_last(), ts), names.last(), ts)
    }
}

/// Referential integrity of the store: every association pair names an
/// owner row and a tag row that exist.  The engine's schema enforces this
/// on every write, and every operation preserves it.
pub open spec fn model_wf(m: StoreModel) -> bool {
    &&& (forall|p: (Seq<char>, Seq<char>)| #[trigger] m.note_tags.contains(p)
        ==> m.notes.dom().contains(p.0) && m.tags.dom().contains(p.1))
    &&& (forall|p: (Seq<char>, Seq<char>)| #[trigger] m.folder_tags.contains(p)
        ==> m.folders.dom().contains(p.0) && m.tags.dom().contains(p.1))
}

/// Creating tags never removes a name, and affords every listed name a row.
pub proof fn lemma_ensure_tags_dom(m: Map<Seq<char>, TagRow>, names: Seq<Seq<char>>, ts: Seq<char>)
    ensures
        forall|k: Seq<char>| m.dom().contains(k)
            ==> #[trigger] ensure_tags(m, names, ts).dom().contains(k),
        forall|j: int| 0 <= j < names.len()
            ==> ensure_tags(m, names, ts).dom().contains(#[trigger] names[j]),
    decreases names.len(),
{
    if names.len() > 0 {
        lemma_ensure_tags_dom(m, names.drop_last(), ts);
        assert forall|k: Seq<char>| m.dom().contains(k) implies #[trigger] ensure_tags(
            m,
            names,
            ts,
        ).dom().contains(k) by {
            assert(ensure_tags(m, names.drop_last(), ts).dom().contains(k));
        }
        assert forall|j: int| 0 <= j < names.len() implies ensure_tags(m, names, ts).dom().contains(
            #[trigger] names[j],
        ) by {
            if j < names.len() - 1 {
                assert(names.drop_last()[j] == names[j]);
                assert(ensure_tags(m, names.drop_last(), ts).dom().contains(names[j]));
            }
        }
    }
}

/// The association pairs that remain once every pair owned by `id` is gone.
pub open spec fn assocs_without(s: Set<(Seq<char>, Seq<char>)>, id: Seq<char>) -> Set<(Seq<char>, Seq<char>)> {
    s.filter(|p: (Seq<char>, Seq<char>)| p.0 != id)
}

/// The association pairs that remain once every pair naming `tag` is gone.
pub open spec fn assocs_without_tag(s: Set<(Seq<char>, Seq<char>)>, tag: Seq<char>) -> Set<(Seq<char>, Seq<char>)> {
    s.filter(|p: (Seq<char>, Seq<char>)| p.1 != tag)
}

/// The set of (id, tag) pairs for every tag name in `names`.
pub open spec fn pair_set(id: Seq<char>, names: Seq<Seq<char>>) -> Set<(Seq<char>, Seq<char>)> {
    Set::new(|p: (Seq<char>, Seq<char>)| p.0 == id && names.contains(p.1))
}

/// Full replacement of the association rows owned by `id` with the new names.
pub open spec fn replace_assocs(s: Set<(Seq<char>, Seq<char>)>, id: Seq<char>, names: Seq<Seq<char>>) -> Set<(Seq<char>, Seq<char>)> {
    assocs_without(s, id).union(pair_set(id, names))
}

/// Extending a tag list by one name extends its association pair set by
/// one pair.
pub proof fn lemma_pair_set_push(id: Seq<char>, names: Seq<Seq<char>>, x: Seq<char>)
    ensures
        pair_set(id, names.push(x)) == pair_set(id, names).insert((id, x)),
{
    assert forall|p: (Seq<char>, Seq<char>)| pair_set(id, names.push(x)).contains(p)
        implies pair_set(id, names).insert((id, x)).contains(p) by {
        if p.1 == x {
            assert(p == (id, x));
        } else {
            let j = choose|j: int| 0 <= j < names.push(x).len() && names.push(x)[j] == p.1;
            assert(names[j] == p.1);
            assert(names.contains(p.1));
        }
    }
    assert forall|p: (Seq<char>, Seq<char>)| pair_set(id, names).insert((id, x)).contains(p)
        implies pair_set(id, names.push(x)).contains(p) by {
        if p == (id, x) {
            assert(names.push(x)[names.len() as int] == x);
            assert(names.push(x).contains(x));
        } else {
            let j = choose|j: int| 0 <= j < names.len() && names[j] == p.1;
            assert(names.push(x)[j] == p.1);
            assert(names.push(x).contains(p.1));
        }
    }
    assert(pair_set(id, names.push(x)) =~= pair_set(id, names).insert((id, x)));
}

/// Creating tags for a list of names, one more name at a time.
pub proof fn lemma_ensure_tags_push(
    m: Map<Seq<char>, TagRow>,
    names: Seq<Seq<char>>,
    x: Seq<char>,
    ts: Seq<char>,
)
    ensures
        ensure_tags(m, names.push(x), ts) == ensure_tag(ensure_tags(m, names, ts), x, ts),
{
    assert(names.push(x).drop_last() =~= names);
    assert(names.push(x).last() == x);
}

/// The set of tag names associated with `id`.
pub open spec fn assoc_tags(s: Set<(Seq<char>, Seq<char>)>, id: Seq<char>) -> Set<Seq<char>> {
    Set::new(|t: Seq<char>| s.contains((id, t)))
}

/// Lexicographic order on character sequences by code point, the order in
/// which the database compares its text columns.
pub open spec fn lex_le(a: Seq<char>, b: Seq<char>) -> bool
    decreases a.len(),
{
    if a.len() == 0 {
        true
    } else if b.len() == 0 {
        false
    } else if a[0] < b[0] {
        true
    } else if b[0] < a[0] {
        false
    } else {
        lex_le(a.drop_first(), b.drop_first())
    }
}

/// A key reserved for UI state: it starts with the letters `u`, `i` (of
/// either case, as the engine's pattern match is case-insensitive over
/// ASCII) followed by a dot.
pub open spec fn ui_prefixed(k: Seq<char>) -> bool {
    &&& k.len() >= 3
    &&& (k[0] == 'u' || k[0] == 'U')
    &&& (k[1] == 'i' || k[1] == 'I')
    &&& k[2] == '.'
}

} // verus!
