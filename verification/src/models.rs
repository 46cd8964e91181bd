//! The shared data model: a persisted note, its mathematical value, and the
//! in-memory collection with its selection cursor.

use vstd::prelude::*;

verus! {

/// A single persisted note.  The identifier is assigned by the store, stable
/// and unique; title and content are free text.
pub struct Note {
    pub id: i64,
    pub title: String,
    pub content: String,
}

/// The mathematical value of a `Note`.
pub ghost struct NoteView {
    pub id: int,
    pub title: Seq<char>,
    pub content: Seq<char>,
}

impl View for Note {
    type V = NoteView;

    open spec fn view(&self) -> NoteView {
        NoteView { id: self.id as int, title: self.title@, content: self.content@ }
    }
}

/// The sequence of note values behind a sequence of notes.
pub open spec fn views(s: Seq<Note>) -> Seq<NoteView> {
    s.map_values(|n: Note| n@)
}

/// Identifiers strictly increase along the sequence: the canonical store
/// order (ascending id).  Strictness also gives uniqueness.
pub open spec fn sorted_by_id(s: Seq<NoteView>) -> bool {
    forall|i: int, j: int| 0 <= i < j < s.len() ==> s[i].id < s[j].id
}

/// Where the cursor stands after one move down: it advances by one and wraps
/// from the last index to index zero; on an empty collection it stays `None`.
pub open spec fn cursor_down(sel: Option<usize>, len: int) -> Option<usize> {
    match sel {
        Option::None => Option::None,
        Option::Some(i) => if i + 1 < len {
            Option::Some((i + 1) as usize)
        } else {
            Option::Some(0usize)
        },
    }
}

/// Where the cursor stands after one move up: it retreats by one and wraps
/// from index zero to the last index; on an empty collection it stays `None`.
pub open spec fn cursor_up(sel: Option<usize>, len: int) -> Option<usize> {
    match sel {
        Option::None => Option::None,
        Option::Some(i) => if i == 0 {
            Option::Some((len - 1) as usize)
        } else {
            Option::Some((i - 1) as usize)
        },
    }
}

/// Where the cursor stands after deleting the entry at `removed`, out of a
/// collection that now holds `new_len` entries: the cursor retreats to
/// `removed - 1` unless the removed entry stood first, in which case it stays
/// at index zero; it becomes `None` when nothing is left.
pub open spec fn cursor_after_delete(removed: int, new_len: int) -> Option<usize> {
    if new_len == 0 {
        Option::None
    } else if removed == 0 {
        Option::Some(0usize)
    } else {
        Option::Some((removed - 1) as usize)
    }
}

/// The in-memory note collection: the cached notes in store order plus the
/// selection cursor.  The cursor is `None` exactly when the collection is
/// empty; otherwise it denotes a valid index.
pub struct NoteList {
    pub items: Vec<Note>,
    pub selected: Option<usize>,
}

impl NoteList {
    /// The cursor invariant: a valid index when non-empty, `None` when empty.
    pub open spec fn wf(self) -> bool {
        match self.selected {
            Option::None => self.items@.len() == 0,
            Option::Some(i) => i < self.items@.len(),
        }
    }

    /// Move the cursor down one entry, wrapping from the last entry to the
    /// first; a no-op on an empty collection.
    pub fn select_next(&mut self)
        requires
            old(self).wf(),
        ensures
            final(self).wf(),
            final(self).items == old(self).items,
            final(self).selected == cursor_down(old(self).selected, old(self).items@.len() as int),
    {
        match self.selected {
            Option::None => {},
            Option::Some(i) => {
                let n = self.items.len();
                if i + 1 < n {
                    self.selected = Option::Some(i + 1);
                } else {
                    self.selected = Option::Some(0);
                }
            },
        }
    }

    /// Move the cursor up one entry, wrapping from the first entry to the
    /// last; a no-op on an empty collection.
    pub fn select_previous(&mut self)
        requires
            old(self).wf(),
        ensures
            final(self).wf(),
            final(self).items == old(self).items,
            final(self).selected == cursor_up(old(self).selected, old(self).items@.len() as int),
    {
        match self.selected {
            Option::None => {},
            Option::Some(i) => {
                if i == 0 {
                    self.selected = Option::Some(self.items.len() - 1);
                } else {
                    self.selected = Option::Some(i - 1);
                }
            },
        }
    }
}

/// Moving down wraps: with `n` entries and the cursor on the last one, one
/// move down puts the cursor on index zero.
pub proof fn lemma_cursor_down_wraps(i: usize, n: int)
    requires
        n >= 2,
        i == n - 1,
    ensures
        cursor_down(Option::Some(i), n) == Option::Some(0usize),
{
}

/// Moving up wraps: with `n` entries and the cursor on index zero, one move
/// up puts the cursor on the last index.
pub proof fn lemma_cursor_up_wraps(i: usize, n: int)
    requires
        n >= 2,
        i == 0,
    ensures
        cursor_up(Option::Some(i), n) == Option::Some((n - 1) as usize),
{
}

/// The delete re-clamp rule on the two ends of a three-entry collection:
/// deleting the first entry leaves the cursor at index zero, deleting the
/// last sets it to the new last index.
pub proof fn lemma_delete_reclamp_ends()
    ensures
        cursor_after_delete(0, 2) == Option::Some(0usize),
        cursor_after_delete(2, 2) == Option::Some(1usize),
{
}

/// Taking views commutes with appending a note.
pub proof fn lemma_views_push(s: Seq<Note>, n: Note)
    ensures
        views(s.push(n)) == views(s).push(n@),
{
    assert(views(s.push(n)) =~= views(s).push(n@));
}

/// Taking views commutes with removing an entry.
pub proof fn lemma_views_remove(s: Seq<Note>, i: int)
    requires
        0 <= i < s.len(),
    ensures
        views(s.remove(i)) == views(s).remove(i),
{
    assert(views(s.remove(i)) =~= views(s).remove(i));
}

/// Taking views commutes with overwriting an entry.
pub proof fn lemma_views_update(s: Seq<Note>, i: int, n: Note)
    requires
        0 <= i < s.len(),
    ensures
        views(s.update(i, n)) == views(s).update(i, n@),
{
    assert(views(s.update(i, n)) =~= views(s).update(i, n@));
}

} // verus!
