use vstd::prelude::*;
use vstd::arithmetic::div_mod::{lemma_mod_multiples_vanish, lemma_mod_self_0, lemma_small_mod};
use crate::listing::{DirectoryListing, EntryModel};
use crate::path::DirPath;
use crate::search;

verus! {

/// How many rows one page of the display holds; the scroll window trails
/// the selection by this many rows.
pub const ROWS_PER_PAGE: usize = 10;

/// The navigation cursor: the directory being shown, which of its entries
/// is selected, and how many entries the latest listing of it had.
pub struct NavigationState {
    pub current_path: DirPath,
    pub selected_index: usize,
    pub entry_count: usize,
}

/// Where the selection lands after moving one row up, wrapping from the
/// first entry to the last; with no entries, it stays put.
pub open spec fn spec_move_up(sel: int, count: int) -> int {
    if count > 0 {
        (sel + count - 1) % count
    } else {
        sel
    }
}

/// Where the selection lands after moving one row down, wrapping from the
/// last entry to the first; with no entries, it stays put.
pub open spec fn spec_move_down(sel: int, count: int) -> int {
    if count > 0 {
        (sel + 1) % count
    } else {
        sel
    }
}

/// Where a possibly stale selection lands once a fresh listing of the same
/// directory turns out to hold `count` entries.
pub open spec fn spec_clamp_index(sel: int, count: int) -> int {
    if count == 0 {
        0
    } else if sel >= count {
        count - 1
    } else {
        sel
    }
}

/// Whether the Enter command changes the directory: the selection must be
/// in range in the fresh listing and name a directory.
pub open spec fn enter_changes(sel: int, l: Seq<EntryModel>) -> bool {
    0 <= sel < l.len() && l[sel].is_directory
}

impl NavigationState {
    /// The state invariant: the selection stays inside the listing, and an
    /// empty listing pins it to zero.
    pub open spec fn wf(&self) -> bool {
        &&& self.entry_count > 0 ==> self.selected_index < self.entry_count
        &&& self.entry_count == 0 ==> self.selected_index == 0
    }

    /// A fresh state at `path`, before its first listing is installed.
    pub fn new(path: DirPath) -> (s: NavigationState)
        ensures
            s.wf(),
            s.current_path == path,
            s.selected_index == 0,
            s.entry_count == 0,
    {
        NavigationState { current_path: path, selected_index: 0, entry_count: 0 }
    }

    /// Install the length of a fresh listing of the current directory. The
    /// directory may have changed on disk since the last listing, so a now
    /// out-of-range selection is clamped to the last entry rather than
    /// faulting.
    pub fn refresh_count(&mut self, new_count: usize)
        ensures
            final(self).wf(),
            final(self).current_path == old(self).current_path,
            final(self).entry_count == new_count,
            final(self).selected_index == spec_clamp_index(
                old(self).selected_index as int,
                new_count as int,
            ),
    {
        self.entry_count = new_count;
        if new_count == 0 {
            self.selected_index = 0;
        } else if self.selected_index >= new_count {
            self.selected_index = new_count - 1;
        }
    }

    /// The MoveUp transition: one row up, wrapping to the last entry; a
    /// no-op on an empty listing.
    pub fn move_up(&mut self)
        requires
            old(self).wf(),
        ensures
            final(self).wf(),
            final(self).current_path == old(self).current_path,
            final(self).entry_count == old(self).entry_count,
            final(self).selected_index == spec_move_up(
                old(self).selected_index as int,
                old(self).entry_count as int,
            ),
            old(self).entry_count == 0 ==> *final(self) == *old(self),
    {
        if self.entry_count > 0 {
            let ghost sel = self.selected_index as int;
            let ghost count = self.entry_count as int;
            if self.selected_index == 0 {
                self.selected_index = self.entry_count - 1;
                proof {
                    lemma_small_mod((count - 1) as nat, count as nat);
                }
            } else {
                self.selected_index = self.selected_index - 1;
                proof {
                    lemma_mod_multiples_vanish(1, sel - 1, count);
                    lemma_small_mod((sel - 1) as nat, count as nat);
                }
            }
        }
    }

    /// The MoveDown transition: one row down, wrapping to the first entry;
    /// a no-op on an empty listing.
    pub fn move_down(&mut self)
        requires
            old(self).wf(),
        ensures
            final(self).wf(),
            final(self).current_path == old(self).current_path,
            final(self).entry_count == old(self).entry_count,
            final(self).selected_index == spec_move_down(
                old(self).selected_index as int,
                old(self).entry_count as int,
            ),
            old(self).entry_count == 0 ==> *final(self) == *old(self),
    {
        if self.entry_count > 0 {
            let ghost sel = self.selected_index as int;
            let ghost count = self.entry_count as int;
            if self.selected_index == self.entry_count - 1 {
                self.selected_index = 0;
                proof {
                    broadcast use lemma_mod_self_0;

                    assert(sel + 1 == count);
                }
            } else {
                self.selected_index = self.selected_index + 1;
                proof {
                    lemma_small_mod((sel + 1) as nat, count as nat);
                }
            }
        }
    }

    /// The Enter transition, against a listing of the current directory
    /// read at the time of the command. When the selection is in range and
    /// names a directory, descend into it and reset the selection; the
    /// entry count drops to zero until the new directory's listing is
    /// installed with `refresh_count`. Otherwise — the selection names a
    /// file, or the directory shrank since it was rendered — change
    /// nothing.
    pub fn apply_enter(&mut self, listing: &DirectoryListing) -> (changed: bool)
        requires
            old(self).wf(),
        ensures
            final(self).wf(),
            changed == enter_changes(old(self).selected_index as int, listing@),
            changed ==> final(self).current_path@ == old(self).current_path@.push(
                listing@[old(self).selected_index as int].name,
            ),
            changed ==> final(self).selected_index == 0 && final(self).entry_count == 0,
            !changed ==> *final(self) == *old(self),
    {
        if self.selected_index < listing.entries.len() {
            let e = &listing.entries[self.selected_index];
            if e.is_directory {
                let name = e.name.clone();
                self.current_path.push_component(name);
                self.selected_index = 0;
                self.entry_count = 0;
                return true;
            }
        }
        false
    }

    /// The Ascend transition: move to the parent directory and reset the
    /// selection; at the filesystem root, where no parent exists, change
    /// nothing. As after Enter, the entry count waits on `refresh_count`.
    pub fn apply_ascend(&mut self) -> (changed: bool)
        requires
            old(self).wf(),
        ensures
            final(self).wf(),
            changed == !old(self).current_path.is_root(),
            changed ==> final(self).current_path@ == old(self).current_path@.drop_last(),
            changed ==> final(self).selected_index == 0 && final(self).entry_count == 0,
            !changed ==> *final(self) == *old(self),
    {
        if self.current_path.has_parent() {
            self.current_path.pop_component();
            self.selected_index = 0;
            self.entry_count = 0;
            true
        } else {
            false
        }
    }

    /// The JumpToMatch transition, against a listing of the current
    /// directory read at the time of the command: descend into the first
    /// directory entry whose name starts with `term` and reset the
    /// selection; with no match, change nothing.
    pub fn apply_jump(&mut self, listing: &DirectoryListing, term: &str) -> (matched: bool)
        requires
            old(self).wf(),
        ensures
            final(self).wf(),
            matched == search::has_match(listing@, term@),
            matched ==> exists|i: int|
                {
                    &&& #[trigger] search::is_first_match(listing@, term@, i)
                    &&& final(self).current_path@ == old(self).current_path@.push(
                        listing@[i].name,
                    )
                },
            matched ==> final(self).selected_index == 0 && final(self).entry_count == 0,
            !matched ==> *final(self) == *old(self),
    {
        match search::resolve(listing, term) {
            Some(i) => {
                let name = listing.entries[i].name.clone();
                self.current_path.push_component(name);
                self.selected_index = 0;
                self.entry_count = 0;
                true
            },
            None => false,
        }
    }
}

/// The derived scroll window: which contiguous slice of the listing is
/// rendered. Computed fresh each render, never stored.
pub struct ViewportWindow {
    pub first_visible_index: usize,
    pub visible_count: usize,
}

/// The first rendered entry: the window trails the selection by
/// `ROWS_PER_PAGE` rows once the selection passes that threshold, and
/// otherwise starts at the top. The window only ever runs to the end of the
/// listing; it never scrolls back or re-centers.
pub open spec fn spec_first_visible(sel: int) -> int {
    if sel >= ROWS_PER_PAGE {
        sel - ROWS_PER_PAGE
    } else {
        0
    }
}

/// One display row: the text to print and whether it is the selected row,
/// to be visually distinguished.
pub struct RenderRow {
    pub text: String,
    pub is_selected: bool,
}

/// The text a row shows: the entry's name, with a slash appended to mark a
/// directory.
pub open spec fn row_text(e: EntryModel) -> Seq<char> {
    if e.is_directory {
        e.name.push('/')
    } else {
        e.name
    }
}

impl NavigationState {
    /// The scroll window for the current selection: a trailing window that
    /// starts `ROWS_PER_PAGE` rows above the selection and spans the rest
    /// of the listing.
    pub fn viewport_window(&self) -> (w: ViewportWindow)
        requires
            self.wf(),
        ensures
            w.first_visible_index == spec_first_visible(self.selected_index as int),
            w.first_visible_index + w.visible_count == self.entry_count,
    {
        let first: usize = if self.selected_index >= ROWS_PER_PAGE {
            self.selected_index - ROWS_PER_PAGE
        } else {
            0
        };
        ViewportWindow { first_visible_index: first, visible_count: self.entry_count - first }
    }

    /// The rows the render pass must draw: the window's slice of the
    /// listing in order, each row carrying its display text and whether it
    /// is the selected one.
    pub fn render_rows(&self, listing: &DirectoryListing) -> (rows: Vec<RenderRow>)
        requires
            self.wf(),
            listing@.len() == self.entry_count,
        ensures
            rows@.len() == self.entry_count - spec_first_visible(self.selected_index as int),
            forall|k: int|
                0 <= k < rows@.len() ==> {
                    let idx = spec_first_visible(self.selected_index as int) + k;
                    &&& (#[trigger] rows@[k]).text@ == row_text(listing@[idx])
                    &&& rows@[k].is_selected == (idx == self.selected_index)
                },
    {
        let w = self.viewport_window();
        let ghost first = w.first_visible_index as int;
        let mut rows: Vec<RenderRow> = Vec::new();
        let mut idx: usize = w.first_visible_index;
        while idx < self.entry_count
            invariant
                self.wf(),
                listing@.len() == self.entry_count,
                first == spec_first_visible(self.selected_index as int),
                first <= idx <= self.entry_count,
                rows@.len() == idx - first,
                forall|k: int|
                    0 <= k < rows@.len() ==> {
                        &&& (#[trigger] rows@[k]).text@ == row_text(listing@[first + k])
                        &&& rows@[k].is_selected == (first + k == self.selected_index)
                    },
            decreases self.entry_count - idx,
        {
            let e = &listing.entries[idx];
            let mut text = e.name.clone();
            if e.is_directory {
                text.append("/");
                proof {
                    reveal_strlit("/");
                    assert(text@ =~= e.name@.push('/'));
                }
            }
            let row = RenderRow { text, is_selected: idx == self.selected_index };
            rows.push(row);
            idx += 1;
        }
        rows
    }
}

/// The wrap law: on a non-empty listing, MoveUp from the first entry
/// selects the last entry, and MoveDown from the last entry selects the
/// first.
pub proof fn lemma_move_wraps(count: int)
    requires
        count > 0,
    ensures
        spec_move_up(0, count) == count - 1,
        spec_move_down(count - 1, count) == 0,
{
    broadcast use lemma_mod_self_0;

    lemma_small_mod((count - 1) as nat, count as nat);
}

/// The empty-listing law: with no entries, moving the selection in either
/// direction leaves it where it was.
pub proof fn lemma_empty_listing_noop(sel: int)
    ensures
        spec_move_up(sel, 0) == sel,
        spec_move_down(sel, 0) == sel,
{
}

} // verus!
