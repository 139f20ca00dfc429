use vstd::prelude::*;
use crate::listing::{DirectoryListing, EntryModel};

verus! {

/// Whether `term` names entry `e` as a jump candidate: only directories are
/// candidates, and the match policy is a prefix match on the entry name.
pub open spec fn entry_matches(e: EntryModel, term: Seq<char>) -> bool {
    e.is_directory && term.is_prefix_of(e.name)
}

/// Whether some entry of `l` is a jump candidate for `term`.
pub open spec fn has_match(l: Seq<EntryModel>, term: Seq<char>) -> bool {
    exists|i: int| 0 <= i < l.len() && entry_matches(l[i], term)
}

/// Whether `i` is the first jump candidate for `term` in `l`.
pub open spec fn is_first_match(l: Seq<EntryModel>, term: Seq<char>, i: int) -> bool {
    &&& 0 <= i < l.len()
    &&& entry_matches(l[i], term)
    &&& forall|j: int| 0 <= j < i ==> !entry_matches(l[j], term)
}

/// Whether `prefix` is a prefix of `s`, compared character by character.
pub fn starts_with(s: &str, prefix: &str) -> (r: bool)
    ensures
        r == prefix@.is_prefix_of(s@),
{
    let n = prefix.unicode_len();
    if n > s.unicode_len() {
        return false;
    }
    let mut i: usize = 0;
    while i < n
        invariant
            i <= n,
            n == prefix@.len() <= s@.len(),
            forall|j: int| 0 <= j < i ==> s@[j] == prefix@[j],
        decreases n - i,
    {
        if s.get_char(i) != prefix.get_char(i) {
            return false;
        }
        i += 1;
    }
    proof {
        assert(prefix@ =~= s@.subrange(0, n as int));
    }
    true
}

/// The search resolver: the index of the first directory entry, in listing
/// order, whose name starts with `term`; `None` when no entry qualifies.
/// `None` is not an error: the caller treats it as a no-op.
pub fn resolve(listing: &DirectoryListing, term: &str) -> (r: Option<usize>)
    ensures
        match r {
            Some(i) => is_first_match(listing@, term@, i as int),
            None => !has_match(listing@, term@),
        },
{
    let mut i: usize = 0;
    let n = listing.entries.len();
    while i < n
        invariant
            i <= n,
            n == listing@.len(),
            forall|j: int| 0 <= j < i ==> !entry_matches(listing@[j], term@),
        decreases n - i,
    {
        let e = &listing.entries[i];
        if e.is_directory && starts_with(e.name.as_str(), term) {
            return Some(i);
        }
        i += 1;
    }
    None
}

} // verus!
