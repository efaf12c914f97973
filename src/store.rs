use vstd::prelude::*;

use crate::comic::{is_not_found_record, Comic, NOT_FOUND_NUM};

verus! {

/// Why a comic could not be had.
#[derive(Clone, Debug)]
pub enum FetchError {
    /// Comic number 0 was asked for; there is no such comic.
    InvalidIndex,
    /// The remote source could not be reached, answered with an error, or
    /// sent a body that does not parse; the text says which.
    RemoteUnavailable(String),
}

/// The comic cache and the tier of each comic number.
///
/// `comics[i]` holds comic `i` once it has been fetched (slot 0 is never
/// used); `tier_assignments[i]` is the tier of comic `i`, 0 meaning unsorted.
pub struct Store {
    pub comics: Vec<Option<Comic>>,
    pub tier_assignments: Vec<u8>,
    /// Set by every change of a tier, cleared by a successful save.
    pub unsaved: bool,
}

impl Default for Store {
    fn default() -> (r: Store)
        ensures
            r.comics@.len() == 0,
            r.tier_assignments@.len() == 0,
            !r.unsaved,
    {
        Store::new()
    }
}

/// Slot `i` of a comic sequence; `None` past its end.
pub open spec fn slot(comics: Seq<Option<Comic>>, i: int) -> Option<Comic> {
    if 0 <= i < comics.len() {
        comics[i]
    } else {
        None
    }
}

/// `s` extended with copies of `fill` up to length `n` (unchanged if already that long).
pub open spec fn padded<T>(s: Seq<T>, n: nat, fill: T) -> Seq<T> {
    if s.len() >= n {
        s
    } else {
        s + Seq::new((n - s.len()) as nat, |_j: int| fill)
    }
}

/// The tier that a tier sequence gives comic `i`: 0 past its end.
pub open spec fn tier_at(tiers: Seq<u8>, i: int) -> u8 {
    if 0 <= i < tiers.len() {
        tiers[i]
    } else {
        0
    }
}

/// The record that an optional reference points to.
pub open spec fn deref_opt(o: Option<&Comic>) -> Option<Comic> {
    match o {
        Some(c) => Some(*c),
        None => None,
    }
}

/// The tier sequence after `set_tier_of_comic(i, t)` on a store with
/// `n_comics` comic slots: grown to hold every comic slot, then slot `i`
/// written only where `i` is a comic slot.
pub open spec fn tiers_after_set(tiers: Seq<u8>, n_comics: nat, i: int, t: u8) -> Seq<u8> {
    let grown = padded(tiers, n_comics + 1, 0u8);
    if 0 <= i < n_comics {
        grown.update(i, t)
    } else {
        grown
    }
}

impl Store {
    /// An empty store: no comics, no tiers, nothing unsaved.
    pub fn new() -> (r: Store)
        ensures
            r.comics@.len() == 0,
            r.tier_assignments@.len() == 0,
            !r.unsaved,
    {
        Store { comics: Vec::new(), tier_assignments: Vec::new(), unsaved: false }
    }

    /// Whether comic `i` is cached.
    pub fn has_comic(&self, i: usize) -> (r: bool)
        ensures
            r == slot(self.comics@, i as int) is Some,
    {
        i < self.comics.len() && self.comics[i].is_some()
    }

    /// Looks up comic `i`, first growing the comic sequence with empty slots
    /// so that it holds index `i`.
    ///
    /// A cached record is returned as it is. For the reserved number the
    /// placeholder is stored and returned. Otherwise `Ok(None)` says that the
    /// record must come from the remote source and be handed to
    /// `insert_fetched`. Number 0 is refused and the store left as it was.
    pub fn fetch_comic(&mut self, i: usize) -> (r: Result<Option<&Comic>, FetchError>)
        requires
            i < usize::MAX,
        ensures
            i == 0 ==> r is Err && r->Err_0 == FetchError::InvalidIndex && *final(self) == *old(self),
            i > 0 ==> r is Ok,
            i > 0 && slot(old(self).comics@, i as int) is Some ==> {
                &&& deref_opt(r->Ok_0) == slot(old(self).comics@, i as int)
                &&& final(self).comics@ == padded(old(self).comics@, (i + 1) as nat, None)
            },
            i > 0 && slot(old(self).comics@, i as int) is None ==> {
                &&& final(self).comics@ == padded(old(self).comics@, (i + 1) as nat, None).update(
                    i as int,
                    deref_opt(r->Ok_0),
                )
                &&& i == NOT_FOUND_NUM ==> r->Ok_0 is Some && is_not_found_record(*r->Ok_0->Some_0)
                &&& i != NOT_FOUND_NUM ==> r->Ok_0 is None
            },
            final(self).tier_assignments == old(self).tier_assignments,
            final(self).unsaved == old(self).unsaved,
    {
        if i == 0 {
            return Err(FetchError::InvalidIndex);
        }
        while self.comics.len() <= i
            invariant
                i < usize::MAX,
                self.comics@.len() <= i + 1 || self.comics@ == old(self).comics@,
                self.comics@ == padded(old(self).comics@, self.comics@.len(), None),
                self.tier_assignments == old(self).tier_assignments,
                self.unsaved == old(self).unsaved,
            decreases i + 1 - self.comics@.len(),
        {
            self.comics.push(None);
        }
        if self.comics[i].is_none() {
            self.comics.set(i, Comic::get_nth(i));
        }
        Ok(self.comics[i].as_ref())
    }

    /// Stores a record that the remote source returned for comic `i` and
    /// returns it; an error is handed back and the store left as it was.
    pub fn insert_fetched(&mut self, i: usize, fetched: Result<Comic, FetchError>) -> (r: Result<
        &Comic,
        FetchError,
    >)
        requires
            0 < i < old(self).comics@.len(),
        ensures
            fetched is Ok ==> {
                &&& r is Ok
                &&& *r->Ok_0 == fetched->Ok_0
                &&& final(self).comics@ == old(self).comics@.update(i as int, Some(fetched->Ok_0))
                &&& final(self).tier_assignments == old(self).tier_assignments
                &&& final(self).unsaved == old(self).unsaved
            },
            fetched is Err ==> r is Err && r->Err_0 == fetched->Err_0 && *final(self) == *old(self),
    {
        match fetched {
            Ok(c) => {
                self.comics.set(i, Some(c));
                Ok(self.comics[i].as_ref().unwrap())
            },
            Err(e) => Err(e),
        }
    }

    /// Grows the tier sequence with tier 0 so that it has a slot for every
    /// comic slot and one more; a longer one is left as it is.
    pub fn ensure_tiers_exist(&mut self)
        requires
            old(self).comics@.len() < usize::MAX,
        ensures
            final(self).tier_assignments@ == padded(
                old(self).tier_assignments@,
                (old(self).comics@.len() + 1) as nat,
                0u8,
            ),
            final(self).comics == old(self).comics,
            final(self).unsaved == old(self).unsaved,
    {
        let n = self.comics.len() + 1;
        while self.tier_assignments.len() < n
            invariant
                n == old(self).comics@.len() + 1,
                self.comics == old(self).comics,
                self.unsaved == old(self).unsaved,
                self.tier_assignments@.len() <= n || self.tier_assignments@
                    == old(self).tier_assignments@,
                self.tier_assignments@ == padded(
                    old(self).tier_assignments@,
                    self.tier_assignments@.len(),
                    0u8,
                ),
            decreases n - self.tier_assignments@.len(),
        {
            self.tier_assignments.push(0);
        }
    }

    /// The tier of comic `i`: 0 where none was recorded.
    pub fn get_tier_of_comic(&self, i: usize) -> (r: u8)
        ensures
            r == tier_at(self.tier_assignments@, i as int),
    {
        if i < self.tier_assignments.len() {
            self.tier_assignments[i]
        } else {
            0
        }
    }

    /// Puts comic `i` in tier `tier` and marks the store unsaved. The tier
    /// sequence is grown first; the assignment is dropped where `i` is not a
    /// slot of the comic sequence.
    pub fn set_tier_of_comic(&mut self, i: usize, tier: u8)
        requires
            old(self).comics@.len() < usize::MAX,
        ensures
            final(self).tier_assignments@ == tiers_after_set(
                old(self).tier_assignments@,
                old(self).comics@.len(),
                i as int,
                tier,
            ),
            final(self).comics == old(self).comics,
            final(self).unsaved,
    {
        self.unsaved = true;
        self.ensure_tiers_exist();
        if i < self.comics.len() {
            self.tier_assignments.set(i, tier);
        }
    }
}

/// Once a fetch of comic `i > 0` has succeeded with record `c` (from the
/// cache, as the placeholder, or through `insert_fetched`), the comic
/// sequence holds `c` at `i`, so `has_comic(i)` is true; and a later
/// `fetch_comic(i)` finds the slot set, grows nothing, and returns that same
/// record without asking the remote source.
pub proof fn lemma_fetched_comic_stays_cached(comics: Seq<Option<Comic>>, i: int, c: Comic)
    requires
        0 < i,
    ensures
        ({
            let after = padded(comics, (i + 1) as nat, None).update(i, Some(c));
            &&& slot(after, i) == Some(c)
            &&& padded(after, (i + 1) as nat, None) == after
        }),
{
}

/// Growing the tier sequence never gives a comic a tier: a number that
/// holds no recorded tier reads as tier 0, within the sequence or past it,
/// before and after any growth.
pub proof fn lemma_unset_tier_is_zero(tiers: Seq<u8>, n: nat, i: int)
    requires
        tier_at(tiers, i) == 0,
    ensures
        tier_at(padded(tiers, n, 0u8), i) == 0,
{
}

/// Setting a tier and reading it back: for a comic slot `i` the tier read is
/// the one set; for `i` past the comic slots the assignment is dropped, and
/// where `i` had no tier it still reads 0 however far the tiers later grow.
pub proof fn lemma_set_then_get_tier(tiers: Seq<u8>, n_comics: nat, i: int, t: u8, later: nat)
    requires
        0 <= i,
    ensures
        i < n_comics ==> tier_at(tiers_after_set(tiers, n_comics, i, t), i) == t,
        i >= n_comics && tier_at(tiers, i) == 0 ==> tier_at(
            padded(tiers_after_set(tiers, n_comics, i, t), later, 0u8),
            i,
        ) == 0,
{
}

} // verus!
