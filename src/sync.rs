//! The decisions of one download pass over comic numbers `1..=count`.
//!
//! The caller runs the pass: it asks `next_index` for each number in turn,
//! looks on disk for images, talks to the remote source, and saves the store
//! once `next_index` returns `None`. Whether a number needs work is judged
//! from the cache alone, so an interrupted pass resumes where it stopped.
use vstd::prelude::*;

use crate::store::{slot, Store};
use crate::comic::Comic;

verus! {

/// Progress through one pass over comic numbers `1..=count`.
pub struct SyncPass {
    /// The largest comic number, as the remote source's latest record gives it.
    pub count: usize,
    /// Whether cached comics and images are fetched again.
    pub redownload: bool,
    /// How many numbers have been handed out so far.
    pub visited: usize,
}

impl SyncPass {
    pub open spec fn wf(&self) -> bool {
        self.visited <= self.count
    }

    /// A pass that has visited nothing yet.
    pub fn new(count: usize, redownload: bool) -> (r: SyncPass)
        ensures
            r.wf(),
            r.count == count,
            r.redownload == redownload,
            r.visited == 0,
    {
        SyncPass { count, redownload, visited: 0 }
    }

    /// The next comic number to visit, in ascending order from 1; `None`
    /// once `count` has been handed out, when the store is to be saved.
    pub fn next_index(&mut self) -> (r: Option<usize>)
        requires
            old(self).wf(),
        ensures
            final(self).wf(),
            final(self).count == old(self).count,
            final(self).redownload == old(self).redownload,
            old(self).visited < old(self).count ==> r == Some((old(self).visited + 1) as usize)
                && final(self).visited == old(self).visited + 1,
            old(self).visited == old(self).count ==> r is None && final(self).visited
                == old(self).visited,
    {
        if self.visited < self.count {
            self.visited = self.visited + 1;
            Some(self.visited)
        } else {
            None
        }
    }
}

/// An item is complete when its record is cached and its image is on disk.
pub open spec fn item_complete(comics: Seq<Option<Comic>>, i: int, image_present: bool) -> bool {
    slot(comics, i) is Some && image_present
}

/// Whether the pass leaves comic `i` alone: it is cached and
/// `image_present` says that its image is on disk.
pub fn skip_item(store: &Store, i: usize, image_present: bool) -> (r: bool)
    ensures
        r == item_complete(store.comics@, i as int, image_present),
{
    store.has_comic(i) && image_present
}

/// Whether the image of a comic that the pass has just fetched is
/// downloaded: when it is missing, or when everything is fetched again.
pub fn wants_image(redownload: bool, image_present: bool) -> (r: bool)
    ensures
        r == (redownload || !image_present),
{
    redownload || !image_present
}

/// A pass over a store in which every comic `1..=n` is cached with its
/// image on disk skips every number, so it fetches nothing and downloads
/// nothing: running the pass again right after one that completed every
/// item costs no remote request.
pub proof fn lemma_complete_store_skips_all(comics: Seq<Option<Comic>>, n: int, present: Seq<bool>)
    requires
        present.len() > n,
        forall|i: int| 1 <= i <= n ==> slot(comics, i) is Some && #[trigger] present[i],
    ensures
        forall|i: int| 1 <= i <= n ==> #[trigger] item_complete(comics, i, present[i]),
{
}

} // verus!
