//! The cursor: the id of the last post whose handling is complete, read at
//! start-up and overwritten after every post.

use vstd::prelude::*;
use crate::types::Post;

verus! {

/// The cursor value that means no prior state.
pub const NO_STATE: i32 = -1;

/// The cursor after recording a post with id `id`: the stored id is
/// overwritten, not appended to.
pub open spec fn record_step(cursor: int, id: int) -> int {
    id
}

/// The cursor after recording the posts with ids `ids`, one after the other,
/// starting from `start`.
pub open spec fn cursor_after(start: int, ids: Seq<int>) -> int
    decreases ids.len(),
{
    if ids.len() == 0 {
        start
    } else {
        record_step(cursor_after(start, ids.drop_last()), ids.last())
    }
}

/// The cursor store.
pub struct Persister {
    tg_id: i32,
}

impl Persister {
    pub closed spec fn last(&self) -> int {
        self.tg_id as int
    }

    /// The store resuming from a saved cursor, or from no state.
    pub fn new(saved: Option<i32>) -> (r: Persister)
        ensures
            r.last() == match saved {
                Some(id) => id as int,
                None => NO_STATE as int,
            },
    {
        match saved {
            Some(id) => Persister { tg_id: id },
            None => Persister { tg_id: NO_STATE },
        }
    }

    /// The id of the last post whose handling is complete.
    pub fn get_last_id(&self) -> (r: i32)
        ensures
            r as int == self.last(),
    {
        self.tg_id
    }

    /// Records that `post` has been handled.
    pub fn record(&mut self, post: &Post)
        ensures
            final(self).last() == record_step(old(self).last(), post.id as int),
    {
        self.tg_id = post.id;
    }
}

/// After a run, the cursor holds the id of the last post that reached the
/// store, or the cursor it started from when none did.
pub proof fn lemma_cursor_is_last_recorded(start: int, ids: Seq<int>)
    ensures
        cursor_after(start, ids) == if ids.len() == 0 {
            start
        } else {
            ids.last()
        },
{
}

} // verus!
