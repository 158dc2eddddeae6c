//! An album: consecutive source messages that share a group key and become
//! one post.

use vstd::prelude::*;
use crate::media::MediaRef;
use crate::types::{bare_post, with_attachment, Attachment, Post, PostModel, RawMessage};

verus! {

/// The text of the first message in `items` whose text is not empty, or the
/// empty text when there is none.
pub open spec fn first_text(items: Seq<RawMessage>) -> Seq<char>
    decreases items.len(),
{
    if items.len() == 0 {
        Seq::empty()
    } else if items[0].text@.len() > 0 {
        items[0].text@
    } else {
        first_text(items.drop_first())
    }
}

/// `p` with the media of each of `msgs` attached in turn; messages without
/// media add nothing.
pub open spec fn attach_all(p: PostModel, msgs: Seq<RawMessage>) -> PostModel
    decreases msgs.len(),
{
    if msgs.len() == 0 {
        p
    } else {
        let q = attach_all(p, msgs.drop_last());
        let m = msgs.last();
        match m.media {
            Some(k) => with_attachment(q, MediaRef { message_id: m.id, kind: k }),
            None => q,
        }
    }
}

/// The post that an album becomes. Its members are listed newest first; the
/// post takes the id of the newest, the first non-empty text in that listing,
/// and the members' media oldest first.
pub open spec fn post_of_album(items: Seq<RawMessage>) -> PostModel {
    attach_all(bare_post(items[0].id as int, first_text(items)), items.reverse())
}

/// The messages of an album being collected, newest first, and its group key.
pub struct Album {
    pub items: Vec<RawMessage>,
    pub id: Option<i64>,
}

impl Album {
    /// An album with members has a group key.
    pub open spec fn wf(&self) -> bool {
        self.items@.len() > 0 ==> self.id is Some
    }

    /// An album with no members and no key.
    pub fn new() -> (r: Album)
        ensures
            r.items@ == Seq::<RawMessage>::empty(),
            r.id is None,
    {
        Album { items: Vec::new(), id: None }
    }

    /// Sets the group key.
    pub fn start(&mut self, id: Option<i64>)
        ensures
            final(self).id == id,
            final(self).items@ == old(self).items@,
    {
        self.id = id;
    }

    /// The group key.
    pub fn get_group(&self) -> (r: i64)
        requires
            self.id is Some,
        ensures
            self.id == Some(r),
    {
        self.id.unwrap()
    }

    /// The id of the newest member.
    pub fn get_msg_id(&self) -> (r: i32)
        requires
            self.items@.len() > 0,
        ensures
            r == self.items@[0].id,
    {
        self.items[0].id
    }

    /// Adds an older member.
    pub fn add_item(&mut self, m: RawMessage)
        ensures
            final(self).items@ == old(self).items@.push(m),
            final(self).id == old(self).id,
    {
        self.items.push(m);
    }

    pub fn is_empty(&self) -> (r: bool)
        ensures
            r == (self.items@.len() == 0),
    {
        self.items.len() == 0
    }

    /// Turns the album into its post and leaves it empty, without a key.
    pub fn close(&mut self) -> (r: Post)
        requires
            old(self).items@.len() > 0,
        ensures
            r@ == post_of_album(old(self).items@),
            final(self).items@ == Seq::<RawMessage>::empty(),
            final(self).id is None,
    {
        let ghost all = self.items@;
        let n = self.items.len();
        let mut i: usize = 0;
        let mut found = false;
        assert(all.subrange(0, n as int) =~= all);
        while i < n && !found
            invariant
                n == self.items@.len(),
                self.items@ == all,
                i <= n,
                !found ==> first_text(all) == first_text(all.subrange(i as int, n as int)),
                found ==> i < n && all[i as int].text@.len() > 0 && first_text(all) == all[i as int].text@,
            decreases n - i + (if found { 0int } else { 1int }),
        {
            assert(all.subrange(i as int, n as int).drop_first() =~= all.subrange(i + 1, n as int));
            if self.items[i].text.unicode_len() > 0 {
                found = true;
            } else {
                i += 1;
            }
        }
        let text = if found {
            self.items[i].text.clone()
        } else {
            assert(all.subrange(n as int, n as int) =~= Seq::<RawMessage>::empty());
            String::new()
        };
        let id = self.items[0].id;
        let mut post = Post::new(id, text);
        let ghost base = post@;
        let ghost rev = all.reverse();
        while self.items.len() > 0
            invariant
                self.items@ == all.subrange(0, self.items@.len() as int),
                self.items@.len() <= n,
                n == all.len(),
                rev == all.reverse(),
                post@ == attach_all(base, rev.subrange(0, n - self.items@.len())),
            decreases self.items@.len(),
        {
            let ghost k = n - self.items@.len();
            let m = self.items.pop().unwrap();
            assert(rev.subrange(0, k + 1).drop_last() =~= rev.subrange(0, k));
            assert(rev.subrange(0, k + 1).last() == m);
            assert(self.items@ =~= all.subrange(0, self.items@.len() as int));
            let mid = m.id;
            match m.media {
                Some(kind) => {
                    post.add_tg_attachment(Attachment::new(MediaRef { message_id: mid, kind }));
                },
                None => {},
            }
        }
        assert(rev.subrange(0, n as int) =~= rev);
        self.id = None;
        post
    }
}

} // verus!
