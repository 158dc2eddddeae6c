//! Folding a newest-first stream of source messages into posts: albums are
//! grouped, invalid posts are left out, and a bounded window keeps the
//! backlog that one run emits.

use vstd::prelude::*;
use crate::album::{attach_all, first_text, post_of_album, Album};
use crate::types::{bare_post, post_of_message, valid_post, Post, PostModel, RawMessage};
use crate::window::{window_push, FixedDeque};

verus! {

/// The marker that keeps a message off the destination platform.
pub const IGNORE: &'static str = "#tgonly";

/// The aggregation state as contracts see it.
pub struct AggState {
    /// The members of the open album, newest first; empty when none is open.
    pub album: Seq<RawMessage>,
    /// The key of the open album.
    pub group: Option<i64>,
    /// The posts kept so far, the oldest message first.
    pub window: Seq<PostModel>,
    /// The scan has reached the cursor.
    pub stopped: bool,
}

/// The state before any message is seen.
pub open spec fn agg_init() -> AggState {
    AggState { album: Seq::empty(), group: None, window: Seq::empty(), stopped: false }
}

/// `s` with `p` pushed into its window when `p` is valid and `newer` holds.
pub open spec fn keep_post(s: AggState, p: PostModel, newer: bool, size: int, ignore: Seq<char>) -> AggState {
    if newer && valid_post(p, ignore) {
        AggState { window: window_push(s.window, p, size), ..s }
    } else {
        s
    }
}

/// `s` with its open album closed into a post and kept when valid.
pub open spec fn close_album(s: AggState, size: int, ignore: Seq<char>) -> AggState {
    let t = keep_post(s, post_of_album(s.album), true, size, ignore);
    AggState { album: Seq::empty(), group: None, ..t }
}

/// `s` with a new album opened on `m`.
pub open spec fn open_album(s: AggState, m: RawMessage, g: i64) -> AggState {
    AggState { album: seq![m], group: Some(g), ..s }
}

/// Whether the scan stops at `m`: it is not newer than the cursor, and there
/// is no open album whose newest member is newer than the cursor (an album in
/// progress may finish across the cursor).
pub open spec fn reaches_cursor(s: AggState, m: RawMessage, cursor: int) -> bool {
    m.id <= cursor && (s.album.len() == 0 || s.album[0].id <= cursor)
}

/// The state after seeing message `m`.
pub open spec fn agg_step(s: AggState, m: RawMessage, cursor: int, size: int, ignore: Seq<char>) -> AggState {
    if s.stopped {
        s
    } else if reaches_cursor(s, m, cursor) {
        AggState { stopped: true, ..s }
    } else {
        match m.grouped_id {
            None => {
                let t = if s.album.len() == 0 { s } else { close_album(s, size, ignore) };
                keep_post(t, post_of_message(m), m.id > cursor, size, ignore)
            },
            Some(g) => {
                if s.album.len() == 0 {
                    open_album(s, m, g)
                } else if s.group == Some(g) {
                    AggState { album: s.album.push(m), ..s }
                } else {
                    open_album(close_album(s, size, ignore), m, g)
                }
            },
        }
    }
}

/// The state after seeing each of `msgs` in turn.
pub open spec fn agg_run(msgs: Seq<RawMessage>, cursor: int, size: int, ignore: Seq<char>) -> AggState
    decreases msgs.len(),
{
    if msgs.len() == 0 {
        agg_init()
    } else {
        agg_step(agg_run(msgs.drop_last(), cursor, size, ignore), msgs.last(), cursor, size, ignore)
    }
}

/// The models of a sequence of posts.
pub open spec fn post_models(ps: Seq<Post>) -> Seq<PostModel> {
    ps.map_values(|p: Post| p@)
}

proof fn lemma_push_models(w: Seq<Post>, p: Post, size: int)
    ensures
        post_models(window_push(w, p, size)) == window_push(post_models(w), p@, size),
{
    assert(post_models(seq![p] + w) =~= seq![p@] + post_models(w));
    let grown = seq![p] + w;
    if size >= 0 && grown.len() > size {
        assert(post_models(grown.drop_last()) =~= post_models(grown).drop_last());
    }
}

/// Folds a newest-first message stream into the posts of one run.
pub struct Aggregator {
    album: Album,
    window: FixedDeque<Post>,
    last_id: i32,
    size: i32,
    ignore: String,
    stopped: bool,
}

impl Aggregator {
    /// The state as contracts see it.
    pub closed spec fn model(&self) -> AggState {
        AggState {
            album: self.album.items@,
            group: self.album.id,
            window: post_models(self.window@),
            stopped: self.stopped,
        }
    }

    /// The cursor: the id of the last message mirrored before.
    pub closed spec fn cursor(&self) -> int {
        self.last_id as int
    }

    /// The bound on the posts one run emits.
    pub closed spec fn size(&self) -> int {
        self.size as int
    }

    /// The ignore marker.
    pub closed spec fn marker(&self) -> Seq<char> {
        self.ignore@
    }

    pub closed spec fn wf(&self) -> bool {
        &&& self.album.wf()
        &&& self.window.wf()
        &&& self.window.capacity() == self.size as int
    }

    /// An aggregator resuming after `last_id`, keeping at most `size` posts
    /// (no bound when negative), and leaving out posts whose text holds `ignore`.
    pub fn new(last_id: i32, size: i32, ignore: &str) -> (r: Aggregator)
        ensures
            r.wf(),
            r.model() == agg_init(),
            r.cursor() == last_id as int,
            r.size() == size as int,
            r.marker() == ignore@,
    {
        let r = Aggregator {
            album: Album::new(),
            window: FixedDeque::new(size),
            last_id,
            size,
            ignore: String::from_str(ignore),
            stopped: false,
        };
        assert(post_models(r.window@) =~= Seq::<PostModel>::empty());
        r
    }

    fn keep(&mut self, post: Post, newer: bool)
        requires
            old(self).wf(),
        ensures
            final(self).wf(),
            final(self).model() == keep_post(old(self).model(), post@, newer, old(self).size(), old(self).marker()),
            final(self).cursor() == old(self).cursor(),
            final(self).size() == old(self).size(),
            final(self).marker() == old(self).marker(),
    {
        if newer && post.validate(self.ignore.as_str()) {
            proof {
                lemma_push_models(self.window@, post, self.size as int);
            }
            self.window.push(post);
        }
    }

    fn close_open_album(&mut self)
        requires
            old(self).wf(),
            old(self).model().album.len() > 0,
        ensures
            final(self).wf(),
            final(self).model() == close_album(old(self).model(), old(self).size(), old(self).marker()),
            final(self).cursor() == old(self).cursor(),
            final(self).size() == old(self).size(),
            final(self).marker() == old(self).marker(),
    {
        let post = self.album.close();
        self.keep(post, true);
    }

    /// Takes the next (older) message of the stream. Returns whether the scan
    /// goes on, that is whether the cursor has not been reached.
    pub fn feed(&mut self, msg: RawMessage) -> (cont: bool)
        requires
            old(self).wf(),
        ensures
            final(self).wf(),
            final(self).model() == agg_step(old(self).model(), msg, old(self).cursor(), old(self).size(), old(self).marker()),
            final(self).cursor() == old(self).cursor(),
            final(self).size() == old(self).size(),
            final(self).marker() == old(self).marker(),
            cont == !final(self).model().stopped,
    {
        if self.stopped {
            return false;
        }
        if msg.id <= self.last_id && (self.album.is_empty() || self.album.get_msg_id() <= self.last_id) {
            self.stopped = true;
            return false;
        }
        match msg.grouped_id {
            None => {
                if !self.album.is_empty() {
                    self.close_open_album();
                }
                let newer = msg.id > self.last_id;
                let post = Post::from_message(msg);
                self.keep(post, newer);
            },
            Some(g) => {
                if self.album.is_empty() {
                    self.album.start(Some(g));
                    self.album.add_item(msg);
                    assert(self.album.items@ =~= seq![msg]);
                } else if g == self.album.get_group() {
                    self.album.add_item(msg);
                } else {
                    self.close_open_album();
                    self.album.start(Some(g));
                    self.album.add_item(msg);
                    assert(self.album.items@ =~= seq![msg]);
                }
            },
        }
        true
    }

    /// The posts kept, the oldest message first. An album still open is
    /// dropped: it cannot be known to be complete.
    pub fn finish(self) -> (r: Vec<Post>)
        requires
            self.wf(),
        ensures
            post_models(r@) == self.model().window,
            self.size() >= 0 ==> r@.len() <= self.size(),
    {
        self.window.iterator()
    }
}

/// The posts that one run emits for a newest-first message stream, resuming
/// after `last_id`, keeping at most `size` of them and leaving out those
/// whose text holds `ignore`.
pub fn aggregate(messages: Vec<RawMessage>, last_id: i32, size: i32, ignore: &str) -> (r: Vec<Post>)
    ensures
        post_models(r@) == agg_run(messages@, last_id as int, size as int, ignore@).window,
        size >= 0 ==> r@.len() <= size,
{
    let ghost msgs = messages@;
    let mut agg = Aggregator::new(last_id, size, ignore);
    let mut source = messages;
    let mut rest: Vec<RawMessage> = Vec::new();
    while source.len() > 0
        invariant
            source@.len() <= msgs.len(),
            source@ == msgs.subrange(0, source@.len() as int),
            rest@ == msgs.subrange(source@.len() as int, msgs.len() as int).reverse(),
        decreases source@.len(),
    {
        let ghost len = source@.len() as int;
        let ghost rest_before = rest@;
        let m = source.pop().unwrap();
        rest.push(m);
        assert(source@ =~= msgs.subrange(0, len - 1));
        assert(rest@ == rest_before.push(msgs[len - 1]));
        assert(rest@ =~= msgs.subrange(source@.len() as int, msgs.len() as int).reverse());
    }
    assert(msgs.subrange(0, msgs.len() as int) =~= msgs);
    let mut fed: usize = 0;
    let n = rest.len();
    let mut going = true;
    while going && rest.len() > 0
        invariant
            agg.wf(),
            agg.cursor() == last_id as int,
            agg.size() == size as int,
            agg.marker() == ignore@,
            n == msgs.len(),
            fed + rest@.len() == n,
            rest@ == msgs.subrange(fed as int, n as int).reverse(),
            agg.model() == agg_run(msgs.subrange(0, fed as int), last_id as int, size as int, ignore@),
            !going ==> agg.model().stopped,
        decreases rest@.len(),
    {
        let m = rest.pop().unwrap();
        proof {
            assert(msgs.subrange(0, fed + 1).drop_last() =~= msgs.subrange(0, fed as int));
            assert(msgs.subrange(fed + 1, n as int).reverse() =~= rest@);
        }
        going = agg.feed(m);
        fed += 1;
    }
    proof {
        lemma_run_after_stop(msgs, fed as int, last_id as int, size as int, ignore@);
    }
    agg.finish()
}

proof fn lemma_run_after_stop(msgs: Seq<RawMessage>, k: int, cursor: int, size: int, ignore: Seq<char>)
    requires
        0 <= k <= msgs.len(),
        k == msgs.len() || agg_run(msgs.subrange(0, k), cursor, size, ignore).stopped,
    ensures
        agg_run(msgs, cursor, size, ignore) == agg_run(msgs.subrange(0, k), cursor, size, ignore),
    decreases msgs.len() - k,
{
    if k < msgs.len() {
        let next = msgs.subrange(0, k + 1);
        assert(next.drop_last() =~= msgs.subrange(0, k));
        lemma_run_after_stop(msgs, k + 1, cursor, size, ignore);
    } else {
        assert(msgs.subrange(0, k) =~= msgs);
    }
}

/// Message ids fall strictly along the stream, as in a newest-first listing.
pub open spec fn ids_decreasing(msgs: Seq<RawMessage>) -> bool {
    forall|i: int, j: int| 0 <= i < j < msgs.len() ==> #[trigger] msgs[i].id > #[trigger] msgs[j].id
}

/// Every post of `w` is valid.
pub open spec fn all_valid(w: Seq<PostModel>, ignore: Seq<char>) -> bool {
    forall|i: int| 0 <= i < w.len() ==> valid_post(#[trigger] w[i], ignore)
}

/// Every post of `w` is newer than the cursor.
pub open spec fn all_after(w: Seq<PostModel>, cursor: int) -> bool {
    forall|i: int| 0 <= i < w.len() ==> (#[trigger] w[i]).id > cursor
}

proof fn lemma_window_push_elems<T>(w: Seq<T>, e: T, size: int)
    ensures
        forall|i: int| 0 <= i < window_push(w, e, size).len() ==> #[trigger] window_push(w, e, size)[i] == (seq![e] + w)[i],
        window_push(w, e, size).len() <= w.len() + 1,
{
}

proof fn lemma_keep_post_inv(s: AggState, p: PostModel, newer: bool, size: int, ignore: Seq<char>, cursor: int)
    requires
        all_valid(s.window, ignore),
    ensures
        all_valid(keep_post(s, p, newer, size, ignore).window, ignore),
        all_after(s.window, cursor) && (newer && valid_post(p, ignore) ==> p.id > cursor) ==> all_after(
            keep_post(s, p, newer, size, ignore).window,
            cursor,
        ),
        keep_post(s, p, newer, size, ignore).album == s.album,
{
    if newer && valid_post(p, ignore) {
        lemma_window_push_elems(s.window, p, size);
        let w = window_push(s.window, p, size);
        assert forall|i: int| 0 <= i < w.len() implies valid_post(#[trigger] w[i], ignore) by {
            assert(w[i] == (seq![p] + s.window)[i]);
            if i > 0 {
                assert(w[i] == s.window[i - 1]);
            }
        }
        if all_after(s.window, cursor) && p.id > cursor {
            assert forall|i: int| 0 <= i < w.len() implies (#[trigger] w[i]).id > cursor by {
                if i > 0 {
                    assert(w[i] == s.window[i - 1]);
                }
            }
        }
    }
}

proof fn lemma_attach_all_id(p: PostModel, msgs: Seq<RawMessage>)
    ensures
        attach_all(p, msgs).id == p.id,
    decreases msgs.len(),
{
    if msgs.len() > 0 {
        lemma_attach_all_id(p, msgs.drop_last());
    }
}

proof fn lemma_run_inv(msgs: Seq<RawMessage>, cursor: int, size: int, ignore: Seq<char>)
    ensures
        all_valid(agg_run(msgs, cursor, size, ignore).window, ignore),
        ids_decreasing(msgs) ==> all_after(agg_run(msgs, cursor, size, ignore).window, cursor),
        ids_decreasing(msgs) && agg_run(msgs, cursor, size, ignore).album.len() > 0 ==> msgs.len() > 0
            && agg_run(msgs, cursor, size, ignore).album.last().id >= msgs.last().id
            && agg_run(msgs, cursor, size, ignore).album[0].id >= agg_run(msgs, cursor, size, ignore).album.last().id,
    decreases msgs.len(),
{
    if msgs.len() > 0 {
        let prev = msgs.drop_last();
        lemma_run_inv(prev, cursor, size, ignore);
        let s = agg_run(prev, cursor, size, ignore);
        let m = msgs.last();
        if ids_decreasing(msgs) {
            assert forall|i: int, j: int| 0 <= i < j < prev.len() implies #[trigger] prev[i].id > #[trigger] prev[j].id by {
                assert(prev[i] == msgs[i] && prev[j] == msgs[j]);
            }
            if prev.len() > 0 {
                assert(msgs[prev.len() - 1].id > msgs[msgs.len() - 1].id);
            }
        }
        if s.album.len() > 0 {
            lemma_attach_all_id(
                bare_post(s.album[0].id as int, first_text(s.album)),
                s.album.reverse(),
            );
        }
        lemma_keep_post_inv(s, post_of_album(s.album), true, size, ignore, cursor);
        let after_close = close_album(s, size, ignore);
        lemma_keep_post_inv(after_close, post_of_message(m), m.id > cursor, size, ignore, cursor);
        lemma_keep_post_inv(s, post_of_message(m), m.id > cursor, size, ignore, cursor);
        if !s.stopped && !reaches_cursor(s, m, cursor) {
            match m.grouped_id {
                None => {
                    assert(post_of_message(m).id == m.id);
                },
                Some(g) => {
                    if s.album.len() > 0 && s.group == Some(g) {
                        assert(s.album.push(m).last() == m);
                    }
                },
            }
        }
    }
}

/// No post that the aggregator emits holds the ignore marker in its text,
/// whatever media it carries; nor is any of them empty.
pub proof fn lemma_emitted_posts_valid(msgs: Seq<RawMessage>, cursor: int, size: int, ignore: Seq<char>)
    ensures
        forall|i: int|
            0 <= i < agg_run(msgs, cursor, size, ignore).window.len() ==> valid_post(
                #[trigger] agg_run(msgs, cursor, size, ignore).window[i],
                ignore,
            ),
{
    lemma_run_inv(msgs, cursor, size, ignore);
}

/// For a newest-first stream, every post that a run resuming after `cursor`
/// emits is newer than the cursor: nothing mirrored before is emitted again.
pub proof fn lemma_emitted_posts_after_cursor(msgs: Seq<RawMessage>, cursor: int, size: int, ignore: Seq<char>)
    requires
        ids_decreasing(msgs),
    ensures
        forall|i: int|
            0 <= i < agg_run(msgs, cursor, size, ignore).window.len() ==> (
            #[trigger] agg_run(msgs, cursor, size, ignore).window[i]).id > cursor,
{
    lemma_run_inv(msgs, cursor, size, ignore);
}

} // verus!
