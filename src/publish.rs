//! Publishing a post on the destination platform: what is submitted, when a
//! post is dropped, and how a refused submission is classified.

use vstd::prelude::*;
use crate::text::{seq_contains, text_contains};
use crate::types::{Post, PostModel};

verus! {

/// The part of the platform's error text that says the attached media ids
/// were refused; such a post is never retried.
pub const MEDIA_REJECTED: &'static str = "Your media IDs are invalid";

/// The content of a post to submit: its text and the media ids to attach.
#[derive(Debug, Clone)]
pub struct TwitterBuilder {
    media_ids: Vec<u64>,
    text: String,
}

impl TwitterBuilder {
    pub closed spec fn spec_media_ids(&self) -> Seq<u64> {
        self.media_ids@
    }

    pub closed spec fn spec_text(&self) -> Seq<char> {
        self.text@
    }

    /// An empty submission: no text, no media.
    pub fn new() -> (r: TwitterBuilder)
        ensures
            r.spec_media_ids() == Seq::<u64>::empty(),
            r.spec_text() == Seq::<char>::empty(),
    {
        TwitterBuilder { media_ids: Vec::new(), text: String::new() }
    }

    /// Attaches one more media id.
    pub fn add_media(&mut self, media_id: u64)
        ensures
            final(self).spec_media_ids() == old(self).spec_media_ids().push(media_id),
            final(self).spec_text() == old(self).spec_text(),
    {
        self.media_ids.push(media_id);
    }

    /// Replaces the text.
    pub fn set_text(&mut self, text: String)
        ensures
            final(self).spec_text() == text@,
            final(self).spec_media_ids() == old(self).spec_media_ids(),
    {
        self.text = text;
    }

    pub fn media_ids(&self) -> (r: &Vec<u64>)
        ensures
            r@ == self.spec_media_ids(),
    {
        &self.media_ids
    }

    pub fn text(&self) -> (r: String)
        ensures
            r@ == self.spec_text(),
    {
        self.text.clone()
    }

    /// Whether there is anything to publish: some text or some media.
    pub fn is_publishable(&self) -> (r: bool)
        ensures
            r == !(self.spec_text().len() == 0 && self.spec_media_ids().len() == 0),
    {
        !(self.text.unicode_len() == 0 && self.media_ids.len() == 0)
    }
}

/// A post has something to publish: text or uploaded media.
pub open spec fn publishable(p: PostModel) -> bool {
    !(p.text.len() == 0 && p.media_ids.len() == 0)
}

/// The submission for a post: its text and its uploaded media ids, in order.
pub fn tweet_for(post: &Post) -> (r: TwitterBuilder)
    ensures
        r.spec_text() == post@.text,
        r.spec_media_ids() == post@.media_ids,
{
    let mut builder = TwitterBuilder::new();
    builder.set_text(post.text.clone());
    let mut i: usize = 0;
    while i < post.tw_attachments.len()
        invariant
            i <= post.tw_attachments@.len(),
            builder.spec_text() == post.text@,
            builder.spec_media_ids() == post.tw_attachments@.subrange(0, i as int),
        decreases post.tw_attachments@.len() - i,
    {
        builder.add_media(post.tw_attachments[i]);
        assert(post.tw_attachments@.subrange(0, i + 1) =~= post.tw_attachments@.subrange(0, i as int).push(
            post.tw_attachments@[i as int],
        ));
        i += 1;
    }
    assert(post.tw_attachments@.subrange(0, i as int) =~= post.tw_attachments@);
    builder
}

/// The submission for a post, or nothing when the post has nothing to
/// publish and is to be dropped.
pub fn prepare_publish(post: &Post) -> (r: Option<TwitterBuilder>)
    ensures
        r is None <==> !publishable(post@),
        r matches Some(b) ==> b.spec_text() == post@.text && b.spec_media_ids() == post@.media_ids,
{
    let tweet = tweet_for(post);
    if tweet.is_publishable() {
        Some(tweet)
    } else {
        None
    }
}

/// What becomes of a post at the publish step.
#[derive(Debug, Clone, Copy, PartialEq, Eq, Structural)]
pub enum PublishOutcome {
    /// Nothing to publish: not submitted and not handed on.
    Dropped,
    /// Published, or refused for good for its media: handed on so that the
    /// cursor moves past it.
    Forwarded,
    /// Refused for another reason: the run stops.
    Fatal,
}

/// The outcome of a submission that was refused with `message`, or that
/// succeeded when there is none.
pub open spec fn send_outcome(error: Option<Seq<char>>) -> PublishOutcome {
    match error {
        None => PublishOutcome::Forwarded,
        Some(m) => if seq_contains(m, MEDIA_REJECTED@) {
            PublishOutcome::Forwarded
        } else {
            PublishOutcome::Fatal
        },
    }
}

/// The outcome for post `p` when a submission would end with `error`.
pub open spec fn publish_outcome(p: PostModel, error: Option<Seq<char>>) -> PublishOutcome {
    if publishable(p) {
        send_outcome(error)
    } else {
        PublishOutcome::Dropped
    }
}

/// Classifies the end of a submission, see [`send_outcome`].
pub fn classify_send(error: Option<&str>) -> (r: PublishOutcome)
    ensures
        r == send_outcome(
            match error {
                None => None,
                Some(m) => Some(m@),
            },
        ),
{
    match error {
        None => PublishOutcome::Forwarded,
        Some(m) => if text_contains(m, MEDIA_REJECTED) {
            PublishOutcome::Forwarded
        } else {
            PublishOutcome::Fatal
        },
    }
}

/// A post with no text and no uploaded media is never submitted and never
/// handed on from the publish step, however a submission would have ended.
pub proof fn lemma_empty_post_dropped(p: PostModel, error: Option<Seq<char>>)
    requires
        p.text.len() == 0,
        p.media_ids.len() == 0,
    ensures
        publish_outcome(p, error) == PublishOutcome::Dropped,
        !publishable(p),
{
}

} // verus!
