//! The media upload state machine: each attachment of a post is uploaded and
//! its processing status polled until it is terminal; the outcome decides
//! whether the post goes on to be published.

use vstd::prelude::*;
use crate::types::{Attachment, Post, PostModel};

verus! {

/// The status code with which the destination platform rejects a media
/// format that it does not support.
pub const UNSUPPORTED_MEDIA_CODE: i32 = 1;

/// The processing status of an uploaded media item.
#[derive(Debug, Clone, Copy, PartialEq, Eq, Structural)]
pub enum UploadProgress {
    /// Processing finished; the media can be attached.
    Success,
    /// Processing has not started; check again after that many seconds.
    Pending(u64),
    /// Processing runs; check again after that many seconds.
    InProgress(u64),
    /// Processing failed with that code.
    Failed(i32),
}

/// What to do next with an attachment being uploaded.
#[derive(Debug, Clone, Copy, PartialEq, Eq, Structural)]
pub enum UploadAction {
    /// The media is ready: attach it.
    Accept,
    /// Wait that many seconds, then ask for the status again.
    Wait(u64),
    /// The media is unsupported: leave it out and do not publish the post.
    Skip,
    /// An unexpected failure with that code: the run stops.
    Fatal(i32),
}

/// The action for a status; no status at all means the media needs no processing.
pub open spec fn action_of(p: Option<UploadProgress>) -> UploadAction {
    match p {
        None => UploadAction::Accept,
        Some(UploadProgress::Success) => UploadAction::Accept,
        Some(UploadProgress::Pending(w)) => UploadAction::Wait(w),
        Some(UploadProgress::InProgress(w)) => UploadAction::Wait(w),
        Some(UploadProgress::Failed(c)) => if c == UNSUPPORTED_MEDIA_CODE {
            UploadAction::Skip
        } else {
            UploadAction::Fatal(c)
        },
    }
}

/// Classifies a processing status, see [`action_of`].
pub fn classify_progress(p: Option<UploadProgress>) -> (r: UploadAction)
    ensures
        r == action_of(p),
{
    match p {
        None => UploadAction::Accept,
        Some(UploadProgress::Success) => UploadAction::Accept,
        Some(UploadProgress::Pending(w)) => UploadAction::Wait(w),
        Some(UploadProgress::InProgress(w)) => UploadAction::Wait(w),
        Some(UploadProgress::Failed(c)) => if c == UNSUPPORTED_MEDIA_CODE {
            UploadAction::Skip
        } else {
            UploadAction::Fatal(c)
        },
    }
}

/// The upload of one post as contracts see it.
pub struct UploadModel {
    pub post: PostModel,
    /// The index of the attachment being uploaded.
    pub next: nat,
    /// The media ids accepted so far, in attachment order.
    pub ids: Seq<u64>,
    /// Some attachment was unsupported.
    pub skipped: bool,
}

/// The upload state after the status `p` of media `media_id`, for the
/// attachment at `s.next`.
pub open spec fn upload_step(s: UploadModel, media_id: u64, p: Option<UploadProgress>) -> UploadModel {
    match action_of(p) {
        UploadAction::Accept => UploadModel { next: s.next + 1, ids: s.ids.push(media_id), ..s },
        UploadAction::Skip => UploadModel { next: s.next + 1, skipped: true, ..s },
        _ => s,
    }
}

/// The upload state after each of `events` in turn.
pub open spec fn upload_run(s: UploadModel, events: Seq<(u64, Option<UploadProgress>)>) -> UploadModel
    decreases events.len(),
{
    if events.len() == 0 {
        s
    } else {
        let e = events.last();
        upload_step(upload_run(s, events.drop_last()), e.0, e.1)
    }
}

/// What the upload hands on: nothing when an attachment was unsupported, else
/// the post with the accepted media ids appended.
pub open spec fn forwarded(s: UploadModel) -> Option<PostModel> {
    if s.skipped {
        None
    } else {
        Some(PostModel { media_ids: s.post.media_ids + s.ids, ..s.post })
    }
}

/// The upload of the attachments of one post.
pub struct PostUpload {
    post: Post,
    next: usize,
    media_ids: Vec<u64>,
    unsupported: bool,
}

impl PostUpload {
    pub closed spec fn model(&self) -> UploadModel {
        UploadModel {
            post: self.post@,
            next: self.next as nat,
            ids: self.media_ids@,
            skipped: self.unsupported,
        }
    }

    pub closed spec fn wf(&self) -> bool {
        self.next <= self.post.tg_attachments@.len()
    }

    /// Starts uploading the attachments of `post`.
    pub fn new(post: Post) -> (r: PostUpload)
        ensures
            r.wf(),
            r.model() == (UploadModel { post: post@, next: 0, ids: Seq::empty(), skipped: false }),
    {
        PostUpload { post, next: 0, media_ids: Vec::new(), unsupported: false }
    }

    /// The attachment to upload next, or nothing when all have been handled.
    pub fn current(&self) -> (r: Option<&Attachment>)
        requires
            self.wf(),
        ensures
            self.model().next < self.model().post.attachments.len() ==> r is Some && r->0@
                == self.model().post.attachments[self.model().next as int],
            self.model().next >= self.model().post.attachments.len() ==> r is None,
    {
        if self.next < self.post.tg_attachments.len() {
            Some(&self.post.tg_attachments[self.next])
        } else {
            None
        }
    }

    /// The post being uploaded.
    pub fn post(&self) -> (r: &Post)
        ensures
            r@ == self.model().post,
    {
        &self.post
    }

    /// Takes the status `p` of media `media_id`, uploaded for the current
    /// attachment, and says what to do next.
    pub fn on_progress(&mut self, media_id: u64, p: Option<UploadProgress>) -> (r: UploadAction)
        requires
            old(self).wf(),
            old(self).model().next < old(self).model().post.attachments.len(),
        ensures
            final(self).wf(),
            r == action_of(p),
            final(self).model() == upload_step(old(self).model(), media_id, p),
    {
        let count = self.post.tg_attachments.len();
        assert(self.post@.attachments.len() == count);
        let action = classify_progress(p);
        match action {
            UploadAction::Accept => {
                self.media_ids.push(media_id);
                self.next += 1;
            },
            UploadAction::Skip => {
                self.unsupported = true;
                self.next += 1;
            },
            _ => {},
        }
        action
    }

    /// Ends the upload: the post with its media ids when every attachment was
    /// accepted, nothing when one was unsupported.
    pub fn finish(self) -> (r: Option<Post>)
        ensures
            match forwarded(self.model()) {
                None => r is None,
                Some(m) => r is Some && r->0@ == m,
            },
    {
        if self.unsupported {
            None
        } else {
            let mut post = self.post;
            let ids = self.media_ids;
            let ghost start = post@;
            let mut i: usize = 0;
            while i < ids.len()
                invariant
                    i <= ids@.len(),
                    post@ == (PostModel { media_ids: start.media_ids + ids@.subrange(0, i as int), ..start }),
                decreases ids@.len() - i,
            {
                post.add_twitter_attachment(ids[i]);
                assert(start.media_ids + ids@.subrange(0, i + 1) =~= (start.media_ids + ids@.subrange(0, i as int)).push(ids@[i as int]));
                i += 1;
            }
            assert(ids@.subrange(0, ids@.len() as int) =~= ids@);
            assert(start.media_ids + Seq::<u64>::empty() =~= start.media_ids);
            Some(post)
        }
    }
}

proof fn lemma_skip_is_kept(s: UploadModel, events: Seq<(u64, Option<UploadProgress>)>)
    requires
        s.skipped,
    ensures
        upload_run(s, events).skipped,
    decreases events.len(),
{
    if events.len() > 0 {
        lemma_skip_is_kept(s, events.drop_last());
    }
}

/// An attachment whose processing fails with the unsupported-media code is
/// left out without stopping the run, and keeps its post from being
/// published, whatever the other attachments do.
pub proof fn lemma_unsupported_media_blocks_post(
    s: UploadModel,
    events: Seq<(u64, Option<UploadProgress>)>,
    k: int,
)
    requires
        0 <= k < events.len(),
        events[k].1 == Some(UploadProgress::Failed(UNSUPPORTED_MEDIA_CODE)),
    ensures
        action_of(events[k].1) == UploadAction::Skip,
        upload_run(s, events.subrange(0, k + 1)).ids == upload_run(s, events.subrange(0, k)).ids,
        forwarded(upload_run(s, events)) is None,
    decreases events.len(),
{
    assert(events.subrange(0, k + 1).drop_last() =~= events.subrange(0, k));
    if k == events.len() - 1 {
        assert(events.subrange(0, k + 1) =~= events);
    } else {
        let prev = events.drop_last();
        assert(prev[k] == events[k]);
        assert(prev.subrange(0, k + 1) =~= events.subrange(0, k + 1));
        assert(prev.subrange(0, k) =~= events.subrange(0, k));
        lemma_unsupported_media_blocks_post(s, prev, k);
    }
}

/// Any other processing failure stops the run.
pub proof fn lemma_other_failure_is_fatal(code: i32)
    requires
        code != UNSUPPORTED_MEDIA_CODE,
    ensures
        action_of(Some(UploadProgress::Failed(code))) == UploadAction::Fatal(code),
{
}

} // verus!
