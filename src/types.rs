//! The data that flows through the pipeline: configuration, source messages,
//! posts and their attachments.

use vstd::prelude::*;
use crate::media::{attachment_file_name, content_type, content_type_of, file_name_of, MediaKind, MediaRef};
use crate::text::{seq_contains, text_contains};

verus! {

/// Settings of the source platform.
#[derive(Debug, Clone)]
pub struct TelegramConfig {
    pub api_id: i32,
    pub api_hash: String,
    pub chat_name: String,
}

/// Settings of the destination platform.
#[derive(Debug, Clone)]
pub struct TwitterConfig {
    pub api_key: String,
    pub api_secret: String,
    pub access_token: String,
    pub access_token_secret: String,
}

/// The whole configuration of a mirror run.
#[derive(Debug, Clone)]
pub struct Cfg {
    pub data_dir: String,
    pub max_messages: i32,
    pub telegram: TelegramConfig,
    pub twitter: TwitterConfig,
}

/// A message as the source platform lists it.
#[derive(Debug, Clone)]
pub struct RawMessage {
    pub id: i32,
    pub text: String,
    pub grouped_id: Option<i64>,
    pub media: Option<MediaKind>,
}

/// An attachment as contracts see it.
pub struct AttachmentModel {
    pub media: MediaRef,
    pub mime: Seq<char>,
    pub path: Seq<char>,
}

/// A post as contracts see it.
pub struct PostModel {
    pub id: int,
    pub text: Seq<char>,
    pub attachments: Seq<AttachmentModel>,
    pub media_ids: Seq<u64>,
}

/// One media item of a post: the source media, its content type, and the
/// file name under which its bytes are stored.
#[derive(Debug, Clone)]
pub struct Attachment {
    pub tg_media: MediaRef,
    pub mime: String,
    pub path: String,
}

impl View for Attachment {
    type V = AttachmentModel;

    open spec fn view(&self) -> AttachmentModel {
        AttachmentModel { media: self.tg_media, mime: self.mime@, path: self.path@ }
    }
}

/// A unit of content to mirror: one standalone message or one closed album.
#[derive(Debug, Clone)]
pub struct Post {
    pub id: i32,
    pub text: String,
    pub tg_attachments: Vec<Attachment>,
    pub tw_attachments: Vec<u64>,
}

impl View for Post {
    type V = PostModel;

    open spec fn view(&self) -> PostModel {
        PostModel {
            id: self.id as int,
            text: self.text@,
            attachments: self.tg_attachments@.map_values(|a: Attachment| a@),
            media_ids: self.tw_attachments@,
        }
    }
}

/// `p` with an attachment of `media`, stored as `mime`, appended at the end.
pub open spec fn appended(p: PostModel, media: MediaRef, mime: Seq<char>) -> PostModel {
    PostModel {
        attachments: p.attachments.push(
            AttachmentModel { media, mime, path: file_name_of(p.id, p.attachments.len(), mime) },
        ),
        ..p
    }
}

/// `p` with the attachment of `media` appended, stored as its content type.
pub open spec fn with_attachment(p: PostModel, media: MediaRef) -> PostModel {
    appended(p, media, content_type_of(media.kind))
}

/// A post with no attachments and no uploaded media.
pub open spec fn bare_post(id: int, text: Seq<char>) -> PostModel {
    PostModel { id, text, attachments: Seq::empty(), media_ids: Seq::empty() }
}

/// The post that a standalone message becomes.
pub open spec fn post_of_message(m: RawMessage) -> PostModel {
    let p = bare_post(m.id as int, m.text@);
    match m.media {
        Some(k) => with_attachment(p, MediaRef { message_id: m.id, kind: k }),
        None => p,
    }
}

/// A post is worth mirroring: it has text or an attachment, and its text does
/// not hold the ignore marker.
pub open spec fn valid_post(p: PostModel, ignore: Seq<char>) -> bool {
    !(p.text.len() == 0 && p.attachments.len() == 0) && !seq_contains(p.text, ignore)
}

impl Attachment {
    /// An attachment of `media` whose storage path is not yet assigned.
    pub fn new(media: MediaRef) -> (r: Attachment)
        ensures
            r.tg_media == media,
            r.mime@ == content_type_of(media.kind),
            r.path@ == Seq::<char>::empty(),
    {
        let mime = content_type(&media.kind);
        Attachment { tg_media: media, mime, path: String::new() }
    }

    pub fn tg_media(&self) -> (r: &MediaRef)
        ensures
            *r == self.tg_media,
    {
        &self.tg_media
    }

    pub fn mime(&self) -> (r: &str)
        ensures
            r@ == self.mime@,
    {
        self.mime.as_str()
    }

    pub fn path(&self) -> (r: &str)
        ensures
            r@ == self.path@,
    {
        self.path.as_str()
    }
}

impl Post {
    /// A post with the given id and text and nothing attached.
    pub fn new(id: i32, text: String) -> (r: Post)
        ensures
            r@ == bare_post(id as int, text@),
    {
        let r = Post { id, text, tg_attachments: Vec::new(), tw_attachments: Vec::new() };
        assert(r@.attachments =~= Seq::<AttachmentModel>::empty());
        r
    }

    /// The post that a standalone message becomes.
    pub fn from_message(msg: RawMessage) -> (r: Post)
        ensures
            r@ == post_of_message(msg),
    {
        let ghost m = msg;
        let RawMessage { id, text, grouped_id: _, media } = msg;
        let mut post = Post::new(id, text);
        match media {
            Some(kind) => {
                post.add_tg_attachment(Attachment::new(MediaRef { message_id: id, kind }));
            },
            None => {},
        }
        post
    }

    pub fn id(&self) -> (r: i32)
        ensures
            r == self.id,
    {
        self.id
    }

    pub fn text(&self) -> (r: &str)
        ensures
            r@ == self.text@,
    {
        self.text.as_str()
    }

    pub fn attachments(&self) -> (r: &Vec<Attachment>)
        ensures
            r@ == self.tg_attachments@,
    {
        &self.tg_attachments
    }

    pub fn tw_attachments(&self) -> (r: &Vec<u64>)
        ensures
            r@ == self.tw_attachments@,
    {
        &self.tw_attachments
    }

    /// Records a media id that the destination platform gave for this post.
    pub fn add_twitter_attachment(&mut self, attachment: u64)
        ensures
            final(self)@ == (PostModel { media_ids: old(self)@.media_ids.push(attachment), ..old(self)@ }),
    {
        self.tw_attachments.push(attachment);
        assert(final(self)@.attachments =~= old(self)@.attachments);
    }

    /// Appends an attachment, assigning its storage path from the post id and
    /// its position in the post.
    pub fn add_tg_attachment(&mut self, attachment: Attachment)
        ensures
            final(self)@ == appended(old(self)@, attachment.tg_media, attachment.mime@),
    {
        let len = self.tg_attachments.len();
        let mut attachment = attachment;
        attachment.path = attachment_file_name(self.id, len, attachment.mime.as_str());
        self.tg_attachments.push(attachment);
        assert(final(self)@.attachments =~= appended(old(self)@, attachment.tg_media, attachment.mime@).attachments);
    }

    /// Whether the post is worth mirroring, see [`valid_post`].
    pub fn validate(&self, ignore: &str) -> (r: bool)
        ensures
            r == valid_post(self@, ignore@),
    {
        let empty = self.text.unicode_len() == 0 && self.tg_attachments.len() == 0;
        !empty && !text_contains(self.text.as_str(), ignore)
    }
}

} // verus!
