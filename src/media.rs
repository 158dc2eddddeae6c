//! Source media: what kind it is, its content type, and the file name under
//! which its bytes are stored.

use vstd::prelude::*;
use crate::text::{decimal_of, push_decimal, push_signed_decimal, signed_decimal_of};

verus! {

/// The kind of a media item attached to a source message, with the declared
/// MIME type where the source platform gives one.
#[derive(Debug, Clone)]
pub enum MediaKind {
    Photo,
    Sticker(Option<String>),
    Document(Option<String>),
    Contact,
    Other,
}

/// A media item together with the id of the source message that carries it.
#[derive(Debug, Clone)]
pub struct MediaRef {
    pub message_id: i32,
    pub kind: MediaKind,
}

/// The extensions that the MIME database lists for a content type, in its order.
pub uninterp spec fn mime_extensions_of(mime: Seq<char>) -> Seq<Seq<char>>;

/// Relies on `mime_guess::get_mime_extensions_str`: the extensions known for
/// the `type/subtype` of `mime`; an unknown type is given as an empty list.
#[verifier::external_body]
fn mime_extensions(mime: &str) -> (r: Vec<String>)
    ensures
        r@.map_values(|e: String| e@) == mime_extensions_of(mime@),
{
    match mime_guess::get_mime_extensions_str(mime) {
        Some(exts) => exts.iter().map(|e| e.to_string()).collect(),
        None => Vec::new(),
    }
}

/// The rendering of a MIME type once parsed, or nothing when it is not
/// well-formed.
pub uninterp spec fn parsed_mime_of(s: Seq<char>) -> Option<Seq<char>>;

/// Relies on `FromStr for mime::Mime` (re-exported by mime_guess) and on its
/// `Display`: a well-formed type parses and is rendered back.
#[verifier::external_body]
fn parse_mime(s: &str) -> (r: Option<String>)
    ensures
        match r {
            Some(m) => parsed_mime_of(s@) == Some(m@),
            None => parsed_mime_of(s@) is None,
        },
{
    s.parse::<mime_guess::Mime>().ok().map(|m| m.to_string())
}

/// The file suffix for a list of known extensions: a dot and the first one,
/// or nothing when there is none.
pub open spec fn suffix_from(exts: Seq<Seq<char>>) -> Seq<char> {
    if exts.len() > 0 && exts[0].len() > 0 {
        seq!['.'] + exts[0]
    } else {
        Seq::empty()
    }
}

/// The file suffix for a content type.
pub open spec fn suffix_of(mime: Seq<char>) -> Seq<char> {
    suffix_from(mime_extensions_of(mime))
}

/// The content type for a declared MIME type once parsed: the parsed type,
/// or a generic binary stream when it did not parse.
pub open spec fn declared_type_of(parsed: Option<Seq<char>>) -> Seq<char> {
    match parsed {
        Some(t) => t,
        None => "application/octet-stream"@,
    }
}

/// The content type that a media kind is stored and uploaded as.
pub open spec fn content_type_of(kind: MediaKind) -> Seq<char> {
    match kind {
        MediaKind::Photo => "image/jpeg"@,
        MediaKind::Sticker(Some(m)) => declared_type_of(parsed_mime_of(m@)),
        MediaKind::Document(Some(m)) => declared_type_of(parsed_mime_of(m@)),
        MediaKind::Contact => "text/vcard"@,
        _ => "application/octet-stream"@,
    }
}

/// The name of the file holding attachment `index` of post `post_id`.
pub open spec fn file_name_of(post_id: int, index: nat, mime: Seq<char>) -> Seq<char> {
    "message-"@ + signed_decimal_of(post_id) + "_"@ + decimal_of(index) + suffix_of(mime)
}

/// The suffix for a list of known extensions, see [`suffix_from`].
pub fn suffix_from_extensions(exts: &Vec<String>) -> (r: String)
    ensures
        r@ == suffix_from(exts@.map_values(|e: String| e@)),
{
    if exts.len() > 0 && exts[0].unicode_len() > 0 {
        proof {
            reveal_strlit(".");
        }
        let mut r = String::from_str(".");
        r.append(exts[0].as_str());
        r
    } else {
        let r = String::new();
        assert(r@ =~= Seq::<char>::empty());
        r
    }
}

/// The suffix for `mime`, see [`suffix_of`].
pub fn mime_suffix(mime: &str) -> (r: String)
    ensures
        r@ == suffix_of(mime@),
{
    let exts = mime_extensions(mime);
    suffix_from_extensions(&exts)
}

/// The content type for a declared MIME type once parsed, see [`declared_type_of`].
pub fn declared_type(parsed: Option<String>) -> (r: String)
    ensures
        r@ == declared_type_of(
            match parsed {
                Some(t) => Some(t@),
                None => None,
            },
        ),
{
    match parsed {
        Some(t) => t,
        None => String::from_str("application/octet-stream"),
    }
}

/// The content type of a media kind, see [`content_type_of`].
pub fn content_type(kind: &MediaKind) -> (r: String)
    ensures
        r@ == content_type_of(*kind),
{
    match kind {
        MediaKind::Photo => String::from_str("image/jpeg"),
        MediaKind::Sticker(Some(m)) => declared_type(parse_mime(m.as_str())),
        MediaKind::Document(Some(m)) => declared_type(parse_mime(m.as_str())),
        MediaKind::Contact => String::from_str("text/vcard"),
        _ => String::from_str("application/octet-stream"),
    }
}

/// The storage file name of attachment `index` of post `post_id`.
pub fn attachment_file_name(post_id: i32, index: usize, mime: &str) -> (r: String)
    ensures
        r@ == file_name_of(post_id as int, index as nat, mime@),
{
    let mut r = String::from_str("message-");
    push_signed_decimal(&mut r, post_id as i64);
    r.append("_");
    push_decimal(&mut r, index as u64);
    let suffix = mime_suffix(mime);
    r.append(suffix.as_str());
    r
}

} // verus!
