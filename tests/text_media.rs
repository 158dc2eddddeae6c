use twittergram::media::{
    attachment_file_name, content_type, declared_type, mime_suffix, suffix_from_extensions, MediaKind,
};
use twittergram::text::{push_decimal, push_signed_decimal, text_contains};

#[test]
fn substring_search() {
    assert!(text_contains("hello #tgonly world", "#tgonly"));
    assert!(text_contains("abc", ""));
    assert!(text_contains("abc", "abc"));
    assert!(!text_contains("ab", "abc"));
    assert!(!text_contains("#tgonl", "#tgonly"));
    assert!(text_contains("héllo wörld", "wö"));
    assert!(!text_contains("", "a"));
}

#[test]
fn decimal_rendering() {
    let mut s = String::from("n=");
    push_decimal(&mut s, 0);
    assert_eq!(s, "n=0");
    let mut s = String::new();
    push_decimal(&mut s, 18446744073709551615);
    assert_eq!(s, "18446744073709551615");
    let mut s = String::new();
    push_signed_decimal(&mut s, -42);
    assert_eq!(s, "-42");
    let mut s = String::new();
    push_signed_decimal(&mut s, i64::MIN);
    assert_eq!(s, "-9223372036854775808");
}

#[test]
fn suffix_from_mime_database() {
    assert_eq!(mime_suffix("image/png"), ".png");
    assert_eq!(mime_suffix("video/mp4"), ".mp4");
    assert_eq!(mime_suffix("image/jpeg"), ".jfif");
    assert_eq!(mime_suffix("nothing/known"), "");
    assert_eq!(mime_suffix("garbage"), "");
}

#[test]
fn file_names() {
    assert_eq!(attachment_file_name(12, 0, "image/png"), "message-12_0.png");
    assert_eq!(attachment_file_name(-3, 2, "x/unknown"), "message--3_2");
    assert_eq!(attachment_file_name(7, 1, "application/octet-stream"), "message-7_1.aaf");
}

#[test]
fn content_types() {
    assert_eq!(content_type(&MediaKind::Photo), "image/jpeg");
    assert_eq!(content_type(&MediaKind::Contact), "text/vcard");
    assert_eq!(content_type(&MediaKind::Other), "application/octet-stream");
    assert_eq!(content_type(&MediaKind::Document(None)), "application/octet-stream");
    assert_eq!(content_type(&MediaKind::Document(Some("video/mp4".to_string()))), "video/mp4");
    assert_eq!(content_type(&MediaKind::Sticker(Some("image/webp".to_string()))), "image/webp");
}

#[test]
fn suffix_from_first_extension() {
    let exts = vec!["jpe".to_string(), "jpeg".to_string()];
    assert_eq!(suffix_from_extensions(&exts), ".jpe");
    assert_eq!(suffix_from_extensions(&Vec::new()), "");
    assert_eq!(suffix_from_extensions(&vec![String::new(), "x".to_string()]), "");
}

#[test]
fn declared_type_falls_back_to_binary() {
    assert_eq!(declared_type(Some("image/gif".to_string())), "image/gif");
    assert_eq!(declared_type(None), "application/octet-stream");
}

#[test]
fn malformed_declared_type_is_binary() {
    assert_eq!(content_type(&MediaKind::Document(Some("not a mime".to_string()))), "application/octet-stream");
    assert_eq!(content_type(&MediaKind::Sticker(None)), "application/octet-stream");
}
