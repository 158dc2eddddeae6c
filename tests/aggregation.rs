use twittergram::generator::{aggregate, Aggregator, IGNORE};
use twittergram::media::MediaKind;
use twittergram::types::{Post, RawMessage};
use twittergram::window::FixedDeque;

fn msg(id: i32, text: &str, grouped_id: Option<i64>, media: Option<MediaKind>) -> RawMessage {
    RawMessage { id, text: text.to_string(), grouped_id, media }
}

fn ids(posts: &[Post]) -> Vec<i32> {
    posts.iter().map(|p| p.id()).collect()
}

#[test]
fn album_grouping() {
    let stream = vec![
        msg(5, "five", None, None),
        msg(4, "", Some(7), Some(MediaKind::Photo)),
        msg(3, "album", Some(7), Some(MediaKind::Photo)),
        msg(2, "two", None, None),
    ];
    let posts = aggregate(stream, -1, 10, IGNORE);
    assert_eq!(ids(&posts), vec![2, 4, 5]);
    assert_eq!(posts[0].text(), "two");
    assert!(posts[0].attachments().is_empty());
    let album = &posts[1];
    assert_eq!(album.text(), "album");
    let sources: Vec<i32> = album.attachments().iter().map(|a| a.tg_media().message_id).collect();
    assert_eq!(sources, vec![3, 4]);
    assert_eq!(album.attachments()[0].path(), "message-4_0.jfif");
    assert_eq!(album.attachments()[1].path(), "message-4_1.jfif");
    assert_eq!(album.attachments()[0].mime(), "image/jpeg");
    assert_eq!(posts[2].text(), "five");
}

#[test]
fn album_text_prefers_newest_member() {
    let stream = vec![
        msg(9, "newest", Some(1), Some(MediaKind::Photo)),
        msg(8, "older", Some(1), Some(MediaKind::Photo)),
        msg(7, "", None, Some(MediaKind::Contact)),
    ];
    let posts = aggregate(stream, -1, 10, IGNORE);
    assert_eq!(ids(&posts), vec![7, 9]);
    assert_eq!(posts[1].text(), "newest");
    assert_eq!(posts[0].attachments()[0].mime(), "text/vcard");
    assert_eq!(posts[0].attachments()[0].path(), "message-7_0.vcard");
}

#[test]
fn adjacent_albums_are_separate_posts() {
    let stream = vec![
        msg(10, "second", Some(2), Some(MediaKind::Photo)),
        msg(9, "", Some(2), Some(MediaKind::Photo)),
        msg(8, "first", Some(1), Some(MediaKind::Photo)),
        msg(7, "", Some(1), Some(MediaKind::Photo)),
        msg(6, "end", None, None),
    ];
    let posts = aggregate(stream, -1, 10, IGNORE);
    assert_eq!(ids(&posts), vec![6, 8, 10]);
    assert_eq!(posts[1].attachments().len(), 2);
    assert_eq!(posts[2].attachments().len(), 2);
}

#[test]
fn open_album_at_end_of_history_is_dropped() {
    let stream = vec![
        msg(3, "solo", None, None),
        msg(2, "", Some(4), Some(MediaKind::Photo)),
        msg(1, "", Some(4), Some(MediaKind::Photo)),
    ];
    let posts = aggregate(stream, -1, 10, IGNORE);
    assert_eq!(ids(&posts), vec![3]);
}

#[test]
fn window_bound() {
    let mut w: FixedDeque<u32> = FixedDeque::new(3);
    for i in 1..=4u32 {
        w.push(i);
    }
    assert_eq!(w.iterator(), vec![4, 3, 2]);
}

#[test]
fn window_of_zero_keeps_nothing() {
    let mut w: FixedDeque<u32> = FixedDeque::new(0);
    w.push(1);
    w.push(2);
    assert!(w.iterator().is_empty());
}

#[test]
fn window_with_negative_bound_keeps_everything() {
    let mut w: FixedDeque<u32> = FixedDeque::new(-1);
    for i in 1..=5u32 {
        w.push(i);
    }
    assert_eq!(w.iterator(), vec![5, 4, 3, 2, 1]);
}

#[test]
fn backlog_is_bounded_from_the_cursor() {
    let stream = vec![
        msg(5, "e", None, None),
        msg(4, "d", None, None),
        msg(3, "c", None, None),
        msg(2, "b", None, None),
        msg(1, "a", None, None),
    ];
    let posts = aggregate(stream, 0, 2, IGNORE);
    assert_eq!(ids(&posts), vec![1, 2]);
}

#[test]
fn cursor_resume_skips_mirrored_posts() {
    let stream = vec![
        msg(6, "f", None, None),
        msg(5, "e", None, None),
        msg(4, "d", None, None),
        msg(3, "c", None, None),
        msg(2, "b", None, None),
    ];
    let posts = aggregate(stream, 4, 10, IGNORE);
    assert_eq!(ids(&posts), vec![5, 6]);
    assert!(posts.iter().all(|p| p.id() > 4));
}

#[test]
fn album_straddling_cursor_is_finished() {
    let stream = vec![
        msg(7, "after", None, None),
        msg(6, "", Some(3), Some(MediaKind::Photo)),
        msg(5, "cap", Some(3), Some(MediaKind::Photo)),
        msg(4, "x", None, None),
        msg(3, "y", None, None),
    ];
    let posts = aggregate(stream, 5, 10, IGNORE);
    assert_eq!(ids(&posts), vec![6, 7]);
    assert_eq!(posts[0].attachments().len(), 2);
}

#[test]
fn feed_reports_reaching_the_cursor() {
    let mut agg = Aggregator::new(2, 10, IGNORE);
    assert!(agg.feed(msg(4, "d", None, None)));
    assert!(agg.feed(msg(3, "c", None, None)));
    assert!(!agg.feed(msg(2, "b", None, None)));
    assert!(!agg.feed(msg(1, "a", None, None)));
    assert_eq!(ids(&agg.finish()), vec![3, 4]);
}

#[test]
fn ignore_marker() {
    let stream = vec![
        msg(3, "keep me", None, None),
        msg(2, "only here #tgonly", None, Some(MediaKind::Photo)),
        msg(1, "", Some(8), Some(MediaKind::Photo)),
        msg(0, "album #tgonly", Some(8), Some(MediaKind::Photo)),
        msg(-1, "tail", None, None),
    ];
    let posts = aggregate(stream, -5, 10, IGNORE);
    assert_eq!(ids(&posts), vec![-1, 3]);
}

#[test]
fn empty_message_is_not_emitted() {
    let stream = vec![msg(2, "", None, None), msg(1, "text", None, None)];
    let posts = aggregate(stream, -1, 10, IGNORE);
    assert_eq!(ids(&posts), vec![1]);
}

#[test]
fn custom_marker() {
    let stream = vec![msg(2, "skip [x]", None, None), msg(1, "#tgonly stays", None, None)];
    let posts = aggregate(stream, -1, 10, "[x]");
    assert_eq!(ids(&posts), vec![1]);
}

#[test]
fn post_validation() {
    let mut post = Post::new(1, String::new());
    assert!(!post.validate(IGNORE));
    post.add_tg_attachment(twittergram::types::Attachment::new(twittergram::media::MediaRef {
        message_id: 1,
        kind: MediaKind::Photo,
    }));
    assert!(post.validate(IGNORE));
    let marked = Post::new(2, "a #tgonly b".to_string());
    assert!(!marked.validate(IGNORE));
}
