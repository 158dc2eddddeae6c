use twittergram::generator::{aggregate, IGNORE};
use twittergram::media::MediaKind;
use twittergram::persistence::{Persister, NO_STATE};
use twittergram::publish::{classify_send, prepare_publish, tweet_for, PublishOutcome, TwitterBuilder};
use twittergram::types::{Post, RawMessage};
use twittergram::upload::{classify_progress, PostUpload, UploadAction, UploadProgress, UNSUPPORTED_MEDIA_CODE};

fn msg(id: i32, text: &str, grouped_id: Option<i64>, media: Option<MediaKind>) -> RawMessage {
    RawMessage { id, text: text.to_string(), grouped_id, media }
}

fn album_post(id: i32, n: usize) -> Post {
    let mut stream = Vec::new();
    for i in 0..n {
        stream.push(msg(id - i as i32, "", Some(1), Some(MediaKind::Photo)));
    }
    stream.push(msg(id - n as i32, "end", None, None));
    let posts = aggregate(stream, id - n as i32, 10, IGNORE);
    posts.into_iter().next().unwrap()
}

#[test]
fn progress_classification() {
    assert_eq!(classify_progress(None), UploadAction::Accept);
    assert_eq!(classify_progress(Some(UploadProgress::Success)), UploadAction::Accept);
    assert_eq!(classify_progress(Some(UploadProgress::Pending(5))), UploadAction::Wait(5));
    assert_eq!(classify_progress(Some(UploadProgress::InProgress(2))), UploadAction::Wait(2));
    assert_eq!(classify_progress(Some(UploadProgress::Failed(UNSUPPORTED_MEDIA_CODE))), UploadAction::Skip);
    assert_eq!(classify_progress(Some(UploadProgress::Failed(3))), UploadAction::Fatal(3));
}

#[test]
fn upload_skip_classification() {
    let post = album_post(10, 2);
    assert_eq!(post.attachments().len(), 2);
    let mut up = PostUpload::new(post);
    assert_eq!(up.on_progress(111, Some(UploadProgress::Failed(UNSUPPORTED_MEDIA_CODE))), UploadAction::Skip);
    assert_eq!(up.on_progress(222, Some(UploadProgress::Success)), UploadAction::Accept);
    assert!(up.current().is_none());
    assert!(up.finish().is_none());
}

#[test]
fn upload_other_failure_is_fatal() {
    let post = album_post(10, 1);
    let mut up = PostUpload::new(post);
    assert_eq!(up.on_progress(111, Some(UploadProgress::Failed(7))), UploadAction::Fatal(7));
    assert!(up.current().is_some());
}

#[test]
fn upload_polls_until_done() {
    let post = album_post(10, 2);
    let mut up = PostUpload::new(post);
    assert_eq!(up.on_progress(1, Some(UploadProgress::Pending(3))), UploadAction::Wait(3));
    assert_eq!(up.current().unwrap().tg_media().message_id, 9);
    assert_eq!(up.on_progress(1, Some(UploadProgress::InProgress(1))), UploadAction::Wait(1));
    assert_eq!(up.on_progress(1, Some(UploadProgress::Success)), UploadAction::Accept);
    assert_eq!(up.current().unwrap().tg_media().message_id, 10);
    assert_eq!(up.on_progress(2, None), UploadAction::Accept);
    assert!(up.current().is_none());
    let done = up.finish().unwrap();
    assert_eq!(done.tw_attachments(), &vec![1, 2]);
    assert_eq!(done.id(), 10);
}

#[test]
fn empty_post_suppression() {
    let post = Post::new(4, String::new());
    let tweet = tweet_for(&post);
    assert!(!tweet.is_publishable());
    assert!(prepare_publish(&post).is_none());
    let text_only = Post::new(6, "words".to_string());
    assert_eq!(prepare_publish(&text_only).unwrap().text(), "words");
    let mut with_media = Post::new(5, String::new());
    with_media.add_twitter_attachment(77);
    let tweet = tweet_for(&with_media);
    assert!(tweet.is_publishable());
    assert_eq!(tweet.media_ids(), &vec![77]);
    assert_eq!(tweet.text(), "");
}

#[test]
fn send_error_classification() {
    assert_eq!(classify_send(None), PublishOutcome::Forwarded);
    assert_eq!(
        classify_send(Some("Twitter error: Your media IDs are invalid. (code 324)")),
        PublishOutcome::Forwarded
    );
    assert_eq!(classify_send(Some("Rate limit exceeded")), PublishOutcome::Fatal);
}

#[test]
fn builder_accessors() {
    let mut b = TwitterBuilder::new();
    assert!(b.media_ids().is_empty());
    assert_eq!(b.text(), "");
    b.set_text("hello".to_string());
    b.add_media(1);
    b.add_media(2);
    assert_eq!(b.text(), "hello");
    assert_eq!(b.media_ids(), &vec![1, 2]);
}

#[test]
fn persister_records_last_post() {
    let mut store = Persister::new(None);
    assert_eq!(store.get_last_id(), NO_STATE);
    store.record(&Post::new(8, "a".to_string()));
    store.record(&Post::new(9, "b".to_string()));
    assert_eq!(store.get_last_id(), 9);
    let resumed = Persister::new(Some(9));
    assert_eq!(resumed.get_last_id(), 9);
}

#[test]
fn end_to_end_scenario() {
    let stream = vec![msg(3, "hi", None, None), msg(2, "", None, Some(MediaKind::Photo))];
    let mut store = Persister::new(None);
    assert_eq!(store.get_last_id(), -1);
    let posts = aggregate(stream, store.get_last_id(), 2, IGNORE);
    assert_eq!(posts.len(), 2);
    assert_eq!((posts[0].id(), posts[0].text()), (2, ""));
    assert_eq!((posts[1].id(), posts[1].text()), (3, "hi"));
    let mut media_id: u64 = 500;
    for post in posts {
        let mut up = PostUpload::new(post);
        while up.current().is_some() {
            assert_eq!(up.on_progress(media_id, Some(UploadProgress::Success)), UploadAction::Accept);
            media_id += 1;
        }
        let uploaded = up.finish().unwrap();
        let tweet = prepare_publish(&uploaded).unwrap();
        assert_eq!(tweet.media_ids(), uploaded.tw_attachments());
        assert_eq!(classify_send(None), PublishOutcome::Forwarded);
        store.record(&uploaded);
    }
    assert_eq!(store.get_last_id(), 3);
}
