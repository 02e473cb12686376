//! Decoding scenarios for the imageboard dialect.

use imgdl_rs::error::DecodeError;
use imgdl_rs::gelbooru::request::{decode_attributes, decode_posts, decode_site_posts};
use imgdl_rs::gelbooru::types::{Post, Rating};

fn gpost_body(id: i64, rating: &str) -> String {
    let fields = "\"created_at\": \"Sat Oct 12 04:05:06 -0500 2024\", \"score\": 12, \"width\": 1920, \"height\": 1080, \"md5\": \"d41d8cd98f00b204e9800998ecf8427e\", \"directory\": \"aa/bb\", \"image\": \"pic.png\", \"source\": \"https://example.test/src\", \"change\": 1700000400, \"owner\": \"someone\", \"creator_id\": 77, \"parent_id\": 0, \"sample\": 1, \"preview_height\": 150, \"preview_width\": 200, \"tags\": \"blue_sky cloud\", \"title\": \"a title\", \"file_url\": \"https://example.test/f.png\", \"preview_url\": \"https://example.test/p.png\", \"sample_url\": \"https://example.test/s.png\", \"sample_height\": 540, \"sample_width\": 960, \"status\": \"active\", \"post_locked\": 0, \"has_children\": \"false\"";
    format!("{{\"id\": {}, \"rating\": \"{}\", {}}}", id, rating, fields)
}

fn listing_body(posts: &[String]) -> String {
    format!(
        "{{\"@attributes\": {{\"limit\": 100, \"offset\": 200, \"count\": 12345}}, \"post\": [{}]}}",
        posts.join(", ")
    )
}

#[test]
fn gelbooru_listing_decodes_each_post() {
    let body = listing_body(&[gpost_body(1001, "general"), gpost_body(1002, "sensitive")]);
    let posts = decode_posts(&body).unwrap();
    assert_eq!(posts.len(), 2);
    assert_eq!(posts[0].id, 1001);
    assert_eq!(posts[0].rating, Rating::General);
    assert_eq!(posts[0].score, 12);
    assert_eq!(posts[0].width, 1920);
    assert_eq!(posts[0].height, 1080);
    assert_eq!(posts[0].md5, "d41d8cd98f00b204e9800998ecf8427e");
    assert_eq!(posts[0].directory, "aa/bb");
    assert_eq!(posts[0].image, "pic.png");
    assert_eq!(posts[0].change, Some(1700000400));
    assert_eq!(posts[0].owner, "someone");
    assert_eq!(posts[0].creator_id, 77);
    assert_eq!(posts[0].parent_id, 0);
    assert_eq!(posts[0].sample, 1);
    assert_eq!(posts[0].preview_height, 150);
    assert_eq!(posts[0].preview_width, 200);
    assert_eq!(posts[0].tags, "blue_sky cloud");
    assert_eq!(posts[0].title, "a title");
    assert_eq!(posts[0].file_url, "https://example.test/f.png");
    assert_eq!(posts[0].preview_url, "https://example.test/p.png");
    assert_eq!(posts[0].sample_url, "https://example.test/s.png");
    assert_eq!(posts[0].sample_height, 540);
    assert_eq!(posts[0].sample_width, 960);
    assert_eq!(posts[0].status, "active");
    assert_eq!(posts[0].post_locked, 0);
    assert_eq!(posts[0].has_children, "false");
    assert_eq!(posts[1].id, 1002);
    assert_eq!(posts[1].rating, Rating::Sensitive);
}

#[test]
fn gelbooru_all_ratings_decode() {
    for (name, expect) in [
        ("explicit", Rating::Explicit),
        ("general", Rating::General),
        ("sensitive", Rating::Sensitive),
        ("questionable", Rating::Questionable),
    ] {
        let body = listing_body(&[gpost_body(1, name)]);
        let posts = decode_posts(&body).unwrap();
        assert_eq!(posts[0].rating, expect);
    }
}

#[test]
fn gelbooru_unknown_rating_names_the_path() {
    let body = listing_body(&[gpost_body(1, "unrated")]);
    let err = decode_posts(&body).unwrap_err();
    assert_eq!(err, DecodeError::WrongType("post[0].rating".to_string()));
}

#[test]
fn gelbooru_missing_post_field_is_empty_listing() {
    let posts = decode_posts("{\"@attributes\": {\"limit\": 0, \"offset\": 0, \"count\": 0}}")
        .unwrap();
    assert!(posts.is_empty());
}

#[test]
fn gelbooru_null_post_field_is_empty_listing() {
    let posts = decode_posts("{\"post\": null}").unwrap();
    assert!(posts.is_empty());
}

#[test]
fn gelbooru_missing_change_is_not_present() {
    let body = listing_body(&[gpost_body(5, "general")
        .replace("\"change\": 1700000400, ", "")]);
    let posts = decode_posts(&body).unwrap();
    assert_eq!(posts[0].change, None);
}

#[test]
fn gelbooru_attributes_decode() {
    let body = listing_body(&[]);
    let attrs = decode_attributes(&body).unwrap();
    assert_eq!(attrs.limit, 100);
    assert_eq!(attrs.offset, 200);
    assert_eq!(attrs.count, 12345);
}

#[test]
fn gelbooru_missing_attributes_names_the_field() {
    let err = decode_attributes("{\"post\": []}").unwrap_err();
    assert_eq!(err, DecodeError::MissingField("@attributes".to_string()));
}

#[test]
fn gelbooru_mistyped_attribute_names_the_path() {
    let body = listing_body(&[]).replace("\"count\": 12345", "\"count\": \"many\"");
    let err = decode_attributes(&body).unwrap_err();
    assert_eq!(err, DecodeError::WrongType("@attributes.count".to_string()));
}

#[test]
fn gelbooru_malformed_body_is_malformed() {
    let err = decode_posts("<html>").unwrap_err();
    assert!(matches!(err, DecodeError::Malformed(_)));
}

#[test]
fn gelbooru_post_round_trip_is_field_wise_equal() {
    let body = listing_body(&[gpost_body(42, "questionable")]);
    let posts = decode_posts(&body).unwrap();
    let encoded = posts[0].encode();
    let back = Post::decode(&encoded, "").unwrap();
    assert_eq!(back.id, 42);
    assert_eq!(back.rating, Rating::Questionable);
    assert_eq!(back.created_at, posts[0].created_at);
    assert_eq!(back.score, posts[0].score);
    assert_eq!(back.md5, posts[0].md5);
    assert_eq!(back.change, posts[0].change);
    assert_eq!(back.tags, posts[0].tags);
    assert_eq!(back.file_url, posts[0].file_url);
    assert_eq!(back.sample_width, posts[0].sample_width);
    assert_eq!(back.has_children, posts[0].has_children);
}

fn site_post_body(id: i64, rating: &str) -> String {
    let fields = "\"directory\": \"cc/dd\", \"image\": \"img.jpg\", \"hash\": \"0123abcd\", \"width\": 800, \"height\": 600, \"owner\": \"admin\", \"tags\": \"tree sky\", \"file_url\": \"https://example.test/full.jpg\", \"preview_url\": \"https://example.test/prev.jpg\", \"sample\": true, \"sample_width\": 400, \"sample_height\": 300, \"sample_url\": \"https://example.test/smpl.jpg\", \"score\": 3, \"parent_id\": 7";
    format!("{{\"id\": {}, \"rating\": \"{}\", {}}}", id, rating, fields)
}

#[test]
fn site_listing_decodes_at_the_root() {
    let body = format!("[{}, {}]", site_post_body(1, "safe"), site_post_body(2, "anything"));
    let posts = decode_site_posts(&body).unwrap();
    assert_eq!(posts.len(), 2);
    assert_eq!(posts[0].id, 1);
    assert_eq!(posts[0].rating, "safe");
    assert_eq!(posts[0].directory, "cc/dd");
    assert_eq!(posts[0].hash, "0123abcd");
    assert_eq!(posts[0].width, 800);
    assert_eq!(posts[0].owner, "admin");
    assert_eq!(posts[0].parent_id, Some(7));
    assert_eq!(posts[0].score, Some(3));
    assert_eq!(posts[0].sample, Some(true));
    assert_eq!(posts[0].sample_width, Some(400));
    assert_eq!(posts[0].sample_url.as_deref(), Some("https://example.test/smpl.jpg"));
    assert_eq!(posts[1].id, 2);
    assert_eq!(posts[1].rating, "anything");
}

#[test]
fn site_listing_optional_fields_may_be_absent() {
    let body = "[{\"id\": 9, \"rating\": \"safe\", \"directory\": \"cc/dd\", \"image\": \"img.jpg\", \"hash\": \"0123abcd\", \"width\": 800, \"height\": 600, \"owner\": \"admin\", \"tags\": \"tree sky\", \"file_url\": \"https://example.test/full.jpg\", \"preview_url\": \"https://example.test/prev.jpg\"}]";
    let posts = decode_site_posts(body).unwrap();
    assert_eq!(posts[0].score, None);
    assert_eq!(posts[0].parent_id, None);
    assert_eq!(posts[0].sample, None);
    assert_eq!(posts[0].sample_width, None);
    assert_eq!(posts[0].sample_height, None);
    assert_eq!(posts[0].sample_url, None);
}

#[test]
fn site_listing_empty_array_is_empty() {
    assert!(decode_site_posts("[]").unwrap().is_empty());
    assert!(decode_site_posts("null").unwrap().is_empty());
}

#[test]
fn site_listing_non_array_root_is_a_type_error() {
    let err = decode_site_posts("{\"post\": []}").unwrap_err();
    assert_eq!(err, DecodeError::WrongType(String::new()));
}

#[test]
fn site_listing_mistyped_field_names_the_path() {
    let body = format!("[{}]", site_post_body(1, "safe").replace("\"width\": 800", "\"width\": \"wide\""));
    let err = decode_site_posts(&body).unwrap_err();
    assert_eq!(err, DecodeError::WrongType("[0].width".to_string()));
}
