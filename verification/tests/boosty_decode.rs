//! Decoding scenarios for the subscription-platform dialect.

use imgdl_rs::boosty::request::{decode_post, decode_posts, decode_posts_raw};
use imgdl_rs::boosty::types::{CurrencyPrices, Post, Teaser};
use imgdl_rs::error::DecodeError;
use imgdl_rs::json::JsonNumber;

fn post_body(id: &str, title: &str) -> String {
    let head = "{\"createdAt\": 1700000100, \"updatedAt\": null, \"publishTime\": 1700000200, \"currencyPrices\": {\"RUB\": 150.5, \"USD\": 1.5}, \"teaser\": [{\"type\": \"image\", \"width\": 640, \"height\": 480, \"rendition\": null, \"url\": \"https://example.test/t.png\", \"id\": \"t-1\"}], \"showViewsCounter\": true, \"price\": 100";
    format!("{}, \"id\": \"{}\", \"title\": \"{}\"}}", head, id, title)
}

#[test]
fn boosty_decode_post_scenario() {
    // The fields the remote answers for this known post.
    let body = post_body(
        "64c7b376-5825-42ae-90d1-8c28fac5f6ab",
        "boosty-rs unit test fetch_post",
    );
    let post = decode_post(&body).unwrap();
    assert_eq!(post.id, "64c7b376-5825-42ae-90d1-8c28fac5f6ab");
    assert_eq!(post.title, "boosty-rs unit test fetch_post");
    assert_eq!(post.created_at, 1700000100);
    assert_eq!(post.updated_at, None);
    assert_eq!(post.publish_time, 1700000200);
    assert_eq!(post.price, 100);
    assert!(post.show_views_counter);
    // Unauthenticated fetch of a priced post: `data` absent, not defaulted.
    assert!(post.data.is_none());
    assert_eq!(post.teaser.len(), 1);
    assert_eq!(post.teaser[0].ctype, "image");
    assert_eq!(post.teaser[0].width, Some(640));
    assert_eq!(post.teaser[0].height, Some(480));
    assert_eq!(post.teaser[0].rendition, None);
    assert_eq!(
        post.teaser[0].url.as_deref(),
        Some("https://example.test/t.png")
    );
    assert_eq!(post.teaser[0].id.as_deref(), Some("t-1"));
    assert!(matches!(post.currency_prices.rub, JsonNumber::Dec(ref s) if s == "150.5"));
    assert!(matches!(post.currency_prices.usd, JsonNumber::Dec(ref s) if s == "1.5"));
}

#[test]
fn boosty_decode_post_second_scenario() {
    let body = post_body(
        "8c2ba2c5-da5c-4a64-94c4-4fef6147333a",
        "Boosty.to VS Patreon",
    );
    let post = decode_post(&body).unwrap();
    assert_eq!(post.id, "8c2ba2c5-da5c-4a64-94c4-4fef6147333a");
    assert_eq!(post.title, "Boosty.to VS Patreon");
}

#[test]
fn boosty_listing_titles_in_order() {
    let body = format!(
        "{{\"data\": [{}, {}], \"extra\": 0}}",
        post_body("a-1", "boosty-rs unit test fetch_posts 2"),
        post_body("a-2", "boosty-rs unit test fetch_post")
    );
    let posts = decode_posts(&body).unwrap();
    let titles: Vec<&str> = posts.iter().map(|p| p.title.as_str()).collect();
    assert_eq!(
        titles,
        vec!["boosty-rs unit test fetch_posts 2", "boosty-rs unit test fetch_post"]
    );
}

#[test]
fn boosty_missing_data_field_is_empty_listing() {
    let posts = decode_posts("{\"ok\": true}").unwrap();
    assert!(posts.is_empty());
}

#[test]
fn boosty_null_data_field_is_empty_listing() {
    let posts = decode_posts("{\"data\": null}").unwrap();
    assert!(posts.is_empty());
}

#[test]
fn boosty_mistyped_price_names_the_field() {
    let body = post_body("x", "y").replace("\"price\": 100", "\"price\": \"free\"");
    let err = decode_post(&body).unwrap_err();
    assert_eq!(err, DecodeError::WrongType("price".to_string()));
}

#[test]
fn boosty_mistyped_price_in_listing_names_the_path() {
    let inner = post_body("x", "y").replace("\"price\": 100", "\"price\": \"free\"");
    let body = format!("{{\"data\": [{}]}}", inner);
    let err = decode_posts(&body).unwrap_err();
    assert_eq!(err, DecodeError::WrongType("data[0].price".to_string()));
}

#[test]
fn boosty_missing_title_names_the_field() {
    let body = post_body("x", "y").replace(", \"title\": \"y\"", "");
    let err = decode_post(&body).unwrap_err();
    assert_eq!(err, DecodeError::MissingField("title".to_string()));
}

#[test]
fn boosty_body_that_is_not_json_is_malformed() {
    let err = decode_post("not json at all").unwrap_err();
    assert!(matches!(err, DecodeError::Malformed(_)));
}

#[test]
fn boosty_data_fragments_decode_when_present() {
    let body = post_body("p", "t").replace(
        "\"updatedAt\": null",
        "\"updatedAt\": 1700000300, \"data\": [{\"type\": \"ok_video\", \"width\": null, \"height\": null, \"rendition\": \"hd\", \"url\": \"https://example.test/v\", \"id\": \"d-1\"}]",
    );
    let post = decode_post(&body).unwrap();
    assert_eq!(post.updated_at, Some(1700000300));
    let data = post.data.expect("data fragments present");
    assert_eq!(data.len(), 1);
    assert_eq!(data[0].ctype, "ok_video");
    assert_eq!(data[0].width, None);
    assert_eq!(data[0].rendition.as_deref(), Some("hd"));
    assert_eq!(data[0].url.as_deref(), Some("https://example.test/v"));
    assert_eq!(data[0].id.as_deref(), Some("d-1"));
}

#[test]
fn boosty_post_round_trip_is_field_wise_equal() {
    let post = Post {
        created_at: 11,
        updated_at: Some(22),
        publish_time: 33,
        data: Some(vec![imgdl_rs::boosty::types::Data {
            ctype: "image".to_string(),
            width: Some(10),
            height: None,
            rendition: None,
            url: Some("u".to_string()),
            id: None,
        }]),
        currency_prices: CurrencyPrices {
            rub: JsonNumber::Dec("5.5".to_string()),
            usd: JsonNumber::UInt(0),
        },
        teaser: vec![Teaser {
            ctype: "text".to_string(),
            width: None,
            height: Some(-1),
            rendition: Some("r".to_string()),
            url: None,
            id: Some("i".to_string()),
        }],
        show_views_counter: false,
        price: -7,
        id: "the-id".to_string(),
        title: "the-title".to_string(),
    };
    let encoded = post.encode();
    let back = Post::decode(&encoded, "").unwrap();
    assert_eq!(back.created_at, post.created_at);
    assert_eq!(back.updated_at, post.updated_at);
    assert_eq!(back.publish_time, post.publish_time);
    assert_eq!(back.show_views_counter, post.show_views_counter);
    assert_eq!(back.price, post.price);
    assert_eq!(back.id, post.id);
    assert_eq!(back.title, post.title);
    assert!(matches!(back.currency_prices.rub, JsonNumber::Dec(ref s) if s == "5.5"));
    assert!(matches!(back.currency_prices.usd, JsonNumber::UInt(0)));
    let data = back.data.expect("data kept");
    assert_eq!(data.len(), 1);
    assert_eq!(data[0].ctype, "image");
    assert_eq!(data[0].width, Some(10));
    assert_eq!(data[0].height, None);
    assert_eq!(data[0].url.as_deref(), Some("u"));
    assert_eq!(back.teaser.len(), 1);
    assert_eq!(back.teaser[0].ctype, "text");
    assert_eq!(back.teaser[0].height, Some(-1));
    assert_eq!(back.teaser[0].rendition.as_deref(), Some("r"));
    assert_eq!(back.teaser[0].id.as_deref(), Some("i"));
}

#[test]
fn boosty_raw_listing_keeps_the_whole_payload() {
    let raw = decode_posts_raw("{\"data\": [], \"offset\": \"abc\"}").unwrap();
    assert!(raw.get("data").is_some());
    let offset = raw.get("offset").expect("offset kept");
    assert_eq!(
        offset.as_string().map(|s| s.as_str()),
        Some("abc")
    );
    assert!(raw.get("absent").is_none());
}
