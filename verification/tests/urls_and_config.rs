//! URL construction, decimal rendering, authorization and client
//! construction.

use imgdl_rs::boosty::auth::Auth;
use imgdl_rs::boosty::request::{post_url, posts_url};
use imgdl_rs::decimal::{i64_dec, u64_dec};
use imgdl_rs::error::Error;
use imgdl_rs::gelbooru::request::{posts_list_url, posts_list_url_at, Client};
use imgdl_rs::gelbooru::types::APIMethods;
use imgdl_rs::json::{parse_json, Json, JsonNumber};

#[test]
fn boosty_listing_url_keeps_trailing_slash_and_limit() {
    assert_eq!(
        posts_url("crptmem", 300),
        "https://api.boosty.to/v1/blog/crptmem/post/?limit=300"
    );
}

#[test]
fn boosty_single_post_url_has_no_trailing_slash() {
    assert_eq!(
        post_url("boosty", "8c2ba2c5-da5c-4a64-94c4-4fef6147333a"),
        "https://api.boosty.to/v1/blog/boosty/post/8c2ba2c5-da5c-4a64-94c4-4fef6147333a"
    );
}

#[test]
fn gelbooru_listing_url_matches_the_method_path() {
    assert_eq!(
        posts_list_url("rating:general", 3),
        "https://gelbooru.com/index.php?page=dapi&s=post&q=index&json=1&tags=rating:general&pid=3"
    );
    assert_eq!(
        APIMethods::PostsList.as_str(),
        "/index.php?page=dapi&s=post&q=index&json=1"
    );
}

#[test]
fn site_listing_url_uses_the_supplied_root() {
    assert_eq!(
        posts_list_url_at("https://booru.example.test", "tree", 0),
        "https://booru.example.test/index.php?page=dapi&s=post&q=index&json=1&tags=tree&pid=0"
    );
}

#[test]
fn decimal_rendering_is_exact() {
    assert_eq!(u64_dec(0), "0");
    assert_eq!(u64_dec(7), "7");
    assert_eq!(u64_dec(1700000100), "1700000100");
    assert_eq!(u64_dec(u64::MAX), "18446744073709551615");
    assert_eq!(i64_dec(0), "0");
    assert_eq!(i64_dec(-1), "-1");
    assert_eq!(i64_dec(i64::MIN), "-9223372036854775808");
    assert_eq!(i64_dec(i64::MAX), "9223372036854775807");
}

#[test]
fn auth_builds_a_single_bearer_header() {
    let auth = Auth::new("my-token".to_string()).unwrap();
    assert_eq!(auth.headers.len(), 1);
    assert_eq!(auth.headers[0].0, "Authorization");
    assert_eq!(auth.headers[0].1, "Bearer my-token");
}

#[test]
fn auth_accepts_an_empty_token() {
    let auth = Auth::new(String::new()).unwrap();
    assert_eq!(auth.headers[0].1, "Bearer ");
}

#[test]
fn auth_rejects_a_control_character_token() {
    let err = Auth::new("bad\ntoken".to_string()).unwrap_err();
    assert!(matches!(err, Error::Construction(_)));
}

#[test]
fn client_without_proxy_sends_directly() {
    let client = Client::new(None).unwrap();
    assert!(client.proxy.is_none());
}

#[test]
fn client_keeps_a_usable_proxy_url() {
    let client = Client::new(Some("socks5://127.0.0.1:8381")).unwrap();
    assert_eq!(client.proxy.as_deref(), Some("socks5://127.0.0.1:8381"));
    let http_client = Client::new(Some("http://proxy.test:8080")).unwrap();
    assert_eq!(http_client.proxy.as_deref(), Some("http://proxy.test:8080"));
}

#[test]
fn client_rejects_a_malformed_proxy_url() {
    let err = Client::new(Some("not a proxy url")).unwrap_err();
    assert!(matches!(err, Error::Construction(_)));
}

#[test]
fn parse_json_keeps_the_document() {
    let j = parse_json("{\"a\": [1, -2, 2.5, true, null, \"s\"]}").unwrap();
    let a = j.get("a").expect("key a");
    match a {
        Json::Arr(items) => {
            assert_eq!(items.len(), 6);
            assert_eq!(items[0].as_u64(), Some(1));
            assert_eq!(items[1].as_i64(), Some(-2));
            assert!(matches!(items[2], Json::Num(JsonNumber::Dec(ref s)) if s == "2.5"));
            assert_eq!(items[3].as_bool(), Some(true));
            assert!(matches!(items[4], Json::Null));
            assert_eq!(items[5].as_string().map(|s| s.as_str()), Some("s"));
        }
        _ => panic!("expected an array"),
    }
}

#[test]
fn parse_json_rejects_trailing_garbage() {
    assert!(parse_json("{} trailing").is_err());
    assert!(parse_json("").is_err());
}
