//! The imageboard client: proxy configuration, request URLs, and
//! response decoding.
//!
//! The network call itself is the caller's; every function here is a
//! pure computation, and the client object holds only immutable
//! configuration.

use crate::error::{DecodeError, DecodeErrorView, Error};
use crate::decimal::{dec_int, i64_dec};
use crate::gelbooru::types::{
    spec_decode_attributes, spec_decode_post_arr_from, spec_decode_site_post_arr_from,
    Attributes, AttributesView, Post, PostView, SitePost, SitePostView, APIMethods,
};
use crate::json::{json_of, lookup, parse_json, Json, JsonView};
use vstd::prelude::*;

verus! {

/// Listing API root.
pub const API_URL: &'static str = "https://gelbooru.com";

/// Whether the transport accepts this URL as a proxy destination (any
/// scheme it supports: http, https, socks5); a pure function of the
/// URL text.
pub uninterp spec fn proxy_accepted(s: Seq<char>) -> bool;

/// Relies on `reqwest::Proxy::all`: it accepts a proxy URL exactly when
/// the URL parses, and acceptance depends on the URL text alone.
#[verifier::external_body]
fn proxy_ok(s: &str) -> (r: bool)
    ensures
        r == proxy_accepted(s@),
{
    reqwest::Proxy::all(s).is_ok()
}

/// The listing API client: holds the optional proxy configuration,
/// immutable for the client's lifetime.
#[derive(Debug)]
pub struct Client {
    /// Proxy URL to route requests through, validated at construction;
    /// `None` sends requests directly.
    pub proxy: Option<String>,
}

impl Client {
    /// Creates a client. A proxy URL the transport cannot use is a
    /// construction error, raised here and not at call time.
    pub fn new(proxy: Option<&str>) -> (r: Result<Client, Error>)
        ensures
            (match r {
                Ok(c) => match proxy {
                    Some(p) => proxy_accepted(p@) && (c.proxy matches Some(q) && q@ == p@),
                    None => c.proxy is None,
                },
                Err(e) => proxy matches Some(p) && !proxy_accepted(p@) && e@ is Construction,
            }),
    {
        match proxy {
            Some(p) => if proxy_ok(p) {
                Ok(Client { proxy: Some(p.to_owned()) })
            } else {
                Err(Error::Construction("proxy URL is not usable by the transport".to_owned()))
            },
            None => Ok(Client { proxy: None }),
        }
    }
}

/// The listing URL for a tag filter and page index: the root,
/// immediately followed by the fixed method path (which begins with a
/// slash), and the query parameters.
pub open spec fn spec_posts_list_url(tags: Seq<char>, page: int) -> Seq<char> {
    "https://gelbooru.com"@ + "/index.php?page=dapi&s=post&q=index&json=1"@ + "&tags="@ + tags
        + "&pid="@ + dec_int(page)
}

/// Builds the listing URL for a tag filter and page index.
pub fn posts_list_url(tags: &str, page: i64) -> (u: String)
    ensures
        u@ == spec_posts_list_url(tags@, page as int),
{
    let mut s = "https://gelbooru.com".to_owned();
    s.append(APIMethods::PostsList.as_str());
    s.append("&tags=");
    s.append(tags);
    s.append("&pid=");
    let d = i64_dec(page);
    s.append(d.as_str());
    assert(s@ =~= spec_posts_list_url(tags@, page as int));
    s
}

/// What a listing payload decodes to: the posts under `post`, an empty
/// listing when the field is absent or `null` (a tag with no posts),
/// or the first post's error.
pub open spec fn spec_posts_of(v: JsonView) -> Result<Seq<PostView>, DecodeErrorView> {
    match lookup(v, "post"@) {
        None => Ok(Seq::empty()),
        Some(f) => if f is Null {
            Ok(Seq::empty())
        } else {
            match f {
                JsonView::Arr(a) => spec_decode_post_arr_from(a, "post"@, 0),
                _ => Err(DecodeErrorView::WrongType("post"@)),
            }
        },
    }
}

/// What a listing payload's pagination metadata decodes to: the
/// attributes under `@attributes`, which every listing carries.
pub open spec fn spec_attributes_of(v: JsonView) -> Result<AttributesView, DecodeErrorView> {
    match lookup(v, "@attributes"@) {
        None => Err(DecodeErrorView::MissingField("@attributes"@)),
        Some(f) => match f {
            JsonView::Obj(_) => spec_decode_attributes(f, "@attributes."@),
            _ => Err(DecodeErrorView::WrongType("@attributes"@)),
        },
    }
}

/// Law: a payload without a `post` field (or with it `null`) is a
/// successful empty listing, never an error — the remote API answers so
/// for a tag filter that matches no posts.
pub proof fn lemma_missing_post_is_empty_listing(v: JsonView)
    requires
        lookup(v, "post"@) is None || lookup(v, "post"@) == Some(JsonView::Null),
    ensures
        spec_posts_of(v) == Ok::<Seq<PostView>, DecodeErrorView>(Seq::<PostView>::empty()),
{
}

/// Law: a listing decode failure on a parsed payload names a field: a
/// missing or mistyped field with its path, never any other kind of
/// error and never a silently substituted default.
pub proof fn lemma_listing_error_names_a_field(v: JsonView)
    ensures
        spec_posts_of(v) matches Err(e) ==> (e is MissingField || e is WrongType),
{
    match lookup(v, "post"@) {
        Some(JsonView::Arr(a)) => crate::gelbooru::types::lemma_post_arr_error_names_a_field(
            a,
            "post"@,
            0,
        ),
        _ => (),
    }
}

/// Law: an attributes decode failure on a parsed payload names a field.
pub proof fn lemma_attributes_of_error_names_a_field(v: JsonView)
    ensures
        spec_attributes_of(v) matches Err(e) ==> (e is MissingField || e is WrongType),
{
    match lookup(v, "@attributes"@) {
        Some(f) => crate::gelbooru::types::lemma_attributes_error_names_a_field(
            f,
            "@attributes."@,
        ),
        _ => (),
    }
}

/// Decodes a listing body: parses it as JSON and decodes the posts
/// under `post`. A body that is not JSON is a `Malformed` error; a
/// missing or `null` `post` field is a successful empty listing.
pub fn decode_posts(body: &str) -> (r: Result<Vec<Post>, DecodeError>)
    ensures
        (match r {
            Ok(ps) => json_of(body@) matches Some(v) && spec_posts_of(v) == Ok::<
                Seq<PostView>,
                DecodeErrorView,
            >(ps@.map_values(|p: Post| p@)),
            Err(e) => match json_of(body@) {
                None => e@ is Malformed,
                Some(v) => spec_posts_of(v) == Err::<Seq<PostView>, DecodeErrorView>(e@),
            },
        }),
{
    let j = match parse_json(body) {
        Ok(j) => j,
        Err(e) => return Err(e),
    };
    match j.get("post") {
        None => {
            let out: Vec<Post> = Vec::new();
            proof {
                assert(out@.map_values(|p: Post| p@) =~= Seq::<PostView>::empty());
            }
            Ok(out)
        },
        Some(f) => match f {
            Json::Null => {
                let out: Vec<Post> = Vec::new();
                proof {
                    assert(out@.map_values(|p: Post| p@) =~= Seq::<PostView>::empty());
                }
                Ok(out)
            },
            Json::Arr(a) => crate::gelbooru::types::decode_posts_arr(a, "post"),
            _ => Err(DecodeError::WrongType("post".to_owned())),
        },
    }
}

/// The listing URL for a caller-supplied root (a compatible self-hosted
/// instance): the root immediately followed by the same method path and
/// query grammar as the fixed host.
pub open spec fn spec_posts_list_url_at(root: Seq<char>, tags: Seq<char>, page: int) -> Seq<
    char,
> {
    root + "/index.php?page=dapi&s=post&q=index&json=1"@ + "&tags="@ + tags + "&pid="@ + dec_int(
        page,
    )
}

/// Builds the listing URL for a caller-supplied root.
pub fn posts_list_url_at(root: &str, tags: &str, page: i64) -> (u: String)
    ensures
        u@ == spec_posts_list_url_at(root@, tags@, page as int),
{
    let mut s = root.to_owned();
    s.append(APIMethods::PostsList.as_str());
    s.append("&tags=");
    s.append(tags);
    s.append("&pid=");
    let d = i64_dec(page);
    s.append(d.as_str());
    assert(s@ =~= spec_posts_list_url_at(root@, tags@, page as int));
    s
}

/// What a self-hosted-variant listing payload decodes to: this variant
/// answers a bare post array at the root of the JSON body. A `null`
/// body is an empty listing; anything else but an array is a type
/// error at the root (whose path is the empty string).
pub open spec fn spec_site_posts_of(v: JsonView) -> Result<Seq<SitePostView>, DecodeErrorView> {
    match v {
        JsonView::Null => Ok(Seq::empty()),
        JsonView::Arr(a) => spec_decode_site_post_arr_from(a, ""@, 0),
        _ => Err(DecodeErrorView::WrongType(""@)),
    }
}

/// Decodes a self-hosted-variant listing body: parses it as JSON and
/// decodes the post array at the root.
pub fn decode_site_posts(body: &str) -> (r: Result<Vec<SitePost>, DecodeError>)
    ensures
        (match r {
            Ok(ps) => json_of(body@) matches Some(v) && spec_site_posts_of(v) == Ok::<
                Seq<SitePostView>,
                DecodeErrorView,
            >(ps@.map_values(|p: SitePost| p@)),
            Err(e) => match json_of(body@) {
                None => e@ is Malformed,
                Some(v) => spec_site_posts_of(v) == Err::<Seq<SitePostView>, DecodeErrorView>(
                    e@,
                ),
            },
        }),
{
    let j = match parse_json(body) {
        Ok(j) => j,
        Err(e) => return Err(e),
    };
    match j {
        Json::Null => {
            let out: Vec<SitePost> = Vec::new();
            proof {
                assert(out@.map_values(|p: SitePost| p@) =~= Seq::<SitePostView>::empty());
            }
            Ok(out)
        },
        Json::Arr(a) => crate::gelbooru::types::decode_site_posts_arr(&a, ""),
        _ => Err(DecodeError::WrongType("".to_owned())),
    }
}

/// Decodes a listing body's pagination metadata, under `@attributes`.
pub fn decode_attributes(body: &str) -> (r: Result<Attributes, DecodeError>)
    ensures
        (match r {
            Ok(a) => json_of(body@) matches Some(v) && spec_attributes_of(v) == Ok::<
                AttributesView,
                DecodeErrorView,
            >(a@),
            Err(e) => match json_of(body@) {
                None => e@ is Malformed,
                Some(v) => spec_attributes_of(v) == Err::<AttributesView, DecodeErrorView>(e@),
            },
        }),
{
    let j = match parse_json(body) {
        Ok(j) => j,
        Err(e) => return Err(e),
    };
    match j.get("@attributes") {
        None => Err(DecodeError::MissingField("@attributes".to_owned())),
        Some(f) => match f {
            Json::Obj(_) => Attributes::decode(f, "@attributes."),
            _ => Err(DecodeError::WrongType("@attributes".to_owned())),
        },
    }
}

} // verus!
