//! Request URLs and response decoding for the platform API.
//!
//! The URL builders compose the exact endpoint strings; the decoders
//! turn a response body into typed records. The network call between
//! the two is the caller's: every function here is pure.

use crate::boosty::types::{spec_decode_post, spec_decode_post_arr_from, Post, PostView};
use crate::decimal::{dec_int, i64_dec};
use crate::error::{DecodeError, DecodeErrorView};
use crate::json::{json_of, lookup, parse_json, Json, JsonView};

use vstd::prelude::*;

verus! {

/// Platform API root.
pub const API_URL: &'static str = "https://api.boosty.to";

/// The listing URL for a blog: the trailing slash before the query is
/// mandatory (without it the remote service answers not-found), and the
/// `limit` query parameter caps the number of posts returned (the
/// remote default is 100 when omitted).
pub open spec fn spec_posts_url(blog: Seq<char>, limit: int) -> Seq<char> {
    "https://api.boosty.to/v1/blog/"@ + blog + "/post/?limit="@ + dec_int(limit)
}

/// The URL of a single post: no trailing slash.
pub open spec fn spec_post_url(blog: Seq<char>, post_id: Seq<char>) -> Seq<char> {
    "https://api.boosty.to/v1/blog/"@ + blog + "/post/"@ + post_id
}

/// Builds the listing URL for a blog.
pub fn posts_url(blog_name: &str, limit: i64) -> (u: String)
    ensures
        u@ == spec_posts_url(blog_name@, limit as int),
{
    let mut s = "https://api.boosty.to/v1/blog/".to_owned();
    s.append(blog_name);
    s.append("/post/?limit=");
    let d = i64_dec(limit);
    s.append(d.as_str());
    assert(s@ =~= spec_posts_url(blog_name@, limit as int));
    s
}

/// Builds the URL of a single post.
pub fn post_url(blog_name: &str, post_id: &str) -> (u: String)
    ensures
        u@ == spec_post_url(blog_name@, post_id@),
{
    let mut s = "https://api.boosty.to/v1/blog/".to_owned();
    s.append(blog_name);
    s.append("/post/");
    s.append(post_id);
    assert(s@ =~= spec_post_url(blog_name@, post_id@));
    s
}

/// What a listing payload decodes to: the posts under `data`, an empty
/// listing when the field is absent or `null` (a blog with no posts),
/// or the first post's error.
pub open spec fn spec_posts_of(v: JsonView) -> Result<Seq<PostView>, DecodeErrorView> {
    match lookup(v, "data"@) {
        None => Ok(Seq::empty()),
        Some(f) => if f is Null {
            Ok(Seq::empty())
        } else {
            match f {
                JsonView::Arr(a) => spec_decode_post_arr_from(a, "data"@, 0),
                _ => Err(DecodeErrorView::WrongType("data"@)),
            }
        },
    }
}

/// Law: a payload without a `data` field (or with it `null`) is a
/// successful empty listing, never an error — the remote API answers so
/// for a blog with no posts.
pub proof fn lemma_missing_data_is_empty_listing(v: JsonView)
    requires
        lookup(v, "data"@) is None || lookup(v, "data"@) == Some(JsonView::Null),
    ensures
        spec_posts_of(v) == Ok::<Seq<PostView>, DecodeErrorView>(Seq::<PostView>::empty()),
{
}

/// Law: a listing decode failure on a parsed payload names a field: a
/// missing or mistyped field with its path, never any other kind of
/// error and never a silently substituted default.
pub proof fn lemma_listing_error_names_a_field(v: JsonView)
    ensures
        spec_posts_of(v) matches Err(e) ==> (e is MissingField || e is WrongType),
{
    match lookup(v, "data"@) {
        Some(JsonView::Arr(a)) => crate::boosty::types::lemma_post_arr_error_names_a_field(
            a,
            "data"@,
            0,
        ),
        _ => (),
    }
}

/// Decodes a listing body: parses it as JSON and decodes the posts
/// under `data`. A body that is not JSON is a `Malformed` error; a
/// missing or `null` `data` field is a successful empty listing.
pub fn decode_posts(body: &str) -> (r: Result<Vec<Post>, DecodeError>)
    ensures
        (match r {
            Ok(ps) => json_of(body@) matches Some(v) && spec_posts_of(v) == Ok::<
                Seq<PostView>,
                DecodeErrorView,
            >(ps@.map_values(|p: Post| p@)),
            Err(e) => match json_of(body@) {
                None => e@ is Malformed,
                Some(v) => spec_posts_of(v) == Err::<Seq<PostView>, DecodeErrorView>(e@),
            },
        }),
{
    let j = match parse_json(body) {
        Ok(j) => j,
        Err(e) => return Err(e),
    };
    match j.get("data") {
        None => {
            let out: Vec<Post> = Vec::new();
            proof {
                assert(out@.map_values(|p: Post| p@) =~= Seq::<PostView>::empty());
            }
            Ok(out)
        },
        Some(f) => match f {
            Json::Null => {
                let out: Vec<Post> = Vec::new();
                proof {
                    assert(out@.map_values(|p: Post| p@) =~= Seq::<PostView>::empty());
                }
                Ok(out)
            },
            Json::Arr(a) => crate::boosty::types::decode_posts_arr(a, "data"),
            _ => Err(DecodeError::WrongType("data".to_owned())),
        },
    }
}

/// Decodes a single-post body: parses it as JSON and decodes the post
/// object at the root.
pub fn decode_post(body: &str) -> (r: Result<Post, DecodeError>)
    ensures
        (match r {
            Ok(p) => json_of(body@) matches Some(v) && spec_decode_post(v, ""@) == Ok::<
                PostView,
                DecodeErrorView,
            >(p@),
            Err(e) => match json_of(body@) {
                None => e@ is Malformed,
                Some(v) => spec_decode_post(v, ""@) == Err::<PostView, DecodeErrorView>(e@),
            },
        }),
{
    let j = match parse_json(body) {
        Ok(j) => j,
        Err(e) => return Err(e),
    };
    Post::decode(&j, "")
}

/// Decodes a listing body without typing it: the parsed JSON value as
/// it stands, for callers that defer or skip schema validation.
pub fn decode_posts_raw(body: &str) -> (r: Result<Json, DecodeError>)
    ensures
        r matches Ok(j) ==> json_of(body@) == Some(j@),
        r matches Err(e) ==> json_of(body@) is None && e@ is Malformed,
{
    parse_json(body)
}

} // verus!
