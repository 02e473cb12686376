//! Typed records for the imageboard listing responses, with verified
//! decoding from the crate's JSON tree.

use crate::error::{DecodeError, DecodeErrorView};
use crate::json::{
    req_i64, req_string, opt_bool, opt_i64, opt_string, spec_req_i64, spec_req_str,
    spec_opt_bool, spec_opt_i64, spec_opt_str, spec_elem_path, str_opt_view, elem_path,
    enc_opt_i64, json_view, json_view_arr, json_view_obj, lemma_json_view_arr,
    lemma_json_view_obj, lemma_lookup_at, Json, JsonNumber, JsonView,
};
use vstd::prelude::*;

verus! {

/// Image rating: a closed enumeration in this dialect.
#[derive(Clone, Copy, Debug, PartialEq, Eq)]
pub enum Rating {
    Explicit,
    General,
    Sensitive,
    Questionable,
}

/// The rating named by a payload string, if any.
pub open spec fn rating_of(s: Seq<char>) -> Option<Rating> {
    if s == "explicit"@ {
        Some(Rating::Explicit)
    } else if s == "general"@ {
        Some(Rating::General)
    } else if s == "sensitive"@ {
        Some(Rating::Sensitive)
    } else if s == "questionable"@ {
        Some(Rating::Questionable)
    } else {
        None
    }
}

/// The payload string for a rating.
pub open spec fn rating_str(r: Rating) -> Seq<char> {
    match r {
        Rating::Explicit => "explicit"@,
        Rating::General => "general"@,
        Rating::Sensitive => "sensitive"@,
        Rating::Questionable => "questionable"@,
    }
}

impl Rating {
    /// The payload string for the rating.
    pub fn as_str(&self) -> (s: &'static str)
        ensures
            s@ == rating_str(*self),
    {
        match self {
            Rating::Explicit => "explicit",
            Rating::General => "general",
            Rating::Sensitive => "sensitive",
            Rating::Questionable => "questionable",
        }
    }
}

/// Law: each rating's payload string names that rating back.
pub proof fn lemma_rating_str_round_trip(r: Rating)
    ensures
        rating_of(rating_str(r)) == Some(r),
{
    reveal_strlit("explicit");
    reveal_strlit("general");
    reveal_strlit("sensitive");
    reveal_strlit("questionable");
    assert("explicit"@.len() == 8);
    assert("general"@.len() == 7);
    assert("sensitive"@.len() == 9);
    assert("questionable"@.len() == 12);
}

/// The fixed API methods of the listing endpoint.
pub enum APIMethods {
    PostsList,
}

impl APIMethods {
    /// The query path of the method.
    pub fn as_str(&self) -> (s: &'static str)
        ensures
            s@ == "/index.php?page=dapi&s=post&q=index&json=1"@,
    {
        match self {
            APIMethods::PostsList => "/index.php?page=dapi&s=post&q=index&json=1",
        }
    }
}

/// Pagination metadata of a listing: how many posts match in all, and
/// the window (offset, limit) this page covers. Parsed from the
/// `@attributes` sub-tree of the listing payload.
#[derive(Debug)]
pub struct Attributes {
    /// Number of posts in this page's window.
    pub limit: i64,
    /// Index of the first post of this page within the full result.
    pub offset: i64,
    /// Total number of matching posts.
    pub count: i64,
}

/// Model of [`Attributes`].
pub struct AttributesView {
    pub limit: i64,
    pub offset: i64,
    pub count: i64,
}

impl View for Attributes {
    type V = AttributesView;

    open spec fn view(&self) -> AttributesView {
        AttributesView { limit: self.limit, offset: self.offset, count: self.count }
    }
}

/// What an attributes object under `path` decodes to.
pub open spec fn spec_decode_attributes(v: JsonView, path: Seq<char>) -> Result<
    AttributesView,
    DecodeErrorView,
> {
    match spec_req_i64(v, "limit"@, path) {
        Err(e) => Err(e),
        Ok(limit) => match spec_req_i64(v, "offset"@, path) {
            Err(e) => Err(e),
            Ok(offset) => match spec_req_i64(v, "count"@, path) {
                Err(e) => Err(e),
                Ok(count) => Ok(AttributesView { limit, offset, count }),
            },
        },
    }
}

impl Attributes {
    /// Decodes an attributes object; `path` locates it in the payload
    /// for error reporting.
    pub fn decode(j: &Json, path: &str) -> (r: Result<Attributes, DecodeError>)
        ensures
            (match r {
                Ok(a) => spec_decode_attributes(j@, path@) == Ok::<
                    AttributesView,
                    DecodeErrorView,
                >(a@),
                Err(e) => spec_decode_attributes(j@, path@) == Err::<
                    AttributesView,
                    DecodeErrorView,
                >(e@),
            }),
    {
        let limit = match req_i64(j, "limit", path) {
            Ok(i) => i,
            Err(e) => return Err(e),
        };
        let offset = match req_i64(j, "offset", path) {
            Ok(i) => i,
            Err(e) => return Err(e),
        };
        let count = match req_i64(j, "count", path) {
            Ok(i) => i,
            Err(e) => return Err(e),
        };
        Ok(Attributes { limit, offset, count })
    }
}

/// A post of the imageboard listing.
#[derive(Debug)]
pub struct Post {
    /// Post identifier.
    pub id: i64,
    /// When the post was created, as the payload gives it.
    pub created_at: String,
    /// Post score.
    pub score: i64,
    /// Image width.
    pub width: i64,
    /// Image height.
    pub height: i64,
    /// MD5 image hash.
    pub md5: String,
    /// Post directory.
    pub directory: String,
    /// Image file name.
    pub image: String,
    /// Image rating.
    pub rating: Rating,
    /// Source URL.
    pub source: String,
    /// When the post was changed, when given.
    pub change: Option<i64>,
    /// Post owner.
    pub owner: String,
    /// Creator identifier.
    pub creator_id: i64,
    /// Parent post identifier (zero when the post has no parent).
    pub parent_id: i64,
    /// Whether the post has a sample image (zero or one).
    pub sample: i64,
    /// Preview image height.
    pub preview_height: i64,
    /// Preview image width.
    pub preview_width: i64,
    /// Post tags, one opaque delimited string.
    pub tags: String,
    /// Post title.
    pub title: String,
    /// Full-resolution file URL.
    pub file_url: String,
    /// Preview URL.
    pub preview_url: String,
    /// Sample URL.
    pub sample_url: String,
    /// Sample height.
    pub sample_height: i64,
    /// Sample width.
    pub sample_width: i64,
    /// Post status.
    pub status: String,
    /// Whether the post is locked (zero or one).
    pub post_locked: i64,
    /// Whether the post has child posts, as the payload gives it.
    pub has_children: String,
}

/// Model of [`Post`].
pub struct PostView {
    pub id: i64,
    pub created_at: Seq<char>,
    pub score: i64,
    pub width: i64,
    pub height: i64,
    pub md5: Seq<char>,
    pub directory: Seq<char>,
    pub image: Seq<char>,
    pub rating: Rating,
    pub source: Seq<char>,
    pub change: Option<i64>,
    pub owner: Seq<char>,
    pub creator_id: i64,
    pub parent_id: i64,
    pub sample: i64,
    pub preview_height: i64,
    pub preview_width: i64,
    pub tags: Seq<char>,
    pub title: Seq<char>,
    pub file_url: Seq<char>,
    pub preview_url: Seq<char>,
    pub sample_url: Seq<char>,
    pub sample_height: i64,
    pub sample_width: i64,
    pub status: Seq<char>,
    pub post_locked: i64,
    pub has_children: Seq<char>,
}

impl View for Post {
    type V = PostView;

    open spec fn view(&self) -> PostView {
        PostView {
            id: self.id,
            created_at: self.created_at@,
            score: self.score,
            width: self.width,
            height: self.height,
            md5: self.md5@,
            directory: self.directory@,
            image: self.image@,
            rating: self.rating,
            source: self.source@,
            change: self.change,
            owner: self.owner@,
            creator_id: self.creator_id,
            parent_id: self.parent_id,
            sample: self.sample,
            preview_height: self.preview_height,
            preview_width: self.preview_width,
            tags: self.tags@,
            title: self.title@,
            file_url: self.file_url@,
            preview_url: self.preview_url@,
            sample_url: self.sample_url@,
            sample_height: self.sample_height,
            sample_width: self.sample_width,
            status: self.status@,
            post_locked: self.post_locked,
            has_children: self.has_children@,
        }
    }
}

/// The required `rating` field: a string naming one of the four
/// ratings; any other value is a type error on that field.
pub open spec fn spec_decode_rating(v: JsonView, path: Seq<char>) -> Result<
    Rating,
    DecodeErrorView,
> {
    match spec_req_str(v, "rating"@, path) {
        Err(e) => Err(e),
        Ok(s) => match rating_of(s) {
            Some(r) => Ok(r),
            None => Err(DecodeErrorView::WrongType(path + "rating"@)),
        },
    }
}

/// Decodes the `rating` field of a post object.
fn decode_rating(j: &Json, path: &str) -> (r: Result<Rating, DecodeError>)
    ensures
        (match r {
            Ok(rating) => spec_decode_rating(j@, path@) == Ok::<Rating, DecodeErrorView>(rating),
            Err(e) => spec_decode_rating(j@, path@) == Err::<Rating, DecodeErrorView>(e@),
        }),
{
    let s = match req_string(j, "rating", path) {
        Ok(s) => s,
        Err(e) => return Err(e),
    };
    if s == "explicit".to_owned() {
        Ok(Rating::Explicit)
    } else if s == "general".to_owned() {
        Ok(Rating::General)
    } else if s == "sensitive".to_owned() {
        Ok(Rating::Sensitive)
    } else if s == "questionable".to_owned() {
        Ok(Rating::Questionable)
    } else {
        Err(DecodeError::WrongType(crate::json::path_key(path, "rating")))
    }
}

/// What a post object under `path` decodes to: every field, or the
/// first error, in field order.
pub open spec fn spec_decode_post(v: JsonView, path: Seq<char>) -> Result<
    PostView,
    DecodeErrorView,
> {
    match spec_req_i64(v, "id"@, path) {
        Err(e) => Err(e),
        Ok(id) => match spec_req_str(v, "created_at"@, path) {
            Err(e) => Err(e),
            Ok(created_at) => match spec_req_i64(v, "score"@, path) {
                Err(e) => Err(e),
                Ok(score) => match spec_req_i64(v, "width"@, path) {
                    Err(e) => Err(e),
                    Ok(width) => match spec_req_i64(v, "height"@, path) {
                        Err(e) => Err(e),
                        Ok(height) => match spec_req_str(v, "md5"@, path) {
                            Err(e) => Err(e),
                            Ok(md5) => match spec_req_str(v, "directory"@, path) {
                                Err(e) => Err(e),
                                Ok(directory) => match spec_req_str(v, "image"@, path) {
                                    Err(e) => Err(e),
                                    Ok(image) => match spec_decode_rating(v, path) {
                                        Err(e) => Err(e),
                                        Ok(rating) => match spec_req_str(v, "source"@, path) {
                                            Err(e) => Err(e),
                                            Ok(source) => spec_decode_post_rest(
                                                v,
                                                path,
                                                PostPrefixView {
                                                    id,
                                                    created_at,
                                                    score,
                                                    width,
                                                    height,
                                                    md5,
                                                    directory,
                                                    image,
                                                    rating,
                                                    source,
                                                },
                                            ),
                                        },
                                    },
                                },
                            },
                        },
                    },
                },
            },
        },
    }
}

/// The first ten decoded fields of a post, handed on to the decoder of
/// the remaining fields.
pub struct PostPrefixView {
    pub id: i64,
    pub created_at: Seq<char>,
    pub score: i64,
    pub width: i64,
    pub height: i64,
    pub md5: Seq<char>,
    pub directory: Seq<char>,
    pub image: Seq<char>,
    pub rating: Rating,
    pub source: Seq<char>,
}

/// What the fields of a post after `source` decode to.
pub open spec fn spec_decode_post_rest(v: JsonView, path: Seq<char>, pre: PostPrefixView) -> Result<
    PostView,
    DecodeErrorView,
> {
    match spec_opt_i64(v, "change"@, path) {
        Err(e) => Err(e),
        Ok(change) => match spec_req_str(v, "owner"@, path) {
            Err(e) => Err(e),
            Ok(owner) => match spec_req_i64(v, "creator_id"@, path) {
                Err(e) => Err(e),
                Ok(creator_id) => match spec_req_i64(v, "parent_id"@, path) {
                    Err(e) => Err(e),
                    Ok(parent_id) => match spec_req_i64(v, "sample"@, path) {
                        Err(e) => Err(e),
                        Ok(sample) => match spec_req_i64(v, "preview_height"@, path) {
                            Err(e) => Err(e),
                            Ok(preview_height) => match spec_req_i64(v, "preview_width"@, path) {
                                Err(e) => Err(e),
                                Ok(preview_width) => match spec_req_str(v, "tags"@, path) {
                                    Err(e) => Err(e),
                                    Ok(tags) => match spec_req_str(v, "title"@, path) {
                                        Err(e) => Err(e),
                                        Ok(title) => spec_decode_post_urls(
                                            v,
                                            path,
                                            pre,
                                            change,
                                            owner,
                                            creator_id,
                                            parent_id,
                                            sample,
                                            preview_height,
                                            preview_width,
                                            tags,
                                            title,
                                        ),
                                    },
                                },
                            },
                        },
                    },
                },
            },
        },
    }
}

/// What the URL and status fields at the end of a post decode to.
pub open spec fn spec_decode_post_urls(
    v: JsonView,
    path: Seq<char>,
    pre: PostPrefixView,
    change: Option<i64>,
    owner: Seq<char>,
    creator_id: i64,
    parent_id: i64,
    sample: i64,
    preview_height: i64,
    preview_width: i64,
    tags: Seq<char>,
    title: Seq<char>,
) -> Result<PostView, DecodeErrorView> {
    match spec_req_str(v, "file_url"@, path) {
        Err(e) => Err(e),
        Ok(file_url) => match spec_req_str(v, "preview_url"@, path) {
            Err(e) => Err(e),
            Ok(preview_url) => match spec_req_str(v, "sample_url"@, path) {
                Err(e) => Err(e),
                Ok(sample_url) => match spec_req_i64(v, "sample_height"@, path) {
                    Err(e) => Err(e),
                    Ok(sample_height) => match spec_req_i64(v, "sample_width"@, path) {
                        Err(e) => Err(e),
                        Ok(sample_width) => match spec_req_str(v, "status"@, path) {
                            Err(e) => Err(e),
                            Ok(status) => match spec_req_i64(v, "post_locked"@, path) {
                                Err(e) => Err(e),
                                Ok(post_locked) => match spec_req_str(v, "has_children"@, path) {
                                    Err(e) => Err(e),
                                    Ok(has_children) => Ok(
                                        PostView {
                                            id: pre.id,
                                            created_at: pre.created_at,
                                            score: pre.score,
                                            width: pre.width,
                                            height: pre.height,
                                            md5: pre.md5,
                                            directory: pre.directory,
                                            image: pre.image,
                                            rating: pre.rating,
                                            source: pre.source,
                                            change,
                                            owner,
                                            creator_id,
                                            parent_id,
                                            sample,
                                            preview_height,
                                            preview_width,
                                            tags,
                                            title,
                                            file_url,
                                            preview_url,
                                            sample_url,
                                            sample_height,
                                            sample_width,
                                            status,
                                            post_locked,
                                            has_children,
                                        },
                                    ),
                                },
                            },
                        },
                    },
                },
            },
        },
    }
}

impl Post {
    /// Decodes a post object; `path` locates it in the payload for
    /// error reporting.
    pub fn decode(j: &Json, path: &str) -> (r: Result<Post, DecodeError>)
        ensures
            (match r {
                Ok(p) => spec_decode_post(j@, path@) == Ok::<PostView, DecodeErrorView>(p@),
                Err(e) => spec_decode_post(j@, path@) == Err::<PostView, DecodeErrorView>(e@),
            }),
    {
        let id = match req_i64(j, "id", path) {
            Ok(x) => x,
            Err(e) => return Err(e),
        };
        let created_at = match req_string(j, "created_at", path) {
            Ok(x) => x,
            Err(e) => return Err(e),
        };
        let score = match req_i64(j, "score", path) {
            Ok(x) => x,
            Err(e) => return Err(e),
        };
        let width = match req_i64(j, "width", path) {
            Ok(x) => x,
            Err(e) => return Err(e),
        };
        let height = match req_i64(j, "height", path) {
            Ok(x) => x,
            Err(e) => return Err(e),
        };
        let md5 = match req_string(j, "md5", path) {
            Ok(x) => x,
            Err(e) => return Err(e),
        };
        let directory = match req_string(j, "directory", path) {
            Ok(x) => x,
            Err(e) => return Err(e),
        };
        let image = match req_string(j, "image", path) {
            Ok(x) => x,
            Err(e) => return Err(e),
        };
        let rating = match decode_rating(j, path) {
            Ok(x) => x,
            Err(e) => return Err(e),
        };
        let source = match req_string(j, "source", path) {
            Ok(x) => x,
            Err(e) => return Err(e),
        };
        let change = match opt_i64(j, "change", path) {
            Ok(x) => x,
            Err(e) => return Err(e),
        };
        let owner = match req_string(j, "owner", path) {
            Ok(x) => x,
            Err(e) => return Err(e),
        };
        let creator_id = match req_i64(j, "creator_id", path) {
            Ok(x) => x,
            Err(e) => return Err(e),
        };
        let parent_id = match req_i64(j, "parent_id", path) {
            Ok(x) => x,
            Err(e) => return Err(e),
        };
        let sample = match req_i64(j, "sample", path) {
            Ok(x) => x,
            Err(e) => return Err(e),
        };
        let preview_height = match req_i64(j, "preview_height", path) {
            Ok(x) => x,
            Err(e) => return Err(e),
        };
        let preview_width = match req_i64(j, "preview_width", path) {
            Ok(x) => x,
            Err(e) => return Err(e),
        };
        let tags = match req_string(j, "tags", path) {
            Ok(x) => x,
            Err(e) => return Err(e),
        };
        let title = match req_string(j, "title", path) {
            Ok(x) => x,
            Err(e) => return Err(e),
        };
        let file_url = match req_string(j, "file_url", path) {
            Ok(x) => x,
            Err(e) => return Err(e),
        };
        let preview_url = match req_string(j, "preview_url", path) {
            Ok(x) => x,
            Err(e) => return Err(e),
        };
        let sample_url = match req_string(j, "sample_url", path) {
            Ok(x) => x,
            Err(e) => return Err(e),
        };
        let sample_height = match req_i64(j, "sample_height", path) {
            Ok(x) => x,
            Err(e) => return Err(e),
        };
        let sample_width = match req_i64(j, "sample_width", path) {
            Ok(x) => x,
            Err(e) => return Err(e),
        };
        let status = match req_string(j, "status", path) {
            Ok(x) => x,
            Err(e) => return Err(e),
        };
        let post_locked = match req_i64(j, "post_locked", path) {
            Ok(x) => x,
            Err(e) => return Err(e),
        };
        let has_children = match req_string(j, "has_children", path) {
            Ok(x) => x,
            Err(e) => return Err(e),
        };
        Ok(
            Post {
                id,
                created_at,
                score,
                width,
                height,
                md5,
                directory,
                image,
                rating,
                source,
                change,
                owner,
                creator_id,
                parent_id,
                sample,
                preview_height,
                preview_width,
                tags,
                title,
                file_url,
                preview_url,
                sample_url,
                sample_height,
                sample_width,
                status,
                post_locked,
                has_children,
            },
        )
    }
}

/// What the elements of a post array decode to, from index `i` on.
pub open spec fn spec_decode_post_arr_from(a: Seq<JsonView>, base: Seq<char>, i: int) -> Result<
    Seq<PostView>,
    DecodeErrorView,
>
    decreases a.len() - i,
{
    if i < 0 || i >= a.len() {
        Ok(Seq::empty())
    } else {
        match spec_decode_post(a[i], spec_elem_path(base, i)) {
            Err(e) => Err(e),
            Ok(p) => match spec_decode_post_arr_from(a, base, i + 1) {
                Err(e) => Err(e),
                Ok(rest) => Ok(seq![p] + rest),
            },
        }
    }
}

/// When every element from `i` on decodes, the array decodes to that
/// list of posts.
pub proof fn lemma_decode_post_arr_from_ok(
    a: Seq<JsonView>,
    base: Seq<char>,
    ps: Seq<PostView>,
    i: int,
)
    requires
        0 <= i <= a.len(),
        ps.len() == a.len() - i,
        forall|t: int|
            i <= t < a.len() ==> spec_decode_post(a[t], spec_elem_path(base, t)) == Ok::<
                PostView,
                DecodeErrorView,
            >(ps[t - i]),
    ensures
        spec_decode_post_arr_from(a, base, i) == Ok::<Seq<PostView>, DecodeErrorView>(ps),
    decreases a.len() - i,
{
    if i == a.len() {
        assert(ps =~= Seq::<PostView>::empty());
    } else {
        lemma_decode_post_arr_from_ok(a, base, ps.drop_first(), i + 1);
        assert(ps =~= seq![ps[0]] + ps.drop_first());
    }
}

/// When the elements before `k` decode and the element at `k` fails,
/// the array's decoding fails with that element's error.
pub proof fn lemma_decode_post_arr_from_err(
    a: Seq<JsonView>,
    base: Seq<char>,
    i: int,
    k: int,
    e: DecodeErrorView,
)
    requires
        0 <= i <= k < a.len(),
        forall|t: int| i <= t < k ==> spec_decode_post(a[t], spec_elem_path(base, t)) is Ok,
        spec_decode_post(a[k], spec_elem_path(base, k)) == Err::<PostView, DecodeErrorView>(e),
    ensures
        spec_decode_post_arr_from(a, base, i) == Err::<Seq<PostView>, DecodeErrorView>(e),
    decreases k - i,
{
    if i < k {
        lemma_decode_post_arr_from_err(a, base, i + 1, k, e);
    }
}

/// The JSON form of a post record.
pub open spec fn spec_encode_post(p: PostView) -> JsonView {
    JsonView::Obj(
        seq![
            ("id"@, JsonView::Int(p.id as int)),
            ("created_at"@, JsonView::Str(p.created_at)),
            ("score"@, JsonView::Int(p.score as int)),
            ("width"@, JsonView::Int(p.width as int)),
            ("height"@, JsonView::Int(p.height as int)),
            ("md5"@, JsonView::Str(p.md5)),
            ("directory"@, JsonView::Str(p.directory)),
            ("image"@, JsonView::Str(p.image)),
            ("rating"@, JsonView::Str(rating_str(p.rating))),
            ("source"@, JsonView::Str(p.source)),
            ("change"@, enc_opt_i64(p.change)),
            ("owner"@, JsonView::Str(p.owner)),
            ("creator_id"@, JsonView::Int(p.creator_id as int)),
            ("parent_id"@, JsonView::Int(p.parent_id as int)),
            ("sample"@, JsonView::Int(p.sample as int)),
            ("preview_height"@, JsonView::Int(p.preview_height as int)),
            ("preview_width"@, JsonView::Int(p.preview_width as int)),
            ("tags"@, JsonView::Str(p.tags)),
            ("title"@, JsonView::Str(p.title)),
            ("file_url"@, JsonView::Str(p.file_url)),
            ("preview_url"@, JsonView::Str(p.preview_url)),
            ("sample_url"@, JsonView::Str(p.sample_url)),
            ("sample_height"@, JsonView::Int(p.sample_height as int)),
            ("sample_width"@, JsonView::Int(p.sample_width as int)),
            ("status"@, JsonView::Str(p.status)),
            ("post_locked"@, JsonView::Int(p.post_locked as int)),
            ("has_children"@, JsonView::Str(p.has_children)),
        ],
    )
}

impl Post {
    /// Encodes the record back to a JSON object. The optional `change`
    /// field is written as an explicit `null` when not present, which
    /// decodes back to "not present".
    pub fn encode(&self) -> (j: Json)
        ensures
            j@ == spec_encode_post(self@),
    {
        let entries: Vec<(String, Json)> = vec![
            ("id".to_owned(), Json::Num(JsonNumber::Int(self.id))),
            ("created_at".to_owned(), Json::Str(self.created_at.clone())),
            ("score".to_owned(), Json::Num(JsonNumber::Int(self.score))),
            ("width".to_owned(), Json::Num(JsonNumber::Int(self.width))),
            ("height".to_owned(), Json::Num(JsonNumber::Int(self.height))),
            ("md5".to_owned(), Json::Str(self.md5.clone())),
            ("directory".to_owned(), Json::Str(self.directory.clone())),
            ("image".to_owned(), Json::Str(self.image.clone())),
            ("rating".to_owned(), Json::Str(self.rating.as_str().to_owned())),
            ("source".to_owned(), Json::Str(self.source.clone())),
            (
                "change".to_owned(),
                match self.change {
                    Some(i) => Json::Num(JsonNumber::Int(i)),
                    None => Json::Null,
                },
            ),
            ("owner".to_owned(), Json::Str(self.owner.clone())),
            ("creator_id".to_owned(), Json::Num(JsonNumber::Int(self.creator_id))),
            ("parent_id".to_owned(), Json::Num(JsonNumber::Int(self.parent_id))),
            ("sample".to_owned(), Json::Num(JsonNumber::Int(self.sample))),
            ("preview_height".to_owned(), Json::Num(JsonNumber::Int(self.preview_height))),
            ("preview_width".to_owned(), Json::Num(JsonNumber::Int(self.preview_width))),
            ("tags".to_owned(), Json::Str(self.tags.clone())),
            ("title".to_owned(), Json::Str(self.title.clone())),
            ("file_url".to_owned(), Json::Str(self.file_url.clone())),
            ("preview_url".to_owned(), Json::Str(self.preview_url.clone())),
            ("sample_url".to_owned(), Json::Str(self.sample_url.clone())),
            ("sample_height".to_owned(), Json::Num(JsonNumber::Int(self.sample_height))),
            ("sample_width".to_owned(), Json::Num(JsonNumber::Int(self.sample_width))),
            ("status".to_owned(), Json::Str(self.status.clone())),
            ("post_locked".to_owned(), Json::Num(JsonNumber::Int(self.post_locked))),
            ("has_children".to_owned(), Json::Str(self.has_children.clone())),
        ];
        let ghost evs = entries@;
        let j = Json::Obj(entries);
        proof {
            lemma_json_view_obj(evs);
            let p = self@;
            let target = seq![
                ("id"@, JsonView::Int(p.id as int)),
                ("created_at"@, JsonView::Str(p.created_at)),
                ("score"@, JsonView::Int(p.score as int)),
                ("width"@, JsonView::Int(p.width as int)),
                ("height"@, JsonView::Int(p.height as int)),
                ("md5"@, JsonView::Str(p.md5)),
                ("directory"@, JsonView::Str(p.directory)),
                ("image"@, JsonView::Str(p.image)),
                ("rating"@, JsonView::Str(rating_str(p.rating))),
                ("source"@, JsonView::Str(p.source)),
                ("change"@, enc_opt_i64(p.change)),
                ("owner"@, JsonView::Str(p.owner)),
                ("creator_id"@, JsonView::Int(p.creator_id as int)),
                ("parent_id"@, JsonView::Int(p.parent_id as int)),
                ("sample"@, JsonView::Int(p.sample as int)),
                ("preview_height"@, JsonView::Int(p.preview_height as int)),
                ("preview_width"@, JsonView::Int(p.preview_width as int)),
                ("tags"@, JsonView::Str(p.tags)),
                ("title"@, JsonView::Str(p.title)),
                ("file_url"@, JsonView::Str(p.file_url)),
                ("preview_url"@, JsonView::Str(p.preview_url)),
                ("sample_url"@, JsonView::Str(p.sample_url)),
                ("sample_height"@, JsonView::Int(p.sample_height as int)),
                ("sample_width"@, JsonView::Int(p.sample_width as int)),
                ("status"@, JsonView::Str(p.status)),
                ("post_locked"@, JsonView::Int(p.post_locked as int)),
                ("has_children"@, JsonView::Str(p.has_children)),
            ];
            assert(json_view_obj(evs) =~= target);
            assert(j@ == JsonView::Obj(json_view_obj(evs)));
            assert(spec_encode_post(self@) == JsonView::Obj(target));
        }
        j
    }
}

/// Law: encoding a post and decoding it back yields the same record,
/// field for field — the model-level round trip, independent of any
/// network activity.
#[verifier::rlimit(60)]
pub proof fn lemma_post_round_trip(p: PostView, path: Seq<char>)
    ensures
        spec_decode_post(spec_encode_post(p), path) == Ok::<PostView, DecodeErrorView>(p),
{
    reveal_strlit("id");
    reveal_strlit("created_at");
    reveal_strlit("score");
    reveal_strlit("width");
    reveal_strlit("height");
    reveal_strlit("md5");
    reveal_strlit("directory");
    reveal_strlit("image");
    reveal_strlit("rating");
    reveal_strlit("source");
    reveal_strlit("change");
    reveal_strlit("owner");
    reveal_strlit("creator_id");
    reveal_strlit("parent_id");
    reveal_strlit("sample");
    reveal_strlit("preview_height");
    reveal_strlit("preview_width");
    reveal_strlit("tags");
    reveal_strlit("title");
    reveal_strlit("file_url");
    reveal_strlit("preview_url");
    reveal_strlit("sample_url");
    reveal_strlit("sample_height");
    reveal_strlit("sample_width");
    reveal_strlit("status");
    reveal_strlit("post_locked");
    reveal_strlit("has_children");
    assert("id"@.len() == 2 && "id"@[0] == 'i' && "id"@[1] == 'd');
    assert("created_at"@.len() == 10 && "created_at"@[0] == 'c' && "created_at"@[1] == 'r'
        && "created_at"@[5] == 'e');
    assert("score"@.len() == 5 && "score"@[0] == 's' && "score"@[1] == 'c');
    assert("width"@.len() == 5 && "width"@[0] == 'w' && "width"@[1] == 'i');
    assert("height"@.len() == 6 && "height"@[0] == 'h' && "height"@[1] == 'e');
    assert("md5"@.len() == 3 && "md5"@[0] == 'm' && "md5"@[1] == 'd');
    assert("directory"@.len() == 9 && "directory"@[0] == 'd' && "directory"@[1] == 'i');
    assert("image"@.len() == 5 && "image"@[0] == 'i' && "image"@[1] == 'm');
    assert("rating"@.len() == 6 && "rating"@[0] == 'r' && "rating"@[1] == 'a');
    assert("source"@.len() == 6 && "source"@[0] == 's' && "source"@[1] == 'o');
    assert("change"@.len() == 6 && "change"@[0] == 'c' && "change"@[1] == 'h');
    assert("owner"@.len() == 5 && "owner"@[0] == 'o' && "owner"@[1] == 'w');
    assert("creator_id"@.len() == 10 && "creator_id"@[0] == 'c' && "creator_id"@[1] == 'r'
        && "creator_id"@[5] == 'o');
    assert("parent_id"@.len() == 9 && "parent_id"@[0] == 'p' && "parent_id"@[1] == 'a');
    assert("sample"@.len() == 6 && "sample"@[0] == 's' && "sample"@[1] == 'a');
    assert("preview_height"@.len() == 14 && "preview_height"@[0] == 'p' && "preview_height"@[1]
        == 'r');
    assert("preview_width"@.len() == 13 && "preview_width"@[0] == 'p' && "preview_width"@[1]
        == 'r');
    assert("tags"@.len() == 4 && "tags"@[0] == 't' && "tags"@[1] == 'a');
    assert("title"@.len() == 5 && "title"@[0] == 't' && "title"@[1] == 'i');
    assert("file_url"@.len() == 8 && "file_url"@[0] == 'f' && "file_url"@[1] == 'i');
    assert("preview_url"@.len() == 11 && "preview_url"@[0] == 'p' && "preview_url"@[1] == 'r');
    assert("sample_url"@.len() == 10 && "sample_url"@[0] == 's' && "sample_url"@[1] == 'a');
    assert("sample_height"@.len() == 13 && "sample_height"@[0] == 's' && "sample_height"@[1]
        == 'a');
    assert("sample_width"@.len() == 12 && "sample_width"@[0] == 's' && "sample_width"@[1]
        == 'a');
    assert("status"@.len() == 6 && "status"@[0] == 's' && "status"@[1] == 't');
    assert("post_locked"@.len() == 11 && "post_locked"@[0] == 'p' && "post_locked"@[1] == 'o');
    assert("has_children"@.len() == 12 && "has_children"@[0] == 'h' && "has_children"@[1]
        == 'a');
    let es = seq![
        ("id"@, JsonView::Int(p.id as int)),
        ("created_at"@, JsonView::Str(p.created_at)),
        ("score"@, JsonView::Int(p.score as int)),
        ("width"@, JsonView::Int(p.width as int)),
        ("height"@, JsonView::Int(p.height as int)),
        ("md5"@, JsonView::Str(p.md5)),
        ("directory"@, JsonView::Str(p.directory)),
        ("image"@, JsonView::Str(p.image)),
        ("rating"@, JsonView::Str(rating_str(p.rating))),
        ("source"@, JsonView::Str(p.source)),
        ("change"@, enc_opt_i64(p.change)),
        ("owner"@, JsonView::Str(p.owner)),
        ("creator_id"@, JsonView::Int(p.creator_id as int)),
        ("parent_id"@, JsonView::Int(p.parent_id as int)),
        ("sample"@, JsonView::Int(p.sample as int)),
        ("preview_height"@, JsonView::Int(p.preview_height as int)),
        ("preview_width"@, JsonView::Int(p.preview_width as int)),
        ("tags"@, JsonView::Str(p.tags)),
        ("title"@, JsonView::Str(p.title)),
        ("file_url"@, JsonView::Str(p.file_url)),
        ("preview_url"@, JsonView::Str(p.preview_url)),
        ("sample_url"@, JsonView::Str(p.sample_url)),
        ("sample_height"@, JsonView::Int(p.sample_height as int)),
        ("sample_width"@, JsonView::Int(p.sample_width as int)),
        ("status"@, JsonView::Str(p.status)),
        ("post_locked"@, JsonView::Int(p.post_locked as int)),
        ("has_children"@, JsonView::Str(p.has_children)),
    ];
    lemma_lookup_at(es, "id"@, 0);
    lemma_lookup_at(es, "created_at"@, 1);
    lemma_lookup_at(es, "score"@, 2);
    lemma_lookup_at(es, "width"@, 3);
    lemma_lookup_at(es, "height"@, 4);
    lemma_lookup_at(es, "md5"@, 5);
    lemma_lookup_at(es, "directory"@, 6);
    lemma_lookup_at(es, "image"@, 7);
    lemma_lookup_at(es, "rating"@, 8);
    lemma_lookup_at(es, "source"@, 9);
    lemma_lookup_at(es, "change"@, 10);
    lemma_lookup_at(es, "owner"@, 11);
    lemma_lookup_at(es, "creator_id"@, 12);
    lemma_lookup_at(es, "parent_id"@, 13);
    lemma_lookup_at(es, "sample"@, 14);
    lemma_lookup_at(es, "preview_height"@, 15);
    lemma_lookup_at(es, "preview_width"@, 16);
    lemma_lookup_at(es, "tags"@, 17);
    lemma_lookup_at(es, "title"@, 18);
    lemma_lookup_at(es, "file_url"@, 19);
    lemma_lookup_at(es, "preview_url"@, 20);
    lemma_lookup_at(es, "sample_url"@, 21);
    lemma_lookup_at(es, "sample_height"@, 22);
    lemma_lookup_at(es, "sample_width"@, 23);
    lemma_lookup_at(es, "status"@, 24);
    lemma_lookup_at(es, "post_locked"@, 25);
    lemma_lookup_at(es, "has_children"@, 26);
    lemma_rating_str_round_trip(p.rating);
}

/// Law: an attributes decode failure names a field: it is a missing or
/// mistyped field, never any other kind of error.
pub proof fn lemma_attributes_error_names_a_field(v: JsonView, path: Seq<char>)
    ensures
        spec_decode_attributes(v, path) matches Err(e) ==> (e is MissingField || e is WrongType),
{
}

/// Law: a post decode failure names a field: whatever is wrong with the
/// payload, the error is a missing or mistyped field with its path —
/// never a panic and never a silently substituted default.
pub proof fn lemma_post_error_names_a_field(v: JsonView, path: Seq<char>)
    ensures
        spec_decode_post(v, path) matches Err(e) ==> (e is MissingField || e is WrongType),
{
}

/// Law: a post-array decode failure names a field.
pub proof fn lemma_post_arr_error_names_a_field(a: Seq<JsonView>, base: Seq<char>, i: int)
    ensures
        spec_decode_post_arr_from(a, base, i) matches Err(e) ==> (e is MissingField
            || e is WrongType),
    decreases a.len() - i,
{
    if 0 <= i < a.len() {
        lemma_post_error_names_a_field(a[i], spec_elem_path(base, i));
        lemma_post_arr_error_names_a_field(a, base, i + 1);
    }
}

/// Law: a decoded post array holds exactly one record per payload
/// element, in payload order — never more, never fewer.
pub proof fn lemma_decoded_post_arr_len(a: Seq<JsonView>, base: Seq<char>, ps: Seq<PostView>, i: int)
    requires
        0 <= i <= a.len(),
        spec_decode_post_arr_from(a, base, i) == Ok::<Seq<PostView>, DecodeErrorView>(ps),
    ensures
        ps.len() == a.len() - i,
    decreases a.len() - i,
{
    if i < a.len() {
        let rest = spec_decode_post_arr_from(a, base, i + 1);
        lemma_decoded_post_arr_len(a, base, rest->Ok_0, i + 1);
    }
}

/// Decodes each element of a post array; `base` is the array's path in
/// the payload.
pub fn decode_posts_arr(a: &Vec<Json>, base: &str) -> (r: Result<Vec<Post>, DecodeError>)
    ensures
        (match r {
            Ok(ps) => spec_decode_post_arr_from(json_view_arr(a@), base@, 0) == Ok::<
                Seq<PostView>,
                DecodeErrorView,
            >(ps@.map_values(|p: Post| p@)),
            Err(e) => spec_decode_post_arr_from(json_view_arr(a@), base@, 0) == Err::<
                Seq<PostView>,
                DecodeErrorView,
            >(e@),
        }),
{
    proof {
        lemma_json_view_arr(a@);
    }
    let ghost av = json_view_arr(a@);
    let mut out: Vec<Post> = Vec::new();
    let n = a.len();
    let mut i: usize = 0;
    while i < n
        invariant
            n == a@.len(),
            av == json_view_arr(a@),
            av.len() == a@.len(),
            forall|t: int| 0 <= t < a@.len() ==> av[t] == json_view(a@[t]),
            i <= n,
            out@.len() == i,
            forall|t: int|
                0 <= t < i ==> spec_decode_post(av[t], spec_elem_path(base@, t)) == Ok::<
                    PostView,
                    DecodeErrorView,
                >(out@[t]@),
        decreases n - i,
    {
        let p = elem_path(base, i);
        match Post::decode(&a[i], p.as_str()) {
            Ok(post) => out.push(post),
            Err(e) => {
                proof {
                    lemma_decode_post_arr_from_err(av, base@, 0, i as int, e@);
                }
                return Err(e);
            },
        }
        i += 1;
    }
    proof {
        lemma_decode_post_arr_from_ok(av, base@, out@.map_values(|p: Post| p@), 0);
    }
    Ok(out)
}


/// A post of the second imageboard variant: a compatible self-hosted
/// site that answers the same query grammar with a bare post array at
/// the root of the JSON body. Its schema differs from [`Post`]: the
/// rating is a free-form string, and the hash, score, parent, and
/// sample fields are named and typed as this variant gives them.
#[derive(Debug)]
pub struct SitePost {
    /// Post identifier.
    pub id: i64,
    /// Post directory.
    pub directory: String,
    /// Image file name.
    pub image: String,
    /// Image hash (MD5 or whatever the site uses).
    pub hash: String,
    /// Image width.
    pub width: i64,
    /// Image height.
    pub height: i64,
    /// Image rating: a free-form string in this variant.
    pub rating: String,
    /// Post owner.
    pub owner: String,
    /// Parent post identifier, when given.
    pub parent_id: Option<i64>,
    /// Post tags, one opaque delimited string.
    pub tags: String,
    /// Post score, when given.
    pub score: Option<i64>,
    /// Whether the post has a sample image, when given.
    pub sample: Option<bool>,
    /// Sample width, when given.
    pub sample_width: Option<i64>,
    /// Sample height, when given.
    pub sample_height: Option<i64>,
    /// Full-resolution file URL.
    pub file_url: String,
    /// Preview URL.
    pub preview_url: String,
    /// Sample URL, when given.
    pub sample_url: Option<String>,
}

/// Model of [`SitePost`].
pub struct SitePostView {
    pub id: i64,
    pub directory: Seq<char>,
    pub image: Seq<char>,
    pub hash: Seq<char>,
    pub width: i64,
    pub height: i64,
    pub rating: Seq<char>,
    pub owner: Seq<char>,
    pub parent_id: Option<i64>,
    pub tags: Seq<char>,
    pub score: Option<i64>,
    pub sample: Option<bool>,
    pub sample_width: Option<i64>,
    pub sample_height: Option<i64>,
    pub file_url: Seq<char>,
    pub preview_url: Seq<char>,
    pub sample_url: Option<Seq<char>>,
}

impl View for SitePost {
    type V = SitePostView;

    open spec fn view(&self) -> SitePostView {
        SitePostView {
            id: self.id,
            directory: self.directory@,
            image: self.image@,
            hash: self.hash@,
            width: self.width,
            height: self.height,
            rating: self.rating@,
            owner: self.owner@,
            parent_id: self.parent_id,
            tags: self.tags@,
            score: self.score,
            sample: self.sample,
            sample_width: self.sample_width,
            sample_height: self.sample_height,
            file_url: self.file_url@,
            preview_url: self.preview_url@,
            sample_url: str_opt_view(self.sample_url),
        }
    }
}

/// What a self-hosted-variant post object under `path` decodes to:
/// every field, or the first error, in field order.
pub open spec fn spec_decode_site_post(v: JsonView, path: Seq<char>) -> Result<
    SitePostView,
    DecodeErrorView,
> {
    match spec_req_i64(v, "id"@, path) {
        Err(e) => Err(e),
        Ok(id) => match spec_req_str(v, "directory"@, path) {
            Err(e) => Err(e),
            Ok(directory) => match spec_req_str(v, "image"@, path) {
                Err(e) => Err(e),
                Ok(image) => match spec_req_str(v, "hash"@, path) {
                    Err(e) => Err(e),
                    Ok(hash) => match spec_req_i64(v, "width"@, path) {
                        Err(e) => Err(e),
                        Ok(width) => match spec_req_i64(v, "height"@, path) {
                            Err(e) => Err(e),
                            Ok(height) => match spec_req_str(v, "rating"@, path) {
                                Err(e) => Err(e),
                                Ok(rating) => match spec_req_str(v, "owner"@, path) {
                                    Err(e) => Err(e),
                                    Ok(owner) => spec_decode_site_post_rest(
                                        v,
                                        path,
                                        SitePostPrefixView {
                                            id,
                                            directory,
                                            image,
                                            hash,
                                            width,
                                            height,
                                            rating,
                                            owner,
                                        },
                                    ),
                                },
                            },
                        },
                    },
                },
            },
        },
    }
}

/// The first eight decoded fields of a self-hosted-variant post.
pub struct SitePostPrefixView {
    pub id: i64,
    pub directory: Seq<char>,
    pub image: Seq<char>,
    pub hash: Seq<char>,
    pub width: i64,
    pub height: i64,
    pub rating: Seq<char>,
    pub owner: Seq<char>,
}

/// What the fields of a self-hosted-variant post after `owner` decode
/// to.
pub open spec fn spec_decode_site_post_rest(
    v: JsonView,
    path: Seq<char>,
    pre: SitePostPrefixView,
) -> Result<SitePostView, DecodeErrorView> {
    match spec_opt_i64(v, "parent_id"@, path) {
        Err(e) => Err(e),
        Ok(parent_id) => match spec_req_str(v, "tags"@, path) {
            Err(e) => Err(e),
            Ok(tags) => match spec_opt_i64(v, "score"@, path) {
                Err(e) => Err(e),
                Ok(score) => match spec_opt_bool(v, "sample"@, path) {
                    Err(e) => Err(e),
                    Ok(sample) => match spec_opt_i64(v, "sample_width"@, path) {
                        Err(e) => Err(e),
                        Ok(sample_width) => match spec_opt_i64(v, "sample_height"@, path) {
                            Err(e) => Err(e),
                            Ok(sample_height) => match spec_req_str(v, "file_url"@, path) {
                                Err(e) => Err(e),
                                Ok(file_url) => match spec_req_str(v, "preview_url"@, path) {
                                    Err(e) => Err(e),
                                    Ok(preview_url) => match spec_opt_str(v, "sample_url"@, path) {
                                        Err(e) => Err(e),
                                        Ok(sample_url) => Ok(
                                            SitePostView {
                                                id: pre.id,
                                                directory: pre.directory,
                                                image: pre.image,
                                                hash: pre.hash,
                                                width: pre.width,
                                                height: pre.height,
                                                rating: pre.rating,
                                                owner: pre.owner,
                                                parent_id,
                                                tags,
                                                score,
                                                sample,
                                                sample_width,
                                                sample_height,
                                                file_url,
                                                preview_url,
                                                sample_url,
                                            },
                                        ),
                                    },
                                },
                            },
                        },
                    },
                },
            },
        },
    }
}

impl SitePost {
    /// Decodes a self-hosted-variant post object; `path` locates it in
    /// the payload for error reporting.
    pub fn decode(j: &Json, path: &str) -> (r: Result<SitePost, DecodeError>)
        ensures
            (match r {
                Ok(p) => spec_decode_site_post(j@, path@) == Ok::<
                    SitePostView,
                    DecodeErrorView,
                >(p@),
                Err(e) => spec_decode_site_post(j@, path@) == Err::<
                    SitePostView,
                    DecodeErrorView,
                >(e@),
            }),
    {
        let id = match req_i64(j, "id", path) {
            Ok(x) => x,
            Err(e) => return Err(e),
        };
        let directory = match req_string(j, "directory", path) {
            Ok(x) => x,
            Err(e) => return Err(e),
        };
        let image = match req_string(j, "image", path) {
            Ok(x) => x,
            Err(e) => return Err(e),
        };
        let hash = match req_string(j, "hash", path) {
            Ok(x) => x,
            Err(e) => return Err(e),
        };
        let width = match req_i64(j, "width", path) {
            Ok(x) => x,
            Err(e) => return Err(e),
        };
        let height = match req_i64(j, "height", path) {
            Ok(x) => x,
            Err(e) => return Err(e),
        };
        let rating = match req_string(j, "rating", path) {
            Ok(x) => x,
            Err(e) => return Err(e),
        };
        let owner = match req_string(j, "owner", path) {
            Ok(x) => x,
            Err(e) => return Err(e),
        };
        let parent_id = match opt_i64(j, "parent_id", path) {
            Ok(x) => x,
            Err(e) => return Err(e),
        };
        let tags = match req_string(j, "tags", path) {
            Ok(x) => x,
            Err(e) => return Err(e),
        };
        let score = match opt_i64(j, "score", path) {
            Ok(x) => x,
            Err(e) => return Err(e),
        };
        let sample = match opt_bool(j, "sample", path) {
            Ok(x) => x,
            Err(e) => return Err(e),
        };
        let sample_width = match opt_i64(j, "sample_width", path) {
            Ok(x) => x,
            Err(e) => return Err(e),
        };
        let sample_height = match opt_i64(j, "sample_height", path) {
            Ok(x) => x,
            Err(e) => return Err(e),
        };
        let file_url = match req_string(j, "file_url", path) {
            Ok(x) => x,
            Err(e) => return Err(e),
        };
        let preview_url = match req_string(j, "preview_url", path) {
            Ok(x) => x,
            Err(e) => return Err(e),
        };
        let sample_url = match opt_string(j, "sample_url", path) {
            Ok(x) => x,
            Err(e) => return Err(e),
        };
        Ok(
            SitePost {
                id,
                directory,
                image,
                hash,
                width,
                height,
                rating,
                owner,
                parent_id,
                tags,
                score,
                sample,
                sample_width,
                sample_height,
                file_url,
                preview_url,
                sample_url,
            },
        )
    }
}

/// What the elements of a self-hosted-variant post array decode to,
/// from index `i` on.
pub open spec fn spec_decode_site_post_arr_from(
    a: Seq<JsonView>,
    base: Seq<char>,
    i: int,
) -> Result<Seq<SitePostView>, DecodeErrorView>
    decreases a.len() - i,
{
    if i < 0 || i >= a.len() {
        Ok(Seq::empty())
    } else {
        match spec_decode_site_post(a[i], spec_elem_path(base, i)) {
            Err(e) => Err(e),
            Ok(p) => match spec_decode_site_post_arr_from(a, base, i + 1) {
                Err(e) => Err(e),
                Ok(rest) => Ok(seq![p] + rest),
            },
        }
    }
}

/// When every element from `i` on decodes, the array decodes to that
/// list of posts.
pub proof fn lemma_decode_site_post_arr_from_ok(
    a: Seq<JsonView>,
    base: Seq<char>,
    ps: Seq<SitePostView>,
    i: int,
)
    requires
        0 <= i <= a.len(),
        ps.len() == a.len() - i,
        forall|t: int|
            i <= t < a.len() ==> spec_decode_site_post(a[t], spec_elem_path(base, t)) == Ok::<
                SitePostView,
                DecodeErrorView,
            >(ps[t - i]),
    ensures
        spec_decode_site_post_arr_from(a, base, i) == Ok::<Seq<SitePostView>, DecodeErrorView>(ps),
    decreases a.len() - i,
{
    if i == a.len() {
        assert(ps =~= Seq::<SitePostView>::empty());
    } else {
        lemma_decode_site_post_arr_from_ok(a, base, ps.drop_first(), i + 1);
        assert(ps =~= seq![ps[0]] + ps.drop_first());
    }
}

/// When the elements before `k` decode and the element at `k` fails,
/// the array's decoding fails with that element's error.
pub proof fn lemma_decode_site_post_arr_from_err(
    a: Seq<JsonView>,
    base: Seq<char>,
    i: int,
    k: int,
    e: DecodeErrorView,
)
    requires
        0 <= i <= k < a.len(),
        forall|t: int|
            i <= t < k ==> spec_decode_site_post(a[t], spec_elem_path(base, t)) is Ok,
        spec_decode_site_post(a[k], spec_elem_path(base, k)) == Err::<
            SitePostView,
            DecodeErrorView,
        >(e),
    ensures
        spec_decode_site_post_arr_from(a, base, i) == Err::<Seq<SitePostView>, DecodeErrorView>(e),
    decreases k - i,
{
    if i < k {
        lemma_decode_site_post_arr_from_err(a, base, i + 1, k, e);
    }
}

/// Law: a self-hosted-variant post decode failure names a field.
pub proof fn lemma_site_post_error_names_a_field(v: JsonView, path: Seq<char>)
    ensures
        spec_decode_site_post(v, path) matches Err(e) ==> (e is MissingField || e is WrongType),
{
}

/// Law: a self-hosted-variant post-array decode failure names a field.
pub proof fn lemma_site_post_arr_error_names_a_field(a: Seq<JsonView>, base: Seq<char>, i: int)
    ensures
        spec_decode_site_post_arr_from(a, base, i) matches Err(e) ==> (e is MissingField
            || e is WrongType),
    decreases a.len() - i,
{
    if 0 <= i < a.len() {
        lemma_site_post_error_names_a_field(a[i], spec_elem_path(base, i));
        lemma_site_post_arr_error_names_a_field(a, base, i + 1);
    }
}

/// Decodes each element of a self-hosted-variant post array; `base` is
/// the array's path in the payload (empty at the payload root).
pub fn decode_site_posts_arr(a: &Vec<Json>, base: &str) -> (r: Result<
    Vec<SitePost>,
    DecodeError,
>)
    ensures
        (match r {
            Ok(ps) => spec_decode_site_post_arr_from(json_view_arr(a@), base@, 0) == Ok::<
                Seq<SitePostView>,
                DecodeErrorView,
            >(ps@.map_values(|p: SitePost| p@)),
            Err(e) => spec_decode_site_post_arr_from(json_view_arr(a@), base@, 0) == Err::<
                Seq<SitePostView>,
                DecodeErrorView,
            >(e@),
        }),
{
    proof {
        lemma_json_view_arr(a@);
    }
    let ghost av = json_view_arr(a@);
    let mut out: Vec<SitePost> = Vec::new();
    let n = a.len();
    let mut i: usize = 0;
    while i < n
        invariant
            n == a@.len(),
            av == json_view_arr(a@),
            av.len() == a@.len(),
            forall|t: int| 0 <= t < a@.len() ==> av[t] == json_view(a@[t]),
            i <= n,
            out@.len() == i,
            forall|t: int|
                0 <= t < i ==> spec_decode_site_post(av[t], spec_elem_path(base@, t)) == Ok::<
                    SitePostView,
                    DecodeErrorView,
                >(out@[t]@),
        decreases n - i,
    {
        let p = elem_path(base, i);
        match SitePost::decode(&a[i], p.as_str()) {
            Ok(post) => out.push(post),
            Err(e) => {
                proof {
                    lemma_decode_site_post_arr_from_err(av, base@, 0, i as int, e@);
                }
                return Err(e);
            },
        }
        i += 1;
    }
    proof {
        lemma_decode_site_post_arr_from_ok(av, base@, out@.map_values(|p: SitePost| p@), 0);
    }
    Ok(out)
}

} // verus!
