//! Typed records for the subscription-platform responses, with verified
//! decoding from — and encoding to — the crate's JSON tree.
//!
//! Each record mirrors exactly one JSON schema: a field absent from the
//! payload decodes to an explicit "not present" state where the schema
//! marks it optional, and a missing or mistyped required field is a
//! loud decode error naming the field, never a silently substituted
//! default.

use crate::error::{DecodeError, DecodeErrorView};
use crate::json::{
    lookup, req_bool, req_i64, req_num, req_string, req_u64, opt_string, opt_i64, opt_u64,
    spec_req_bool, spec_req_i64, spec_req_num, spec_req_str, spec_req_u64, spec_opt_i64,
    spec_opt_str, spec_opt_u64, spec_elem_path, str_opt_view, elem_path, path_key,
    json_view, json_view_arr, json_view_obj, lemma_json_view_arr, lemma_json_view_obj,
    lemma_lookup_at, to_i64, to_num, enc_opt_i64, enc_opt_str, enc_opt_u64, Json, JsonNumber,
    JsonView,
};
use vstd::prelude::*;

verus! {

/// Prices of a paid post in two currencies. The platform reports them
/// as JSON numbers that are not in general integers; they are carried
/// in the number's exact parsed form ([`JsonNumber`]), and this layer
/// does no arithmetic on them.
#[derive(Debug)]
pub struct CurrencyPrices {
    /// Price in russian rubles.
    pub rub: JsonNumber,
    /// Price in american dollars.
    pub usd: JsonNumber,
}

/// Model of [`CurrencyPrices`]: each price is an integer or the decimal
/// text of a non-integer number.
pub struct CurrencyPricesView {
    pub rub: JsonView,
    pub usd: JsonView,
}

impl View for CurrencyPrices {
    type V = CurrencyPricesView;

    open spec fn view(&self) -> CurrencyPricesView {
        CurrencyPricesView { rub: self.rub@, usd: self.usd@ }
    }
}

/// A teaser fragment of a paid post: the preview shown before the
/// paywall.
#[derive(Debug)]
pub struct Teaser {
    /// Type of the content fragment.
    pub ctype: String,
    /// Width of the content, when given.
    pub width: Option<i64>,
    /// Height of the content, when given.
    pub height: Option<i64>,
    /// Rendition label, when given.
    pub rendition: Option<String>,
    /// URL of the content, when given.
    pub url: Option<String>,
    /// Fragment identifier, when given.
    pub id: Option<String>,
}

/// Model of [`Teaser`].
pub struct TeaserView {
    pub ctype: Seq<char>,
    pub width: Option<i64>,
    pub height: Option<i64>,
    pub rendition: Option<Seq<char>>,
    pub url: Option<Seq<char>>,
    pub id: Option<Seq<char>>,
}

impl View for Teaser {
    type V = TeaserView;

    open spec fn view(&self) -> TeaserView {
        TeaserView {
            ctype: self.ctype@,
            width: self.width,
            height: self.height,
            rendition: str_opt_view(self.rendition),
            url: str_opt_view(self.url),
            id: str_opt_view(self.id),
        }
    }
}

/// A full-content fragment of a paid post, unlocked only for authorized
/// access. Structurally identical to [`Teaser`]; kept as a separate
/// record because it stands for a different post-lifecycle stage.
#[derive(Debug)]
pub struct Data {
    /// Type of the content fragment.
    pub ctype: String,
    /// Width of the content, when given.
    pub width: Option<i64>,
    /// Height of the content, when given.
    pub height: Option<i64>,
    /// Rendition label, when given.
    pub rendition: Option<String>,
    /// URL of the content, when given.
    pub url: Option<String>,
    /// Fragment identifier, when given.
    pub id: Option<String>,
}

/// Model of [`Data`].
pub struct DataView {
    pub ctype: Seq<char>,
    pub width: Option<i64>,
    pub height: Option<i64>,
    pub rendition: Option<Seq<char>>,
    pub url: Option<Seq<char>>,
    pub id: Option<Seq<char>>,
}

impl View for Data {
    type V = DataView;

    open spec fn view(&self) -> DataView {
        DataView {
            ctype: self.ctype@,
            width: self.width,
            height: self.height,
            rendition: str_opt_view(self.rendition),
            url: str_opt_view(self.url),
            id: str_opt_view(self.id),
        }
    }
}

/// A post on a blog.
#[derive(Debug)]
pub struct Post {
    /// Creation time, seconds since the epoch.
    pub created_at: u64,
    /// Update time, seconds since the epoch; absent when the post was
    /// never updated.
    pub updated_at: Option<u64>,
    /// Publish time, seconds since the epoch.
    pub publish_time: u64,
    /// Paid-content fragments; absent unless the post is paid and the
    /// caller is entitled to it.
    pub data: Option<Vec<Data>>,
    /// Price of the post in two currencies.
    pub currency_prices: CurrencyPrices,
    /// Teaser fragments of the post.
    pub teaser: Vec<Teaser>,
    /// Whether the view counter is visible.
    pub show_views_counter: bool,
    /// Price of a paid post; zero when free.
    pub price: i64,
    /// Post identifier.
    pub id: String,
    /// Post title.
    pub title: String,
}

/// Model of [`Post`].
pub struct PostView {
    pub created_at: u64,
    pub updated_at: Option<u64>,
    pub publish_time: u64,
    pub data: Option<Seq<DataView>>,
    pub currency_prices: CurrencyPricesView,
    pub teaser: Seq<TeaserView>,
    pub show_views_counter: bool,
    pub price: i64,
    pub id: Seq<char>,
    pub title: Seq<char>,
}

impl View for Post {
    type V = PostView;

    open spec fn view(&self) -> PostView {
        PostView {
            created_at: self.created_at,
            updated_at: self.updated_at,
            publish_time: self.publish_time,
            data: match self.data {
                Some(ds) => Some(ds@.map_values(|d: Data| d@)),
                None => None,
            },
            currency_prices: self.currency_prices@,
            teaser: self.teaser@.map_values(|t: Teaser| t@),
            show_views_counter: self.show_views_counter,
            price: self.price,
            id: self.id@,
            title: self.title@,
        }
    }
}

/// What a currency-price object under `path` decodes to: both prices,
/// or the first error.
pub open spec fn spec_decode_currency(v: JsonView, path: Seq<char>) -> Result<
    CurrencyPricesView,
    DecodeErrorView,
> {
    match spec_req_num(v, "RUB"@, path) {
        Err(e) => Err(e),
        Ok(rub) => match spec_req_num(v, "USD"@, path) {
            Err(e) => Err(e),
            Ok(usd) => Ok(CurrencyPricesView { rub, usd }),
        },
    }
}

impl CurrencyPrices {
    /// Decodes a currency-price object; `path` locates it in the
    /// payload for error reporting.
    pub fn decode(j: &Json, path: &str) -> (r: Result<CurrencyPrices, DecodeError>)
        ensures
            (match r {
                Ok(c) => spec_decode_currency(j@, path@) == Ok::<
                    CurrencyPricesView,
                    DecodeErrorView,
                >(c@),
                Err(e) => spec_decode_currency(j@, path@) == Err::<
                    CurrencyPricesView,
                    DecodeErrorView,
                >(e@),
            }),
    {
        let rub = match req_num(j, "RUB", path) {
            Ok(n) => n,
            Err(e) => return Err(e),
        };
        let usd = match req_num(j, "USD", path) {
            Ok(n) => n,
            Err(e) => return Err(e),
        };
        Ok(CurrencyPrices { rub, usd })
    }
}

/// What a teaser object under `path` decodes to: every field, or the
/// first error.
pub open spec fn spec_decode_teaser(v: JsonView, path: Seq<char>) -> Result<
    TeaserView,
    DecodeErrorView,
> {
    match spec_req_str(v, "type"@, path) {
        Err(e) => Err(e),
        Ok(ctype) => match spec_opt_i64(v, "width"@, path) {
            Err(e) => Err(e),
            Ok(width) => match spec_opt_i64(v, "height"@, path) {
                Err(e) => Err(e),
                Ok(height) => match spec_opt_str(v, "rendition"@, path) {
                    Err(e) => Err(e),
                    Ok(rendition) => match spec_opt_str(v, "url"@, path) {
                        Err(e) => Err(e),
                        Ok(url) => match spec_opt_str(v, "id"@, path) {
                            Err(e) => Err(e),
                            Ok(id) => Ok(
                                TeaserView { ctype, width, height, rendition, url, id },
                            ),
                        },
                    },
                },
            },
        },
    }
}

impl Teaser {
    /// Decodes a teaser object; `path` locates it in the payload for
    /// error reporting.
    pub fn decode(j: &Json, path: &str) -> (r: Result<Teaser, DecodeError>)
        ensures
            (match r {
                Ok(t) => spec_decode_teaser(j@, path@) == Ok::<TeaserView, DecodeErrorView>(t@),
                Err(e) => spec_decode_teaser(j@, path@) == Err::<TeaserView, DecodeErrorView>(
                    e@,
                ),
            }),
    {
        let ctype = match req_string(j, "type", path) {
            Ok(s) => s,
            Err(e) => return Err(e),
        };
        let width = match opt_i64(j, "width", path) {
            Ok(o) => o,
            Err(e) => return Err(e),
        };
        let height = match opt_i64(j, "height", path) {
            Ok(o) => o,
            Err(e) => return Err(e),
        };
        let rendition = match opt_string(j, "rendition", path) {
            Ok(o) => o,
            Err(e) => return Err(e),
        };
        let url = match opt_string(j, "url", path) {
            Ok(o) => o,
            Err(e) => return Err(e),
        };
        let id = match opt_string(j, "id", path) {
            Ok(o) => o,
            Err(e) => return Err(e),
        };
        Ok(Teaser { ctype, width, height, rendition, url, id })
    }
}

/// What a data object under `path` decodes to: every field, or the
/// first error.
pub open spec fn spec_decode_data(v: JsonView, path: Seq<char>) -> Result<
    DataView,
    DecodeErrorView,
> {
    match spec_req_str(v, "type"@, path) {
        Err(e) => Err(e),
        Ok(ctype) => match spec_opt_i64(v, "width"@, path) {
            Err(e) => Err(e),
            Ok(width) => match spec_opt_i64(v, "height"@, path) {
                Err(e) => Err(e),
                Ok(height) => match spec_opt_str(v, "rendition"@, path) {
                    Err(e) => Err(e),
                    Ok(rendition) => match spec_opt_str(v, "url"@, path) {
                        Err(e) => Err(e),
                        Ok(url) => match spec_opt_str(v, "id"@, path) {
                            Err(e) => Err(e),
                            Ok(id) => Ok(DataView { ctype, width, height, rendition, url, id }),
                        },
                    },
                },
            },
        },
    }
}

impl Data {
    /// Decodes a data object; `path` locates it in the payload for
    /// error reporting.
    pub fn decode(j: &Json, path: &str) -> (r: Result<Data, DecodeError>)
        ensures
            (match r {
                Ok(d) => spec_decode_data(j@, path@) == Ok::<DataView, DecodeErrorView>(d@),
                Err(e) => spec_decode_data(j@, path@) == Err::<DataView, DecodeErrorView>(e@),
            }),
    {
        let ctype = match req_string(j, "type", path) {
            Ok(s) => s,
            Err(e) => return Err(e),
        };
        let width = match opt_i64(j, "width", path) {
            Ok(o) => o,
            Err(e) => return Err(e),
        };
        let height = match opt_i64(j, "height", path) {
            Ok(o) => o,
            Err(e) => return Err(e),
        };
        let rendition = match opt_string(j, "rendition", path) {
            Ok(o) => o,
            Err(e) => return Err(e),
        };
        let url = match opt_string(j, "url", path) {
            Ok(o) => o,
            Err(e) => return Err(e),
        };
        let id = match opt_string(j, "id", path) {
            Ok(o) => o,
            Err(e) => return Err(e),
        };
        Ok(Data { ctype, width, height, rendition, url, id })
    }
}

/// What the elements of a teaser array decode to, from index `i` on:
/// every element, or the first element's error, each element's path
/// carrying its index.
pub open spec fn spec_decode_teaser_arr(a: Seq<JsonView>, base: Seq<char>, i: int) -> Result<
    Seq<TeaserView>,
    DecodeErrorView,
>
    decreases a.len() - i,
{
    if i < 0 || i >= a.len() {
        Ok(Seq::empty())
    } else {
        match spec_decode_teaser(a[i], spec_elem_path(base, i)) {
            Err(e) => Err(e),
            Ok(t) => match spec_decode_teaser_arr(a, base, i + 1) {
                Err(e) => Err(e),
                Ok(rest) => Ok(seq![t] + rest),
            },
        }
    }
}

/// What the elements of a data array decode to, from index `i` on.
pub open spec fn spec_decode_data_arr(a: Seq<JsonView>, base: Seq<char>, i: int) -> Result<
    Seq<DataView>,
    DecodeErrorView,
>
    decreases a.len() - i,
{
    if i < 0 || i >= a.len() {
        Ok(Seq::empty())
    } else {
        match spec_decode_data(a[i], spec_elem_path(base, i)) {
            Err(e) => Err(e),
            Ok(d) => match spec_decode_data_arr(a, base, i + 1) {
                Err(e) => Err(e),
                Ok(rest) => Ok(seq![d] + rest),
            },
        }
    }
}

/// When every element from `i` on decodes, the array decodes to that
/// list of elements.
proof fn lemma_decode_teaser_arr_ok(a: Seq<JsonView>, base: Seq<char>, ts: Seq<TeaserView>, i: int)
    requires
        0 <= i <= a.len(),
        ts.len() == a.len() - i,
        forall|t: int|
            i <= t < a.len() ==> spec_decode_teaser(a[t], spec_elem_path(base, t)) == Ok::<
                TeaserView,
                DecodeErrorView,
            >(ts[t - i]),
    ensures
        spec_decode_teaser_arr(a, base, i) == Ok::<Seq<TeaserView>, DecodeErrorView>(ts),
    decreases a.len() - i,
{
    if i == a.len() {
        assert(ts =~= Seq::<TeaserView>::empty());
    } else {
        lemma_decode_teaser_arr_ok(a, base, ts.drop_first(), i + 1);
        assert(ts =~= seq![ts[0]] + ts.drop_first());
    }
}

/// When the elements before `k` decode and the element at `k` fails,
/// the array's decoding fails with that element's error.
proof fn lemma_decode_teaser_arr_err(
    a: Seq<JsonView>,
    base: Seq<char>,
    i: int,
    k: int,
    e: DecodeErrorView,
)
    requires
        0 <= i <= k < a.len(),
        forall|t: int| i <= t < k ==> spec_decode_teaser(a[t], spec_elem_path(base, t)) is Ok,
        spec_decode_teaser(a[k], spec_elem_path(base, k)) == Err::<TeaserView, DecodeErrorView>(e),
    ensures
        spec_decode_teaser_arr(a, base, i) == Err::<Seq<TeaserView>, DecodeErrorView>(e),
    decreases k - i,
{
    if i < k {
        lemma_decode_teaser_arr_err(a, base, i + 1, k, e);
    }
}

proof fn lemma_decode_data_arr_ok(a: Seq<JsonView>, base: Seq<char>, ds: Seq<DataView>, i: int)
    requires
        0 <= i <= a.len(),
        ds.len() == a.len() - i,
        forall|t: int|
            i <= t < a.len() ==> spec_decode_data(a[t], spec_elem_path(base, t)) == Ok::<
                DataView,
                DecodeErrorView,
            >(ds[t - i]),
    ensures
        spec_decode_data_arr(a, base, i) == Ok::<Seq<DataView>, DecodeErrorView>(ds),
    decreases a.len() - i,
{
    if i == a.len() {
        assert(ds =~= Seq::<DataView>::empty());
    } else {
        lemma_decode_data_arr_ok(a, base, ds.drop_first(), i + 1);
        assert(ds =~= seq![ds[0]] + ds.drop_first());
    }
}

proof fn lemma_decode_data_arr_err(
    a: Seq<JsonView>,
    base: Seq<char>,
    i: int,
    k: int,
    e: DecodeErrorView,
)
    requires
        0 <= i <= k < a.len(),
        forall|t: int| i <= t < k ==> spec_decode_data(a[t], spec_elem_path(base, t)) is Ok,
        spec_decode_data(a[k], spec_elem_path(base, k)) == Err::<DataView, DecodeErrorView>(e),
    ensures
        spec_decode_data_arr(a, base, i) == Err::<Seq<DataView>, DecodeErrorView>(e),
    decreases k - i,
{
    if i < k {
        lemma_decode_data_arr_err(a, base, i + 1, k, e);
    }
}

/// Decodes each element of a teaser array; `base` is the array's path
/// in the payload.
pub fn decode_teasers(a: &Vec<Json>, base: &str) -> (r: Result<Vec<Teaser>, DecodeError>)
    ensures
        (match r {
            Ok(ts) => spec_decode_teaser_arr(json_view_arr(a@), base@, 0) == Ok::<
                Seq<TeaserView>,
                DecodeErrorView,
            >(ts@.map_values(|t: Teaser| t@)),
            Err(e) => spec_decode_teaser_arr(json_view_arr(a@), base@, 0) == Err::<
                Seq<TeaserView>,
                DecodeErrorView,
            >(e@),
        }),
{
    proof {
        lemma_json_view_arr(a@);
    }
    let ghost av = json_view_arr(a@);
    let mut out: Vec<Teaser> = Vec::new();
    let n = a.len();
    let mut i: usize = 0;
    while i < n
        invariant
            n == a@.len(),
            av == json_view_arr(a@),
            av.len() == a@.len(),
            forall|t: int| 0 <= t < a@.len() ==> av[t] == json_view(a@[t]),
            i <= n,
            out@.len() == i,
            forall|t: int|
                0 <= t < i ==> spec_decode_teaser(av[t], spec_elem_path(base@, t)) == Ok::<
                    TeaserView,
                    DecodeErrorView,
                >(out@[t]@),
        decreases n - i,
    {
        let p = elem_path(base, i);
        match Teaser::decode(&a[i], p.as_str()) {
            Ok(t) => out.push(t),
            Err(e) => {
                proof {
                    lemma_decode_teaser_arr_err(av, base@, 0, i as int, e@);
                }
                return Err(e);
            },
        }
        i += 1;
    }
    proof {
        lemma_decode_teaser_arr_ok(av, base@, out@.map_values(|t: Teaser| t@), 0);
    }
    Ok(out)
}

/// Decodes each element of a data array; `base` is the array's path in
/// the payload.
pub fn decode_datas(a: &Vec<Json>, base: &str) -> (r: Result<Vec<Data>, DecodeError>)
    ensures
        (match r {
            Ok(ds) => spec_decode_data_arr(json_view_arr(a@), base@, 0) == Ok::<
                Seq<DataView>,
                DecodeErrorView,
            >(ds@.map_values(|d: Data| d@)),
            Err(e) => spec_decode_data_arr(json_view_arr(a@), base@, 0) == Err::<
                Seq<DataView>,
                DecodeErrorView,
            >(e@),
        }),
{
    proof {
        lemma_json_view_arr(a@);
    }
    let ghost av = json_view_arr(a@);
    let mut out: Vec<Data> = Vec::new();
    let n = a.len();
    let mut i: usize = 0;
    while i < n
        invariant
            n == a@.len(),
            av == json_view_arr(a@),
            av.len() == a@.len(),
            forall|t: int| 0 <= t < a@.len() ==> av[t] == json_view(a@[t]),
            i <= n,
            out@.len() == i,
            forall|t: int|
                0 <= t < i ==> spec_decode_data(av[t], spec_elem_path(base@, t)) == Ok::<
                    DataView,
                    DecodeErrorView,
                >(out@[t]@),
        decreases n - i,
    {
        let p = elem_path(base, i);
        match Data::decode(&a[i], p.as_str()) {
            Ok(d) => out.push(d),
            Err(e) => {
                proof {
                    lemma_decode_data_arr_err(av, base@, 0, i as int, e@);
                }
                return Err(e);
            },
        }
        i += 1;
    }
    proof {
        lemma_decode_data_arr_ok(av, base@, out@.map_values(|d: Data| d@), 0);
    }
    Ok(out)
}

/// The optional `data` field of a post: absent or `null` means "not
/// present"; anything but an array of data objects is a type error.
pub open spec fn spec_decode_post_data(v: JsonView, path: Seq<char>) -> Result<
    Option<Seq<DataView>>,
    DecodeErrorView,
> {
    match lookup(v, "data"@) {
        None => Ok(None),
        Some(f) => if f is Null {
            Ok(None)
        } else {
            match f {
                JsonView::Arr(a) => match spec_decode_data_arr(a, path + "data"@, 0) {
                    Ok(ds) => Ok(Some(ds)),
                    Err(e) => Err(e),
                },
                _ => Err(DecodeErrorView::WrongType(path + "data"@)),
            }
        },
    }
}

/// The required `currencyPrices` field of a post.
pub open spec fn spec_decode_post_currency(v: JsonView, path: Seq<char>) -> Result<
    CurrencyPricesView,
    DecodeErrorView,
> {
    match lookup(v, "currencyPrices"@) {
        None => Err(DecodeErrorView::MissingField(path + "currencyPrices"@)),
        Some(f) => match f {
            JsonView::Obj(_) => spec_decode_currency(f, path + "currencyPrices."@),
            _ => Err(DecodeErrorView::WrongType(path + "currencyPrices"@)),
        },
    }
}

/// The required `teaser` field of a post.
pub open spec fn spec_decode_post_teasers(v: JsonView, path: Seq<char>) -> Result<
    Seq<TeaserView>,
    DecodeErrorView,
> {
    match lookup(v, "teaser"@) {
        None => Err(DecodeErrorView::MissingField(path + "teaser"@)),
        Some(f) => match f {
            JsonView::Arr(a) => spec_decode_teaser_arr(a, path + "teaser"@, 0),
            _ => Err(DecodeErrorView::WrongType(path + "teaser"@)),
        },
    }
}

/// What a post object under `path` decodes to: every field, or the
/// first error, in field order.
pub open spec fn spec_decode_post(v: JsonView, path: Seq<char>) -> Result<
    PostView,
    DecodeErrorView,
> {
    match spec_req_u64(v, "createdAt"@, path) {
        Err(e) => Err(e),
        Ok(created_at) => match spec_opt_u64(v, "updatedAt"@, path) {
            Err(e) => Err(e),
            Ok(updated_at) => match spec_req_u64(v, "publishTime"@, path) {
                Err(e) => Err(e),
                Ok(publish_time) => match spec_decode_post_data(v, path) {
                    Err(e) => Err(e),
                    Ok(data) => match spec_decode_post_currency(v, path) {
                        Err(e) => Err(e),
                        Ok(currency_prices) => match spec_decode_post_teasers(v, path) {
                            Err(e) => Err(e),
                            Ok(teaser) => match spec_req_bool(v, "showViewsCounter"@, path) {
                                Err(e) => Err(e),
                                Ok(show_views_counter) => match spec_req_i64(v, "price"@, path) {
                                    Err(e) => Err(e),
                                    Ok(price) => match spec_req_str(v, "id"@, path) {
                                        Err(e) => Err(e),
                                        Ok(id) => match spec_req_str(v, "title"@, path) {
                                            Err(e) => Err(e),
                                            Ok(title) => Ok(
                                                PostView {
                                                    created_at,
                                                    updated_at,
                                                    publish_time,
                                                    data,
                                                    currency_prices,
                                                    teaser,
                                                    show_views_counter,
                                                    price,
                                                    id,
                                                    title,
                                                },
                                            ),
                                        },
                                    },
                                },
                            },
                        },
                    },
                },
            },
        },
    }
}

impl Post {
    /// Decodes a post object; `path` locates it in the payload for
    /// error reporting.
    pub fn decode(j: &Json, path: &str) -> (r: Result<Post, DecodeError>)
        ensures
            (match r {
                Ok(p) => spec_decode_post(j@, path@) == Ok::<PostView, DecodeErrorView>(p@),
                Err(e) => spec_decode_post(j@, path@) == Err::<PostView, DecodeErrorView>(e@),
            }),
    {
        let created_at = match req_u64(j, "createdAt", path) {
            Ok(u) => u,
            Err(e) => return Err(e),
        };
        let updated_at = match opt_u64(j, "updatedAt", path) {
            Ok(o) => o,
            Err(e) => return Err(e),
        };
        let publish_time = match req_u64(j, "publishTime", path) {
            Ok(u) => u,
            Err(e) => return Err(e),
        };
        let data = match j.get("data") {
            None => None,
            Some(f) => match f {
                Json::Null => None,
                Json::Arr(a) => {
                    let pk = path_key(path, "data");
                    match decode_datas(a, pk.as_str()) {
                        Ok(ds) => Some(ds),
                        Err(e) => return Err(e),
                    }
                },
                _ => return Err(DecodeError::WrongType(path_key(path, "data"))),
            },
        };
        let currency_prices = match j.get("currencyPrices") {
            None => return Err(DecodeError::MissingField(path_key(path, "currencyPrices"))),
            Some(f) => match f {
                Json::Obj(_) => {
                    let pk = path_key(path, "currencyPrices.");
                    match CurrencyPrices::decode(f, pk.as_str()) {
                        Ok(c) => c,
                        Err(e) => return Err(e),
                    }
                },
                _ => return Err(DecodeError::WrongType(path_key(path, "currencyPrices"))),
            },
        };
        let teaser = match j.get("teaser") {
            None => return Err(DecodeError::MissingField(path_key(path, "teaser"))),
            Some(f) => match f {
                Json::Arr(a) => {
                    let pk = path_key(path, "teaser");
                    match decode_teasers(a, pk.as_str()) {
                        Ok(ts) => ts,
                        Err(e) => return Err(e),
                    }
                },
                _ => return Err(DecodeError::WrongType(path_key(path, "teaser"))),
            },
        };
        let show_views_counter = match req_bool(j, "showViewsCounter", path) {
            Ok(b) => b,
            Err(e) => return Err(e),
        };
        let price = match req_i64(j, "price", path) {
            Ok(i) => i,
            Err(e) => return Err(e),
        };
        let id = match req_string(j, "id", path) {
            Ok(s) => s,
            Err(e) => return Err(e),
        };
        let title = match req_string(j, "title", path) {
            Ok(s) => s,
            Err(e) => return Err(e),
        };
        Ok(
            Post {
                created_at,
                updated_at,
                publish_time,
                data,
                currency_prices,
                teaser,
                show_views_counter,
                price,
                id,
                title,
            },
        )
    }
}

/// What the elements of a post array decode to, from index `i` on.
pub open spec fn spec_decode_post_arr_from(a: Seq<JsonView>, base: Seq<char>, i: int) -> Result<
    Seq<PostView>,
    DecodeErrorView,
>
    decreases a.len() - i,
{
    if i < 0 || i >= a.len() {
        Ok(Seq::empty())
    } else {
        match spec_decode_post(a[i], spec_elem_path(base, i)) {
            Err(e) => Err(e),
            Ok(p) => match spec_decode_post_arr_from(a, base, i + 1) {
                Err(e) => Err(e),
                Ok(rest) => Ok(seq![p] + rest),
            },
        }
    }
}

/// When every element from `i` on decodes, the array decodes to that
/// list of posts.
pub proof fn lemma_decode_post_arr_from_ok(
    a: Seq<JsonView>,
    base: Seq<char>,
    ps: Seq<PostView>,
    i: int,
)
    requires
        0 <= i <= a.len(),
        ps.len() == a.len() - i,
        forall|t: int|
            i <= t < a.len() ==> spec_decode_post(a[t], spec_elem_path(base, t)) == Ok::<
                PostView,
                DecodeErrorView,
            >(ps[t - i]),
    ensures
        spec_decode_post_arr_from(a, base, i) == Ok::<Seq<PostView>, DecodeErrorView>(ps),
    decreases a.len() - i,
{
    if i == a.len() {
        assert(ps =~= Seq::<PostView>::empty());
    } else {
        lemma_decode_post_arr_from_ok(a, base, ps.drop_first(), i + 1);
        assert(ps =~= seq![ps[0]] + ps.drop_first());
    }
}

/// When the elements before `k` decode and the element at `k` fails,
/// the array's decoding fails with that element's error.
pub proof fn lemma_decode_post_arr_from_err(
    a: Seq<JsonView>,
    base: Seq<char>,
    i: int,
    k: int,
    e: DecodeErrorView,
)
    requires
        0 <= i <= k < a.len(),
        forall|t: int| i <= t < k ==> spec_decode_post(a[t], spec_elem_path(base, t)) is Ok,
        spec_decode_post(a[k], spec_elem_path(base, k)) == Err::<PostView, DecodeErrorView>(e),
    ensures
        spec_decode_post_arr_from(a, base, i) == Err::<Seq<PostView>, DecodeErrorView>(e),
    decreases k - i,
{
    if i < k {
        lemma_decode_post_arr_from_err(a, base, i + 1, k, e);
    }
}

/// Law: a currency-price decode failure names a field: it is a missing
/// or mistyped field, never any other kind of error.
pub proof fn lemma_currency_error_names_a_field(v: JsonView, path: Seq<char>)
    ensures
        spec_decode_currency(v, path) matches Err(e) ==> (e is MissingField || e is WrongType),
{
}

/// Law: a teaser decode failure names a field.
pub proof fn lemma_teaser_error_names_a_field(v: JsonView, path: Seq<char>)
    ensures
        spec_decode_teaser(v, path) matches Err(e) ==> (e is MissingField || e is WrongType),
{
}

/// Law: a data-fragment decode failure names a field.
pub proof fn lemma_data_error_names_a_field(v: JsonView, path: Seq<char>)
    ensures
        spec_decode_data(v, path) matches Err(e) ==> (e is MissingField || e is WrongType),
{
}

/// Law: a teaser-array decode failure names a field.
pub proof fn lemma_teaser_arr_error_names_a_field(a: Seq<JsonView>, base: Seq<char>, i: int)
    ensures
        spec_decode_teaser_arr(a, base, i) matches Err(e) ==> (e is MissingField
            || e is WrongType),
    decreases a.len() - i,
{
    if 0 <= i < a.len() {
        lemma_teaser_error_names_a_field(a[i], spec_elem_path(base, i));
        lemma_teaser_arr_error_names_a_field(a, base, i + 1);
    }
}

/// Law: a data-array decode failure names a field.
pub proof fn lemma_data_arr_error_names_a_field(a: Seq<JsonView>, base: Seq<char>, i: int)
    ensures
        spec_decode_data_arr(a, base, i) matches Err(e) ==> (e is MissingField || e is WrongType),
    decreases a.len() - i,
{
    if 0 <= i < a.len() {
        lemma_data_error_names_a_field(a[i], spec_elem_path(base, i));
        lemma_data_arr_error_names_a_field(a, base, i + 1);
    }
}

/// Law: a post decode failure names a field: whatever is wrong with the
/// payload, the error is a missing or mistyped field with its path —
/// never a panic and never a silently substituted default.
pub proof fn lemma_post_error_names_a_field(v: JsonView, path: Seq<char>)
    ensures
        spec_decode_post(v, path) matches Err(e) ==> (e is MissingField || e is WrongType),
{
    match lookup(v, "data"@) {
        Some(JsonView::Arr(a)) => lemma_data_arr_error_names_a_field(a, path + "data"@, 0),
        _ => (),
    }
    match lookup(v, "currencyPrices"@) {
        Some(f) => lemma_currency_error_names_a_field(f, path + "currencyPrices."@),
        _ => (),
    }
    match lookup(v, "teaser"@) {
        Some(JsonView::Arr(a)) => lemma_teaser_arr_error_names_a_field(a, path + "teaser"@, 0),
        _ => (),
    }
}

/// Law: a mistyped `price` field is reported as exactly that. When the
/// fields decoded before it are well-formed (so `price` is the first
/// offense) and `price` holds anything but an integer — a string, say —
/// the decode fails with the error naming `price`.
pub proof fn lemma_mistyped_price_names_the_field(v: JsonView, path: Seq<char>)
    requires
        spec_req_u64(v, "createdAt"@, path) is Ok,
        spec_opt_u64(v, "updatedAt"@, path) is Ok,
        spec_req_u64(v, "publishTime"@, path) is Ok,
        spec_decode_post_data(v, path) is Ok,
        spec_decode_post_currency(v, path) is Ok,
        spec_decode_post_teasers(v, path) is Ok,
        spec_req_bool(v, "showViewsCounter"@, path) is Ok,
        lookup(v, "price"@) matches Some(f) && to_i64(f) is None,
    ensures
        spec_decode_post(v, path) == Err::<PostView, DecodeErrorView>(
            DecodeErrorView::WrongType(path + "price"@),
        ),
{
}

/// Law: a post-array decode failure names a field.
pub proof fn lemma_post_arr_error_names_a_field(a: Seq<JsonView>, base: Seq<char>, i: int)
    ensures
        spec_decode_post_arr_from(a, base, i) matches Err(e) ==> (e is MissingField
            || e is WrongType),
    decreases a.len() - i,
{
    if 0 <= i < a.len() {
        lemma_post_error_names_a_field(a[i], spec_elem_path(base, i));
        lemma_post_arr_error_names_a_field(a, base, i + 1);
    }
}

/// Law: a decoded post array holds exactly one record per payload
/// element, in payload order — never more, never fewer.
pub proof fn lemma_decoded_post_arr_len(a: Seq<JsonView>, base: Seq<char>, ps: Seq<PostView>, i: int)
    requires
        0 <= i <= a.len(),
        spec_decode_post_arr_from(a, base, i) == Ok::<Seq<PostView>, DecodeErrorView>(ps),
    ensures
        ps.len() == a.len() - i,
    decreases a.len() - i,
{
    if i < a.len() {
        let rest = spec_decode_post_arr_from(a, base, i + 1);
        lemma_decoded_post_arr_len(a, base, rest->Ok_0, i + 1);
    }
}

/// Decodes each element of a post array; `base` is the array's path in
/// the payload.
pub fn decode_posts_arr(a: &Vec<Json>, base: &str) -> (r: Result<Vec<Post>, DecodeError>)
    ensures
        (match r {
            Ok(ps) => spec_decode_post_arr_from(json_view_arr(a@), base@, 0) == Ok::<
                Seq<PostView>,
                DecodeErrorView,
            >(ps@.map_values(|p: Post| p@)),
            Err(e) => spec_decode_post_arr_from(json_view_arr(a@), base@, 0) == Err::<
                Seq<PostView>,
                DecodeErrorView,
            >(e@),
        }),
{
    proof {
        lemma_json_view_arr(a@);
    }
    let ghost av = json_view_arr(a@);
    let mut out: Vec<Post> = Vec::new();
    let n = a.len();
    let mut i: usize = 0;
    while i < n
        invariant
            n == a@.len(),
            av == json_view_arr(a@),
            av.len() == a@.len(),
            forall|t: int| 0 <= t < a@.len() ==> av[t] == json_view(a@[t]),
            i <= n,
            out@.len() == i,
            forall|t: int|
                0 <= t < i ==> spec_decode_post(av[t], spec_elem_path(base@, t)) == Ok::<
                    PostView,
                    DecodeErrorView,
                >(out@[t]@),
        decreases n - i,
    {
        let p = elem_path(base, i);
        match Post::decode(&a[i], p.as_str()) {
            Ok(post) => out.push(post),
            Err(e) => {
                proof {
                    lemma_decode_post_arr_from_err(av, base@, 0, i as int, e@);
                }
                return Err(e);
            },
        }
        i += 1;
    }
    proof {
        lemma_decode_post_arr_from_ok(av, base@, out@.map_values(|p: Post| p@), 0);
    }
    Ok(out)
}

/// The JSON form of a currency-price record.
pub open spec fn spec_encode_currency(c: CurrencyPricesView) -> JsonView {
    JsonView::Obj(seq![("RUB"@, c.rub), ("USD"@, c.usd)])
}

/// The JSON form of a teaser record.
pub open spec fn spec_encode_teaser(t: TeaserView) -> JsonView {
    JsonView::Obj(
        seq![
            ("type"@, JsonView::Str(t.ctype)),
            ("width"@, enc_opt_i64(t.width)),
            ("height"@, enc_opt_i64(t.height)),
            ("rendition"@, enc_opt_str(t.rendition)),
            ("url"@, enc_opt_str(t.url)),
            ("id"@, enc_opt_str(t.id)),
        ],
    )
}

/// The JSON form of a data record.
pub open spec fn spec_encode_data(d: DataView) -> JsonView {
    JsonView::Obj(
        seq![
            ("type"@, JsonView::Str(d.ctype)),
            ("width"@, enc_opt_i64(d.width)),
            ("height"@, enc_opt_i64(d.height)),
            ("rendition"@, enc_opt_str(d.rendition)),
            ("url"@, enc_opt_str(d.url)),
            ("id"@, enc_opt_str(d.id)),
        ],
    )
}

/// The JSON forms of a list of teasers, in order.
pub open spec fn spec_encode_teaser_arr(ts: Seq<TeaserView>) -> Seq<JsonView> {
    ts.map_values(|t: TeaserView| spec_encode_teaser(t))
}

/// The JSON forms of a list of data records, in order.
pub open spec fn spec_encode_data_arr(ds: Seq<DataView>) -> Seq<JsonView> {
    ds.map_values(|d: DataView| spec_encode_data(d))
}

/// The JSON form of a post record.
pub open spec fn spec_encode_post(p: PostView) -> JsonView {
    JsonView::Obj(
        seq![
            ("createdAt"@, JsonView::Int(p.created_at as int)),
            ("updatedAt"@, enc_opt_u64(p.updated_at)),
            ("publishTime"@, JsonView::Int(p.publish_time as int)),
            (
                "data"@,
                match p.data {
                    Some(ds) => JsonView::Arr(spec_encode_data_arr(ds)),
                    None => JsonView::Null,
                },
            ),
            ("currencyPrices"@, spec_encode_currency(p.currency_prices)),
            ("teaser"@, JsonView::Arr(spec_encode_teaser_arr(p.teaser))),
            ("showViewsCounter"@, JsonView::Bool(p.show_views_counter)),
            ("price"@, JsonView::Int(p.price as int)),
            ("id"@, JsonView::Str(p.id)),
            ("title"@, JsonView::Str(p.title)),
        ],
    )
}

impl CurrencyPrices {
    /// Encodes the record back to a JSON object.
    pub fn encode(&self) -> (j: Json)
        ensures
            j@ == spec_encode_currency(self@),
    {
        let entries: Vec<(String, Json)> = vec![
            ("RUB".to_owned(), Json::Num(self.rub.duplicate())),
            ("USD".to_owned(), Json::Num(self.usd.duplicate())),
        ];
        let ghost evs = entries@;
        let j = Json::Obj(entries);
        proof {
            lemma_json_view_obj(evs);
            assert(json_view_obj(evs) =~= seq![("RUB"@, self.rub@), ("USD"@, self.usd@)]);
        }
        j
    }
}

impl Teaser {
    /// Encodes the record back to a JSON object. An optional field that
    /// is not present is written as an explicit `null`, which decodes
    /// back to "not present".
    pub fn encode(&self) -> (j: Json)
        ensures
            j@ == spec_encode_teaser(self@),
    {
        let entries: Vec<(String, Json)> = vec![
            ("type".to_owned(), Json::Str(self.ctype.clone())),
            (
                "width".to_owned(),
                match self.width {
                    Some(i) => Json::Num(JsonNumber::Int(i)),
                    None => Json::Null,
                },
            ),
            (
                "height".to_owned(),
                match self.height {
                    Some(i) => Json::Num(JsonNumber::Int(i)),
                    None => Json::Null,
                },
            ),
            (
                "rendition".to_owned(),
                match &self.rendition {
                    Some(s) => Json::Str(s.clone()),
                    None => Json::Null,
                },
            ),
            (
                "url".to_owned(),
                match &self.url {
                    Some(s) => Json::Str(s.clone()),
                    None => Json::Null,
                },
            ),
            (
                "id".to_owned(),
                match &self.id {
                    Some(s) => Json::Str(s.clone()),
                    None => Json::Null,
                },
            ),
        ];
        let ghost evs = entries@;
        let j = Json::Obj(entries);
        proof {
            lemma_json_view_obj(evs);
            assert(json_view_obj(evs) =~= seq![
                ("type"@, JsonView::Str(self.ctype@)),
                ("width"@, enc_opt_i64(self.width)),
                ("height"@, enc_opt_i64(self.height)),
                ("rendition"@, enc_opt_str(str_opt_view(self.rendition))),
                ("url"@, enc_opt_str(str_opt_view(self.url))),
                ("id"@, enc_opt_str(str_opt_view(self.id))),
            ]);
        }
        j
    }
}

impl Data {
    /// Encodes the record back to a JSON object. An optional field that
    /// is not present is written as an explicit `null`, which decodes
    /// back to "not present".
    pub fn encode(&self) -> (j: Json)
        ensures
            j@ == spec_encode_data(self@),
    {
        let entries: Vec<(String, Json)> = vec![
            ("type".to_owned(), Json::Str(self.ctype.clone())),
            (
                "width".to_owned(),
                match self.width {
                    Some(i) => Json::Num(JsonNumber::Int(i)),
                    None => Json::Null,
                },
            ),
            (
                "height".to_owned(),
                match self.height {
                    Some(i) => Json::Num(JsonNumber::Int(i)),
                    None => Json::Null,
                },
            ),
            (
                "rendition".to_owned(),
                match &self.rendition {
                    Some(s) => Json::Str(s.clone()),
                    None => Json::Null,
                },
            ),
            (
                "url".to_owned(),
                match &self.url {
                    Some(s) => Json::Str(s.clone()),
                    None => Json::Null,
                },
            ),
            (
                "id".to_owned(),
                match &self.id {
                    Some(s) => Json::Str(s.clone()),
                    None => Json::Null,
                },
            ),
        ];
        let ghost evs = entries@;
        let j = Json::Obj(entries);
        proof {
            lemma_json_view_obj(evs);
            assert(json_view_obj(evs) =~= seq![
                ("type"@, JsonView::Str(self.ctype@)),
                ("width"@, enc_opt_i64(self.width)),
                ("height"@, enc_opt_i64(self.height)),
                ("rendition"@, enc_opt_str(str_opt_view(self.rendition))),
                ("url"@, enc_opt_str(str_opt_view(self.url))),
                ("id"@, enc_opt_str(str_opt_view(self.id))),
            ]);
        }
        j
    }
}

/// Encodes each teaser of a list, in order.
fn encode_teasers(ts: &Vec<Teaser>) -> (r: Vec<Json>)
    ensures
        json_view_arr(r@) == spec_encode_teaser_arr(ts@.map_values(|t: Teaser| t@)),
{
    let mut out: Vec<Json> = Vec::new();
    let n = ts.len();
    let mut i: usize = 0;
    while i < n
        invariant
            n == ts@.len(),
            i <= n,
            out@.len() == i,
            forall|t: int| 0 <= t < i ==> json_view(out@[t]) == spec_encode_teaser(ts@[t]@),
        decreases n - i,
    {
        out.push(ts[i].encode());
        i += 1;
    }
    proof {
        lemma_json_view_arr(out@);
        assert(json_view_arr(out@) =~= spec_encode_teaser_arr(ts@.map_values(|t: Teaser| t@)));
    }
    out
}

/// Encodes each data record of a list, in order.
fn encode_datas(ds: &Vec<Data>) -> (r: Vec<Json>)
    ensures
        json_view_arr(r@) == spec_encode_data_arr(ds@.map_values(|d: Data| d@)),
{
    let mut out: Vec<Json> = Vec::new();
    let n = ds.len();
    let mut i: usize = 0;
    while i < n
        invariant
            n == ds@.len(),
            i <= n,
            out@.len() == i,
            forall|t: int| 0 <= t < i ==> json_view(out@[t]) == spec_encode_data(ds@[t]@),
        decreases n - i,
    {
        out.push(ds[i].encode());
        i += 1;
    }
    proof {
        lemma_json_view_arr(out@);
        assert(json_view_arr(out@) =~= spec_encode_data_arr(ds@.map_values(|d: Data| d@)));
    }
    out
}

impl Post {
    /// Encodes the record back to a JSON object. An optional field that
    /// is not present is written as an explicit `null`, which decodes
    /// back to "not present".
    pub fn encode(&self) -> (j: Json)
        ensures
            j@ == spec_encode_post(self@),
    {
        let data_json = match &self.data {
            Some(ds) => {
                let arr = encode_datas(ds);
                proof {
                    assert(json_view_arr(arr@) =~= spec_encode_data_arr(self@.data->Some_0));
                }
                Json::Arr(arr)
            },
            None => Json::Null,
        };
        let teaser_arr = encode_teasers(&self.teaser);
        proof {
            assert(json_view_arr(teaser_arr@) =~= spec_encode_teaser_arr(self@.teaser));
        }
        let entries: Vec<(String, Json)> = vec![
            ("createdAt".to_owned(), Json::Num(JsonNumber::UInt(self.created_at))),
            (
                "updatedAt".to_owned(),
                match self.updated_at {
                    Some(u) => Json::Num(JsonNumber::UInt(u)),
                    None => Json::Null,
                },
            ),
            ("publishTime".to_owned(), Json::Num(JsonNumber::UInt(self.publish_time))),
            ("data".to_owned(), data_json),
            ("currencyPrices".to_owned(), self.currency_prices.encode()),
            ("teaser".to_owned(), Json::Arr(teaser_arr)),
            ("showViewsCounter".to_owned(), Json::Bool(self.show_views_counter)),
            ("price".to_owned(), Json::Num(JsonNumber::Int(self.price))),
            ("id".to_owned(), Json::Str(self.id.clone())),
            ("title".to_owned(), Json::Str(self.title.clone())),
        ];
        let ghost evs = entries@;
        let j = Json::Obj(entries);
        proof {
            lemma_json_view_obj(evs);
            let p = self@;
            let target = seq![
                ("createdAt"@, JsonView::Int(p.created_at as int)),
                ("updatedAt"@, enc_opt_u64(p.updated_at)),
                ("publishTime"@, JsonView::Int(p.publish_time as int)),
                (
                    "data"@,
                    match p.data {
                        Some(ds) => JsonView::Arr(spec_encode_data_arr(ds)),
                        None => JsonView::Null,
                    },
                ),
                ("currencyPrices"@, spec_encode_currency(p.currency_prices)),
                ("teaser"@, JsonView::Arr(spec_encode_teaser_arr(p.teaser))),
                ("showViewsCounter"@, JsonView::Bool(p.show_views_counter)),
                ("price"@, JsonView::Int(p.price as int)),
                ("id"@, JsonView::Str(p.id)),
                ("title"@, JsonView::Str(p.title)),
            ];
            assert(json_view_obj(evs) =~= target);
            assert(j@ == JsonView::Obj(json_view_obj(evs)));
            assert(spec_encode_post(self@) == JsonView::Obj(target));
        }
        j
    }
}

/// A currency-price model that decoding can reproduce: each price is a
/// number (an integer or decimal text), which is what every decoded
/// record holds.
pub open spec fn currency_wf(c: CurrencyPricesView) -> bool {
    to_num(c.rub) is Some && to_num(c.usd) is Some
}

/// A post model that decoding can reproduce.
pub open spec fn post_wf(p: PostView) -> bool {
    currency_wf(p.currency_prices)
}

/// Law: encoding a currency-price record and decoding it back yields
/// the same record.
pub proof fn lemma_currency_round_trip(c: CurrencyPricesView, path: Seq<char>)
    requires
        currency_wf(c),
    ensures
        spec_decode_currency(spec_encode_currency(c), path) == Ok::<
            CurrencyPricesView,
            DecodeErrorView,
        >(c),
{
    reveal_strlit("RUB");
    reveal_strlit("USD");
    assert("RUB"@.len() == 3 && "RUB"@[0] == 'R');
    assert("USD"@.len() == 3 && "USD"@[0] == 'U');
    let es = seq![("RUB"@, c.rub), ("USD"@, c.usd)];
    lemma_lookup_at(es, "RUB"@, 0);
    lemma_lookup_at(es, "USD"@, 1);
}

/// Law: encoding a teaser and decoding it back yields the same record,
/// field for field.
pub proof fn lemma_teaser_round_trip(t: TeaserView, path: Seq<char>)
    ensures
        spec_decode_teaser(spec_encode_teaser(t), path) == Ok::<TeaserView, DecodeErrorView>(t),
{
    reveal_strlit("type");
    reveal_strlit("width");
    reveal_strlit("height");
    reveal_strlit("rendition");
    reveal_strlit("url");
    reveal_strlit("id");
    assert("type"@.len() == 4);
    assert("width"@.len() == 5);
    assert("height"@.len() == 6);
    assert("rendition"@.len() == 9);
    assert("url"@.len() == 3);
    assert("id"@.len() == 2);
    let es = seq![
        ("type"@, JsonView::Str(t.ctype)),
        ("width"@, enc_opt_i64(t.width)),
        ("height"@, enc_opt_i64(t.height)),
        ("rendition"@, enc_opt_str(t.rendition)),
        ("url"@, enc_opt_str(t.url)),
        ("id"@, enc_opt_str(t.id)),
    ];
    lemma_lookup_at(es, "type"@, 0);
    lemma_lookup_at(es, "width"@, 1);
    lemma_lookup_at(es, "height"@, 2);
    lemma_lookup_at(es, "rendition"@, 3);
    lemma_lookup_at(es, "url"@, 4);
    lemma_lookup_at(es, "id"@, 5);
}

/// Law: encoding a data record and decoding it back yields the same
/// record, field for field.
pub proof fn lemma_data_round_trip(d: DataView, path: Seq<char>)
    ensures
        spec_decode_data(spec_encode_data(d), path) == Ok::<DataView, DecodeErrorView>(d),
{
    reveal_strlit("type");
    reveal_strlit("width");
    reveal_strlit("height");
    reveal_strlit("rendition");
    reveal_strlit("url");
    reveal_strlit("id");
    assert("type"@.len() == 4);
    assert("width"@.len() == 5);
    assert("height"@.len() == 6);
    assert("rendition"@.len() == 9);
    assert("url"@.len() == 3);
    assert("id"@.len() == 2);
    let es = seq![
        ("type"@, JsonView::Str(d.ctype)),
        ("width"@, enc_opt_i64(d.width)),
        ("height"@, enc_opt_i64(d.height)),
        ("rendition"@, enc_opt_str(d.rendition)),
        ("url"@, enc_opt_str(d.url)),
        ("id"@, enc_opt_str(d.id)),
    ];
    lemma_lookup_at(es, "type"@, 0);
    lemma_lookup_at(es, "width"@, 1);
    lemma_lookup_at(es, "height"@, 2);
    lemma_lookup_at(es, "rendition"@, 3);
    lemma_lookup_at(es, "url"@, 4);
    lemma_lookup_at(es, "id"@, 5);
}

/// Law: an encoded list of teasers decodes back to the same list, from
/// any starting index.
pub proof fn lemma_teaser_arr_round_trip(ts: Seq<TeaserView>, base: Seq<char>, i: int)
    requires
        0 <= i <= ts.len(),
    ensures
        spec_decode_teaser_arr(spec_encode_teaser_arr(ts), base, i) == Ok::<
            Seq<TeaserView>,
            DecodeErrorView,
        >(ts.skip(i)),
    decreases ts.len() - i,
{
    if i == ts.len() {
        assert(ts.skip(i) =~= Seq::<TeaserView>::empty());
    } else {
        lemma_teaser_round_trip(ts[i], spec_elem_path(base, i));
        lemma_teaser_arr_round_trip(ts, base, i + 1);
        assert(ts.skip(i) =~= seq![ts[i]] + ts.skip(i + 1));
    }
}

/// Law: an encoded list of data records decodes back to the same list,
/// from any starting index.
pub proof fn lemma_data_arr_round_trip(ds: Seq<DataView>, base: Seq<char>, i: int)
    requires
        0 <= i <= ds.len(),
    ensures
        spec_decode_data_arr(spec_encode_data_arr(ds), base, i) == Ok::<
            Seq<DataView>,
            DecodeErrorView,
        >(ds.skip(i)),
    decreases ds.len() - i,
{
    if i == ds.len() {
        assert(ds.skip(i) =~= Seq::<DataView>::empty());
    } else {
        lemma_data_round_trip(ds[i], spec_elem_path(base, i));
        lemma_data_arr_round_trip(ds, base, i + 1);
        assert(ds.skip(i) =~= seq![ds[i]] + ds.skip(i + 1));
    }
}

/// Law: encoding a post and decoding it back yields the same record,
/// field for field — the model-level round trip, independent of any
/// network activity.
pub proof fn lemma_post_round_trip(p: PostView, path: Seq<char>)
    requires
        post_wf(p),
    ensures
        spec_decode_post(spec_encode_post(p), path) == Ok::<PostView, DecodeErrorView>(p),
{
    reveal_strlit("createdAt");
    reveal_strlit("updatedAt");
    reveal_strlit("publishTime");
    reveal_strlit("data");
    reveal_strlit("currencyPrices");
    reveal_strlit("currencyPrices.");
    reveal_strlit("teaser");
    reveal_strlit("showViewsCounter");
    reveal_strlit("price");
    reveal_strlit("id");
    reveal_strlit("title");
    assert("createdAt"@.len() == 9 && "createdAt"@[0] == 'c' && "createdAt"@[1] == 'r');
    assert("updatedAt"@.len() == 9 && "updatedAt"@[0] == 'u');
    assert("publishTime"@.len() == 11 && "publishTime"@[0] == 'p' && "publishTime"@[1] == 'u');
    assert("data"@.len() == 4 && "data"@[0] == 'd');
    assert("currencyPrices"@.len() == 14 && "currencyPrices"@[0] == 'c' && "currencyPrices"@[1]
        == 'u');
    assert("teaser"@.len() == 6 && "teaser"@[0] == 't' && "teaser"@[1] == 'e');
    assert("showViewsCounter"@.len() == 16 && "showViewsCounter"@[0] == 's');
    assert("price"@.len() == 5 && "price"@[0] == 'p' && "price"@[1] == 'r');
    assert("id"@.len() == 2 && "id"@[0] == 'i');
    assert("title"@.len() == 5 && "title"@[0] == 't' && "title"@[1] == 'i');
    let es = seq![
        ("createdAt"@, JsonView::Int(p.created_at as int)),
        ("updatedAt"@, enc_opt_u64(p.updated_at)),
        ("publishTime"@, JsonView::Int(p.publish_time as int)),
        (
            "data"@,
            match p.data {
                Some(ds) => JsonView::Arr(spec_encode_data_arr(ds)),
                None => JsonView::Null,
            },
        ),
        ("currencyPrices"@, spec_encode_currency(p.currency_prices)),
        ("teaser"@, JsonView::Arr(spec_encode_teaser_arr(p.teaser))),
        ("showViewsCounter"@, JsonView::Bool(p.show_views_counter)),
        ("price"@, JsonView::Int(p.price as int)),
        ("id"@, JsonView::Str(p.id)),
        ("title"@, JsonView::Str(p.title)),
    ];
    lemma_lookup_at(es, "createdAt"@, 0);
    lemma_lookup_at(es, "updatedAt"@, 1);
    lemma_lookup_at(es, "publishTime"@, 2);
    lemma_lookup_at(es, "data"@, 3);
    lemma_lookup_at(es, "currencyPrices"@, 4);
    lemma_lookup_at(es, "teaser"@, 5);
    lemma_lookup_at(es, "showViewsCounter"@, 6);
    lemma_lookup_at(es, "price"@, 7);
    lemma_lookup_at(es, "id"@, 8);
    lemma_lookup_at(es, "title"@, 9);
    match p.data {
        Some(ds) => {
            lemma_data_arr_round_trip(ds, path + "data"@, 0);
            assert(ds.skip(0) =~= ds);
        },
        None => {},
    }
    lemma_currency_round_trip(p.currency_prices, path + "currencyPrices."@);
    lemma_teaser_arr_round_trip(p.teaser, path + "teaser"@, 0);
    assert(p.teaser.skip(0) =~= p.teaser);
}

} // verus!
