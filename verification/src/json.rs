//! The crate's own JSON tree, its mathematical model, and the trusted
//! bridge to the outside JSON parser.
//!
//! Response bodies are parsed by `serde_json` into its untyped `Value`
//! tree, which this crate cannot look inside; a trusted conversion turns
//! that tree into [`Json`], a plain enum of this crate, on which all
//! typed decoding is then carried out by verified code.

use crate::error::{DecodeError, DecodeErrorView};
use serde_json::Value;
use vstd::prelude::*;

verus! {

/// Mathematical model of a JSON document: what a [`Json`] tree holds,
/// with strings as character sequences and integers unbounded.
///
/// JSON numbers that are not representable as integers (floating-point
/// literals) are modelled by their exact decimal text, `Dec`.
pub enum JsonView {
    Null,
    Bool(bool),
    Int(int),
    Dec(Seq<char>),
    Str(Seq<char>),
    Arr(Seq<JsonView>),
    Obj(Seq<(Seq<char>, JsonView)>),
}

/// A JSON number as the parser hands it over: a signed or unsigned
/// 64-bit integer, or the decimal text of a number representable as
/// neither.
#[derive(Debug)]
pub enum JsonNumber {
    Int(i64),
    UInt(u64),
    Dec(String),
}

/// A JSON document as a plain tree. Objects keep their entries as a list
/// of key/value pairs; looking a key up finds the first entry with that
/// key.
#[derive(Debug)]
pub enum Json {
    Null,
    Bool(bool),
    Num(JsonNumber),
    Str(String),
    Arr(Vec<Json>),
    Obj(Vec<(String, Json)>),
}

impl View for JsonNumber {
    type V = JsonView;

    open spec fn view(&self) -> JsonView {
        match self {
            JsonNumber::Int(i) => JsonView::Int(*i as int),
            JsonNumber::UInt(u) => JsonView::Int(*u as int),
            JsonNumber::Dec(s) => JsonView::Dec(s@),
        }
    }
}

/// The model of a [`Json`] tree.
pub open spec fn json_view(j: Json) -> JsonView
    decreases j,
{
    match j {
        Json::Null => JsonView::Null,
        Json::Bool(b) => JsonView::Bool(b),
        Json::Num(n) => n@,
        Json::Str(s) => JsonView::Str(s@),
        Json::Arr(a) => JsonView::Arr(json_view_arr(a@)),
        Json::Obj(o) => JsonView::Obj(json_view_obj(o@)),
    }
}

/// The models of the elements of an array, in order.
pub open spec fn json_view_arr(s: Seq<Json>) -> Seq<JsonView>
    decreases s,
{
    if s.len() == 0 {
        Seq::empty()
    } else {
        seq![json_view(s.first())] + json_view_arr(s.drop_first())
    }
}

/// The models of the entries of an object, in order.
pub open spec fn json_view_obj(s: Seq<(String, Json)>) -> Seq<(Seq<char>, JsonView)>
    decreases s,
{
    if s.len() == 0 {
        Seq::empty()
    } else {
        seq![(s.first().0@, json_view(s.first().1))] + json_view_obj(s.drop_first())
    }
}

/// Element-wise reading of [`json_view_arr`].
pub proof fn lemma_json_view_arr(s: Seq<Json>)
    ensures
        json_view_arr(s).len() == s.len(),
        forall|i: int| 0 <= i < s.len() ==> json_view_arr(s)[i] == json_view(s[i]),
    decreases s.len(),
{
    if s.len() > 0 {
        lemma_json_view_arr(s.drop_first());
    }
}

/// Entry-wise reading of [`json_view_obj`].
pub proof fn lemma_json_view_obj(s: Seq<(String, Json)>)
    ensures
        json_view_obj(s).len() == s.len(),
        forall|i: int|
            0 <= i < s.len() ==> json_view_obj(s)[i] == (s[i].0@, json_view(s[i].1)),
    decreases s.len(),
{
    if s.len() > 0 {
        lemma_json_view_obj(s.drop_first());
    }
}

impl View for Json {
    type V = JsonView;

    open spec fn view(&self) -> JsonView {
        json_view(*self)
    }
}

/// The first value bound to `key` in an entry list, if any.
pub open spec fn lookup_in(entries: Seq<(Seq<char>, JsonView)>, key: Seq<char>) -> Option<
    JsonView,
>
    decreases entries.len(),
{
    if entries.len() == 0 {
        None
    } else if entries[0].0 == key {
        Some(entries[0].1)
    } else {
        lookup_in(entries.drop_first(), key)
    }
}

/// The value bound to `key`, when `v` is an object that has the key.
pub open spec fn lookup(v: JsonView, key: Seq<char>) -> Option<JsonView> {
    match v {
        JsonView::Obj(entries) => lookup_in(entries, key),
        _ => None,
    }
}

/// The value as an unsigned 64-bit integer, when it is an integer in
/// range.
pub open spec fn to_u64(v: JsonView) -> Option<u64> {
    match v {
        JsonView::Int(i) => if 0 <= i <= u64::MAX {
            Some(i as u64)
        } else {
            None
        },
        _ => None,
    }
}

/// The value as a signed 64-bit integer, when it is an integer in range.
pub open spec fn to_i64(v: JsonView) -> Option<i64> {
    match v {
        JsonView::Int(i) => if i64::MIN <= i <= i64::MAX {
            Some(i as i64)
        } else {
            None
        },
        _ => None,
    }
}

/// The value as a character sequence, when it is a string.
pub open spec fn to_str(v: JsonView) -> Option<Seq<char>> {
    match v {
        JsonView::Str(s) => Some(s),
        _ => None,
    }
}

/// The value as a boolean, when it is one.
pub open spec fn to_bool(v: JsonView) -> Option<bool> {
    match v {
        JsonView::Bool(b) => Some(b),
        _ => None,
    }
}

/// The value when it is a number (integer or decimal text).
pub open spec fn to_num(v: JsonView) -> Option<JsonView> {
    match v {
        JsonView::Int(_) => Some(v),
        JsonView::Dec(_) => Some(v),
        _ => None,
    }
}

#[verifier::external_type_specification]
#[verifier::external_body]
pub struct ExValue(serde_json::Value);

/// What a JSON text parses to: `Some` of the document's model when the
/// text is well-formed JSON, `None` when it is not. Parsing is a pure
/// function of the text; this name stands for its result.
pub uninterp spec fn json_of(s: Seq<char>) -> Option<JsonView>;

/// The document that a parsed `serde_json::Value` tree holds.
pub uninterp spec fn value_rep(v: serde_json::Value) -> JsonView;

/// Relies on `serde_json::from_str::<Value>`: it returns `Ok` exactly on
/// the JSON texts it accepts (well-formed ones within its nesting-depth
/// limit), and its result is a function of the text alone; `json_of` and
/// `value_rep` name that result. The error is carried as its message.
#[verifier::external_body]
fn parse_value(s: &str) -> (r: Result<serde_json::Value, String>)
    ensures
        r matches Ok(v) ==> json_of(s@) == Some(value_rep(v)),
        r is Err ==> json_of(s@) is None,
{
    match serde_json::from_str::<serde_json::Value>(s) {
        Ok(v) => Ok(v),
        Err(e) => Err(e.to_string()),
    }
}

/// Relies on the variant accessors of `serde_json::Value` and of its
/// `Number` type (`as_u64`, `as_i64`, and `Display`, which prints the
/// number's exact decimal form): the parsed tree is converted arm by
/// arm, field by field, into the crate's own tree, so the result holds
/// the same document.
#[verifier::external_body]
fn value_to_json(v: &serde_json::Value) -> (r: Json)
    ensures
        r@ == value_rep(*v),
{
    match v {
        Value::Null => Json::Null,
        Value::Bool(b) => Json::Bool(*b),
        Value::Number(n) => Json::Num(match (n.as_u64(), n.as_i64()) {
            (Some(u), _) => JsonNumber::UInt(u),
            (None, Some(i)) => JsonNumber::Int(i),
            (None, None) => JsonNumber::Dec(n.to_string()),
        }),
        Value::String(s) => Json::Str(s.clone()),
        Value::Array(a) => Json::Arr(a.iter().map(value_to_json).collect()),
        Value::Object(m) => Json::Obj(m.iter().map(|(k, x)| (k.clone(), value_to_json(x))).collect()),
    }
}

/// Parses a JSON text into the crate's own tree: the untyped ("raw")
/// decoding step. Returns the document exactly when the text is
/// well-formed JSON, and a `Malformed` error when it is not.
pub fn parse_json(s: &str) -> (r: Result<Json, crate::error::DecodeError>)
    ensures
        r matches Ok(j) ==> json_of(s@) == Some(j@),
        r matches Err(e) ==> json_of(s@) is None && e@ is Malformed,
{
    match parse_value(s) {
        Ok(v) => Ok(value_to_json(&v)),
        Err(m) => Err(crate::error::DecodeError::Malformed(m)),
    }
}

/// When no entry before index `i` carries the key, the lookup is decided
/// by the entries from `i` on.
proof fn lemma_lookup_skip(entries: Seq<(Seq<char>, JsonView)>, key: Seq<char>, i: int)
    requires
        0 <= i <= entries.len(),
        forall|t: int| 0 <= t < i ==> entries[t].0 != key,
    ensures
        lookup_in(entries, key) == lookup_in(entries.skip(i), key),
    decreases i,
{
    if i == 0 {
        assert(entries.skip(0) =~= entries);
    } else {
        lemma_lookup_skip(entries, key, i - 1);
        let rest = entries.skip(i - 1);
        assert(rest.len() == entries.len() - i + 1);
        assert(rest[0] == entries[i - 1]);
        assert(rest[0].0 != key);
        assert(lookup_in(rest, key) == lookup_in(rest.drop_first(), key));
        assert(rest.drop_first() =~= entries.skip(i));
    }
}

/// The JSON form of an optional unsigned integer: the number, or an
/// explicit `null` when not present.
pub open spec fn enc_opt_u64(o: Option<u64>) -> JsonView {
    match o {
        Some(u) => JsonView::Int(u as int),
        None => JsonView::Null,
    }
}

/// The JSON form of an optional signed integer.
pub open spec fn enc_opt_i64(o: Option<i64>) -> JsonView {
    match o {
        Some(i) => JsonView::Int(i as int),
        None => JsonView::Null,
    }
}

/// The JSON form of an optional string.
pub open spec fn enc_opt_str(o: Option<Seq<char>>) -> JsonView {
    match o {
        Some(s) => JsonView::Str(s),
        None => JsonView::Null,
    }
}

/// A lookup resolves to the entry at `k` when no earlier entry carries
/// the key.
pub proof fn lemma_lookup_at(entries: Seq<(Seq<char>, JsonView)>, key: Seq<char>, k: int)
    requires
        0 <= k < entries.len(),
        entries[k].0 == key,
        forall|t: int| 0 <= t < k ==> entries[t].0 != key,
    ensures
        lookup_in(entries, key) == Some(entries[k].1),
{
    lemma_lookup_skip(entries, key, k);
    assert(entries.skip(k)[0] == entries[k]);
}

impl JsonNumber {
    /// A copy of the number.
    pub fn duplicate(&self) -> (r: JsonNumber)
        ensures
            r@ == self@,
    {
        match self {
            JsonNumber::Int(i) => JsonNumber::Int(*i),
            JsonNumber::UInt(u) => JsonNumber::UInt(*u),
            JsonNumber::Dec(s) => JsonNumber::Dec(s.clone()),
        }
    }
}

impl Json {
    /// The first value bound to `key`, when this is an object that has
    /// such an entry.
    pub fn get<'a>(&'a self, key: &str) -> (r: Option<&'a Json>)
        ensures
            match r {
                Some(f) => lookup(self@, key@) == Some(f@),
                None => lookup(self@, key@) is None,
            },
    {
        match self {
            Json::Obj(entries) => {
                proof {
                    lemma_json_view_obj(entries@);
                }
                let k = key.to_owned();
                let n = entries.len();
                let mut i: usize = 0;
                while i < n
                    invariant
                        n == entries@.len(),
                        k@ == key@,
                        self@ == JsonView::Obj(json_view_obj(entries@)),
                        json_view_obj(entries@).len() == entries@.len(),
                        forall|t: int|
                            0 <= t < entries@.len() ==> json_view_obj(entries@)[t] == (
                            entries@[t].0@,
                            json_view(entries@[t].1),
                            ),
                        forall|t: int| 0 <= t < i ==> entries@[t].0@ != key@,
                    decreases n - i,
                {
                    if entries[i].0 == k {
                        proof {
                            let m = json_view_obj(entries@);
                            lemma_lookup_skip(m, key@, i as int);
                            assert(m.skip(i as int)[0] == m[i as int]);
                        }
                        return Some(&entries[i].1);
                    }
                    i += 1;
                }
                proof {
                    let m = json_view_obj(entries@);
                    lemma_lookup_skip(m, key@, n as int);
                }
                None
            },
            _ => None,
        }
    }

    /// The value as an unsigned 64-bit integer, when it is an integer in
    /// range.
    pub fn as_u64(&self) -> (r: Option<u64>)
        ensures
            r == to_u64(self@),
    {
        match self {
            Json::Num(JsonNumber::UInt(u)) => Some(*u),
            Json::Num(JsonNumber::Int(i)) => if *i >= 0 {
                Some(*i as u64)
            } else {
                None
            },
            _ => None,
        }
    }

    /// The value as a signed 64-bit integer, when it is an integer in
    /// range.
    pub fn as_i64(&self) -> (r: Option<i64>)
        ensures
            r == to_i64(self@),
    {
        match self {
            Json::Num(JsonNumber::Int(i)) => Some(*i),
            Json::Num(JsonNumber::UInt(u)) => if *u <= i64::MAX as u64 {
                Some(*u as i64)
            } else {
                None
            },
            _ => None,
        }
    }

    /// The value as a string, when it is one.
    pub fn as_string(&self) -> (r: Option<&String>)
        ensures
            match r {
                Some(s) => to_str(self@) == Some(s@),
                None => to_str(self@) is None,
            },
    {
        match self {
            Json::Str(s) => Some(s),
            _ => None,
        }
    }

    /// The value as a boolean, when it is one.
    pub fn as_bool(&self) -> (r: Option<bool>)
        ensures
            r == to_bool(self@),
    {
        match self {
            Json::Bool(b) => Some(*b),
            _ => None,
        }
    }

    /// The value as a number, when it is one.
    pub fn as_number(&self) -> (r: Option<JsonNumber>)
        ensures
            match r {
                Some(n) => to_num(self@) == Some(n@),
                None => to_num(self@) is None,
            },
    {
        match self {
            Json::Num(n) => Some(
                match n {
                    JsonNumber::Int(i) => JsonNumber::Int(*i),
                    JsonNumber::UInt(u) => JsonNumber::UInt(*u),
                    JsonNumber::Dec(s) => JsonNumber::Dec(s.clone()),
                },
            ),
            _ => None,
        }
    }
}

/// A required field: present and of the expected type, else the error
/// that names its path (`path + key`).
pub open spec fn spec_req_u64(v: JsonView, key: Seq<char>, path: Seq<char>) -> Result<
    u64,
    DecodeErrorView,
> {
    match lookup(v, key) {
        None => Err(DecodeErrorView::MissingField(path + key)),
        Some(f) => match to_u64(f) {
            Some(u) => Ok(u),
            None => Err(DecodeErrorView::WrongType(path + key)),
        },
    }
}

pub open spec fn spec_req_i64(v: JsonView, key: Seq<char>, path: Seq<char>) -> Result<
    i64,
    DecodeErrorView,
> {
    match lookup(v, key) {
        None => Err(DecodeErrorView::MissingField(path + key)),
        Some(f) => match to_i64(f) {
            Some(i) => Ok(i),
            None => Err(DecodeErrorView::WrongType(path + key)),
        },
    }
}

pub open spec fn spec_req_str(v: JsonView, key: Seq<char>, path: Seq<char>) -> Result<
    Seq<char>,
    DecodeErrorView,
> {
    match lookup(v, key) {
        None => Err(DecodeErrorView::MissingField(path + key)),
        Some(f) => match to_str(f) {
            Some(s) => Ok(s),
            None => Err(DecodeErrorView::WrongType(path + key)),
        },
    }
}

pub open spec fn spec_req_bool(v: JsonView, key: Seq<char>, path: Seq<char>) -> Result<
    bool,
    DecodeErrorView,
> {
    match lookup(v, key) {
        None => Err(DecodeErrorView::MissingField(path + key)),
        Some(f) => match to_bool(f) {
            Some(b) => Ok(b),
            None => Err(DecodeErrorView::WrongType(path + key)),
        },
    }
}

pub open spec fn spec_req_num(v: JsonView, key: Seq<char>, path: Seq<char>) -> Result<
    JsonView,
    DecodeErrorView,
> {
    match lookup(v, key) {
        None => Err(DecodeErrorView::MissingField(path + key)),
        Some(f) => match to_num(f) {
            Some(n) => Ok(n),
            None => Err(DecodeErrorView::WrongType(path + key)),
        },
    }
}

/// An optional field: an absent field and an explicit `null` both decode
/// to "not present"; a present field of the wrong type is still an
/// error.
pub open spec fn spec_opt_u64(v: JsonView, key: Seq<char>, path: Seq<char>) -> Result<
    Option<u64>,
    DecodeErrorView,
> {
    match lookup(v, key) {
        None => Ok(None),
        Some(f) => if f is Null {
            Ok(None)
        } else {
            match to_u64(f) {
                Some(u) => Ok(Some(u)),
                None => Err(DecodeErrorView::WrongType(path + key)),
            }
        },
    }
}

pub open spec fn spec_opt_i64(v: JsonView, key: Seq<char>, path: Seq<char>) -> Result<
    Option<i64>,
    DecodeErrorView,
> {
    match lookup(v, key) {
        None => Ok(None),
        Some(f) => if f is Null {
            Ok(None)
        } else {
            match to_i64(f) {
                Some(i) => Ok(Some(i)),
                None => Err(DecodeErrorView::WrongType(path + key)),
            }
        },
    }
}

pub open spec fn spec_opt_bool(v: JsonView, key: Seq<char>, path: Seq<char>) -> Result<
    Option<bool>,
    DecodeErrorView,
> {
    match lookup(v, key) {
        None => Ok(None),
        Some(f) => if f is Null {
            Ok(None)
        } else {
            match to_bool(f) {
                Some(b) => Ok(Some(b)),
                None => Err(DecodeErrorView::WrongType(path + key)),
            }
        },
    }
}

pub open spec fn spec_opt_str(v: JsonView, key: Seq<char>, path: Seq<char>) -> Result<
    Option<Seq<char>>,
    DecodeErrorView,
> {
    match lookup(v, key) {
        None => Ok(None),
        Some(f) => if f is Null {
            Ok(None)
        } else {
            match to_str(f) {
                Some(s) => Ok(Some(s)),
                None => Err(DecodeErrorView::WrongType(path + key)),
            }
        },
    }
}

/// The view of an optional string.
pub open spec fn str_opt_view(o: Option<String>) -> Option<Seq<char>> {
    match o {
        Some(s) => Some(s@),
        None => None,
    }
}

/// The error-path prefix of an array element: `base[i].`.
pub open spec fn spec_elem_path(base: Seq<char>, i: int) -> Seq<char> {
    base + "["@ + crate::decimal::dec_nat(i) + "]."@
}

/// Builds the error-path prefix of an array element.
pub fn elem_path(base: &str, i: usize) -> (r: String)
    ensures
        r@ == spec_elem_path(base@, i as int),
{
    let mut s = base.to_owned();
    s.append("[");
    let d = crate::decimal::u64_dec(i as u64);
    s.append(d.as_str());
    s.append("].");
    assert(s@ =~= spec_elem_path(base@, i as int));
    s
}

/// The error path of a field: the enclosing path, then the key.
pub fn path_key(path: &str, key: &str) -> (r: String)
    ensures
        r@ == path@ + key@,
{
    let mut s = path.to_owned();
    s.append(key);
    s
}

pub fn req_u64(j: &Json, key: &str, path: &str) -> (r: Result<u64, DecodeError>)
    ensures
        (match r {
            Ok(u) => spec_req_u64(j@, key@, path@) == Ok::<u64, DecodeErrorView>(u),
            Err(e) => spec_req_u64(j@, key@, path@) == Err::<u64, DecodeErrorView>(e@),
        }),
{
    match j.get(key) {
        None => Err(DecodeError::MissingField(path_key(path, key))),
        Some(f) => match f.as_u64() {
            Some(u) => Ok(u),
            None => Err(DecodeError::WrongType(path_key(path, key))),
        },
    }
}

pub fn req_i64(j: &Json, key: &str, path: &str) -> (r: Result<i64, DecodeError>)
    ensures
        (match r {
            Ok(i) => spec_req_i64(j@, key@, path@) == Ok::<i64, DecodeErrorView>(i),
            Err(e) => spec_req_i64(j@, key@, path@) == Err::<i64, DecodeErrorView>(e@),
        }),
{
    match j.get(key) {
        None => Err(DecodeError::MissingField(path_key(path, key))),
        Some(f) => match f.as_i64() {
            Some(i) => Ok(i),
            None => Err(DecodeError::WrongType(path_key(path, key))),
        },
    }
}

pub fn req_string(j: &Json, key: &str, path: &str) -> (r: Result<String, DecodeError>)
    ensures
        (match r {
            Ok(s) => spec_req_str(j@, key@, path@) == Ok::<Seq<char>, DecodeErrorView>(s@),
            Err(e) => spec_req_str(j@, key@, path@) == Err::<Seq<char>, DecodeErrorView>(e@),
        }),
{
    match j.get(key) {
        None => Err(DecodeError::MissingField(path_key(path, key))),
        Some(f) => match f.as_string() {
            Some(s) => Ok(s.clone()),
            None => Err(DecodeError::WrongType(path_key(path, key))),
        },
    }
}

pub fn req_bool(j: &Json, key: &str, path: &str) -> (r: Result<bool, DecodeError>)
    ensures
        (match r {
            Ok(b) => spec_req_bool(j@, key@, path@) == Ok::<bool, DecodeErrorView>(b),
            Err(e) => spec_req_bool(j@, key@, path@) == Err::<bool, DecodeErrorView>(e@),
        }),
{
    match j.get(key) {
        None => Err(DecodeError::MissingField(path_key(path, key))),
        Some(f) => match f.as_bool() {
            Some(b) => Ok(b),
            None => Err(DecodeError::WrongType(path_key(path, key))),
        },
    }
}

pub fn req_num(j: &Json, key: &str, path: &str) -> (r: Result<JsonNumber, DecodeError>)
    ensures
        (match r {
            Ok(n) => spec_req_num(j@, key@, path@) == Ok::<JsonView, DecodeErrorView>(n@),
            Err(e) => spec_req_num(j@, key@, path@) == Err::<JsonView, DecodeErrorView>(e@),
        }),
{
    match j.get(key) {
        None => Err(DecodeError::MissingField(path_key(path, key))),
        Some(f) => match f.as_number() {
            Some(n) => Ok(n),
            None => Err(DecodeError::WrongType(path_key(path, key))),
        },
    }
}

pub fn opt_u64(j: &Json, key: &str, path: &str) -> (r: Result<Option<u64>, DecodeError>)
    ensures
        (match r {
            Ok(u) => spec_opt_u64(j@, key@, path@) == Ok::<Option<u64>, DecodeErrorView>(u),
            Err(e) => spec_opt_u64(j@, key@, path@) == Err::<Option<u64>, DecodeErrorView>(e@),
        }),
{
    match j.get(key) {
        None => Ok(None),
        Some(f) => match f {
            Json::Null => Ok(None),
            _ => match f.as_u64() {
                Some(u) => Ok(Some(u)),
                None => Err(DecodeError::WrongType(path_key(path, key))),
            },
        },
    }
}

pub fn opt_i64(j: &Json, key: &str, path: &str) -> (r: Result<Option<i64>, DecodeError>)
    ensures
        (match r {
            Ok(i) => spec_opt_i64(j@, key@, path@) == Ok::<Option<i64>, DecodeErrorView>(i),
            Err(e) => spec_opt_i64(j@, key@, path@) == Err::<Option<i64>, DecodeErrorView>(e@),
        }),
{
    match j.get(key) {
        None => Ok(None),
        Some(f) => match f {
            Json::Null => Ok(None),
            _ => match f.as_i64() {
                Some(i) => Ok(Some(i)),
                None => Err(DecodeError::WrongType(path_key(path, key))),
            },
        },
    }
}

pub fn opt_bool(j: &Json, key: &str, path: &str) -> (r: Result<Option<bool>, DecodeError>)
    ensures
        (match r {
            Ok(b) => spec_opt_bool(j@, key@, path@) == Ok::<Option<bool>, DecodeErrorView>(b),
            Err(e) => spec_opt_bool(j@, key@, path@) == Err::<Option<bool>, DecodeErrorView>(e@),
        }),
{
    match j.get(key) {
        None => Ok(None),
        Some(f) => match f {
            Json::Null => Ok(None),
            _ => match f.as_bool() {
                Some(b) => Ok(Some(b)),
                None => Err(DecodeError::WrongType(path_key(path, key))),
            },
        },
    }
}

pub fn opt_string(j: &Json, key: &str, path: &str) -> (r: Result<
    Option<String>,
    DecodeError,
>)
    ensures
        (match r {
            Ok(s) => spec_opt_str(j@, key@, path@) == Ok::<
                Option<Seq<char>>,
                DecodeErrorView,
            >(match s {
                Some(t) => Some(t@),
                None => None,
            }),
            Err(e) => spec_opt_str(j@, key@, path@) == Err::<
                Option<Seq<char>>,
                DecodeErrorView,
            >(e@),
        }),
{
    match j.get(key) {
        None => Ok(None),
        Some(f) => match f {
            Json::Null => Ok(None),
            _ => match f.as_string() {
                Some(s) => Ok(Some(s.clone())),
                None => Err(DecodeError::WrongType(path_key(path, key))),
            },
        },
    }
}

} // verus!
