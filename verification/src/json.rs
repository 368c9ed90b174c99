//! A model of parsed JSON payloads: the decoders in this crate inspect plain
//! values of [`Json`], never the parser's own tree.

use vstd::prelude::*;

verus! {

broadcast use vstd::std_specs::vec::axiom_vec_index_decreases;

/// A parsed JSON value, held as plain data the decoders can inspect.
///
/// A number outside the range of `i64` (including every fractional number) is
/// kept only as the marker `BigNum`: no decoder in this crate reads such a
/// number, it can only be carried through opaquely.
#[derive(Debug, PartialEq)]
pub enum Json {
    Null,
    Bool(bool),
    Int(i64),
    BigNum,
    Str(String),
    Arr(Vec<Json>),
    Obj(Vec<(String, Json)>),
}

/// The mathematical value of a [`Json`] tree: strings as `Seq<char>`,
/// aggregates as `Seq`, an object as its key/value pairs in order.
pub enum JsonView {
    Null,
    Bool(bool),
    Int(i64),
    BigNum,
    Str(Seq<char>),
    Arr(Seq<JsonView>),
    Obj(Seq<(Seq<char>, JsonView)>),
}

impl View for Json {
    type V = JsonView;

    open spec fn view(&self) -> JsonView
        decreases self,
    {
        match self {
            Json::Null => JsonView::Null,
            Json::Bool(b) => JsonView::Bool(*b),
            Json::Int(i) => JsonView::Int(*i),
            Json::BigNum => JsonView::BigNum,
            Json::Str(s) => JsonView::Str(s@),
            Json::Arr(items) => JsonView::Arr(views_of(items@)),
            Json::Obj(pairs) => JsonView::Obj(views_of_pairs(pairs@)),
        }
    }
}

/// The views of a sequence of JSON values, element by element.
pub open spec fn views_of(items: Seq<Json>) -> Seq<JsonView>
    decreases items,
{
    if items.len() == 0 {
        Seq::empty()
    } else {
        views_of(items.drop_last()).push(items.last()@)
    }
}

/// The views of a sequence of key/value pairs, element by element.
pub open spec fn views_of_pairs(pairs: Seq<(String, Json)>) -> Seq<(Seq<char>, JsonView)>
    decreases pairs,
{
    if pairs.len() == 0 {
        Seq::empty()
    } else {
        views_of_pairs(pairs.drop_last()).push((pairs.last().0@, pairs.last().1@))
    }
}

/// `views_of` maps the view over the sequence: same length, the view at each
/// index.
pub proof fn lemma_views_of(items: Seq<Json>)
    ensures
        views_of(items).len() == items.len(),
        forall|i: int| 0 <= i < items.len() ==> views_of(items)[i] == items[i]@,
    decreases items.len(),
{
    if items.len() > 0 {
        lemma_views_of(items.drop_last());
        assert(views_of(items) == views_of(items.drop_last()).push(items.last()@));
        assert forall|i: int| 0 <= i < items.len() implies views_of(items)[i] == items[i]@ by {
            if i < items.len() - 1 {
                assert(views_of(items)[i] == views_of(items.drop_last())[i]);
                assert(items.drop_last()[i] == items[i]);
            } else {
                assert(views_of(items)[i] == items.last()@);
                assert(items.last() == items[i]);
            }
        }
    }
}

/// `views_of_pairs` maps the views over the pairs: same length, the key and
/// value views at each index.
pub proof fn lemma_views_of_pairs(pairs: Seq<(String, Json)>)
    ensures
        views_of_pairs(pairs).len() == pairs.len(),
        forall|i: int|
            0 <= i < pairs.len() ==> views_of_pairs(pairs)[i] == (pairs[i].0@, pairs[i].1@),
    decreases pairs.len(),
{
    if pairs.len() > 0 {
        lemma_views_of_pairs(pairs.drop_last());
        assert(views_of_pairs(pairs) == views_of_pairs(pairs.drop_last()).push(
            (pairs.last().0@, pairs.last().1@),
        ));
        assert forall|i: int|
            0 <= i < pairs.len() implies views_of_pairs(pairs)[i] == (pairs[i].0@, pairs[i].1@) by {
            if i < pairs.len() - 1 {
                assert(views_of_pairs(pairs)[i] == views_of_pairs(pairs.drop_last())[i]);
                assert(pairs.drop_last()[i] == pairs[i]);
            } else {
                assert(views_of_pairs(pairs)[i] == (pairs.last().0@, pairs.last().1@));
                assert(pairs.last() == pairs[i]);
            }
        }
    }
}

impl DeepView for Json {
    type V = JsonView;

    open spec fn deep_view(&self) -> JsonView {
        self.view()
    }
}

/// The value under `key` in an association sequence: the first pair whose key
/// matches, `None` when no pair does.
pub open spec fn lookup_field(
    pairs: Seq<(Seq<char>, JsonView)>,
    key: Seq<char>,
) -> Option<JsonView>
    decreases pairs.len(),
{
    if pairs.len() == 0 {
        None
    } else if pairs[0].0 == key {
        Some(pairs[0].1)
    } else {
        lookup_field(pairs.drop_first(), key)
    }
}

/// The value under `key` when `j` is an object that has that key.
pub open spec fn field_of(j: JsonView, key: Seq<char>) -> Option<JsonView> {
    match j {
        JsonView::Obj(pairs) => lookup_field(pairs, key),
        _ => None,
    }
}

/// Looks `key` up in a JSON object; `None` when `j` is not an object or has
/// no such field.
pub fn obj_field<'a>(j: &'a Json, key: &str) -> (r: Option<&'a Json>)
    ensures
        match r {
            Some(v) => field_of(j@, key@) == Some(v@),
            None => field_of(j@, key@) is None,
        },
{
    match j {
        Json::Obj(pairs) => {
            let ghost ps = views_of_pairs(pairs@);
            proof {
                lemma_views_of_pairs(pairs@);
                assert(ps.skip(0) =~= ps);
            }
            let n = pairs.len();
            let mut i: usize = 0;
            while i < n
                invariant
                    n == pairs.len(),
                    i <= n,
                    j@ == JsonView::Obj(ps),
                    ps == views_of_pairs(pairs@),
                    ps.len() == n,
                    forall|k: int| 0 <= k < n ==> ps[k] == (pairs@[k].0@, pairs@[k].1@),
                    lookup_field(ps, key@) == lookup_field(ps.skip(i as int), key@),
                decreases n - i,
            {
                proof {
                    assert(ps.skip(i as int)[0] == ps[i as int]);
                }
                if str_eq(pairs[i].0.as_str(), key) {
                    return Some(&pairs[i].1);
                }
                proof {
                    assert(ps.skip(i as int).drop_first() =~= ps.skip(i as int + 1));
                }
                i = i + 1;
            }
            proof {
                assert(ps.skip(n as int) =~= Seq::<(Seq<char>, JsonView)>::empty());
            }
            None
        },
        _ => None,
    }
}

/// Relies on `str`'s `==` (its `PartialEq`): true exactly when the two
/// character sequences are equal.
#[verifier::external_body]
pub(crate) fn str_eq(a: &str, b: &str) -> (r: bool)
    ensures
        r == (a@ == b@),
{
    a == b
}

/// The JSON value that `serde_json` parses the given text into, translated to
/// this crate's model; `None` when the text is not valid JSON. The result
/// depends on the text alone.
pub uninterp spec fn json_of(s: Seq<char>) -> Option<JsonView>;

#[verifier::external_type_specification]
#[verifier::external_body]
pub struct ExValue(serde_json::Value);

/// Relies on `serde_json::from_str::<serde_json::Value>`: returns the parsed
/// value exactly when the text is valid JSON, and the parser's diagnostic
/// otherwise.
#[verifier::external_body]
pub(crate) fn parse_json(s: &str) -> (r: Result<Json, String>)
    ensures
        r matches Ok(j) ==> json_of(s@) == Some(j@),
        r is Err ==> json_of(s@) is None,
{
    match serde_json::from_str::<serde_json::Value>(s) {
        Ok(v) => Ok(from_value(&v)),
        Err(e) => Err(format!("{}", e)),
    }
}

/// Relies on `serde_json::Value`'s variants alone: translates the parsed tree
/// into this crate's model, one arm per variant. Helper of `parse_json`; no
/// verified code calls it.
#[verifier::external_body]
fn from_value(v: &serde_json::Value) -> Json {
    match v {
        serde_json::Value::Null => Json::Null,
        serde_json::Value::Bool(b) => Json::Bool(*b),
        serde_json::Value::Number(n) => match n.as_i64() {
            Some(i) => Json::Int(i),
            None => Json::BigNum,
        },
        serde_json::Value::String(s) => Json::Str(s.clone()),
        serde_json::Value::Array(a) => Json::Arr(a.iter().map(from_value).collect()),
        serde_json::Value::Object(m) => Json::Obj(
            m.iter().map(|(k, w)| (k.clone(), from_value(w))).collect(),
        ),
    }
}

/// The string under `key` when `j` is an object whose field `key` is a string.
pub open spec fn str_field_of(j: JsonView, key: Seq<char>) -> Option<Seq<char>> {
    match field_of(j, key) {
        Some(JsonView::Str(s)) => Some(s),
        _ => None,
    }
}

/// The integer under `key` when `j` is an object whose field `key` is an
/// integer that fits in `i64`.
pub open spec fn i64_field_of(j: JsonView, key: Seq<char>) -> Option<i64> {
    match field_of(j, key) {
        Some(JsonView::Int(v)) => Some(v),
        _ => None,
    }
}

/// The integer under `key` when it fits in `i32`.
pub open spec fn i32_field_of(j: JsonView, key: Seq<char>) -> Option<i32> {
    match i64_field_of(j, key) {
        Some(v) => if i32::MIN <= v <= i32::MAX {
            Some(v as i32)
        } else {
            None
        },
        None => None,
    }
}

/// The boolean under `key` when `j` is an object whose field `key` is a
/// boolean.
pub open spec fn bool_field_of(j: JsonView, key: Seq<char>) -> Option<bool> {
    match field_of(j, key) {
        Some(JsonView::Bool(b)) => Some(b),
        _ => None,
    }
}

/// The elements under `key` when `j` is an object whose field `key` is an
/// array.
pub open spec fn arr_field_of(j: JsonView, key: Seq<char>) -> Option<Seq<JsonView>> {
    match field_of(j, key) {
        Some(JsonView::Arr(items)) => Some(items),
        _ => None,
    }
}

/// The string field under `key`, or `None` when it is absent or not a string.
pub fn str_field<'a>(j: &'a Json, key: &str) -> (r: Option<&'a String>)
    ensures
        r matches Some(s) ==> str_field_of(j@, key@) == Some(s@),
        r is None ==> str_field_of(j@, key@) is None,
{
    match obj_field(j, key) {
        Some(Json::Str(s)) => Some(s),
        _ => None,
    }
}

/// The `i64` field under `key`, or `None` when it is absent or not such an
/// integer.
pub fn i64_field(j: &Json, key: &str) -> (r: Option<i64>)
    ensures
        r matches Some(v) ==> i64_field_of(j@, key@) == Some(v),
        r is None ==> i64_field_of(j@, key@) is None,
{
    match obj_field(j, key) {
        Some(Json::Int(v)) => Some(*v),
        _ => None,
    }
}

/// The `i32` field under `key`, or `None` when it is absent, not an integer,
/// or out of `i32`'s range.
pub fn i32_field(j: &Json, key: &str) -> (r: Option<i32>)
    ensures
        r matches Some(v) ==> i32_field_of(j@, key@) == Some(v),
        r is None ==> i32_field_of(j@, key@) is None,
{
    match i64_field(j, key) {
        Some(v) => if i32::MIN as i64 <= v && v <= i32::MAX as i64 {
            Some(v as i32)
        } else {
            None
        },
        None => None,
    }
}

/// The boolean field under `key`, or `None` when it is absent or not a
/// boolean.
pub fn bool_field(j: &Json, key: &str) -> (r: Option<bool>)
    ensures
        r matches Some(b) ==> bool_field_of(j@, key@) == Some(b),
        r is None ==> bool_field_of(j@, key@) is None,
{
    match obj_field(j, key) {
        Some(Json::Bool(b)) => Some(*b),
        _ => None,
    }
}

/// The array field under `key`, or `None` when it is absent or not an array.
pub fn arr_field<'a>(j: &'a Json, key: &str) -> (r: Option<&'a Vec<Json>>)
    ensures
        r matches Some(a) ==> arr_field_of(j@, key@) == Some(views_of(a@)),
        r is None ==> arr_field_of(j@, key@) is None,
{
    match obj_field(j, key) {
        Some(Json::Arr(items)) => Some(items),
        _ => None,
    }
}

/// A `Result` seen through the deep views of both of its sides.
pub open spec fn result_view<T: DeepView, E: DeepView>(r: Result<T, E>) -> Result<T::V, E::V> {
    match r {
        Ok(v) => Ok(v.deep_view()),
        Err(e) => Err(e.deep_view()),
    }
}

/// Decodes a sequence of JSON values element by element: the elements'
/// results in order, or the leftmost failing element's error.
pub open spec fn decode_elems<T, E>(
    items: Seq<JsonView>,
    f: spec_fn(JsonView) -> Result<T, E>,
) -> Result<Seq<T>, E>
    decreases items.len(),
{
    if items.len() == 0 {
        Ok(Seq::empty())
    } else {
        match decode_elems(items.drop_last(), f) {
            Ok(pre) => match f(items.last()) {
                Ok(v) => Ok(pre.push(v)),
                Err(e) => Err(e),
            },
            Err(e) => Err(e),
        }
    }
}

/// Once a prefix fails to decode, the whole sequence fails the same way.
pub proof fn lemma_decode_elems_err<T, E>(
    items: Seq<JsonView>,
    f: spec_fn(JsonView) -> Result<T, E>,
    n: int,
)
    requires
        0 <= n <= items.len(),
        decode_elems(items.take(n), f) is Err,
    ensures
        decode_elems(items, f) == decode_elems(items.take(n), f),
    decreases items.len(),
{
    if items.len() == n {
        assert(items.take(n) =~= items);
    } else {
        assert(items.drop_last().take(n) =~= items.take(n));
        lemma_decode_elems_err(items.drop_last(), f, n);
    }
}

} // verus!

