//! JSON values.
//!
//! The library builds and reads values of its own type; reading JSON text and writing it is
//! `serde_json`'s work.

use vstd::prelude::*;

use crate::text::same;

verus! {

/// A JSON value. A number is kept as the text that stands for it.
#[derive(Debug, PartialEq, Eq)]
pub enum Json {
    Null,
    Bool(bool),
    Number(String),
    Text(String),
    Array(Vec<Json>),
    Object(Vec<Member>),
}

/// A member of a JSON object.
#[derive(Debug, PartialEq, Eq)]
pub struct Member {
    pub key: String,
    pub value: Json,
}

/// The view of a [`Json`].
pub enum JsonView {
    Null,
    Bool(bool),
    Number(Seq<char>),
    Text(Seq<char>),
    Array(Seq<JsonView>),
    Object(Seq<(Seq<char>, JsonView)>),
}

/// The members of a JSON object, as views.
pub type Members = Seq<(Seq<char>, JsonView)>;

impl View for Json {
    type V = JsonView;

    open spec fn view(&self) -> JsonView {
        json_view(*self)
    }
}

/// The view of a value.
pub open spec fn json_view(value: Json) -> JsonView
    decreases value,
{
    match value {
        Json::Null => JsonView::Null,
        Json::Bool(b) => JsonView::Bool(b),
        Json::Number(n) => JsonView::Number(n@),
        Json::Text(s) => JsonView::Text(s@),
        Json::Array(items) => JsonView::Array(json_views(items@)),
        Json::Object(members) => JsonView::Object(member_views(members@)),
    }
}

/// The views of a list of values.
pub open spec fn json_views(items: Seq<Json>) -> Seq<JsonView>
    decreases items,
{
    if items.len() == 0 {
        Seq::empty()
    } else {
        json_views(items.drop_last()).push(json_view(items[items.len() - 1]))
    }
}

/// The views of a list of members.
pub open spec fn member_views(members: Seq<Member>) -> Members
    decreases members,
{
    if members.len() == 0 {
        Seq::empty()
    } else {
        member_views(members.drop_last()).push(
            (members[members.len() - 1].key@, json_view(members[members.len() - 1].value)),
        )
    }
}

/// The views of a list of values, one by one.
pub proof fn lemma_json_views(items: Seq<Json>)
    ensures
        json_views(items).len() == items.len(),
        forall|i: int| 0 <= i < items.len() ==> #[trigger] json_views(items)[i] == items[i]@,
    decreases items.len(),
{
    if items.len() > 0 {
        lemma_json_views(items.drop_last());
    }
}

/// The views of a list of members, one by one.
pub proof fn lemma_member_views(members: Seq<Member>)
    ensures
        member_views(members).len() == members.len(),
        forall|i: int|
            0 <= i < members.len() ==> #[trigger] member_views(members)[i] == (
                members[i].key@,
                members[i].value@,
            ),
    decreases members.len(),
{
    if members.len() > 0 {
        lemma_member_views(members.drop_last());
    }
}

/// Where the member `key` first stands.
pub open spec fn member_at(members: Members, key: Seq<char>) -> Option<int>
    decreases members.len(),
{
    if members.len() == 0 {
        None
    } else if members[0].0 == key {
        Some(0)
    } else {
        match member_at(members.drop_first(), key) {
            Some(i) => Some(i + 1),
            None => None,
        }
    }
}

/// The member `key` of a value, where it is an object that has one.
pub open spec fn member(value: JsonView, key: Seq<char>) -> Option<JsonView> {
    match value {
        JsonView::Object(members) => match member_at(members, key) {
            Some(i) => Some(members[i].1),
            None => None,
        },
        _ => None,
    }
}

/// The element at `index` of a value, where it is an array that long.
pub open spec fn element(value: JsonView, index: nat) -> Option<JsonView> {
    match value {
        JsonView::Array(items) => if index < items.len() {
            Some(items[index as int])
        } else {
            None
        },
        _ => None,
    }
}

/// The member `key` of an optional value.
pub open spec fn then_member(value: Option<JsonView>, key: Seq<char>) -> Option<JsonView> {
    match value {
        Some(v) => member(v, key),
        None => None,
    }
}

/// The text that an optional value is.
pub open spec fn text_of(value: Option<JsonView>) -> Option<Seq<char>> {
    match value {
        Some(JsonView::Text(s)) => Some(s),
        _ => None,
    }
}

/// The truth value that an optional value is.
pub open spec fn bool_of(value: Option<JsonView>) -> Option<bool> {
    match value {
        Some(JsonView::Bool(b)) => Some(b),
        _ => None,
    }
}

/// The text of the number that an optional value is.
pub open spec fn number_of(value: Option<JsonView>) -> Option<Seq<char>> {
    match value {
        Some(JsonView::Number(n)) => Some(n),
        _ => None,
    }
}

/// The elements of the array that an optional value is.
pub open spec fn array_of(value: Option<JsonView>) -> Option<Seq<JsonView>> {
    match value {
        Some(JsonView::Array(items)) => Some(items),
        _ => None,
    }
}

/// The view of an optional value.
pub open spec fn opt_json(value: Option<Json>) -> Option<JsonView> {
    match value {
        Some(v) => Some(v@),
        None => None,
    }
}

/// The view of an optional borrowed value.
pub open spec fn opt_json_ref(value: Option<&Json>) -> Option<JsonView> {
    match value {
        Some(v) => Some(v@),
        None => None,
    }
}

/// The members with `key` set to `value`: in its place where the key is there, else at the end.
pub open spec fn with_member(members: Members, key: Seq<char>, value: JsonView) -> Members {
    match member_at(members, key) {
        Some(i) => members.update(i, (key, value)),
        None => members.push((key, value)),
    }
}

/// The members with those of `extra` set one after the other.
pub open spec fn with_members(members: Members, extra: Members) -> Members
    decreases extra.len(),
{
    if extra.len() == 0 {
        members
    } else {
        with_member(with_members(members, extra.drop_last()), extra.last().0, extra.last().1)
    }
}

/// Where `member_at` finds a key, and that it is the first place.
pub proof fn lemma_member_at(members: Members, key: Seq<char>)
    ensures
        match member_at(members, key) {
            Some(i) => 0 <= i < members.len() && members[i].0 == key && forall|j: int|
                0 <= j < i ==> (#[trigger] members[j]).0 != key,
            None => forall|j: int| 0 <= j < members.len() ==> (#[trigger] members[j]).0 != key,
        },
    decreases members.len(),
{
    if members.len() > 0 && members[0].0 != key {
        let rest = members.drop_first();
        lemma_member_at(rest, key);
        assert forall|j: int| 0 < j < members.len() implies members[j] == rest[j - 1] by {}
    }
}

/// A member that was set is the one that is found, and the others stay as they were.
pub proof fn law_member_set_is_found(members: Members, key: Seq<char>, value: JsonView, other: Seq<char>)
    ensures
        member(JsonView::Object(with_member(members, key, value)), key) == Some(value),
        other != key ==> member(JsonView::Object(with_member(members, key, value)), other) == member(
            JsonView::Object(members),
            other,
        ),
{
    let next = with_member(members, key, value);
    lemma_member_at(members, key);
    lemma_member_at(members, other);
    lemma_member_at(next, key);
    lemma_member_at(next, other);
    match member_at(members, key) {
        Some(i) => {
            assert(next[i].0 == key);
            assert(member_at(next, key) == Some(i)) by {
                let k = member_at(next, key).unwrap();
                if k < i {
                    assert(next[k] == members[k]);
                }
            }
            if other != key {
                lemma_same_keys(members, next, other);
            }
        },
        None => {
            let n = members.len() as int;
            assert(next[n].0 == key);
            assert(member_at(next, key) == Some(n)) by {
                let k = member_at(next, key).unwrap();
                if k < n {
                    assert(next[k] == members[k]);
                }
            }
            if other != key {
                match member_at(members, other) {
                    Some(i) => {
                        assert(next[i] == members[i]);
                        let k = member_at(next, other).unwrap();
                        if k < i {
                            assert(next[k] == members[k]);
                        }
                    },
                    None => {
                        if let Some(k) = member_at(next, other) {
                            if k < n {
                                assert(next[k] == members[k]);
                            }
                        }
                    },
                }
            }
        },
    }
}

proof fn lemma_same_keys(a: Members, b: Members, key: Seq<char>)
    requires
        a.len() == b.len(),
        forall|i: int| 0 <= i < a.len() ==> (#[trigger] a[i]).0 == b[i].0,
    ensures
        member_at(a, key) == member_at(b, key),
    decreases a.len(),
{
    if a.len() > 0 {
        assert(a[0].0 == b[0].0);
        assert forall|i: int| 0 <= i < a.len() - 1 implies (#[trigger] a.drop_first()[i]).0
            == b.drop_first()[i].0 by {
            assert(a[i + 1].0 == b[i + 1].0);
        }
        lemma_same_keys(a.drop_first(), b.drop_first(), key);
    }
}

/// `serde_json`'s value type, carried from its parser and to its printer.
#[verifier::external_type_specification]
#[verifier::external_body]
pub struct ExValue(serde_json::Value);

/// What `serde_json::from_str` reads from a text; nothing where the text is not one JSON value.
pub uninterp spec fn json_parse(text: Seq<char>) -> Option<JsonView>;

/// What `serde_json::to_string_pretty` writes for a value.
pub uninterp spec fn json_pretty(value: JsonView) -> Seq<char>;

/// What `serde_json::Value::as_f64` makes of the text of a number, shown with six decimals; nothing
/// where the text is not that of a number.
pub uninterp spec fn price_shown(number: Seq<char>) -> Option<Seq<char>>;

/// A `serde_json` value in the library's own type, part by part; a number by the text that
/// `serde_json` shows for it. Nothing is claimed of it here: see [`parse_json`].
#[verifier::external_body]
fn json_of_value(value: serde_json::Value) -> Json {
    match value {
        serde_json::Value::Null => Json::Null,
        serde_json::Value::Bool(b) => Json::Bool(b),
        serde_json::Value::Number(n) => Json::Number(n.to_string()),
        serde_json::Value::String(s) => Json::Text(s),
        serde_json::Value::Array(items) => Json::Array(items.into_iter().map(json_of_value).collect()),
        serde_json::Value::Object(members) => Json::Object(
            members.into_iter().map(|(key, v)| Member { key, value: json_of_value(v) }).collect(),
        ),
    }
}

/// A number in `serde_json`'s type, from the text that `serde_json` shows for it: a whole number as
/// it is, another as the nearest one that there is, which is the one that was shown; null where the
/// text is not that of a number. Nothing is claimed of it here: see [`pretty_json`] and [`show_price`].
#[verifier::external_body]
fn value_of_number(text: &str) -> serde_json::Value {
    let whole: Option<u64> = text.parse().ok();
    let below: Option<i64> = text.parse().ok();
    whole
        .map(serde_json::Number::from)
        .or_else(|| below.map(serde_json::Number::from))
        .or_else(|| text.parse().ok().and_then(serde_json::Number::from_f64))
        .map_or(serde_json::Value::Null, serde_json::Value::Number)
}

/// A value of the library in `serde_json`'s type, part by part; a number by [`value_of_number`].
/// Nothing is claimed of it here: see [`pretty_json`] and [`show_price`].
#[verifier::external_body]
fn value_of_json(value: &Json) -> serde_json::Value {
    match value {
        Json::Null => serde_json::Value::Null,
        Json::Bool(b) => serde_json::Value::Bool(*b),
        Json::Number(n) => value_of_number(n),
        Json::Text(s) => serde_json::Value::String(s.clone()),
        Json::Array(items) => serde_json::Value::Array(items.iter().map(value_of_json).collect()),
        Json::Object(members) => serde_json::Value::Object(
            members.iter().map(|m| (m.key.clone(), value_of_json(&m.value))).collect(),
        ),
    }
}

/// `serde_json::from_str`: the value depends on the text alone.
#[verifier::external_body]
pub(crate) fn parse_json(text: &str) -> (r: Option<Json>)
    ensures
        opt_json(r) == json_parse(text@),
{
    serde_json::from_str(text).ok().map(json_of_value)
}

/// `serde_json::to_string_pretty`: the text depends on the value alone.
#[verifier::external_body]
pub(crate) fn pretty_json(value: &Json) -> (r: String)
    ensures
        r@ == json_pretty(value@),
{
    serde_json::to_string_pretty(&value_of_json(value)).unwrap_or_default()
}

/// `serde_json::Value::as_f64` on a number given by its text; what comes out is shown with six
/// decimals. It depends on the text alone.
#[verifier::external_body]
pub(crate) fn show_price(number: &str) -> (r: Option<String>)
    ensures
        crate::text::opt_view(r) == price_shown(number@),
{
    value_of_json(&Json::Number(number.to_owned())).as_f64().map(|price| format!("{price:.6}"))
}

impl Json {
    /// A copy of the value.
    pub fn copy(&self) -> (r: Json)
        ensures
            r@ == self@,
        decreases self,
    {
        match self {
            Json::Null => Json::Null,
            Json::Bool(b) => Json::Bool(*b),
            Json::Number(n) => Json::Number(n.clone()),
            Json::Text(s) => Json::Text(s.clone()),
            Json::Array(items) => {
                let mut out: Vec<Json> = Vec::new();
                let mut i: usize = 0;
                assert(items@.take(0) =~= Seq::<Json>::empty());
                while i < items.len()
                    invariant
                        i <= items@.len(),
                        *self == Json::Array(*items),
                        json_views(out@) == json_views(items@.take(i as int)),
                    decreases items@.len() - i,
                {
                    let ghost before = out@;
                    assert(decreases_to!(*self => self->Array_0));
                    assert(decreases_to!(*items => items@));
                    assert(decreases_to!(items@ => items@[i as int]));
                    out.push(items[i].copy());
                    assert(out@.drop_last() =~= before);
                    assert(items@.take(i + 1).drop_last() =~= items@.take(i as int));
                    i += 1;
                }
                assert(items@.take(i as int) =~= items@);
                Json::Array(out)
            },
            Json::Object(members) => {
                let mut out: Vec<Member> = Vec::new();
                let mut i: usize = 0;
                assert(members@.take(0) =~= Seq::<Member>::empty());
                while i < members.len()
                    invariant
                        i <= members@.len(),
                        *self == Json::Object(*members),
                        member_views(out@) == member_views(members@.take(i as int)),
                    decreases members@.len() - i,
                {
                    let ghost before = out@;
                    assert(decreases_to!(*self => self->Object_0));
                    assert(decreases_to!(*members => members@));
                    assert(decreases_to!(members@ => members@[i as int]));
                    assert(decreases_to!(members@[i as int] => members@[i as int].value));
                    out.push(Member { key: members[i].key.clone(), value: members[i].value.copy() });
                    assert(out@.drop_last() =~= before);
                    assert(members@.take(i + 1).drop_last() =~= members@.take(i as int));
                    i += 1;
                }
                assert(members@.take(i as int) =~= members@);
                Json::Object(out)
            },
        }
    }

    /// The member `key`, where the value is an object that has one.
    pub fn get(&self, key: &str) -> (r: Option<&Json>)
        ensures
            opt_json_ref(r) == member(self@, key@),
    {
        match self {
            Json::Object(members) => {
                match position_of(members, key) {
                    Some(i) => {
                        proof {
                            lemma_member_views(members@);
                        }
                        Some(&members[i].value)
                    },
                    None => None,
                }
            },
            _ => None,
        }
    }

    /// The element at `index`, where the value is an array that long.
    pub fn at(&self, index: usize) -> (r: Option<&Json>)
        ensures
            opt_json_ref(r) == element(self@, index as nat),
    {
        match self {
            Json::Array(items) => {
                proof {
                    lemma_json_views(items@);
                }
                if index < items.len() {
                    Some(&items[index])
                } else {
                    None
                }
            },
            _ => None,
        }
    }

    /// The text that the value is.
    pub fn as_text(&self) -> (r: Option<&str>)
        ensures
            crate::text::opt_str_view(r) == text_of(Some(self@)),
    {
        match self {
            Json::Text(s) => Some(s.as_str()),
            _ => None,
        }
    }

    /// The truth value that the value is.
    pub fn as_bool(&self) -> (r: Option<bool>)
        ensures
            r == bool_of(Some(self@)),
    {
        match self {
            Json::Bool(b) => Some(*b),
            _ => None,
        }
    }

    /// The text of the number that the value is.
    pub fn as_number(&self) -> (r: Option<&str>)
        ensures
            crate::text::opt_str_view(r) == number_of(Some(self@)),
    {
        match self {
            Json::Number(n) => Some(n.as_str()),
            _ => None,
        }
    }

    /// The elements of the array that the value is.
    pub fn as_array(&self) -> (r: Option<&Vec<Json>>)
        ensures
            match (r, array_of(Some(self@))) {
                (Some(items), Some(want)) => json_views(items@) == want,
                (None, None) => true,
                _ => false,
            },
    {
        match self {
            Json::Array(items) => Some(items),
            _ => None,
        }
    }
}

fn position_of(members: &Vec<Member>, key: &str) -> (r: Option<usize>)
    ensures
        match (r, member_at(member_views(members@), key@)) {
            (Some(i), Some(k)) => i == k && i < members@.len(),
            (None, None) => true,
            _ => false,
        },
{
    let ghost all = member_views(members@);
    proof {
        lemma_member_views(members@);
        lemma_member_at(all, key@);
    }
    let mut i: usize = 0;
    while i < members.len()
        invariant
            i <= members@.len(),
            all == member_views(members@),
            all.len() == members@.len(),
            forall|k: int| 0 <= k < all.len() ==> (#[trigger] all[k]) == (
                members@[k].key@,
                members@[k].value@,
            ),
            forall|k: int| 0 <= k < i ==> (#[trigger] all[k]).0 != key@,
        decreases members@.len() - i,
    {
        assert(all[i as int].0 == members@[i as int].key@);
        if same(members[i].key.as_str(), key) {
            proof {
                lemma_member_at(all, key@);
                let k = member_at(all, key@).unwrap();
                if k < i {
                    assert(all[k].0 != key@);
                }
            }
            return Some(i);
        }
        i += 1;
    }
    proof {
        lemma_member_at(all, key@);
    }
    None
}

/// The member `key` of an optional value.
pub fn get_in<'a>(value: Option<&'a Json>, key: &str) -> (r: Option<&'a Json>)
    ensures
        opt_json_ref(r) == then_member(opt_json_ref(value), key@),
{
    match value {
        Some(v) => v.get(key),
        None => None,
    }
}

/// The text that an optional value is.
pub fn text_in<'a>(value: Option<&'a Json>) -> (r: Option<&'a str>)
    ensures
        crate::text::opt_str_view(r) == text_of(opt_json_ref(value)),
{
    match value {
        Some(v) => v.as_text(),
        None => None,
    }
}

/// The truth value that an optional value is.
pub fn bool_in(value: Option<&Json>) -> (r: Option<bool>)
    ensures
        r == bool_of(opt_json_ref(value)),
{
    match value {
        Some(v) => v.as_bool(),
        None => None,
    }
}

/// Sets the member `key`: in its place where the key is there, else at the end.
pub fn set_member(members: &mut Vec<Member>, key: &str, value: Json)
    ensures
        member_views(final(members)@) == with_member(member_views(old(members)@), key@, value@),
{
    proof {
        lemma_member_views(members@);
        lemma_member_at(member_views(members@), key@);
    }
    let ghost before = members@;
    match position_of(members, key) {
        Some(i) => {
            members.set(i, Member { key: key.to_owned(), value });
            proof {
                lemma_member_views(members@);
                assert(member_views(members@) =~= with_member(member_views(before), key@, value@));
            }
        },
        None => {
            members.push(Member { key: key.to_owned(), value });
            assert(members@.drop_last() =~= before);
        },
    }
}

/// Sets the member `key` to a text.
pub fn set_text(members: &mut Vec<Member>, key: &str, value: &str)
    ensures
        member_views(final(members)@) == with_member(
            member_views(old(members)@),
            key@,
            JsonView::Text(value@),
        ),
{
    set_member(members, key, Json::Text(value.to_owned()))
}

/// The members with `key` set to a text, where there is one.
pub open spec fn with_opt_text(members: Members, key: Seq<char>, value: Option<Seq<char>>) -> Members {
    match value {
        Some(text) => with_member(members, key, JsonView::Text(text)),
        None => members,
    }
}

/// Sets the member `key` to a text, where there is one.
pub fn set_opt_text(members: &mut Vec<Member>, key: &str, value: &Option<String>)
    ensures
        member_views(final(members)@) == with_opt_text(
            member_views(old(members)@),
            key@,
            crate::text::opt_view(*value),
        ),
{
    if let Some(text) = value {
        set_text(members, key, text.as_str());
    }
}

/// The members with `key` set to a value, where there is one.
pub open spec fn with_opt(members: Members, key: Seq<char>, value: Option<JsonView>) -> Members {
    match value {
        Some(v) => with_member(members, key, v),
        None => members,
    }
}

/// Sets the member `key` to a value, where there is one.
pub fn set_opt(members: &mut Vec<Member>, key: &str, value: &Option<Json>)
    ensures
        member_views(final(members)@) == with_opt(
            member_views(old(members)@),
            key@,
            opt_json(*value),
        ),
{
    if let Some(v) = value {
        set_member(members, key, v.copy());
    }
}

/// A copy of an optional value.
pub fn copy_opt_json(value: &Option<Json>) -> (r: Option<Json>)
    ensures
        opt_json(r) == opt_json(*value),
{
    match value {
        Some(v) => Some(v.copy()),
        None => None,
    }
}

/// No members at all.
pub open spec fn no_members() -> Members {
    Seq::empty()
}

/// A whole number as a JSON value.
pub open spec fn whole_number(n: nat) -> JsonView {
    JsonView::Number(crate::number::decimal(n))
}

/// An optional whole number as a JSON value.
pub open spec fn opt_whole_number(n: Option<u32>) -> Option<JsonView> {
    match n {
        Some(v) => Some(whole_number(v as nat)),
        None => None,
    }
}

/// Sets the member `key` to a whole number, where there is one.
pub fn set_opt_number(members: &mut Vec<Member>, key: &str, value: &Option<u32>)
    ensures
        member_views(final(members)@) == with_opt(
            member_views(old(members)@),
            key@,
            opt_whole_number(*value),
        ),
{
    if let Some(n) = value {
        set_member(members, key, Json::Number(crate::number::write_decimal(*n as u64)));
    }
}

/// What the pointer `0` finds in a value: the first element of an array, or the member `0` of an
/// object.
pub open spec fn pointer_zero(value: Option<JsonView>) -> Option<JsonView> {
    match value {
        Some(JsonView::Array(items)) => element(JsonView::Array(items), 0),
        Some(JsonView::Object(members)) => member(JsonView::Object(members), "0"@),
        _ => None,
    }
}

/// What the pointer `0` finds in an optional value.
pub fn zero_in<'a>(value: Option<&'a Json>) -> (r: Option<&'a Json>)
    ensures
        opt_json_ref(r) == pointer_zero(opt_json_ref(value)),
{
    match value {
        Some(v) => match v {
            Json::Array(_) => v.at(0),
            Json::Object(_) => v.get("0"),
            _ => None,
        },
        None => None,
    }
}

/// The value that a JSON text stands for.
pub fn read_json(text: &str) -> (r: Option<Json>)
    ensures
        opt_json(r) == json_parse(text@),
{
    parse_json(text)
}

/// A value as JSON text, laid out over lines.
pub fn show_json(value: &Json) -> (r: String)
    ensures
        r@ == json_pretty(value@),
{
    pretty_json(value)
}

/// The texts of a list, as an array.
pub fn text_array(texts: &Vec<String>) -> (r: Json)
    ensures
        r@ == JsonView::Array(text_views(crate::text::views(texts@))),
{
    let mut out: Vec<Json> = Vec::new();
    let mut i: usize = 0;
    let ghost all = crate::text::views(texts@);
    while i < texts.len()
        invariant
            i <= texts@.len(),
            all == crate::text::views(texts@),
            out@.len() == i,
            json_views(out@) =~= text_views(all.take(i as int)),
        decreases texts@.len() - i,
    {
        let ghost before = out@;
        out.push(Json::Text(texts[i].clone()));
        assert(out@.drop_last() =~= before);
        assert(json_view(out@[i as int]) == JsonView::Text(all[i as int]));
        assert(text_views(all.take(i + 1)) =~= text_views(all.take(i as int)).push(
            JsonView::Text(all[i as int]),
        ));
        i += 1;
    }
    assert(all.take(i as int) =~= all);
    Json::Array(out)
}

/// Texts as JSON values.
pub open spec fn text_views(texts: Seq<Seq<char>>) -> Seq<JsonView> {
    Seq::new(texts.len(), |i: int| JsonView::Text(texts[i]))
}

/// Sets the members of `extra` one after the other; an error where `extra` is no object.
pub fn merge_json_object(target: &mut Vec<Member>, extra: &Json) -> (r: Result<(), String>)
    ensures
        match extra@ {
            JsonView::Object(members) => r is Ok && member_views(final(target)@) == with_members(
                member_views(old(target)@),
                members,
            ),
            _ => (r matches Err(e) && e@ == "--extra-json must be a JSON object"@) && final(target)@
                == old(target)@,
        },
{
    match extra {
        Json::Object(members) => {
            let ghost all = member_views(members@);
            let ghost start = member_views(target@);
            proof {
                lemma_member_views(members@);
            }
            let mut i: usize = 0;
            assert(all.take(0) =~= Seq::empty());
            while i < members.len()
                invariant
                    i <= members@.len(),
                    all == member_views(members@),
                    all.len() == members@.len(),
                    forall|k: int| 0 <= k < all.len() ==> (#[trigger] all[k]) == (
                        members@[k].key@,
                        members@[k].value@,
                    ),
                    member_views(target@) == with_members(start, all.take(i as int)),
                decreases members@.len() - i,
            {
                assert(all.take(i + 1).drop_last() =~= all.take(i as int));
                assert(all[i as int] == (members@[i as int].key@, members@[i as int].value@));
                set_member(target, members[i].key.as_str(), members[i].value.copy());
                i += 1;
            }
            assert(all.take(i as int) =~= all);
            Ok(())
        },
        _ => Err("--extra-json must be a JSON object".to_owned()),
    }
}

} // verus!
