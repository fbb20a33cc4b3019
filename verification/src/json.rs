//! JSON documents as plain values: command bodies, application parameters and
//! metadata.

use crate::table::lookup;
use crate::text;
use vstd::prelude::*;

verus! {

/// A JSON number; one that is no whole number, or too large for one, as it is written.
#[derive(PartialEq, Eq, Debug)]
pub enum JsonNumber {
    Unsigned(u64),
    Negative(i64),
    Fraction(String),
}

/// What a JSON number is.
pub enum NumberView {
    Unsigned(u64),
    Negative(i64),
    Fraction(Seq<char>),
}

impl View for JsonNumber {
    type V = NumberView;

    open spec fn view(&self) -> NumberView {
        match self {
            JsonNumber::Unsigned(n) => NumberView::Unsigned(*n),
            JsonNumber::Negative(n) => NumberView::Negative(*n),
            JsonNumber::Fraction(s) => NumberView::Fraction(s@),
        }
    }
}

/// A JSON value. The keys of an object are taken to be distinct; where they are not,
/// the first entry counts.
pub enum Json {
    Null,
    Bool(bool),
    Number(JsonNumber),
    Text(String),
    List(Vec<Json>),
    Object(Vec<(String, Json)>),
}

/// What a JSON value holds.
pub enum JsonView {
    Null,
    Bool(bool),
    Number(NumberView),
    Text(Seq<char>),
    List(Seq<JsonView>),
    Object(Seq<(Seq<char>, JsonView)>),
}

/// What a list holds.
pub open spec fn list_view(items: Seq<Json>) -> Seq<JsonView>
    decreases items,
{
    if items.len() == 0 {
        Seq::empty()
    } else {
        list_view(items.drop_last()).push(items.last().contents())
    }
}

/// What an object holds.
pub open spec fn object_view(entries: Seq<(String, Json)>) -> Seq<(Seq<char>, JsonView)>
    decreases entries,
{
    if entries.len() == 0 {
        Seq::empty()
    } else {
        object_view(entries.drop_last()).push((entries.last().0@, entries.last().1.contents()))
    }
}

/// What `serde_json` reads out of a text, where it can.
pub uninterp spec fn parsed_json(s: Seq<char>) -> Option<JsonView>;

/// What a value of `serde_json` holds.
pub uninterp spec fn value_contents(v: serde_json::Value) -> JsonView;

/// A JSON value of `serde_json`.
#[verifier::external_type_specification]
#[verifier::external_body]
pub struct ExValue(serde_json::Value);

/// `serde_json::from_str`: the value that the text writes, where it writes one.
#[verifier::external_body]
fn read_value(s: &str) -> (r: Option<serde_json::Value>)
    ensures
        r is Some <==> parsed_json(s@) is Some,
        r matches Some(v) ==> parsed_json(s@) == Some(value_contents(v)),
{
    serde_json::from_str(s).ok()
}

/// The variants of `serde_json::Value`, taken over one for one; a number as `as_u64` or
/// `as_i64` gives it, else as it is written.
#[verifier::external_body]
fn json_of(value: serde_json::Value) -> (r: Json)
    ensures
        r.contents() == value_contents(value),
{
    match value {
        serde_json::Value::Null => Json::Null,
        serde_json::Value::Bool(b) => Json::Bool(b),
        serde_json::Value::Number(n) => Json::Number(match (n.as_u64(), n.as_i64()) {
            (Some(u), _) => JsonNumber::Unsigned(u),
            (None, Some(i)) => JsonNumber::Negative(i),
            (None, None) => JsonNumber::Fraction(n.to_string()),
        }),
        serde_json::Value::String(s) => Json::Text(s),
        serde_json::Value::Array(a) => Json::List(a.into_iter().map(json_of).collect()),
        serde_json::Value::Object(o) => {
            Json::Object(o.into_iter().map(|(k, v)| (k, json_of(v))).collect())
        }
    }
}

/// A value of `serde_json` as a plain value.
pub fn from_value(value: serde_json::Value) -> (r: Json)
    ensures
        r.contents() == value_contents(value),
{
    json_of(value)
}

/// The value that a text writes.
pub fn parse_json(s: &str) -> (r: Option<Json>)
    ensures
        r is Some <==> parsed_json(s@) is Some,
        r matches Some(j) ==> parsed_json(s@) == Some(j.contents()),
{
    match read_value(s) {
        Some(v) => Some(json_of(v)),
        None => None,
    }
}

impl Json {
    pub open spec fn contents(self) -> JsonView
        decreases self,
    {
        match self {
            Json::Null => JsonView::Null,
            Json::Bool(b) => JsonView::Bool(b),
            Json::Number(n) => JsonView::Number(n@),
            Json::Text(s) => JsonView::Text(s@),
            Json::List(items) => JsonView::List(list_view(items@)),
            Json::Object(entries) => JsonView::Object(object_view(entries@)),
        }
    }

    /// The member of an object; nothing for another value.
    pub open spec fn member(self, key: Seq<char>) -> Option<Json> {
        match self {
            Json::Object(entries) => lookup(entries@, key),
            _ => None,
        }
    }

    pub open spec fn text(self) -> Option<Seq<char>> {
        match self {
            Json::Text(s) => Some(s@),
            _ => None,
        }
    }

    pub open spec fn truth(self) -> Option<bool> {
        match self {
            Json::Bool(b) => Some(b),
            _ => None,
        }
    }

    pub open spec fn number(self) -> Option<u64> {
        match self {
            Json::Number(JsonNumber::Unsigned(n)) => Some(n),
            _ => None,
        }
    }

    pub open spec fn items(self) -> Option<Seq<Json>> {
        match self {
            Json::List(v) => Some(v@),
            _ => None,
        }
    }

    pub fn get(&self, key: &str) -> (r: Option<&Json>)
        ensures
            r is Some <==> self.member(key@) is Some,
            r matches Some(v) ==> *v == self.member(key@)->0,
    {
        match self {
            Json::Object(entries) => {
                let mut i: usize = 0;
                assert(entries@.subrange(0, entries@.len() as int) =~= entries@);
                while i < entries.len()
                    invariant
                        i <= entries@.len(),
                        self.member(key@) == lookup(
                            entries@.subrange(i as int, entries@.len() as int),
                            key@,
                        ),
                    decreases entries@.len() - i,
                {
                    proof {
                        assert(entries@.subrange(i as int, entries@.len() as int).drop_first()
                            =~= entries@.subrange(i + 1, entries@.len() as int));
                    }
                    if text::same(&entries[i].0, key) {
                        return Some(&entries[i].1);
                    }
                    i += 1;
                }
                None
            },
            _ => None,
        }
    }

    pub fn as_str(&self) -> (r: Option<&String>)
        ensures
            r is Some <==> self.text() is Some,
            r matches Some(s) ==> self.text() == Some(s@) && *self == Json::Text(*s),
    {
        match self {
            Json::Text(s) => Some(s),
            _ => None,
        }
    }

    pub fn as_bool(&self) -> (r: Option<bool>)
        ensures
            r == self.truth(),
    {
        match self {
            Json::Bool(b) => Some(*b),
            _ => None,
        }
    }

    pub fn as_u64(&self) -> (r: Option<u64>)
        ensures
            r == self.number(),
    {
        match self {
            Json::Number(JsonNumber::Unsigned(n)) => Some(*n),
            _ => None,
        }
    }

    pub fn as_array(&self) -> (r: Option<&Vec<Json>>)
        ensures
            r is Some <==> self.items() is Some,
            r matches Some(v) ==> self.items() == Some(v@),
    {
        match self {
            Json::List(v) => Some(v),
            _ => None,
        }
    }
}

/// The member of a value that may be absent.
pub open spec fn at(v: Option<Json>, key: Seq<char>) -> Option<Json> {
    match v {
        Some(j) => j.member(key),
        None => None,
    }
}

pub open spec fn text_at(v: Option<Json>, key: Seq<char>) -> Option<Seq<char>> {
    match at(v, key) {
        Some(j) => j.text(),
        None => None,
    }
}

pub open spec fn bool_at(v: Option<Json>, key: Seq<char>) -> Option<bool> {
    match at(v, key) {
        Some(j) => j.truth(),
        None => None,
    }
}

pub open spec fn number_at(v: Option<Json>, key: Seq<char>) -> Option<u64> {
    match at(v, key) {
        Some(j) => j.number(),
        None => None,
    }
}

pub open spec fn value_of(v: Option<&Json>) -> Option<Json> {
    match v {
        Some(j) => Some(*j),
        None => None,
    }
}

pub fn get_at<'a>(v: Option<&'a Json>, key: &str) -> (r: Option<&'a Json>)
    ensures
        value_of(r) == at(value_of(v), key@),
{
    match v {
        Some(j) => j.get(key),
        None => None,
    }
}

pub fn get_text(v: Option<&Json>, key: &str) -> (r: Option<String>)
    ensures
        text::opt_text(r) == text_at(value_of(v), key@),
{
    match get_at(v, key) {
        Some(j) => match j.as_str() {
            Some(s) => Some(s.clone()),
            None => None,
        },
        None => None,
    }
}

pub fn get_bool(v: Option<&Json>, key: &str) -> (r: Option<bool>)
    ensures
        r == bool_at(value_of(v), key@),
{
    match get_at(v, key) {
        Some(j) => j.as_bool(),
        None => None,
    }
}

pub fn get_number(v: Option<&Json>, key: &str) -> (r: Option<u64>)
    ensures
        r == number_at(value_of(v), key@),
{
    match get_at(v, key) {
        Some(j) => j.as_u64(),
        None => None,
    }
}

/// The lower 32 bits of a number.
pub open spec fn low32(n: u64) -> u32 {
    (n % 0x1_0000_0000) as u32
}

pub fn to_low32(n: u64) -> (r: u32)
    ensures
        r == low32(n),
{
    (n % 0x1_0000_0000) as u32
}

/// The texts among the items of a list, in order.
pub open spec fn texts(items: Seq<Json>) -> Seq<Seq<char>>
    decreases items.len(),
{
    if items.len() == 0 {
        Seq::empty()
    } else {
        let before = texts(items.drop_last());
        match items.last().text() {
            Some(t) => before.push(t),
            None => before,
        }
    }
}

/// The texts in a list; none where there is no list.
pub open spec fn texts_in(v: Option<Json>) -> Seq<Seq<char>> {
    match v {
        Some(j) => match j.items() {
            Some(items) => texts(items),
            None => Seq::empty(),
        },
        None => Seq::empty(),
    }
}

/// The texts among the items.
pub fn collect_texts(items: &Vec<Json>) -> (r: Vec<String>)
    ensures
        text::views(r@) == texts(items@),
{
    let mut r: Vec<String> = Vec::new();
    let mut i: usize = 0;
    proof {
        assert(items@.subrange(0, 0) =~= Seq::empty());
        assert(text::views(r@) =~= Seq::empty());
    }
    while i < items.len()
        invariant
            i <= items@.len(),
            text::views(r@) == texts(items@.subrange(0, i as int)),
        decreases items@.len() - i,
    {
        proof {
            assert(items@.subrange(0, i + 1).drop_last() =~= items@.subrange(0, i as int));
            assert(items@.subrange(0, i + 1).last() == items@[i as int]);
        }
        if let Some(s) = items[i].as_str() {
            let ghost old_r = r@;
            r.push(s.clone());
            assert(text::views(r@) =~= text::views(old_r).push(s@));
        }
        i += 1;
    }
    assert(items@.subrange(0, items@.len() as int) =~= items@);
    r
}

pub fn get_texts(v: Option<&Json>) -> (r: Vec<String>)
    ensures
        text::views(r@) == texts_in(value_of(v)),
{
    match v {
        Some(j) => match j.as_array() {
            Some(items) => collect_texts(items),
            None => {
                let r: Vec<String> = Vec::new();
                assert(text::views(r@) =~= Seq::empty());
                r
            },
        },
        None => {
            let r: Vec<String> = Vec::new();
            assert(text::views(r@) =~= Seq::empty());
            r
        },
    }
}

/// The texts that a value lists: those in a list, or the one that it is.
pub open spec fn string_array(v: Option<Json>) -> Seq<Seq<char>> {
    match v {
        Some(Json::List(items)) => texts(items@),
        Some(Json::Text(s)) => seq![s@],
        _ => Seq::empty(),
    }
}

pub fn extract_string_array(value: &Option<Json>) -> (r: Vec<String>)
    ensures
        text::views(r@) == string_array(*value),
{
    let mut r: Vec<String> = Vec::new();
    match value {
        Some(Json::List(items)) => {
            return collect_texts(items);
        },
        Some(Json::Text(s)) => {
            r.push(s.clone());
            assert(text::views(r@) =~= seq![s@]);
        },
        _ => {
            assert(text::views(r@) =~= Seq::empty());
        },
    }
    r
}

/// Every item is a text.
pub open spec fn all_texts(items: Seq<Json>) -> bool {
    forall|i: int| 0 <= i < items.len() ==> (#[trigger] items[i]).text() is Some
}

/// The texts of a list that holds nothing else.
pub fn strings_exactly(value: &Json) -> (r: Option<Vec<String>>)
    ensures
        r is Some <==> (value.items() matches Some(items) && all_texts(items)),
        r matches Some(v) ==> text::views(v@) == texts(value.items()->0),
{
    match value {
        Json::List(items) => {
            let mut i: usize = 0;
            while i < items.len()
                invariant
                    i <= items@.len(),
                    *value == Json::List(*items),
                    forall|j: int| 0 <= j < i ==> (#[trigger] items@[j]).text() is Some,
                decreases items@.len() - i,
            {
                if items[i].as_str().is_none() {
                    assert(items@[i as int].text() is None);
                    return None;
                }
                i += 1;
            }
            Some(collect_texts(items))
        },
        _ => None,
    }
}

/// What a value holds comes out of it as what it is: a text as a text, a truth as a
/// truth, a whole number as a number and a list as its items, and as nothing else.
pub proof fn value_is_read_as_what_it_is(s: String, b: bool, n: u64, items: Vec<Json>)
    ensures
        Json::Text(s).text() == Some(s@),
        Json::Bool(b).truth() == Some(b),
        Json::Number(JsonNumber::Unsigned(n)).number() == Some(n),
        Json::List(items).items() == Some(items@),
        Json::Bool(b).text() is None && Json::Null.text() is None,
        Json::Number(JsonNumber::Unsigned(n)).text() is None,
        Json::Text(s).truth() is None && Json::Null.truth() is None,
        Json::Text(s).number() is None && Json::Bool(b).number() is None,
        Json::Text(s).items() is None && Json::Null.items() is None,
{
}

/// A member is found under its own key where a value is an object, and nowhere else.
pub proof fn member_is_found_under_its_key(
    entries: Vec<(String, Json)>,
    key: String,
    value: Json,
    other: Seq<char>,
    s: String,
)
    requires
        entries@ == seq![(key, value)],
    ensures
        at(Some(Json::Object(entries)), key@) == Some(value),
        other != key@ ==> at(Some(Json::Object(entries)), other) is None,
        text_at(Some(Json::Object(entries)), key@) == value.text(),
        bool_at(Some(Json::Object(entries)), key@) == value.truth(),
        number_at(Some(Json::Object(entries)), key@) == value.number(),
        at(Some(Json::Text(s)), other) is None,
        at(None, other) is None,
        text_at(None, other) is None && bool_at(None, other) is None && number_at(None, other) is None,
{
    assert(entries@[0] == (key, value));
    assert(lookup(entries@, key@) == Some(value));
    assert(entries@.drop_first().len() == 0);
    if other != key@ {
        assert(lookup(entries@, other) == lookup(entries@.drop_first(), other));
    }
}

/// The lower half of a number is the number itself where it fits.
pub proof fn small_number_keeps_its_value(n: u64)
    ensures
        n <= 0xFFFF_FFFF ==> low32(n) == n,
        low32(n) as int == n as int % 0x1_0000_0000,
{
}

/// The texts of a list are taken in their order, and whatever is no text is left out:
/// where all items are texts, none is.
pub proof fn texts_are_taken_in_order(items: Seq<Json>)
    ensures
        texts(items).len() <= items.len(),
        (forall|i: int| 0 <= i < items.len() ==> (#[trigger] items[i]) is Text) ==> texts(items).len()
            == items.len() && forall|i: int|
            0 <= i < items.len() ==> Some(#[trigger] texts(items)[i]) == items[i].text(),
        (forall|i: int| 0 <= i < items.len() ==> !((#[trigger] items[i]) is Text)) ==> texts(
            items,
        ).len() == 0,
        forall|i: int|
            0 <= i < items.len() && (#[trigger] items[i]) is Text ==> texts(items).contains(
                items[i].text()->0,
            ),
    decreases items.len(),
{
    if items.len() > 0 {
        let rest = items.drop_last();
        texts_are_taken_in_order(rest);
        assert(items.last() == items[items.len() - 1]);
        if forall|i: int| 0 <= i < items.len() ==> (#[trigger] items[i]) is Text {
            assert forall|i: int| 0 <= i < rest.len() implies (#[trigger] rest[i]) is Text by {
                assert(items[i] is Text);
            }
            assert(items.last() is Text);
            assert(texts(items) == texts(rest).push(items.last().text()->0));
            assert forall|i: int| 0 <= i < items.len() implies Some(#[trigger] texts(items)[i])
                == items[i].text() by {
                if i < rest.len() {
                    assert(texts(items)[i] == texts(rest)[i]);
                    assert(rest[i] == items[i]);
                }
            }
        }
        if forall|i: int| 0 <= i < items.len() ==> !((#[trigger] items[i]) is Text) {
            assert forall|i: int| 0 <= i < rest.len() implies !((#[trigger] rest[i]) is Text) by {
                assert(!(items[i] is Text));
            }
            assert(!(items.last() is Text));
        }
        assert forall|i: int| 0 <= i < items.len() && (#[trigger] items[i]) is Text implies texts(
            items,
        ).contains(items[i].text()->0) by {
            if i < rest.len() {
                assert(rest[i] == items[i]);
                let w = choose|w: int|
                    0 <= w < texts(rest).len() && texts(rest)[w] == items[i].text()->0;
                assert(texts(items)[w] == items[i].text()->0);
            } else {
                assert(texts(items).last() == items[i].text()->0);
            }
        }
    }
}

/// The texts that a value lists are those of a list, or the one text that it is.
pub proof fn one_text_is_a_list_of_it(s: String, items: Vec<Json>, b: bool)
    ensures
        string_array(Some(Json::Text(s))) == seq![s@],
        string_array(Some(Json::List(items))) == texts(items@),
        string_array(Some(Json::Bool(b))).len() == 0,
        string_array(Some(Json::Null)).len() == 0,
        string_array(None).len() == 0,
        texts_in(Some(Json::List(items))) == texts(items@),
        texts_in(Some(Json::Text(s))).len() == 0,
        texts_in(None).len() == 0,
{
}

} // verus!
