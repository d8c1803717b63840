//! JSON values.
//!
//! [`Json`] holds what a document says; `serde_json` reads and writes the text.
//! The view of an object is a map, so the order of its members does not count,
//! and of two members with one name the later one does.

use vstd::prelude::*;

use crate::text::same;

verus! {

// ---------------------------------------------------------------------------
// Values
// ---------------------------------------------------------------------------

/// What a JSON document says.
pub enum JsonView {
    Null,
    Bool(bool),
    Number(serde_json::Number),
    Text(Seq<char>),
    Array(Seq<JsonView>),
    Object(Map<Seq<char>, JsonView>),
}

/// A JSON value.
#[derive(Debug, PartialEq)]
pub enum Json {
    Null,
    Bool(bool),
    Number(serde_json::Number),
    Text(String),
    Array(Vec<Json>),
    Object(JsonObject),
}

/// The members of a JSON object.
#[derive(Debug, PartialEq)]
pub struct JsonObject {
    pub entries: Vec<(String, Json)>,
}

impl JsonView {
    /// The member `key` of an object; nothing else has members.
    pub open spec fn field(self, key: Seq<char>) -> Option<JsonView> {
        match self {
            JsonView::Object(m) => if m.contains_key(key) {
                Some(m[key])
            } else {
                None
            },
            _ => None,
        }
    }

    /// The part of a record: the member `key` of an object, or the element `index` of an array that
    /// lists the parts in their order.
    pub open spec fn part(self, key: Seq<char>, index: int) -> Option<JsonView> {
        match self {
            JsonView::Array(items) => if 0 <= index < items.len() {
                Some(items[index])
            } else {
                None
            },
            _ => self.field(key),
        }
    }

    /// The text of the part of a record, where it is a string.
    pub open spec fn text_part(self, key: Seq<char>, index: int) -> Option<Seq<char>> {
        match self.part(key, index) {
            Some(v) => v.text(),
            None => None,
        }
    }

    /// Whether the value is a record: an object, or an array of `least` to `most` parts.
    pub open spec fn is_record(self, least: nat, most: nat) -> bool {
        match self {
            JsonView::Object(_) => true,
            JsonView::Array(items) => least <= items.len() <= most,
            _ => false,
        }
    }

    /// The text of a string.
    pub open spec fn text(self) -> Option<Seq<char>> {
        match self {
            JsonView::Text(t) => Some(t),
            _ => None,
        }
    }

    /// The text of the member `key`, where it is a string.
    pub open spec fn text_field(self, key: Seq<char>) -> Option<Seq<char>> {
        match self.field(key) {
            Some(v) => v.text(),
            None => None,
        }
    }

    /// What a value says when it is read as a flag: a boolean says itself, and of
    /// all others only the text "true" says yes.
    pub open spec fn flag(self) -> bool {
        match self {
            JsonView::Bool(b) => b,
            _ => self.text() == Some("true"@),
        }
    }

    /// The flag that the member `key` is, where there is such a member.
    pub open spec fn flag_field(self, key: Seq<char>) -> Option<bool> {
        match self.field(key) {
            Some(v) => Some(v.flag()),
            None => None,
        }
    }

    /// The number of 64 bits that a value is read as: a whole number of that range
    /// is itself, every other number is cut off at its decimal point.
    pub open spec fn integer(self) -> Option<i64> {
        match self {
            JsonView::Number(n) => match whole_number(n) {
                Some(i) => Some(i),
                None => truncated_number(n),
            },
            _ => None,
        }
    }

    /// The whole number of 64 bits that a value is.
    pub open spec fn whole(self) -> Option<i64> {
        match self {
            JsonView::Number(n) => whole_number(n),
            _ => None,
        }
    }

    /// The number that the member `key` is read as.
    pub open spec fn integer_field(self, key: Seq<char>) -> Option<i64> {
        match self.field(key) {
            Some(v) => v.integer(),
            None => None,
        }
    }

    /// Whether every number in the value is a whole number of 64 bits, and arrays
    /// and objects are nested at most `depth` deep.
    pub open spec fn plain(self, depth: nat) -> bool
        decreases depth,
    {
        match self {
            JsonView::Number(n) => whole_number(n) is Some,
            JsonView::Array(items) => depth > 0 && forall|i: int|
                0 <= i < items.len() ==> (#[trigger] items[i]).plain((depth - 1) as nat),
            JsonView::Object(m) => depth > 0 && forall|k: Seq<char>|
                m.contains_key(k) ==> (#[trigger] m[k]).plain((depth - 1) as nat),
            _ => true,
        }
    }
}

/// What a sequence of values says.
pub open spec fn contents(items: Seq<Json>) -> Seq<JsonView>
    decreases items,
{
    if items.len() == 0 {
        Seq::empty()
    } else {
        contents(items.drop_last()).push(items.last().content())
    }
}

/// What a sequence of members says.
pub open spec fn members(entries: Seq<(String, Json)>) -> Map<Seq<char>, JsonView>
    decreases entries,
{
    if entries.len() == 0 {
        Map::empty()
    } else {
        members(entries.drop_last()).insert(entries.last().0@, entries.last().1.content())
    }
}

/// The value of an optional text: the text, or null.
pub open spec fn text_or_null(t: Option<Seq<char>>) -> JsonView {
    match t {
        Some(s) => JsonView::Text(s),
        None => JsonView::Null,
    }
}

impl Json {
    /// What the value says.
    pub open spec fn content(&self) -> JsonView
        decreases self,
    {
        match *self {
            Json::Null => JsonView::Null,
            Json::Bool(b) => JsonView::Bool(b),
            Json::Number(n) => JsonView::Number(n),
            Json::Text(s) => JsonView::Text(s@),
            Json::Array(items) => JsonView::Array(contents(items@)),
            Json::Object(o) => JsonView::Object(members(o.entries@)),
        }
    }
}

impl View for Json {
    type V = JsonView;

    open spec fn view(&self) -> JsonView {
        self.content()
    }
}

impl View for JsonObject {
    type V = Map<Seq<char>, JsonView>;

    open spec fn view(&self) -> Map<Seq<char>, JsonView> {
        members(self.entries@)
    }
}

/// The contents of a sequence of values, one by one.
pub proof fn contents_are_elementwise(items: Seq<Json>)
    ensures
        contents(items).len() == items.len(),
        forall|i: int| 0 <= i < items.len() ==> #[trigger] contents(items)[i] == items[i]@,
    decreases items.len(),
{
    if items.len() > 0 {
        contents_are_elementwise(items.drop_last());
        assert forall|i: int| 0 <= i < items.len() implies #[trigger] contents(items)[i]
            == items[i]@ by {
            if i < items.len() - 1 {
                assert(contents(items.drop_last())[i] == items.drop_last()[i]@);
            }
        }
    }
}

proof fn contents_push(items: Seq<Json>, last: Json)
    ensures
        contents(items.push(last)) == contents(items).push(last@),
{
    assert(items.push(last).drop_last() == items);
}

proof fn members_push(entries: Seq<(String, Json)>, key: String, value: Json)
    ensures
        members(entries.push((key, value))) == members(entries).insert(key@, value@),
{
    assert(entries.push((key, value)).drop_last() == entries);
}

/// Where a member stands, or that there is none of that name.
proof fn members_lookup(entries: Seq<(String, Json)>, key: Seq<char>, at: int)
    requires
        -1 <= at < entries.len(),
        forall|i: int| at < i < entries.len() ==> (#[trigger] entries[i]).0@ != key,
        at >= 0 ==> entries[at].0@ == key,
    ensures
        members(entries).contains_key(key) == (at >= 0),
        at >= 0 ==> members(entries)[key] == entries[at].1@,
    decreases entries.len(),
{
    if entries.len() > 0 && at < entries.len() - 1 {
        assert(entries[entries.len() - 1].0@ != key);
        members_lookup(entries.drop_last(), key, at);
    }
}

impl JsonObject {
    /// An object without members.
    pub fn new() -> (o: JsonObject)
        ensures
            o@ == Map::<Seq<char>, JsonView>::empty(),
    {
        JsonObject { entries: Vec::new() }
    }

    /// Gives the object the member `key`, in place of an earlier one of that name.
    pub fn put(&mut self, key: &str, value: Json)
        ensures
            final(self)@ == old(self)@.insert(key@, value@),
    {
        let name = key.to_owned();
        proof {
            members_push(self.entries@, name, value);
        }
        self.entries.push((name, value));
    }

    /// Gives the object the member `key` with a string in it.
    pub fn put_text(&mut self, key: &str, value: &str)
        ensures
            final(self)@ == old(self)@.insert(key@, JsonView::Text(value@)),
    {
        self.put(key, Json::Text(value.to_owned()));
    }

    /// Gives the object the member `key` with a string in it, or null.
    pub fn put_optional(&mut self, key: &str, value: Option<&str>)
        ensures
            final(self)@ == old(self)@.insert(key@, text_or_null(crate::text::text_of(value))),
    {
        match value {
            Some(t) => self.put_text(key, t),
            None => self.put(key, Json::Null),
        }
    }

    /// The member `key`.
    pub fn get(&self, key: &str) -> (r: Option<&Json>)
        ensures
            match r {
                Some(v) => self@.contains_key(key@) && self@[key@] == v@,
                None => !self@.contains_key(key@),
            },
    {
        let mut i: usize = self.entries.len();
        while i > 0
            invariant
                i <= self.entries@.len(),
                forall|j: int|
                    i <= j < self.entries@.len() ==> (#[trigger] self.entries@[j]).0@ != key@,
            decreases i,
        {
            i -= 1;
            if same(self.entries[i].0.as_str(), key) {
                proof {
                    members_lookup(self.entries@, key@, i as int);
                }
                return Some(&self.entries[i].1);
            }
        }
        proof {
            members_lookup(self.entries@, key@, -1);
        }
        None
    }
}

impl Json {
    /// The member `key` of an object.
    pub fn get(&self, key: &str) -> (r: Option<&Json>)
        ensures
            match r {
                Some(v) => self@.field(key@) == Some(v@),
                None => self@.field(key@) is None,
            },
    {
        match self {
            Json::Object(o) => o.get(key),
            _ => None,
        }
    }

    /// The part of a record.
    pub fn part(&self, key: &str, index: usize) -> (r: Option<&Json>)
        ensures
            match r {
                Some(v) => self@.part(key@, index as int) == Some(v@),
                None => self@.part(key@, index as int) is None,
            },
    {
        match self {
            Json::Array(items) => {
                proof {
                    contents_are_elementwise(items@);
                }
                if index < items.len() {
                    Some(&items[index])
                } else {
                    None
                }
            },
            _ => self.get(key),
        }
    }

    /// Whether the value is a record.
    pub fn is_record_of(&self, least: usize, most: usize) -> (r: bool)
        ensures
            r == self@.is_record(least as nat, most as nat),
    {
        match self {
            Json::Object(_) => true,
            Json::Array(items) => {
                proof {
                    contents_are_elementwise(items@);
                }
                least <= items.len() && items.len() <= most
            },
            _ => false,
        }
    }

    /// The text of a string.
    pub fn as_text(&self) -> (r: Option<&str>)
        ensures
            crate::text::text_of(r) == self@.text(),
    {
        match self {
            Json::Text(s) => Some(s.as_str()),
            _ => None,
        }
    }

    /// The text of the member `key`, where it is a string.
    pub fn text_at(&self, key: &str) -> (r: Option<&str>)
        ensures
            crate::text::text_of(r) == self@.text_field(key@),
    {
        match self.get(key) {
            Some(v) => v.as_text(),
            None => None,
        }
    }

    /// What the value says when it is read as a flag.
    pub fn as_flag(&self) -> (r: bool)
        ensures
            r == self@.flag(),
    {
        match self {
            Json::Bool(b) => *b,
            _ => crate::text::is_some_text(self.as_text(), "true"),
        }
    }

    /// The flag that the member `key` is.
    pub fn flag_at(&self, key: &str) -> (r: Option<bool>)
        ensures
            r == self@.flag_field(key@),
    {
        match self.get(key) {
            Some(v) => Some(v.as_flag()),
            None => None,
        }
    }

    /// The number that the value is read as.
    pub fn as_integer(&self) -> (r: Option<i64>)
        ensures
            r == self@.integer(),
    {
        match self {
            Json::Number(n) => match number_as_i64(n) {
                Some(i) => Some(i),
                None => number_as_truncated(n),
            },
            _ => None,
        }
    }

    /// The whole number that the value is.
    pub fn as_whole(&self) -> (r: Option<i64>)
        ensures
            r == self@.whole(),
    {
        match self {
            Json::Number(n) => number_as_i64(n),
            _ => None,
        }
    }

    /// The number that the member `key` is read as.
    pub fn integer_at(&self, key: &str) -> (r: Option<i64>)
        ensures
            r == self@.integer_field(key@),
    {
        match self.get(key) {
            Some(v) => v.as_integer(),
            None => None,
        }
    }

    /// The value of a whole number.
    pub fn integer(n: i64) -> (r: Json)
        ensures
            r@ == JsonView::Number(number_of_i64(n)),
            whole_number(number_of_i64(n)) == Some(n),
    {
        Json::Number(number_from_i64(n))
    }

    /// The value of a count.
    pub fn count(n: u64) -> (r: Json)
        ensures
            r@ == JsonView::Number(number_of_u64(n)),
            n <= i64::MAX ==> whole_number(number_of_u64(n)) == Some(n as i64),
    {
        Json::Number(number_from_u64(n))
    }

    /// The value of a string.
    pub fn string(s: &str) -> (r: Json)
        ensures
            r@ == JsonView::Text(s@),
    {
        Json::Text(s.to_owned())
    }

    /// A value that says the same.
    pub fn copy(&self) -> (r: Json)
        ensures
            r@ == self@,
        decreases self,
    {
        match self {
            Json::Null => Json::Null,
            Json::Bool(b) => Json::Bool(*b),
            Json::Number(n) => Json::Number(copy_number(n)),
            Json::Text(s) => Json::Text(s.clone()),
            Json::Array(items) => {
                let mut out: Vec<Json> = Vec::new();
                let mut i: usize = 0;
                while i < items.len()
                    invariant
                        *self == Json::Array(*items),
                        i <= items@.len(),
                        contents(out@) == contents(items@.take(i as int)),
                    decreases items@.len() - i,
                {
                    proof {
                        assert(decreases_to!(self => self->Array_0));
                        assert(decreases_to!(*items => items@));
                        assert(decreases_to!(items@ => items@[i as int]));
                    }
                    let item = items[i].copy();
                    proof {
                        contents_push(out@, item);
                        assert(items@.take(i + 1).drop_last() == items@.take(i as int));
                    }
                    out.push(item);
                    i += 1;
                }
                proof {
                    assert(items@.take(i as int) == items@);
                }
                Json::Array(out)
            },
            Json::Object(o) => {
                let mut out = JsonObject::new();
                let mut i: usize = 0;
                while i < o.entries.len()
                    invariant
                        *self == Json::Object(*o),
                        i <= o.entries@.len(),
                        out@ == members(o.entries@.take(i as int)),
                    decreases o.entries@.len() - i,
                {
                    proof {
                        assert(decreases_to!(self => self->Object_0));
                        assert(decreases_to!(*o => o.entries));
                        assert(decreases_to!(o.entries => o.entries@));
                        assert(decreases_to!(o.entries@ => o.entries@[i as int]));
                        assert(decreases_to!(o.entries@[i as int] => o.entries@[i as int].1));
                    }
                    let value = o.entries[i].1.copy();
                    proof {
                        assert(o.entries@.take(i + 1).drop_last() == o.entries@.take(i as int));
                    }
                    out.put(o.entries[i].0.as_str(), value);
                    i += 1;
                }
                proof {
                    assert(o.entries@.take(i as int) == o.entries@);
                }
                Json::Object(out)
            },
        }
    }
}

/// A value that is plain at some depth is so where there is more room.
pub proof fn plain_with_room(value: JsonView, depth: nat, more: nat)
    requires
        value.plain(depth),
        depth <= more,
    ensures
        value.plain(more),
    decreases depth,
{
    match value {
        JsonView::Array(items) => {
            assert forall|i: int| 0 <= i < items.len() implies (#[trigger] items[i]).plain(
                (more - 1) as nat,
            ) by {
                plain_with_room(items[i], (depth - 1) as nat, (more - 1) as nat);
            }
        },
        JsonView::Object(m) => {
            assert forall|k: Seq<char>| m.contains_key(k) implies (#[trigger] m[k]).plain(
                (more - 1) as nat,
            ) by {
                plain_with_room(m[k], (depth - 1) as nat, (more - 1) as nat);
            }
        },
        _ => {},
    }
}

/// The empty object.
pub fn empty_object() -> (r: Json)
    ensures
        r@ == JsonView::Object(Map::empty()),
{
    Json::Object(JsonObject::new())
}

// ---------------------------------------------------------------------------
// Numbers
// ---------------------------------------------------------------------------

/// A number as `serde_json` holds it: a whole number of 64 bits with or without a
/// sign, or a floating-point number.
#[verifier::external_type_specification]
#[verifier::external_body]
pub struct ExNumber(serde_json::Number);

/// What `serde_json::Number::as_i64` returns.
pub uninterp spec fn whole_number(n: serde_json::Number) -> Option<i64>;

/// What `serde_json::Number::as_f64` returns, cast to a whole number of 64 bits.
pub uninterp spec fn truncated_number(n: serde_json::Number) -> Option<i64>;

/// What `serde_json::Number::from` makes of a whole number with a sign.
pub uninterp spec fn number_of_i64(n: i64) -> serde_json::Number;

/// What `serde_json::Number::from` makes of a whole number without a sign.
pub uninterp spec fn number_of_u64(n: u64) -> serde_json::Number;

/// `serde_json::Number::as_i64`: the number, where it is a whole one of that range.
#[verifier::external_body]
fn number_as_i64(n: &serde_json::Number) -> (r: Option<i64>)
    ensures
        r == whole_number(*n),
{
    n.as_i64()
}

/// `serde_json::Number::as_f64`, cast to a whole number: what stands before the
/// decimal point, or the end of the range where that lies beyond it.
#[verifier::external_body]
fn number_as_truncated(n: &serde_json::Number) -> (r: Option<i64>)
    ensures
        r == truncated_number(*n),
{
    n.as_f64().map(|f| f as i64)
}

/// `serde_json::Number::from` on an `i64`: a number that `as_i64` reads back.
#[verifier::external_body]
fn number_from_i64(n: i64) -> (r: serde_json::Number)
    ensures
        r == number_of_i64(n),
        whole_number(r) == Some(n),
{
    serde_json::Number::from(n)
}

/// `serde_json::Number::from` on a `u64`: a number that `as_i64` reads back
/// where it fits.
#[verifier::external_body]
fn number_from_u64(n: u64) -> (r: serde_json::Number)
    ensures
        r == number_of_u64(n),
        n <= i64::MAX ==> whole_number(r) == Some(n as i64),
        n > i64::MAX ==> whole_number(r) is None,
{
    serde_json::Number::from(n)
}

/// `serde_json::Number::clone`: the same number.
#[verifier::external_body]
fn copy_number(n: &serde_json::Number) -> (r: serde_json::Number)
    ensures
        r == *n,
{
    n.clone()
}

// ---------------------------------------------------------------------------
// Text
// ---------------------------------------------------------------------------

/// A document as `serde_json` holds it.
#[verifier::external_type_specification]
#[verifier::external_body]
pub struct ExValue(serde_json::Value);

/// What a `serde_json::Value` holds.
pub uninterp spec fn held(value: serde_json::Value) -> JsonView;

/// What `serde_json::from_str` reads in a text, where it reads it.
pub uninterp spec fn parsed(text: Seq<char>) -> Option<JsonView>;

/// What `serde_json::to_string` writes.
pub uninterp spec fn compact(value: JsonView) -> Seq<char>;

/// What `serde_json::to_string_pretty` writes.
pub uninterp spec fn pretty(value: JsonView) -> Seq<char>;

/// The deepest nesting that `serde_json::from_str` reads.
pub const MAX_DEPTH: u8 = 127;

/// The variants of `serde_json::Value`, one for one: the value holds what the
/// result says.
#[verifier::external_body]
fn json_of(value: serde_json::Value) -> (r: Json)
    ensures
        r@ == held(value),
{
    match value {
        serde_json::Value::Null => Json::Null,
        serde_json::Value::Bool(b) => Json::Bool(b),
        serde_json::Value::Number(n) => Json::Number(n),
        serde_json::Value::String(s) => Json::Text(s),
        serde_json::Value::Array(items) => Json::Array(items.into_iter().map(json_of).collect()),
        serde_json::Value::Object(m) => {
            let entries = m.into_iter().map(|(k, v)| (k, json_of(v))).collect();
            Json::Object(JsonObject { entries })
        },
    }
}

/// The variants of `serde_json::Value`, one for one: the result holds what the
/// value says. Members are put into an object by `serde_json::Map::insert`, in their order, so
/// that of two with one name the later one replaces the earlier.
#[verifier::external_body]
fn value_of(json: &Json) -> (r: serde_json::Value)
    ensures
        held(r) == json@,
{
    match json {
        Json::Null => serde_json::Value::Null,
        Json::Bool(b) => serde_json::Value::Bool(*b),
        Json::Number(n) => serde_json::Value::Number(n.clone()),
        Json::Text(s) => serde_json::Value::String(s.clone()),
        Json::Array(items) => serde_json::Value::Array(items.iter().map(value_of).collect()),
        Json::Object(o) => {
            let mut members = serde_json::Map::new();
            for (k, v) in &o.entries {
                members.insert(k.clone(), value_of(v));
            }
            serde_json::Value::Object(members)
        },
    }
}

/// `serde_json::from_str` into a `Value`: what it reads depends on the text alone.
#[verifier::external_body]
fn value_from_text(text: &str) -> (r: Option<serde_json::Value>)
    ensures
        match r {
            Some(v) => parsed(text@) == Some(held(v)),
            None => parsed(text@) is None,
        },
{
    serde_json::from_str(text).ok()
}

/// `serde_json::to_string` of a `Value`, which has string keys and so never fails.
/// What it writes depends on what the value holds alone, and a plain value is
/// read back from it. `serde_json` is built without the features by which it reads objects
/// with certain keys as something else (`raw_value`, `arbitrary_precision`).
#[verifier::external_body]
fn text_from_value(value: &serde_json::Value) -> (r: String)
    ensures
        r@ == compact(held(*value)),
        held(*value).plain(MAX_DEPTH as nat) ==> parsed(r@) == Some(held(*value)),
{
    serde_json::to_string(value).expect("a JSON value is always written")
}

/// `serde_json::to_string_pretty` of a `Value`, which has string keys and so never
/// fails. What it writes depends on what the value holds alone, and a plain value
/// is read back from it, as with `serde_json::to_string`.
#[verifier::external_body]
fn pretty_text_from_value(value: &serde_json::Value) -> (r: String)
    ensures
        r@ == pretty(held(*value)),
        held(*value).plain(MAX_DEPTH as nat) ==> parsed(r@) == Some(held(*value)),
{
    serde_json::to_string_pretty(value).expect("a JSON value is always written")
}

/// Reads a JSON text.
pub fn parse_json(text: &str) -> (r: Option<Json>)
    ensures
        match r {
            Some(v) => parsed(text@) == Some(v@),
            None => parsed(text@) is None,
        },
{
    match value_from_text(text) {
        Some(v) => Some(json_of(v)),
        None => None,
    }
}

impl Json {
    /// The value as a JSON text on one line.
    pub fn to_text(&self) -> (r: String)
        ensures
            r@ == compact(self@),
            self@.plain(MAX_DEPTH as nat) ==> parsed(r@) == Some(self@),
    {
        text_from_value(&value_of(self))
    }

    /// The value as a JSON text with line breaks and indentation.
    pub fn to_pretty_text(&self) -> (r: String)
        ensures
            r@ == pretty(self@),
            self@.plain(MAX_DEPTH as nat) ==> parsed(r@) == Some(self@),
    {
        pretty_text_from_value(&value_of(self))
    }
}

// ---------------------------------------------------------------------------
// Laws
// ---------------------------------------------------------------------------

/// An object has just the members that were put into it, and each is read as what it is: a string
/// as a text, a boolean or the string `true` as a flag, a number as a number. A member of another
/// kind is no text and no number, and as a flag it says no. A value that is no object has none.
pub proof fn members_are_read_as_they_stand(
    m: Map<Seq<char>, JsonView>,
    key: Seq<char>,
    value: JsonView,
    index: int,
)
    ensures
        ({
            let o = JsonView::Object(m);
            &&& !m.contains_key(key) ==> o.field(key) is None && o.part(key, index) is None
                && o.text_field(key) is None && o.flag_field(key) is None && o.integer_field(
                key,
            ) is None
            &&& m.contains_key(key) ==> o.field(key) == Some(m[key]) && o.part(key, index) == Some(
                m[key],
            )
            &&& m.contains_key(key) && m[key] == value ==> {
                &&& o.text_field(key) == match value {
                    JsonView::Text(t) => Some(t),
                    _ => None,
                }
                &&& o.text_part(key, index) == o.text_field(key)
                &&& o.flag_field(key) == Some(
                    value == JsonView::Bool(true) || value == JsonView::Text("true"@),
                )
                &&& value is Number ==> o.integer_field(key) == match whole_number(
                    value->Number_0,
                ) {
                    Some(n) => Some(n),
                    None => truncated_number(value->Number_0),
                }
                &&& !(value is Number) ==> o.integer_field(key) is None
            }
            &&& o.is_record(0, 0)
        }),
        !(value is Object) ==> value.field(key) is None && value.text_field(key) is None
            && value.flag_field(key) is None && value.integer_field(key) is None,
        !(value is Object) && !(value is Array) ==> value.part(key, index) is None
            && !value.is_record(0, u64::MAX as nat),
{
}

/// Of an array that lists the parts of a record, each part is the element at its place, and the
/// array is a record just where it has neither too few elements nor too many.
pub proof fn parts_are_read_in_their_order(
    items: Seq<JsonView>,
    key: Seq<char>,
    index: int,
    least: nat,
    most: nat,
)
    ensures
        0 <= index < items.len() ==> JsonView::Array(items).part(key, index) == Some(items[index]),
        !(0 <= index < items.len()) ==> JsonView::Array(items).part(key, index) is None,
        JsonView::Array(items).is_record(least, most) <==> least <= items.len() && items.len()
            <= most,
{
}

} // verus!
