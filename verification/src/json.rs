//! A plain model of JSON documents, read with `serde_json`.

use vstd::prelude::*;
use crate::text::same_text;

verus! {

/// A JSON value. A number is held as the text that `serde_json` prints for
/// it; the members of an object are held in the order in which
/// `serde_json` walks them, each key once.
#[derive(Debug)]
pub enum Json {
    Null,
    Bool(bool),
    Number(String),
    Text(String),
    Array(Vec<Json>),
    Object(Vec<(String, Json)>),
}

/// A JSON value as `serde_json` holds it, before it is turned into the
/// model.
#[verifier::external_type_specification]
#[verifier::external_body]
pub struct ExJsonValue(serde_json::Value);

/// The JSON document that `text` is, as `serde_json::from_str` reads it;
/// nothing where `text` is no JSON document.
pub uninterp spec fn json_document(text: Seq<char>) -> Option<Json>;

/// Turns a `serde_json::Value` into the model, variant by variant; a number
/// by `Number::to_string`.
#[verifier::external_body]
fn json_from_value(value: serde_json::Value) -> (r: Json) {
    match value {
        serde_json::Value::Null => Json::Null,
        serde_json::Value::Bool(b) => Json::Bool(b),
        serde_json::Value::Number(n) => Json::Number(n.to_string()),
        serde_json::Value::String(s) => Json::Text(s),
        serde_json::Value::Array(items) => Json::Array(
            items.into_iter().map(json_from_value).collect(),
        ),
        serde_json::Value::Object(members) => Json::Object(
            members.into_iter().map(|(k, v)| (k, json_from_value(v))).collect(),
        ),
    }
}

/// Calls `serde_json::from_str` for a `Value`, and `to_string` on the
/// error. The contract claims only that the outcome is a function of the
/// text; of the message it claims nothing.
#[verifier::external_body]
fn parse_value(text: &str) -> (r: Result<Json, String>)
    ensures
        match r {
            Ok(json) => json_document(text@) == Some(json),
            Err(_) => json_document(text@) is None,
        },
{
    match serde_json::from_str::<serde_json::Value>(text) {
        Ok(value) => Ok(json_from_value(value)),
        Err(e) => Err(e.to_string()),
    }
}

/// The position of the first member named `key`, from `from` on.
pub open spec fn member_index(
    members: Seq<(String, Json)>,
    key: Seq<char>,
    from: int,
) -> Option<int>
    decreases members.len() - from,
{
    if from < 0 || from >= members.len() {
        None
    } else if members[from].0@ == key {
        Some(from)
    } else {
        member_index(members, key, from + 1)
    }
}

impl Json {
    /// Reads a JSON document; the parser's message where `text` is none.
    pub fn parse(text: &str) -> (r: Result<Json, String>)
        ensures
            match r {
                Ok(json) => json_document(text@) == Some(json),
                Err(_) => json_document(text@) is None,
            },
    {
        parse_value(text)
    }

    /// The member `key` of an object; nothing for any other value.
    pub open spec fn member(self, key: Seq<char>) -> Option<Json> {
        match self {
            Json::Object(members) => match member_index(members@, key, 0) {
                Some(i) => Some(members@[i].1),
                None => None,
            },
            _ => None,
        }
    }

    /// The item at position `i` of an array; nothing for any other value.
    pub open spec fn item(self, i: int) -> Option<Json> {
        match self {
            Json::Array(items) => if 0 <= i < items@.len() {
                Some(items@[i])
            } else {
                None
            },
            _ => None,
        }
    }

    /// The items of an array; nothing for any other value.
    pub open spec fn items(self) -> Option<Seq<Json>> {
        match self {
            Json::Array(items) => Some(items@),
            _ => None,
        }
    }

    /// The characters of a string value; nothing for any other value.
    pub open spec fn text(self) -> Option<Seq<char>> {
        match self {
            Json::Text(s) => Some(s@),
            _ => None,
        }
    }

    /// The text of a number; nothing for any other value.
    pub open spec fn number(self) -> Option<Seq<char>> {
        match self {
            Json::Number(s) => Some(s@),
            _ => None,
        }
    }

    /// The member `key` of an object.
    pub fn get(&self, key: &str) -> (r: Option<&Json>)
        ensures
            match r {
                Some(found) => self.member(key@) == Some(*found),
                None => self.member(key@) is None,
            },
    {
        match self {
            Json::Object(members) => {
                let mut i: usize = 0;
                while i < members.len()
                    invariant
                        i <= members.len(),
                        *self == Json::Object(*members),
                        member_index(members@, key@, 0) == member_index(members@, key@, i as int),
                    decreases members.len() - i,
                {
                    if same_text(members[i].0.as_str(), key) {
                        return Some(&members[i].1);
                    }
                    i += 1;
                }
                None
            },
            _ => None,
        }
    }

    /// The item at position `i` of an array.
    pub fn at(&self, i: usize) -> (r: Option<&Json>)
        ensures
            match r {
                Some(found) => self.item(i as int) == Some(*found),
                None => self.item(i as int) is None,
            },
    {
        match self {
            Json::Array(items) => if i < items.len() {
                Some(&items[i])
            } else {
                None
            },
            _ => None,
        }
    }

    /// The items of an array.
    pub fn as_array(&self) -> (r: Option<&Vec<Json>>)
        ensures
            match r {
                Some(found) => self.items() == Some(found@),
                None => self.items() is None,
            },
    {
        match self {
            Json::Array(items) => Some(items),
            _ => None,
        }
    }

    /// The characters of a string value.
    pub fn as_text(&self) -> (r: Option<&String>)
        ensures
            match r {
                Some(found) => self.text() == Some(found@),
                None => self.text() is None,
            },
    {
        match self {
            Json::Text(s) => Some(s),
            _ => None,
        }
    }

    /// The text of a number.
    pub fn as_number(&self) -> (r: Option<&String>)
        ensures
            match r {
                Some(found) => self.number() == Some(found@),
                None => self.number() is None,
            },
    {
        match self {
            Json::Number(s) => Some(s),
            _ => None,
        }
    }
}

/// The value reached from `json` by taking, in turn, the array items at
/// the positions of `steps`; nothing where a step leaves the document.
pub open spec fn path(json: Json, steps: Seq<usize>) -> Option<Json>
    decreases steps.len(),
{
    if steps.len() == 0 {
        Some(json)
    } else {
        match json.item(steps[0] as int) {
            Some(next) => path(next, steps.drop_first()),
            None => None,
        }
    }
}

/// The string reached from `json` by `steps`.
pub open spec fn text_at(json: Json, steps: Seq<usize>) -> Option<Seq<char>> {
    match path(json, steps) {
        Some(found) => found.text(),
        None => None,
    }
}

/// The number, as text, reached from `json` by `steps`.
pub open spec fn number_at(json: Json, steps: Seq<usize>) -> Option<Seq<char>> {
    match path(json, steps) {
        Some(found) => found.number(),
        None => None,
    }
}

/// Follows `steps` through nested arrays.
pub fn descend<'a>(json: &'a Json, steps: &Vec<usize>) -> (r: Option<&'a Json>)
    ensures
        match r {
            Some(found) => path(*json, steps@) == Some(*found),
            None => path(*json, steps@) is None,
        },
{
    let mut current: &Json = json;
    let mut i: usize = 0;
    assert(steps@.skip(0) =~= steps@);
    while i < steps.len()
        invariant
            i <= steps.len(),
            path(*json, steps@) == path(*current, steps@.skip(i as int)),
        decreases steps.len() - i,
    {
        proof {
            assert(steps@.skip(i as int).drop_first() =~= steps@.skip(i + 1));
        }
        match current.at(steps[i]) {
            Some(next) => {
                current = next;
            },
            None => {
                return None;
            },
        }
        i += 1;
    }
    Some(current)
}

/// The string reached from `json` by `steps`.
pub fn string_at(json: &Json, steps: &Vec<usize>) -> (r: Option<String>)
    ensures
        crate::types::opt_text(r) == text_at(*json, steps@),
{
    match descend(json, steps) {
        Some(found) => match found.as_text() {
            Some(s) => Some(s.clone()),
            None => None,
        },
        None => None,
    }
}

/// The string member `key` of the object `json`.
pub open spec fn text_member(json: Json, key: Seq<char>) -> Option<Seq<char>> {
    match json.member(key) {
        Some(found) => found.text(),
        None => None,
    }
}

/// The string member `key` of the object `json`.
pub fn string_member(json: &Json, key: &str) -> (r: Option<String>)
    ensures
        crate::types::opt_text(r) == text_member(*json, key@),
{
    match json.get(key) {
        Some(found) => match found.as_text() {
            Some(s) => Some(s.clone()),
            None => None,
        },
        None => None,
    }
}

/// The path of one step.
pub fn steps1(a: usize) -> (r: Vec<usize>)
    ensures
        r@ == seq![a],
{
    let mut r: Vec<usize> = Vec::new();
    r.push(a);
    r
}

/// The path of two steps.
pub fn steps2(a: usize, b: usize) -> (r: Vec<usize>)
    ensures
        r@ == seq![a, b],
{
    let mut r: Vec<usize> = Vec::new();
    r.push(a);
    r.push(b);
    r
}

/// The path of three steps.
pub fn steps3(a: usize, b: usize, c: usize) -> (r: Vec<usize>)
    ensures
        r@ == seq![a, b, c],
{
    let mut r: Vec<usize> = Vec::new();
    r.push(a);
    r.push(b);
    r.push(c);
    r
}

/// The path of six steps.
pub fn steps6(a: usize, b: usize, c: usize, d: usize, e: usize, f: usize) -> (r: Vec<usize>)
    ensures
        r@ == seq![a, b, c, d, e, f],
{
    let mut r: Vec<usize> = Vec::new();
    r.push(a);
    r.push(b);
    r.push(c);
    r.push(d);
    r.push(e);
    r.push(f);
    r
}

/// The member `key` of `obj` is absent or null.
pub open spec fn is_missing(obj: Json, key: Seq<char>) -> bool {
    match obj.member(key) {
        None => true,
        Some(Json::Null) => true,
        _ => false,
    }
}

/// The member `key` of `obj` can be read as an optional string: it is
/// absent, null or a string.
pub open spec fn optional_text_fits(obj: Json, key: Seq<char>) -> bool {
    is_missing(obj, key) || text_member(obj, key) is Some
}

/// Reads the member `key` of `obj` as an optional string; nothing where
/// it is there and is neither null nor a string.
pub fn optional_string(obj: &Json, key: &str) -> (r: Option<Option<String>>)
    ensures
        r is Some <==> optional_text_fits(*obj, key@),
        r is Some ==> crate::types::opt_text(r->Some_0) == text_member(*obj, key@),
{
    match obj.get(key) {
        None => Some(None),
        Some(found) => match found {
            Json::Null => Some(None),
            Json::Text(s) => Some(Some(s.clone())),
            _ => None,
        },
    }
}

/// The member `key` of `obj`, read as an `i32`.
pub open spec fn i32_member(obj: Json, key: Seq<char>) -> Option<i32> {
    match obj.member(key) {
        Some(Json::Number(text)) => crate::numeric::parsed_i32(text@),
        _ => None,
    }
}

/// Reads the member `key` of `obj` as an `i32`.
pub fn int_member(obj: &Json, key: &str) -> (r: Option<i32>)
    ensures
        r == i32_member(*obj, key@),
{
    match obj.get(key) {
        Some(found) => match found {
            Json::Number(text) => crate::numeric::parse_i32(&crate::text::chars_of(text.as_str())),
            _ => None,
        },
        None => None,
    }
}

/// The strings that `items` are; nothing where one of them is no string.
pub open spec fn texts_of(items: Seq<Json>) -> Option<Seq<Seq<char>>>
    decreases items.len(),
{
    if items.len() == 0 {
        Some(Seq::empty())
    } else {
        match (texts_of(items.drop_last()), items.last().text()) {
            (Some(head), Some(last)) => Some(head.push(last)),
            _ => None,
        }
    }
}

/// Reads a list of strings.
pub fn strings_of(items: &Vec<Json>) -> (r: Option<Vec<String>>)
    ensures
        match r {
            Some(found) => texts_of(items@) == Some(crate::types::texts(found)),
            None => texts_of(items@) is None,
        },
{
    let mut out: Vec<String> = Vec::new();
    let mut i: usize = 0;
    while i < items.len()
        invariant
            i <= items.len(),
            texts_of(items@.take(i as int)) == Some(crate::types::texts(out)),
        decreases items.len() - i,
    {
        proof {
            assert(items@.take(i + 1).drop_last() =~= items@.take(i as int));
        }
        match items[i].as_text() {
            Some(s) => {
                crate::types::push_text(&mut out, s.clone());
            },
            None => {
                proof {
                    lemma_texts_of_prefix(items@, i + 1);
                }
                return None;
            },
        }
        i += 1;
    }
    assert(items@.take(items.len() as int) =~= items@);
    Some(out)
}

/// Where a beginning of a list holds something that is no string, so does
/// the list.
pub proof fn lemma_texts_of_prefix(items: Seq<Json>, k: int)
    requires
        0 <= k <= items.len(),
        texts_of(items.take(k)) is None,
    ensures
        texts_of(items) is None,
    decreases items.len() - k,
{
    if k < items.len() {
        assert(items.take(k + 1).drop_last() =~= items.take(k));
        lemma_texts_of_prefix(items, k + 1);
    } else {
        assert(items.take(k) =~= items);
    }
}

/// The member `key` of `obj`, read as an optional list of strings: the
/// outer `Option` says whether it can be read so.
pub open spec fn optional_texts(obj: Json, key: Seq<char>) -> Option<Option<Seq<Seq<char>>>> {
    match obj.member(key) {
        None => Some(None),
        Some(Json::Null) => Some(None),
        Some(Json::Array(items)) => match texts_of(items@) {
            Some(found) => Some(Some(found)),
            None => None,
        },
        _ => None,
    }
}

/// The views of an optional list of strings.
pub open spec fn opt_texts(o: Option<Vec<String>>) -> Option<Seq<Seq<char>>> {
    match o {
        Some(v) => Some(crate::types::texts(v)),
        None => None,
    }
}

/// Reads the member `key` of `obj` as an optional list of strings.
pub fn optional_strings(obj: &Json, key: &str) -> (r: Option<Option<Vec<String>>>)
    ensures
        match r {
            Some(found) => optional_texts(*obj, key@) == Some(opt_texts(found)),
            None => optional_texts(*obj, key@) is None,
        },
{
    match obj.get(key) {
        None => Some(None),
        Some(found) => match found {
            Json::Null => Some(None),
            Json::Array(items) => match strings_of(items) {
                Some(list) => Some(Some(list)),
                None => None,
            },
            _ => None,
        },
    }
}

} // verus!
