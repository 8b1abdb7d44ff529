//! A JSON document as the library reads and builds it.
use vstd::prelude::*;

verus! {

/// The mathematical value of a JSON document.
pub enum Json {
    Null,
    Bool(bool),
    Number(Seq<char>),
    Str(Seq<char>),
    Array(Seq<Json>),
    Object(Seq<(Seq<char>, Json)>),
}

/// A JSON document. A number keeps its decimal text; an object keeps its
/// members in order.
pub enum JsonValue {
    Null,
    Bool(bool),
    Number(String),
    Str(String),
    Array(Vec<JsonValue>),
    Object(Vec<(String, JsonValue)>),
}

impl View for JsonValue {
    type V = Json;

    open spec fn view(&self) -> Json
        decreases self,
    {
        match self {
            JsonValue::Null => Json::Null,
            JsonValue::Bool(b) => Json::Bool(*b),
            JsonValue::Number(n) => Json::Number(n@),
            JsonValue::Str(s) => Json::Str(s@),
            JsonValue::Array(a) => Json::Array(views(a@)),
            JsonValue::Object(e) => Json::Object(member_views(e@)),
        }
    }
}

/// The values of a sequence of documents.
pub open spec fn views(s: Seq<JsonValue>) -> Seq<Json>
    decreases s,
{
    if s.len() == 0 {
        Seq::empty()
    } else {
        seq![s[0].view()] + views(s.subrange(1, s.len() as int))
    }
}

/// The values of a sequence of object members.
pub open spec fn member_views(s: Seq<(String, JsonValue)>) -> Seq<(Seq<char>, Json)>
    decreases s,
{
    if s.len() == 0 {
        Seq::empty()
    } else {
        seq![(s[0].0@, s[0].1.view())] + member_views(s.subrange(1, s.len() as int))
    }
}

/// The value of the first member named `key`, if any.
pub open spec fn lookup(members: Seq<(Seq<char>, Json)>, key: Seq<char>) -> Option<Json>
    decreases members.len(),
{
    if members.len() == 0 {
        None
    } else if members[0].0 == key {
        Some(members[0].1)
    } else {
        lookup(members.drop_first(), key)
    }
}

/// Looking a key up in members that start with one given member.
pub(crate) proof fn lemma_lookup_front(k: Seq<char>, v: Json, rest: Seq<(Seq<char>, Json)>, key: Seq<char>)
    ensures
        lookup(seq![(k, v)] + rest, key) == if k == key {
            Some(v)
        } else {
            lookup(rest, key)
        },
{
    let m = seq![(k, v)] + rest;
    assert(m[0] == (k, v));
    assert(m.drop_first() =~= rest);
}

/// A key that is found is the key of one of the members.
pub(crate) proof fn lemma_lookup_found(m: Seq<(Seq<char>, Json)>, key: Seq<char>)
    ensures
        lookup(m, key) is Some ==> exists|j: int| 0 <= j < m.len() && m[j].0 == key,
    decreases m.len(),
{
    if m.len() > 0 && m[0].0 != key {
        lemma_lookup_found(m.drop_first(), key);
        if lookup(m, key) is Some {
            let j = choose|j: int| 0 <= j < m.drop_first().len() && m.drop_first()[j].0 == key;
            assert(m[j + 1].0 == key);
        }
    }
}

impl Json {
    /// The member `key` of an object (`Value::get` with a key).
    pub open spec fn get(self, key: Seq<char>) -> Option<Json> {
        match self {
            Json::Object(m) => lookup(m, key),
            _ => None,
        }
    }

    /// The element `i` of an array (`Value::get` with an index).
    pub open spec fn at(self, i: int) -> Option<Json> {
        match self {
            Json::Array(a) => if 0 <= i < a.len() {
                Some(a[i])
            } else {
                None
            },
            _ => None,
        }
    }

    /// `value[key]`: the member, or null where there is none.
    pub open spec fn field(self, key: Seq<char>) -> Json {
        match self.get(key) {
            Some(v) => v,
            None => Json::Null,
        }
    }

    /// `value[i]`: the element, or null where there is none.
    pub open spec fn item(self, i: int) -> Json {
        match self.at(i) {
            Some(v) => v,
            None => Json::Null,
        }
    }

    /// The text of a string (`Value::as_str`).
    pub open spec fn text(self) -> Option<Seq<char>> {
        match self {
            Json::Str(s) => Some(s),
            _ => None,
        }
    }
}

pub proof fn lemma_member_views_push(s: Seq<(String, JsonValue)>, x: (String, JsonValue))
    ensures
        member_views(s.push(x)) == member_views(s).push((x.0@, x.1@)),
{
    lemma_member_views(s);
    lemma_member_views(s.push(x));
    assert(member_views(s.push(x)) =~= member_views(s).push((x.0@, x.1@)));
}

pub proof fn lemma_views_push(s: Seq<JsonValue>, x: JsonValue)
    ensures
        views(s.push(x)) == views(s).push(x@),
{
    lemma_views(s);
    lemma_views(s.push(x));
    assert(views(s.push(x)) =~= views(s).push(x@));
}

/// Adds the member `key: value` at the end of an object's members.
pub fn push_member(members: &mut Vec<(String, JsonValue)>, key: &str, value: JsonValue)
    ensures
        member_views(final(members)@) == member_views(old(members)@).push((key@, value@)),
{
    let k = key.to_owned();
    proof {
        lemma_member_views_push(members@, (k, value));
    }
    members.push((k, value));
}

/// Adds `value` at the end of an array's elements.
pub fn push_item(items: &mut Vec<JsonValue>, value: JsonValue)
    ensures
        views(final(items)@) == views(old(items)@).push(value@),
{
    proof {
        lemma_views_push(items@, value);
    }
    items.push(value);
}

/// A JSON string holding `s`.
pub fn json_text(s: &str) -> (res: JsonValue)
    ensures
        res@ == Json::Str(s@),
{
    JsonValue::Str(s.to_owned())
}

pub proof fn lemma_views(s: Seq<JsonValue>)
    ensures
        views(s).len() == s.len(),
        forall|j: int| 0 <= j < s.len() ==> #[trigger] views(s)[j] == s[j]@,
    decreases s.len(),
{
    if s.len() > 0 {
        let rest = s.subrange(1, s.len() as int);
        lemma_views(rest);
        assert(views(s) == seq![s[0]@] + views(rest));
        assert forall|j: int| 0 <= j < s.len() implies #[trigger] views(s)[j] == s[j]@ by {
            if j > 0 {
                assert(rest[j - 1] == s[j]);
            }
        }
    }
}

pub proof fn lemma_member_views(s: Seq<(String, JsonValue)>)
    ensures
        member_views(s).len() == s.len(),
        forall|j: int|
            0 <= j < s.len() ==> #[trigger] member_views(s)[j] == (s[j].0@, s[j].1@),
    decreases s.len(),
{
    if s.len() > 0 {
        let rest = s.subrange(1, s.len() as int);
        lemma_member_views(rest);
        assert(member_views(s) == seq![(s[0].0@, s[0].1@)] + member_views(rest));
        assert forall|j: int| 0 <= j < s.len() implies #[trigger] member_views(s)[j] == (
            s[j].0@,
            s[j].1@,
        ) by {
            if j > 0 {
                assert(rest[j - 1] == s[j]);
            }
        }
    }
}

impl JsonValue {
    /// The member `key` of an object.
    #[verifier::loop_isolation(false)]
    pub fn get(&self, key: &str) -> (res: Option<&JsonValue>)
        ensures
            match res {
                Some(v) => self@.get(key@) == Some(v@),
                None => self@.get(key@) is None,
            },
    {
        match self {
            JsonValue::Object(e) => {
                proof {
                    lemma_member_views(e@);
                    assert(member_views(e@).skip(0) =~= member_views(e@));
                }
                let mut i: usize = 0;
                while i < e.len()
                    invariant
                        i <= e.len(),
                        member_views(e@).len() == e.len(),
                        forall|j: int|
                            0 <= j < e.len() ==> #[trigger] member_views(e@)[j] == (
                                e@[j].0@,
                                e@[j].1@,
                            ),
                        lookup(member_views(e@), key@) == lookup(
                            member_views(e@).skip(i as int),
                            key@,
                        ),
                    decreases e.len() - i,
                {
                    if crate::text::same_text(e[i].0.as_str(), key) {
                        assert(member_views(e@).skip(i as int)[0] == member_views(e@)[i as int]);
                        return Some(&e[i].1);
                    }
                    assert(member_views(e@).skip(i as int).drop_first() =~= member_views(e@).skip(
                        i + 1,
                    ));
                    i = i + 1;
                }
                None
            },
            _ => None,
        }
    }

    /// The element `i` of an array.
    pub fn at(&self, i: usize) -> (res: Option<&JsonValue>)
        ensures
            match res {
                Some(v) => self@.at(i as int) == Some(v@),
                None => self@.at(i as int) is None,
            },
    {
        match self {
            JsonValue::Array(a) => {
                proof {
                    lemma_views(a@);
                }
                if i < a.len() {
                    Some(&a[i])
                } else {
                    None
                }
            },
            _ => None,
        }
    }

    /// The text of a string.
    pub fn as_text(&self) -> (res: Option<&String>)
        ensures
            match res {
                Some(s) => self@.text() == Some(s@),
                None => self@.text() is None,
            },
    {
        match self {
            JsonValue::Str(s) => Some(s),
            _ => None,
        }
    }

    /// A copy of this document.
    #[verifier::loop_isolation(false)]
    pub fn duplicate(&self) -> (res: JsonValue)
        ensures
            res@ == self@,
        decreases self,
    {
        match self {
            JsonValue::Null => JsonValue::Null,
            JsonValue::Bool(b) => JsonValue::Bool(*b),
            JsonValue::Number(n) => JsonValue::Number(n.clone()),
            JsonValue::Str(s) => JsonValue::Str(s.clone()),
            JsonValue::Array(a) => {
                let mut out: Vec<JsonValue> = Vec::new();
                let mut i: usize = 0;
                while i < a.len()
                    invariant
                        i <= a.len(),
                        out.len() == i,
                        forall|j: int| 0 <= j < i ==> (#[trigger] out@[j])@ == a@[j]@,
                    decreases a.len() - i,
                {
                    proof {
                        assert(decreases_to!(*self => self->Array_0));
                        assert(decreases_to!(self->Array_0 => self->Array_0@));
                        assert(decreases_to!(self->Array_0@ => self->Array_0@[i as int]));
                        assert(decreases_to!(*self => a@[i as int]));
                    }
                    out.push(a[i].duplicate());
                    i = i + 1;
                }
                proof {
                    lemma_views(out@);
                    lemma_views(a@);
                    assert(views(out@) =~= views(a@));
                }
                let res = JsonValue::Array(out);
                res
            }
            JsonValue::Object(e) => {
                let mut out: Vec<(String, JsonValue)> = Vec::new();
                let mut i: usize = 0;
                while i < e.len()
                    invariant
                        i <= e.len(),
                        out.len() == i,
                        forall|j: int|
                            0 <= j < i ==> (#[trigger] out@[j]).0@ == e@[j].0@ && out@[j].1@
                                == e@[j].1@,
                    decreases e.len() - i,
                {
                    proof {
                        assert(decreases_to!(*self => self->Object_0));
                        assert(decreases_to!(self->Object_0 => self->Object_0@));
                        assert(decreases_to!(self->Object_0@ => self->Object_0@[i as int]));
                        assert(decreases_to!(self->Object_0@[i as int] => self->Object_0@[i as int].1));
                    }
                    let v = e[i].1.duplicate();
                    out.push((e[i].0.clone(), v));
                    i = i + 1;
                }
                proof {
                    lemma_member_views(out@);
                    lemma_member_views(e@);
                    assert(member_views(out@) =~= member_views(e@));
                }
                let res = JsonValue::Object(out);
                res
            }
        }
    }
}

// ----- documents that serde_json reads -----

#[verifier::external_type_specification]
#[verifier::external_body]
pub struct ExSerdeValue(serde_json::Value);

#[verifier::external_type_specification]
#[verifier::external_body]
pub struct ExSerdeError(serde_json::Error);

/// The JSON document that a `serde_json::Value` holds: a number as the text
/// that `Number`'s `Display` writes, an object's members in the order its map
/// yields them.
pub uninterp spec fn json_of(v: serde_json::Value) -> Json;

/// The document that `serde_json::from_str` reads from a text, where the
/// text is JSON.
pub uninterp spec fn parsed_json(text: Seq<char>) -> Option<Json>;

/// One level of a `serde_json::Value`: its kind, and its elements or members
/// as values still to be read.
pub enum ValueParts {
    Null,
    Bool(bool),
    Number(String),
    Str(String),
    Array(Vec<serde_json::Value>),
    Object(Vec<(String, serde_json::Value)>),
}

/// The document whose top level is `p`.
pub open spec fn parts_json(p: ValueParts) -> Json {
    match p {
        ValueParts::Null => Json::Null,
        ValueParts::Bool(b) => Json::Bool(b),
        ValueParts::Number(n) => Json::Number(n@),
        ValueParts::Str(s) => Json::Str(s@),
        ValueParts::Array(a) => Json::Array(Seq::new(a.len() as nat, |i: int| json_of(a@[i]))),
        ValueParts::Object(e) => Json::Object(
            Seq::new(e.len() as nat, |i: int| (e@[i].0@, json_of(e@[i].1))),
        ),
    }
}

/// Calls `serde_json::from_str` for a `serde_json::Value`. What it reads is
/// named by `parsed_json`: the text's document, or none (an error) where the
/// text is not JSON.
#[verifier::external_body]
fn parse_value(text: &str) -> (res: Result<serde_json::Value, serde_json::Error>)
    ensures
        match res {
            Ok(v) => parsed_json(text@) == Some(json_of(v)),
            Err(_) => parsed_json(text@) is None,
        },
{
    serde_json::from_str::<serde_json::Value>(text)
}

/// Tells the variants of a `serde_json::Value` apart, one level deep: a
/// number by its `Display` text, an object by its members as the map yields
/// them. The claim is that this level is the top of `json_of(v)`.
#[verifier::external_body]
fn value_parts(v: &serde_json::Value) -> (res: ValueParts)
    ensures
        parts_json(res) == json_of(*v),
{
    match v {
        serde_json::Value::Null => ValueParts::Null,
        serde_json::Value::Bool(b) => ValueParts::Bool(*b),
        serde_json::Value::Number(n) => ValueParts::Number(n.to_string()),
        serde_json::Value::String(s) => ValueParts::Str(s.clone()),
        serde_json::Value::Array(a) => ValueParts::Array(a.clone()),
        serde_json::Value::Object(m) => ValueParts::Object(m.iter().map(|(k, x)| (k.clone(), x.clone())).collect()),
    }
}

/// The library's copy of a `serde_json::Value`.
pub fn json_from_value(v: &serde_json::Value) -> (res: JsonValue)
    ensures
        res@ == json_of(*v),
    decreases json_of(*v),
{
    let parts = value_parts(v);
    match parts {
        ValueParts::Null => JsonValue::Null,
        ValueParts::Bool(b) => JsonValue::Bool(b),
        ValueParts::Number(n) => JsonValue::Number(n),
        ValueParts::Str(s) => JsonValue::Str(s),
        ValueParts::Array(a) => {
            let ghost whole = json_of(*v);
            let mut out: Vec<JsonValue> = Vec::new();
            let mut i: usize = 0;
            while i < a.len()
                invariant
                    i <= a.len(),
                    out.len() == i,
                    whole == Json::Array(Seq::new(a.len() as nat, |j: int| json_of(a@[j]))),
                    whole == json_of(*v),
                    forall|j: int| 0 <= j < i ==> (#[trigger] out@[j])@ == json_of(a@[j]),
                decreases a.len() - i,
            {
                proof {
                    let items = Seq::new(a.len() as nat, |j: int| json_of(a@[j]));
                    assert(decreases_to!(whole => whole->Array_0));
                    assert(whole->Array_0 == items);
                    assert(decreases_to!(items => items[i as int]));
                    assert(items[i as int] == json_of(a@[i as int]));
                }
                out.push(json_from_value(&a[i]));
                i = i + 1;
            }
            proof {
                lemma_views(out@);
                assert(views(out@) =~= Seq::new(a.len() as nat, |j: int| json_of(a@[j])));
            }
            JsonValue::Array(out)
        },
        ValueParts::Object(e) => {
            let ghost whole = json_of(*v);
            let mut out: Vec<(String, JsonValue)> = Vec::new();
            let mut i: usize = 0;
            while i < e.len()
                invariant
                    i <= e.len(),
                    out.len() == i,
                    whole == Json::Object(Seq::new(e.len() as nat, |j: int| (e@[j].0@, json_of(e@[j].1)))),
                    whole == json_of(*v),
                    forall|j: int|
                        0 <= j < i ==> (#[trigger] out@[j]).0@ == e@[j].0@ && out@[j].1@ == json_of(e@[j].1),
                decreases e.len() - i,
            {
                proof {
                    let items = Seq::new(e.len() as nat, |j: int| (e@[j].0@, json_of(e@[j].1)));
                    assert(decreases_to!(whole => whole->Object_0));
                    assert(whole->Object_0 == items);
                    assert(decreases_to!(items => items[i as int]));
                    assert(decreases_to!(items[i as int] => items[i as int].1));
                    assert(items[i as int].1 == json_of(e@[i as int].1));
                }
                let x = json_from_value(&e[i].1);
                out.push((e[i].0.clone(), x));
                i = i + 1;
            }
            proof {
                lemma_member_views(out@);
                assert(member_views(out@) =~= Seq::new(e.len() as nat, |j: int| (e@[j].0@, json_of(e@[j].1))));
            }
            JsonValue::Object(out)
        },
    }
}

/// Reads a JSON text as a `serde_json::Value`, or the error where it is not
/// JSON.
pub fn read_document(text: &str) -> (res: Result<serde_json::Value, serde_json::Error>)
    ensures
        match res {
            Ok(v) => parsed_json(text@) == Some(json_of(v)),
            Err(_) => parsed_json(text@) is None,
        },
{
    parse_value(text)
}

/// Reads a JSON text: its document, or the error where it is not JSON.
pub fn parse_json(text: &str) -> (res: Result<JsonValue, serde_json::Error>)
    ensures
        match res {
            Ok(v) => parsed_json(text@) == Some(v@),
            Err(_) => parsed_json(text@) is None,
        },
{
    match parse_value(text) {
        Ok(v) => Ok(json_from_value(&v)),
        Err(e) => Err(e),
    }
}

/// The text that `serde_json::to_string` writes for a document.
pub uninterp spec fn rendered_json(j: Json) -> Seq<char>;

/// Calls `serde_json::to_string` on a `serde_json::Value`. What it writes is
/// named by `rendered_json`. Writing a `Value` does not fail (its map keys are
/// strings); the empty text stands in for an error that cannot come.
#[verifier::external_body]
pub(crate) fn render_value(v: &serde_json::Value) -> (res: String)
    ensures
        res@ == rendered_json(json_of(*v)),
{
    serde_json::to_string(v).unwrap_or_default()
}

/// The member `key` of a `serde_json::Value` that is an object.
pub fn value_member(v: &serde_json::Value, key: &str) -> (res: Option<serde_json::Value>)
    ensures
        match res {
            Some(x) => json_of(*v).get(key@) == Some(json_of(x)),
            None => json_of(*v).get(key@) is None,
        },
{
    match value_parts(v) {
        ValueParts::Object(mut e) => {
            let ghost items = Seq::new(e.len() as nat, |j: int| (e@[j].0@, json_of(e@[j].1)));
            assert(items.skip(0) =~= items);
            let mut i: usize = 0;
            while i < e.len()
                invariant
                    i <= e.len(),
                    items == Seq::new(e.len() as nat, |j: int| (e@[j].0@, json_of(e@[j].1))),
                    json_of(*v) == Json::Object(items),
                    lookup(items, key@) == lookup(items.skip(i as int), key@),
                decreases e.len() - i,
            {
                if crate::text::same_text(e[i].0.as_str(), key) {
                    assert(items.skip(i as int)[0] == items[i as int]);
                    let (_, x) = e.remove(i);
                    return Some(x);
                }
                assert(items.skip(i as int).drop_first() =~= items.skip(i + 1));
                i = i + 1;
            }
            None
        },
        _ => None,
    }
}

/// The elements of a `serde_json::Value` that is an array.
pub fn value_items(v: &serde_json::Value) -> (res: Option<Vec<serde_json::Value>>)
    ensures
        match res {
            Some(a) => json_of(*v) == Json::Array(Seq::new(a.len() as nat, |j: int| json_of(a@[j]))),
            None => !(json_of(*v) is Array),
        },
{
    match value_parts(v) {
        ValueParts::Array(a) => Some(a),
        _ => None,
    }
}

/// The text of a `serde_json::Value` that is a string.
pub fn value_text(v: &serde_json::Value) -> (res: Option<String>)
    ensures
        match res {
            Some(t) => json_of(*v).text() == Some(t@),
            None => json_of(*v).text() is None,
        },
{
    match value_parts(v) {
        ValueParts::Str(t) => Some(t),
        _ => None,
    }
}

} // verus!
