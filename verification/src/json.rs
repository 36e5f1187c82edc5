//! A JSON document as a tree of plain values, and its text form.
//!
//! The tree is what the rest of the library reads and builds. Turning a
//! tree into text and back is left to `serde_json`; the two functions that
//! do so are the only place where this module trusts code it cannot see.

use serde_json::Value;
use vstd::prelude::*;

verus! {

/// Mathematical model of a JSON document.
///
/// Integers of either sign share one variant, and an object is the sequence
/// of its members in the order they were written.
pub enum JsonView {
    Null,
    Bool(bool),
    Integer(int),
    Real(Seq<char>),
    Text(Seq<char>),
    Array(Seq<JsonView>),
    Object(Seq<(Seq<char>, JsonView)>),
}

/// The value that `members` binds to `key`: that of the last member with
/// this key, as a later member of a JSON object overrides an earlier one.
pub open spec fn spec_member(members: Seq<(Seq<char>, JsonView)>, key: Seq<char>) -> Option<
    JsonView,
>
    decreases members.len(),
{
    if members.len() == 0 {
        None
    } else if members.last().0 == key {
        Some(members.last().1)
    } else {
        spec_member(members.drop_last(), key)
    }
}

impl JsonView {
    /// The member of an object under `key`; `None` for anything but an
    /// object and for a key the object does not hold.
    pub open spec fn member(self, key: Seq<char>) -> Option<JsonView> {
        match self {
            JsonView::Object(members) => spec_member(members, key),
            _ => None,
        }
    }

    /// The document as an unsigned 64-bit integer, if it is one.
    pub open spec fn as_u64(self) -> Option<u64> {
        match self {
            JsonView::Integer(n) => if 0 <= n <= u64::MAX {
                Some(n as u64)
            } else {
                None
            },
            _ => None,
        }
    }

    /// The document as a string, if it is one.
    pub open spec fn as_text(self) -> Option<Seq<char>> {
        match self {
            JsonView::Text(s) => Some(s),
            _ => None,
        }
    }

    /// The document as a boolean, if it is one.
    pub open spec fn as_bool(self) -> Option<bool> {
        match self {
            JsonView::Bool(b) => Some(b),
            _ => None,
        }
    }

    /// The unsigned integer under `key`, where the object holds one there.
    pub open spec fn u64_at(self, key: Seq<char>) -> Option<u64> {
        match self.member(key) {
            Some(v) => v.as_u64(),
            None => None,
        }
    }

    /// The integer under `key`, where the object holds one there that fits
    /// 32 bits.
    pub open spec fn u32_at(self, key: Seq<char>) -> Option<u32> {
        match self.u64_at(key) {
            Some(n) => if n <= u32::MAX {
                Some(n as u32)
            } else {
                None
            },
            None => None,
        }
    }

    /// The integer under `key`, where the object holds one there that fits
    /// 16 bits.
    pub open spec fn u16_at(self, key: Seq<char>) -> Option<u16> {
        match self.u64_at(key) {
            Some(n) => if n <= u16::MAX {
                Some(n as u16)
            } else {
                None
            },
            None => None,
        }
    }

    /// The integer under `key`, where the object holds one there that fits
    /// the machine's word.
    pub open spec fn usize_at(self, key: Seq<char>) -> Option<usize> {
        match self.u64_at(key) {
            Some(n) => if n <= usize::MAX {
                Some(n as usize)
            } else {
                None
            },
            None => None,
        }
    }

    /// The string under `key` that may be left out: `Some(None)` where the
    /// object has no such member or holds `null` there, `None` where it
    /// holds anything but a string.
    pub open spec fn optional_text_at(self, key: Seq<char>) -> Option<Option<Seq<char>>> {
        match self.optional_at(key) {
            None => Some(None),
            Some(v) => match v.as_text() {
                Some(s) => Some(Some(s)),
                None => None,
            },
        }
    }

    /// The string under `key`, where the object holds one there.
    pub open spec fn text_at(self, key: Seq<char>) -> Option<Seq<char>> {
        match self.member(key) {
            Some(v) => v.as_text(),
            None => None,
        }
    }

    /// The boolean under `key`, where the object holds one there.
    pub open spec fn bool_at(self, key: Seq<char>) -> Option<bool> {
        match self.member(key) {
            Some(v) => v.as_bool(),
            None => None,
        }
    }

    /// The member under `key` that may be left out: `None` where the object
    /// has no such member or holds `null` there.
    pub open spec fn optional_at(self, key: Seq<char>) -> Option<JsonView> {
        match self.member(key) {
            Some(JsonView::Null) => None,
            other => other,
        }
    }
}

/// Adding a member at the end of an object binds its key to its value and
/// leaves every other key as it was.
pub proof fn lemma_member_push(
    members: Seq<(Seq<char>, JsonView)>,
    key: Seq<char>,
    value: JsonView,
    probe: Seq<char>,
)
    ensures
        spec_member(members.push((key, value)), probe) == if key == probe {
            Some(value)
        } else {
            spec_member(members, probe)
        },
{
    let longer = members.push((key, value));
    assert(longer.last() == (key, value));
    assert(longer.drop_last() =~= members);
}

/// An object of one member binds its key.
pub proof fn lemma_members_1(k1: Seq<char>, v1: JsonView)
    ensures
        spec_member(Seq::empty().push((k1, v1)), k1) == Some(v1),
{
    lemma_member_push(Seq::empty(), k1, v1, k1);
}

/// An object of two members with different keys binds each key to its own
/// value.
pub proof fn lemma_members_2(k1: Seq<char>, v1: JsonView, k2: Seq<char>, v2: JsonView)
    requires
        k1 != k2,
    ensures
        spec_member(Seq::empty().push((k1, v1)).push((k2, v2)), k1) == Some(v1),
        spec_member(Seq::empty().push((k1, v1)).push((k2, v2)), k2) == Some(v2),
{
    let m1 = Seq::empty().push((k1, v1));
    lemma_member_push(Seq::empty(), k1, v1, k1);
    lemma_member_push(m1, k2, v2, k1);
    lemma_member_push(m1, k2, v2, k2);
}

/// An object of three members with different keys binds each key to its own
/// value.
pub proof fn lemma_members_3(
    k1: Seq<char>,
    v1: JsonView,
    k2: Seq<char>,
    v2: JsonView,
    k3: Seq<char>,
    v3: JsonView,
)
    requires
        k1 != k2,
        k1 != k3,
        k2 != k3,
    ensures
        spec_member(Seq::empty().push((k1, v1)).push((k2, v2)).push((k3, v3)), k1) == Some(v1),
        spec_member(Seq::empty().push((k1, v1)).push((k2, v2)).push((k3, v3)), k2) == Some(v2),
        spec_member(Seq::empty().push((k1, v1)).push((k2, v2)).push((k3, v3)), k3) == Some(v3),
{
    let m2 = Seq::empty().push((k1, v1)).push((k2, v2));
    lemma_members_2(k1, v1, k2, v2);
    lemma_member_push(m2, k3, v3, k1);
    lemma_member_push(m2, k3, v3, k2);
    lemma_member_push(m2, k3, v3, k3);
}

/// An object of four members with different keys binds each key to its own
/// value.
pub proof fn lemma_members_4(
    k1: Seq<char>,
    v1: JsonView,
    k2: Seq<char>,
    v2: JsonView,
    k3: Seq<char>,
    v3: JsonView,
    k4: Seq<char>,
    v4: JsonView,
)
    requires
        k1 != k2,
        k1 != k3,
        k1 != k4,
        k2 != k3,
        k2 != k4,
        k3 != k4,
    ensures
        spec_member(
            Seq::empty().push((k1, v1)).push((k2, v2)).push((k3, v3)).push((k4, v4)),
            k1,
        ) == Some(v1),
        spec_member(
            Seq::empty().push((k1, v1)).push((k2, v2)).push((k3, v3)).push((k4, v4)),
            k2,
        ) == Some(v2),
        spec_member(
            Seq::empty().push((k1, v1)).push((k2, v2)).push((k3, v3)).push((k4, v4)),
            k3,
        ) == Some(v3),
        spec_member(
            Seq::empty().push((k1, v1)).push((k2, v2)).push((k3, v3)).push((k4, v4)),
            k4,
        ) == Some(v4),
{
    let m3 = Seq::empty().push((k1, v1)).push((k2, v2)).push((k3, v3));
    lemma_members_3(k1, v1, k2, v2, k3, v3);
    lemma_member_push(m3, k4, v4, k1);
    lemma_member_push(m3, k4, v4, k2);
    lemma_member_push(m3, k4, v4, k3);
    lemma_member_push(m3, k4, v4, k4);
}

/// A JSON document held as plain values.
///
/// `Real` keeps a number with a fraction or an exponent as the text of its
/// literal, so that it travels through the library unchanged.
#[derive(Debug, PartialEq)]
pub enum Json {
    Null,
    Bool(bool),
    Unsigned(u64),
    Negative(i64),
    Real(String),
    Text(String),
    Array(Vec<Json>),
    Object(Vec<(String, Json)>),
}

impl Json {
    /// The document that this tree stands for.
    pub open spec fn model(&self) -> JsonView
        decreases self,
    {
        match self {
            Json::Null => JsonView::Null,
            Json::Bool(b) => JsonView::Bool(*b),
            Json::Unsigned(u) => JsonView::Integer(*u as int),
            Json::Negative(i) => JsonView::Integer(*i as int),
            Json::Real(t) => JsonView::Real(t@),
            Json::Text(s) => JsonView::Text(s@),
            Json::Array(items) => JsonView::Array(
                Seq::new(
                    items@.len(),
                    |i: int|
                        if 0 <= i < items@.len() {
                            items@[i].model()
                        } else {
                            JsonView::Null
                        },
                ),
            ),
            Json::Object(members) => JsonView::Object(
                Seq::new(
                    members@.len(),
                    |i: int|
                        if 0 <= i < members@.len() {
                            (members@[i].0@, members@[i].1.model())
                        } else {
                            (Seq::empty(), JsonView::Null)
                        },
                ),
            ),
        }
    }
}

impl View for Json {
    type V = JsonView;

    open spec fn view(&self) -> JsonView {
        self.model()
    }
}

/// The model of an optional document.
pub open spec fn view_of(doc: Option<Json>) -> Option<JsonView> {
    match doc {
        Some(j) => Some(j@),
        None => None,
    }
}

/// The model of an optional borrowed document.
pub open spec fn view_of_ref(doc: Option<&Json>) -> Option<JsonView> {
    match doc {
        Some(j) => Some(j@),
        None => None,
    }
}

/// The models of the members of an object under construction.
pub open spec fn member_views(members: Seq<(String, Json)>) -> Seq<(Seq<char>, JsonView)> {
    Seq::new(members.len(), |i: int| (members[i].0@, members[i].1@))
}

/// The members of an object under construction, before the first is added.
pub fn no_members() -> (r: Vec<(String, Json)>)
    ensures
        member_views(r@) == Seq::<(Seq<char>, JsonView)>::empty(),
{
    let r: Vec<(String, Json)> = Vec::new();
    proof {
        assert(member_views(r@) =~= Seq::<(Seq<char>, JsonView)>::empty());
    }
    r
}

/// Appends the member `key: value` to the members of an object under
/// construction.
pub fn push_member(members: &mut Vec<(String, Json)>, key: &str, value: Json)
    ensures
        member_views(final(members)@) == member_views(old(members)@).push((key@, value@)),
{
    let owned = key.to_owned();
    members.push((owned, value));
    proof {
        assert(member_views(members@) =~= member_views(old(members)@).push((key@, value@)));
    }
}

/// The object that holds `members`, in their order.
pub fn object(members: Vec<(String, Json)>) -> (r: Json)
    ensures
        r@ == JsonView::Object(member_views(members@)),
{
    let r = Json::Object(members);
    proof {
        assert(r@->Object_0 =~= member_views(members@));
    }
    r
}

/// Whether two strings hold the same characters.
pub fn same_text(a: &String, b: &str) -> (r: bool)
    ensures
        r == (a@ == b@),
{
    let owned = b.to_owned();
    *a == owned
}

impl Json {
    /// The member of an object under `key`.
    pub fn get(&self, key: &str) -> (r: Option<&Json>)
        ensures
            view_of_ref(r) == self@.member(key@),
    {
        match self {
            Json::Object(members) => {
                let ghost all = self@->Object_0;
                let mut i: usize = members.len();
                proof {
                    assert(all.take(i as int) =~= all);
                }
                while i > 0
                    invariant
                        i <= members.len(),
                        all == self@->Object_0,
                        all.len() == members.len(),
                        self@ is Object,
                        *self == Json::Object(*members),
                        spec_member(all, key@) == spec_member(all.take(i as int), key@),
                    decreases i,
                {
                    i = i - 1;
                    proof {
                        let prefix = all.take(i + 1);
                        assert(prefix.last() == all[i as int]);
                        assert(prefix.drop_last() =~= all.take(i as int));
                        assert(all[i as int].0 == members@[i as int].0@);
                        assert(all[i as int].1 == members@[i as int].1@);
                    }
                    if same_text(&members[i].0, key) {
                        return Some(&members[i].1);
                    }
                }
                proof {
                    assert(all.take(0).len() == 0);
                }
                None
            },
            _ => None,
        }
    }

    /// The document as an unsigned 64-bit integer, if it is one.
    pub fn as_u64(&self) -> (r: Option<u64>)
        ensures
            r == self@.as_u64(),
    {
        match self {
            Json::Unsigned(u) => Some(*u),
            Json::Negative(i) => if *i >= 0 {
                Some(*i as u64)
            } else {
                None
            },
            _ => None,
        }
    }

    /// The document as a string, if it is one.
    pub fn as_text(&self) -> (r: Option<&String>)
        ensures
            match r {
                Some(s) => self@.as_text() == Some(s@),
                None => self@.as_text() is None,
            },
    {
        match self {
            Json::Text(s) => Some(s),
            _ => None,
        }
    }

    /// The document as a boolean, if it is one.
    pub fn as_bool(&self) -> (r: Option<bool>)
        ensures
            r == self@.as_bool(),
    {
        match self {
            Json::Bool(b) => Some(*b),
            _ => None,
        }
    }

    /// Whether the document is `null`.
    pub fn is_null(&self) -> (r: bool)
        ensures
            r == (self@ == JsonView::Null),
    {
        match self {
            Json::Null => true,
            _ => false,
        }
    }

    /// The unsigned integer under `key`, where the object holds one there.
    pub fn u64_at(&self, key: &str) -> (r: Option<u64>)
        ensures
            r == self@.u64_at(key@),
    {
        match self.get(key) {
            Some(v) => v.as_u64(),
            None => None,
        }
    }

    /// The integer under `key`, where the object holds one there that fits
    /// 32 bits.
    pub fn u32_at(&self, key: &str) -> (r: Option<u32>)
        ensures
            r == self@.u32_at(key@),
    {
        match self.u64_at(key) {
            Some(n) => if n <= u32::MAX as u64 {
                Some(n as u32)
            } else {
                None
            },
            None => None,
        }
    }

    /// The integer under `key`, where the object holds one there that fits
    /// 16 bits.
    pub fn u16_at(&self, key: &str) -> (r: Option<u16>)
        ensures
            r == self@.u16_at(key@),
    {
        match self.u64_at(key) {
            Some(n) => if n <= u16::MAX as u64 {
                Some(n as u16)
            } else {
                None
            },
            None => None,
        }
    }

    /// The integer under `key`, where the object holds one there that fits
    /// the machine's word.
    pub fn usize_at(&self, key: &str) -> (r: Option<usize>)
        ensures
            r == self@.usize_at(key@),
    {
        match self.u64_at(key) {
            Some(n) => if n <= usize::MAX as u64 {
                Some(n as usize)
            } else {
                None
            },
            None => None,
        }
    }

    /// A copy of the string under `key` that may be left out.
    pub fn optional_text_at(&self, key: &str) -> (r: Option<Option<String>>)
        ensures
            match r {
                Some(Some(s)) => self@.optional_text_at(key@) == Some(Some(s@)),
                Some(None) => self@.optional_text_at(key@) == Some(None::<Seq<char>>),
                None => self@.optional_text_at(key@) is None,
            },
    {
        match self.optional_at(key) {
            None => Some(None),
            Some(v) => match v.as_text() {
                Some(s) => Some(Some(s.clone())),
                None => None,
            },
        }
    }

    /// A copy of the string under `key`, where the object holds one there.
    pub fn text_at(&self, key: &str) -> (r: Option<String>)
        ensures
            match r {
                Some(s) => self@.text_at(key@) == Some(s@),
                None => self@.text_at(key@) is None,
            },
    {
        match self.get(key) {
            Some(v) => match v.as_text() {
                Some(s) => Some(s.clone()),
                None => None,
            },
            None => None,
        }
    }

    /// The boolean under `key`, where the object holds one there.
    pub fn bool_at(&self, key: &str) -> (r: Option<bool>)
        ensures
            r == self@.bool_at(key@),
    {
        match self.get(key) {
            Some(v) => v.as_bool(),
            None => None,
        }
    }

    /// The member under `key` that may be left out: `None` where the object
    /// has no such member or holds `null` there.
    pub fn optional_at(&self, key: &str) -> (r: Option<&Json>)
        ensures
            view_of_ref(r) == self@.optional_at(key@),
    {
        match self.get(key) {
            Some(v) => if v.is_null() {
                None
            } else {
                Some(v)
            },
            None => None,
        }
    }

    /// A copy of the whole tree.
    pub fn duplicate(&self) -> (r: Json)
        ensures
            r@ == self@,
        decreases self,
    {
        match self {
            Json::Null => Json::Null,
            Json::Bool(b) => Json::Bool(*b),
            Json::Unsigned(u) => Json::Unsigned(*u),
            Json::Negative(i) => Json::Negative(*i),
            Json::Real(t) => Json::Real(t.clone()),
            Json::Text(s) => Json::Text(s.clone()),
            Json::Array(items) => {
                let mut copy: Vec<Json> = Vec::new();
                let mut i: usize = 0;
                while i < items.len()
                    invariant
                        i <= items.len(),
                        self is Array,
                        self->Array_0 == *items,
                        copy.len() == i,
                        forall|k: int| 0 <= k < i ==> (#[trigger] copy@[k])@ == items@[k]@,
                    decreases items.len() - i,
                {
                    let item = items[i].duplicate();
                    copy.push(item);
                    i = i + 1;
                }
                let r = Json::Array(copy);
                proof {
                    assert(r@->Array_0 =~= self@->Array_0);
                }
                r
            },
            Json::Object(members) => {
                let mut copy: Vec<(String, Json)> = Vec::new();
                let mut i: usize = 0;
                while i < members.len()
                    invariant
                        i <= members.len(),
                        self is Object,
                        self->Object_0 == *members,
                        copy.len() == i,
                        forall|k: int|
                            0 <= k < i ==> (#[trigger] copy@[k]).0@ == members@[k].0@ && copy@[k].1@
                                == members@[k].1@,
                    decreases members.len() - i,
                {
                    let key = members[i].0.clone();
                    let value = members[i].1.duplicate();
                    copy.push((key, value));
                    i = i + 1;
                }
                let r = Json::Object(copy);
                proof {
                    assert(r@->Object_0 =~= self@->Object_0);
                }
                r
            },
        }
    }

    /// Reads a document from its JSON text; `None` for a text that is not
    /// one JSON document.
    pub fn from_text(text: &[u8]) -> (r: Option<Json>)
        ensures
            view_of(r) == parsed_json(text@),
    {
        parse_text(text)
    }

    /// The JSON text of the document; `None` where a `Real` does not hold the
    /// literal of a number.
    pub fn to_text(&self) -> (r: Option<Vec<u8>>)
        ensures
            match r {
                Some(text) => printed_json(self@) == Some(text@),
                None => printed_json(self@) is None,
            },
    {
        print_text(self)
    }
}

/// `serde_json::Value`, declared as a type whose inside is not looked at:
/// it only passes between the functions below.
#[verifier::external_type_specification]
#[verifier::external_body]
pub struct ExValue(Value);

/// The document that `serde_json` reads from a text; `None` where it
/// rejects the text.
pub uninterp spec fn parsed_json(text: Seq<u8>) -> Option<JsonView>;

/// The text that `serde_json` writes for a document; `None` where the
/// document holds a `Real` that `serde_json` does not take for a number.
pub uninterp spec fn printed_json(doc: JsonView) -> Option<Seq<u8>>;

/// Rebuilds a `serde_json::Value` as a tree of plain values, variant by
/// variant. A number becomes `Unsigned` where `Number::as_u64` gives it,
/// `Negative` where only `Number::as_i64` does, and otherwise `Real` with
/// the text that the number's `to_string` writes. Nothing is claimed of the
/// result here.
#[verifier::external_body]
fn json_of_value(v: &Value) -> Json {
    match v {
        Value::Null => Json::Null,
        Value::Bool(b) => Json::Bool(*b),
        Value::Number(n) => match (n.as_u64(), n.as_i64()) {
            (Some(u), _) => Json::Unsigned(u),
            (_, Some(i)) => Json::Negative(i),
            _ => Json::Real(n.to_string()),
        },
        Value::String(s) => Json::Text(s.clone()),
        Value::Array(a) => Json::Array(a.iter().map(json_of_value).collect()),
        Value::Object(o) => Json::Object(
            o.iter().map(|(k, v)| (k.clone(), json_of_value(v))).collect(),
        ),
    }
}

/// Rebuilds a tree of plain values as a `serde_json::Value`, variant by
/// variant; the text of a `Real` goes through `str::parse` for
/// `serde_json::Number`, and the members of an object are collected into a
/// `serde_json::Map` in their order. `None` where that parse fails. Nothing
/// is claimed of the result here.
#[verifier::external_body]
fn value_of_json(j: &Json) -> Option<Value> {
    Some(match j {
        Json::Null => Value::Null,
        Json::Bool(b) => Value::Bool(*b),
        Json::Unsigned(u) => Value::from(*u),
        Json::Negative(i) => Value::from(*i),
        Json::Real(t) => Value::Number(t.parse().ok()?),
        Json::Text(s) => Value::String(s.clone()),
        Json::Array(a) => Value::Array(a.iter().map(value_of_json).collect::<Option<_>>()?),
        Json::Object(o) => Value::Object(
            o.iter().map(|m| Some((m.0.clone(), value_of_json(&m.1)?))).collect::<Option<_>>()?,
        ),
    })
}

/// `serde_json::from_slice` at `serde_json::Value`, handed on as a tree of
/// plain values. The contract only gives the outcome its name: the same
/// bytes always give the same document, or are always rejected.
#[verifier::external_body]
fn parse_text(text: &[u8]) -> (r: Option<Json>)
    ensures
        view_of(r) == parsed_json(text@),
{
    match serde_json::from_slice::<Value>(text) {
        Ok(v) => Some(json_of_value(&v)),
        Err(_) => None,
    }
}

/// `serde_json::to_vec` on the `serde_json::Value` built from the tree. The
/// contract only gives the outcome its name: documents with the same model
/// always give the same bytes, or never any.
#[verifier::external_body]
fn print_text(doc: &Json) -> (r: Option<Vec<u8>>)
    ensures
        match r {
            Some(text) => printed_json(doc@) == Some(text@),
            None => printed_json(doc@) is None,
        },
{
    match value_of_json(doc) {
        Some(v) => serde_json::to_vec(&v).ok(),
        None => None,
    }
}

} // verus!
