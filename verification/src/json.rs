//! JSON documents: the tree that the protocol code handles, the mathematical
//! document it stands for, and the accessors that read it.

use vstd::prelude::*;

verus! {

/// `serde_json::Number`, of which the library knows what `number_doc` says.
#[verifier::external_type_specification]
#[verifier::external_body]
pub struct ExNumber(serde_json::Number);

/// A JSON number as a plain value: an integer, or the binary64 bit pattern of a
/// finite number that was written with a fraction or an exponent.
pub enum NumberDoc {
    Int(int),
    Float(u64),
}

impl NumberDoc {
    /// The number as an `i64`, where it is an integer in that range.
    pub open spec fn as_i64(self) -> Option<i64> {
        match self {
            NumberDoc::Int(i) => if i64::MIN <= i <= i64::MAX {
                Some(i as i64)
            } else {
                None
            },
            NumberDoc::Float(_) => None,
        }
    }
}

/// The plain value that a `serde_json::Number` holds.
pub uninterp spec fn number_doc(n: serde_json::Number) -> NumberDoc;

/// A JSON document as mathematics.
pub enum JsonDoc {
    Null,
    Bool(bool),
    Number(NumberDoc),
    Str(Seq<char>),
    Array(Seq<JsonDoc>),
    Object(Map<Seq<char>, JsonDoc>),
}

impl JsonDoc {
    /// The member under `key`, where the document is an object that has one.
    pub open spec fn get(self, key: Seq<char>) -> Option<JsonDoc> {
        match self {
            JsonDoc::Object(members) => if members.dom().contains(key) {
                Some(members[key])
            } else {
                None
            },
            _ => None,
        }
    }

    /// The member under `key`, and `Null` where there is none.
    pub open spec fn field(self, key: Seq<char>) -> JsonDoc {
        match self.get(key) {
            Some(doc) => doc,
            None => JsonDoc::Null,
        }
    }

    pub open spec fn as_i64(self) -> Option<i64> {
        match self {
            JsonDoc::Number(n) => n.as_i64(),
            _ => None,
        }
    }

    pub open spec fn as_str(self) -> Option<Seq<char>> {
        match self {
            JsonDoc::Str(text) => Some(text),
            _ => None,
        }
    }

    pub open spec fn as_bool(self) -> Option<bool> {
        match self {
            JsonDoc::Bool(b) => Some(b),
            _ => None,
        }
    }

    pub open spec fn as_array(self) -> Option<Seq<JsonDoc>> {
        match self {
            JsonDoc::Array(items) => Some(items),
            _ => None,
        }
    }
}

/// A JSON number. Integers are held as plain values; a number with a fraction
/// or an exponent is carried as the outside library made it.
#[derive(Debug, PartialEq)]
pub enum JsonNumber {
    PosInt(u64),
    NegInt(i64),
    Float(serde_json::Number),
}

impl JsonNumber {
    pub open spec fn doc(self) -> NumberDoc {
        match self {
            JsonNumber::PosInt(u) => NumberDoc::Int(u as int),
            JsonNumber::NegInt(i) => NumberDoc::Int(i as int),
            JsonNumber::Float(n) => number_doc(n),
        }
    }

    /// The number as an `i64`, where it is an integer in that range.
    pub fn as_i64(&self) -> (r: Option<i64>)
        ensures
            r == self.doc().as_i64(),
    {
        match self {
            JsonNumber::PosInt(u) => if *u <= 0x7fff_ffff_ffff_ffff {
                Some(*u as i64)
            } else {
                None
            },
            JsonNumber::NegInt(i) => Some(*i),
            JsonNumber::Float(n) => number_as_i64(n),
        }
    }
}

/// `serde_json::Number::as_i64`: the integer that the number holds, where it
/// holds one that fits an `i64`.
#[verifier::external_body]
fn number_as_i64(n: &serde_json::Number) -> (r: Option<i64>)
    ensures
        r == number_doc(*n).as_i64(),
{
    n.as_i64()
}

/// `Clone` of `serde_json::Number`: the copy is the same number.
#[verifier::external_body]
fn number_clone(n: &serde_json::Number) -> (r: serde_json::Number)
    ensures
        r == *n,
{
    n.clone()
}

impl Clone for JsonNumber {
    fn clone(&self) -> (r: JsonNumber)
        ensures
            r == *self,
    {
        match self {
            JsonNumber::PosInt(u) => JsonNumber::PosInt(*u),
            JsonNumber::NegInt(i) => JsonNumber::NegInt(*i),
            JsonNumber::Float(n) => JsonNumber::Float(number_clone(n)),
        }
    }
}

/// A JSON document. In an object a later member with the same key hides an
/// earlier one.
#[derive(Debug, PartialEq)]
pub enum Json {
    Null,
    Bool(bool),
    Number(JsonNumber),
    Str(String),
    Array(Vec<Json>),
    Object(Vec<(String, Json)>),
}

/// The document that `j` stands for.
pub open spec fn json_doc(j: Json) -> JsonDoc
    decreases j, 0nat,
{
    match j {
        Json::Null => JsonDoc::Null,
        Json::Bool(b) => JsonDoc::Bool(b),
        Json::Number(n) => JsonDoc::Number(n.doc()),
        Json::Str(text) => JsonDoc::Str(text@),
        Json::Array(items) => JsonDoc::Array(items_doc(items@)),
        Json::Object(members) => JsonDoc::Object(members_doc(members@)),
    }
}

/// The documents of `items`, in order.
pub open spec fn items_doc(items: Seq<Json>) -> Seq<JsonDoc>
    decreases items, 1nat,
{
    if items.len() == 0 {
        Seq::empty()
    } else {
        items_doc(items.drop_last()).push(json_doc(items.last()))
    }
}

/// The map that `members` stand for: each key with the document of its last
/// occurrence.
pub open spec fn members_doc(members: Seq<(String, Json)>) -> Map<Seq<char>, JsonDoc>
    decreases members, 1nat,
{
    if members.len() == 0 {
        Map::empty()
    } else {
        members_doc(members.drop_last()).insert(members.last().0@, json_doc(members.last().1))
    }
}

impl View for Json {
    type V = JsonDoc;

    open spec fn view(&self) -> JsonDoc {
        json_doc(*self)
    }
}

/// `items_doc` maps position by position.
pub proof fn lemma_items_doc(items: Seq<Json>)
    ensures
        items_doc(items).len() == items.len(),
        forall|i: int| 0 <= i < items.len() ==> (#[trigger] items_doc(items)[i]) == json_doc(items[i]),
    decreases items.len(),
{
    if items.len() > 0 {
        lemma_items_doc(items.drop_last());
    }
}

/// Two lists whose items stand for the same documents stand for the same list.
pub proof fn lemma_items_doc_same(a: Seq<Json>, b: Seq<Json>)
    requires
        a.len() == b.len(),
        forall|i: int| 0 <= i < a.len() ==> json_doc(#[trigger] a[i]) == json_doc(b[i]),
    ensures
        items_doc(a) == items_doc(b),
{
    lemma_items_doc(a);
    lemma_items_doc(b);
}

/// A member that is added behind the others is added to the map.
pub proof fn lemma_members_doc_push(members: Seq<(String, Json)>, key: String, value: Json)
    ensures
        members_doc(members.push((key, value))) == members_doc(members).insert(key@, json_doc(value)),
{
    assert(members.push((key, value)).drop_last() =~= members);
}

/// Two member lists that agree key by key and document by document stand for
/// the same map.
pub proof fn lemma_members_doc_same(a: Seq<(String, Json)>, b: Seq<(String, Json)>)
    requires
        a.len() == b.len(),
        forall|i: int| 0 <= i < a.len() ==> (#[trigger] a[i]).0@ == b[i].0@ && json_doc(a[i].1) == json_doc(b[i].1),
    ensures
        members_doc(a) == members_doc(b),
    decreases a.len(),
{
    if a.len() > 0 {
        lemma_members_doc_same(a.drop_last(), b.drop_last());
    }
}

/// The last member with a key is the one that the map holds.
pub proof fn lemma_members_doc_last(members: Seq<(String, Json)>, i: int)
    requires
        0 <= i < members.len(),
        forall|k: int| i < k < members.len() ==> (#[trigger] members[k]).0@ != members[i].0@,
    ensures
        members_doc(members).dom().contains(members[i].0@),
        members_doc(members)[members[i].0@] == json_doc(members[i].1),
    decreases members.len(),
{
    if i < members.len() - 1 {
        lemma_members_doc_last(members.drop_last(), i);
    }
}

/// A key that no member has is not in the map.
pub proof fn lemma_members_doc_absent(members: Seq<(String, Json)>, key: Seq<char>)
    requires
        forall|k: int| 0 <= k < members.len() ==> (#[trigger] members[k]).0@ != key,
    ensures
        !members_doc(members).dom().contains(key),
    decreases members.len(),
{
    if members.len() > 0 {
        lemma_members_doc_absent(members.drop_last(), key);
    }
}

impl Clone for Json {
    fn clone(&self) -> (r: Json)
        ensures
            r@ == self@,
        decreases self,
    {
        match self {
            Json::Null => Json::Null,
            Json::Bool(b) => Json::Bool(*b),
            Json::Number(n) => Json::Number(n.clone()),
            Json::Str(text) => Json::Str(text.clone()),
            Json::Array(items) => {
                let mut copy: Vec<Json> = Vec::new();
                let mut i: usize = 0;
                while i < items.len()
                    invariant
                        i <= items.len(),
                        copy.len() == i,
                        *self == Json::Array(*items),
                        forall|k: int| 0 <= k < i ==> json_doc(#[trigger] copy[k]) == json_doc(items[k]),
                    decreases items.len() - i,
                {
                    proof {
                        // the item is a part of the list, which is a part of the document
                        assert(decreases_to!(*self => self->Array_0));
                    }
                    let item = items[i].clone();
                    copy.push(item);
                    i = i + 1;
                }
                proof {
                    lemma_items_doc_same(copy@, items@);
                }
                Json::Array(copy)
            },
            Json::Object(members) => {
                let mut copy: Vec<(String, Json)> = Vec::new();
                let mut i: usize = 0;
                while i < members.len()
                    invariant
                        i <= members.len(),
                        copy.len() == i,
                        *self == Json::Object(*members),
                        forall|k: int| 0 <= k < i ==> (#[trigger] copy[k]).0@ == members[k].0@ && json_doc(copy[k].1) == json_doc(members[k].1),
                    decreases members.len() - i,
                {
                    proof {
                        // the value is a part of the member, which is a part of the document
                        assert(decreases_to!(*self => self->Object_0));
                    }
                    let key = members[i].0.clone();
                    let value = members[i].1.clone();
                    copy.push((key, value));
                    i = i + 1;
                }
                proof {
                    lemma_members_doc_same(copy@, members@);
                }
                Json::Object(copy)
            },
        }
    }
}

/// Adds the member `key: value` behind the others, which hides an earlier
/// member with that key.
pub fn push_member(members: &mut Vec<(String, Json)>, key: &str, value: Json)
    ensures
        members_doc(final(members)@) == members_doc(old(members)@).insert(key@, value@),
{
    let ghost before = members@;
    let owned = key.to_owned();
    proof {
        lemma_members_doc_push(before, owned, value);
    }
    members.push((owned, value));
}

impl Json {
    /// A JSON string with the characters of `text`.
    pub fn string(text: &str) -> (j: Json)
        ensures
            j@ == JsonDoc::Str(text@),
    {
        Json::Str(text.to_owned())
    }

    /// A non-negative JSON integer.
    pub fn number(n: u64) -> (j: Json)
        ensures
            j@ == JsonDoc::Number(NumberDoc::Int(n as int)),
    {
        Json::Number(JsonNumber::PosInt(n))
    }

    /// The member under `key`, where the document is an object that has one.
    pub fn get(&self, key: &str) -> (r: Option<&Json>)
        ensures
            match r {
                Some(j) => self@.get(key@) == Some(j@),
                None => self@.get(key@) is None,
            },
    {
        match self {
            Json::Object(members) => {
                let wanted = key.to_owned();
                let mut i: usize = members.len();
                while i > 0
                    invariant
                        i <= members.len(),
                        wanted@ == key@,
                        *self == Json::Object(*members),
                        forall|k: int| i <= k < members.len() ==> (#[trigger] members[k]).0@ != key@,
                    decreases i,
                {
                    i = i - 1;
                    if members[i].0 == wanted {
                        proof {
                            lemma_members_doc_last(members@, i as int);
                        }
                        return Some(&members[i].1);
                    }
                }
                proof {
                    lemma_members_doc_absent(members@, key@);
                }
                None
            },
            _ => None,
        }
    }

    /// A copy of the member under `key`, and `Null` where there is none.
    pub fn field(&self, key: &str) -> (j: Json)
        ensures
            j@ == self@.field(key@),
    {
        match self.get(key) {
            Some(member) => member.clone(),
            None => Json::Null,
        }
    }

    /// The document as an `i64`, where it is an integer in that range.
    pub fn as_i64(&self) -> (r: Option<i64>)
        ensures
            r == self@.as_i64(),
    {
        match self {
            Json::Number(n) => n.as_i64(),
            _ => None,
        }
    }

    /// The text of the document, where it is a string.
    pub fn as_str(&self) -> (r: Option<&str>)
        ensures
            match r {
                Some(text) => self@.as_str() == Some(text@),
                None => self@.as_str() is None,
            },
    {
        match self {
            Json::Str(text) => Some(text.as_str()),
            _ => None,
        }
    }

    /// The truth value of the document, where it is one.
    pub fn as_bool(&self) -> (r: Option<bool>)
        ensures
            r == self@.as_bool(),
    {
        match self {
            Json::Bool(b) => Some(*b),
            _ => None,
        }
    }

    /// The items of the document, where it is an array.
    pub fn as_array(&self) -> (r: Option<&Vec<Json>>)
        ensures
            match r {
                Some(items) => self@.as_array() == Some(items_doc(items@)),
                None => self@.as_array() is None,
            },
    {
        match self {
            Json::Array(items) => Some(items),
            _ => None,
        }
    }
}

} // verus!
