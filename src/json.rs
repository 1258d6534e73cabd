//! The configuration document as the selector logic reads it: a JSON tree of
//! plain values, converted from a parsed `serde_json::Value`.
use vstd::prelude::*;

verus! {

#[verifier::external_type_specification]
#[verifier::external_body]
pub struct ExValue(serde_json::Value);

#[verifier::external_type_specification]
#[verifier::external_body]
pub struct ExJsonError(serde_json::Error);

/// Relies on serde_json::Value::is_null: whether the value is JSON null.
pub assume_specification[ serde_json::Value::is_null ](v: &serde_json::Value) -> bool;

/// Relies on serde_json::Value::as_array: the elements of an array, None for
/// any other value.
pub assume_specification[ serde_json::Value::as_array ](v: &serde_json::Value) -> Option<
    &Vec<serde_json::Value>,
>;

/// Relies on serde_json::Value::as_str: the text of a string, None for any
/// other value.
pub assume_specification[ serde_json::Value::as_str ](v: &serde_json::Value) -> Option<&str>;

/// The text `s` is a JSON document that serde_json accepts.
pub uninterp spec fn is_json(s: Seq<char>) -> bool;

/// Relies on serde_json::from_str: parses a JSON document, and succeeds
/// exactly on the texts it accepts.
#[verifier::external_body]
pub(crate) fn parse_json(s: &str) -> (r: Result<serde_json::Value, serde_json::Error>)
    ensures
        r is Ok <==> is_json(s@),
{
    serde_json::from_str(s)
}

/// Relies on serde_json::Value::as_object and serde_json::Map::iter: the
/// members of an object, key and value, None for any other value.
#[verifier::external_body]
fn object_members(v: &serde_json::Value) -> Option<Vec<(String, serde_json::Value)>> {
    v.as_object().map(|m| m.iter().map(|(k, x)| (k.clone(), x.clone())).collect())
}

/// Nesting beyond which a value is not looked into; serde_json parses no
/// deeper document.
pub const MAX_DEPTH: u32 = 128;

/// A member of a JSON object.
pub struct Member {
    pub key: String,
    pub value: Json,
}

/// A JSON value, as far as the configuration logic reads it.
pub enum Json {
    Null,
    Text(String),
    Array(Vec<Json>),
    Object(Vec<Member>),
    /// A boolean or a number.
    Other,
}

/// The value of the first member of `ms` whose key is `key`.
pub open spec fn first_member(ms: Seq<Member>, key: Seq<char>) -> Option<Json>
    decreases ms.len(),
{
    if ms.len() == 0 {
        None
    } else if ms[0].key@ == key {
        Some(ms[0].value)
    } else {
        first_member(ms.drop_first(), key)
    }
}

/// The member `key` of `v`; None when `v` is no object or has no such member.
pub open spec fn member_of(v: Json, key: Seq<char>) -> Option<Json> {
    match v {
        Json::Object(ms) => first_member(ms@, key),
        _ => None,
    }
}

/// The member `key` of `v`, where it is present and not null.
pub open spec fn section_of(v: Json, key: Seq<char>) -> Option<Json> {
    match member_of(v, key) {
        Some(Json::Null) => None,
        other => other,
    }
}

/// Every element of `items` is a string.
pub open spec fn all_text(items: Seq<Json>) -> bool {
    forall|i: int| 0 <= i < items.len() ==> #[trigger] items[i] is Text
}

/// The strings of the array that the member `key` of `section` holds; empty
/// when that member is absent, no array, or an array holding anything but
/// strings.
pub open spec fn string_list(section: Json, key: Seq<char>) -> Seq<String> {
    match member_of(section, key) {
        Some(Json::Array(items)) => if all_text(items@) {
            Seq::new(items@.len(), |i: int| items@[i]->Text_0)
        } else {
            Seq::empty()
        },
        _ => Seq::empty(),
    }
}

impl Json {
    /// The value `v`, looked into down to `depth` levels of nesting; deeper
    /// arrays and objects become `Other`.
    pub fn from_value(v: &serde_json::Value, depth: u32) -> (r: Json)
        decreases depth,
    {
        if v.is_null() {
            return Json::Null;
        }
        match v.as_str() {
            Some(s) => {
                return Json::Text(s.to_owned());
            },
            None => {},
        }
        if depth == 0 {
            return Json::Other;
        }
        match v.as_array() {
            Some(items) => {
                let mut r: Vec<Json> = Vec::new();
                let mut i: usize = 0;
                while i < items.len()
                    invariant
                        depth > 0,
                    decreases items.len() - i,
                {
                    r.push(Json::from_value(&items[i], depth - 1));
                    i = i + 1;
                }
                return Json::Array(r);
            },
            None => {},
        }
        match object_members(v) {
            Some(ms) => {
                let mut r: Vec<Member> = Vec::new();
                let mut i: usize = 0;
                while i < ms.len()
                    invariant
                        depth > 0,
                    decreases ms.len() - i,
                {
                    let key = ms[i].0.clone();
                    let value = Json::from_value(&ms[i].1, depth - 1);
                    r.push(Member { key, value });
                    i = i + 1;
                }
                Json::Object(r)
            },
            None => Json::Other,
        }
    }

    /// The member `key` of this value, where it is an object that has one.
    pub fn member(&self, key: &String) -> (r: Option<&Json>)
        ensures
            r is None <==> member_of(*self, key@) is None,
            r is Some ==> member_of(*self, key@) == Some(*r->Some_0),
    {
        match self {
            Json::Object(ms) => {
                let mut i: usize = 0;
                assert(ms@.subrange(0, ms@.len() as int) =~= ms@);
                while i < ms.len()
                    invariant
                        i <= ms@.len(),
                        member_of(*self, key@) == first_member(ms@, key@),
                        first_member(ms@, key@) == first_member(ms@.subrange(i as int, ms@.len() as int), key@),
                    decreases ms.len() - i,
                {
                    let ghost rest = ms@.subrange(i as int, ms@.len() as int);
                    assert(rest.drop_first() =~= ms@.subrange(i + 1, ms@.len() as int));
                    assert(rest[0] == ms@[i as int]);
                    if ms[i].key == *key {
                        assert(first_member(rest, key@) == Some(ms@[i as int].value));
                        return Some(&ms[i].value);
                    }
                    i = i + 1;
                }
                None
            },
            _ => None,
        }
    }

    /// The member `key` of this value, where it is present and not null.
    pub fn section(&self, key: &String) -> (r: Option<&Json>)
        ensures
            r is None <==> section_of(*self, key@) is None,
            r is Some ==> section_of(*self, key@) == Some(*r->Some_0),
    {
        match self.member(key) {
            None => None,
            Some(s) => match s {
                Json::Null => None,
                _ => Some(s),
            },
        }
    }

    /// The strings of the array that the member `key` holds; empty when that
    /// member is absent, no array, or holds anything but strings.
    pub fn string_entries(&self, key: &String) -> (r: Vec<String>)
        ensures
            r@ == string_list(*self, key@),
    {
        let mut r: Vec<String> = Vec::new();
        let m = self.member(key);
        match m {
            Some(Json::Array(items)) => {
                assert(member_of(*self, key@) == Some(Json::Array(*items)));
                let mut i: usize = 0;
                while i < items.len()
                    invariant
                        i <= items@.len(),
                        member_of(*self, key@) == Some(Json::Array(*items)),
                        forall|j: int| 0 <= j < i ==> #[trigger] items@[j] is Text,
                        r@ == Seq::new(i as nat, |j: int| items@[j]->Text_0),
                    decreases items.len() - i,
                {
                    match &items[i] {
                        Json::Text(s) => {
                            r.push(s.clone());
                        },
                        _ => {
                            assert(!all_text(items@)) by {
                                assert(!(items@[i as int] is Text));
                            }
                            return Vec::new();
                        },
                    }
                    assert(r@ =~= Seq::new((i + 1) as nat, |j: int| items@[j]->Text_0));
                    i = i + 1;
                }
                assert(r@ =~= Seq::new(items@.len(), |j: int| items@[j]->Text_0));
                r
            },
            _ => r,
        }
    }
}

} // verus!
