//! JSON values as the library holds them, and the one thing that it asks of
//! `serde_json`: reading a text into such a value.

use vstd::prelude::*;

verus! {

/// A parsed JSON value, as `serde_json` holds it.
#[verifier::external_type_specification]
#[verifier::external_body]
pub struct ExValue(serde_json::Value);

/// A JSON value.
#[derive(Debug)]
pub enum Json {
    Null,
    Bool(bool),
    /// A number, by its decimal text.
    Number(String),
    Text(String),
    Array(Vec<Json>),
    /// An object, by its members; no key occurs twice in a value that was
    /// read from a text.
    Object(Vec<Member>),
}

/// One member of a JSON object.
#[derive(Debug)]
pub struct Member {
    pub key: String,
    pub value: Json,
}

/// The value that `serde_json` reads from a text, where the text is one JSON
/// document.
pub uninterp spec fn json_document(text: Seq<char>) -> Option<Json>;

/// `serde_json::from_reader` on the bytes of `text`, read as a
/// `serde_json::Value` and handed over variant for variant; `None` where
/// `serde_json` reports an error. The outcome depends on the text alone.
#[verifier::external_body]
pub(crate) fn decode(text: &str) -> (r: Option<Json>)
    ensures
        r == json_document(text@),
{
    match serde_json::from_reader::<&[u8], serde_json::Value>(text.as_bytes()) {
        Ok(value) => Some(from_value(value)),
        Err(_) => None,
    }
}

/// A `serde_json::Value` in the library's form: each variant becomes the
/// variant of the same kind, a number its decimal text, and the members of an
/// object come in the order in which `serde_json` keeps them.
#[verifier::external_body]
fn from_value(value: serde_json::Value) -> Json {
    match value {
        serde_json::Value::Null => Json::Null,
        serde_json::Value::Bool(b) => Json::Bool(b),
        serde_json::Value::Number(n) => Json::Number(n.to_string()),
        serde_json::Value::String(s) => Json::Text(s),
        serde_json::Value::Array(items) => Json::Array(items.into_iter().map(from_value).collect()),
        serde_json::Value::Object(members) => Json::Object(
            members.into_iter().map(|(key, value)| Member { key, value: from_value(value) }).collect(),
        ),
    }
}

/// The value of the first member with this key, if there is one.
pub open spec fn lookup(members: Seq<Member>, key: Seq<char>) -> Option<Json>
    decreases members.len(),
{
    if members.len() == 0 {
        None
    } else if members[0].key@ == key {
        Some(members[0].value)
    } else {
        lookup(members.subrange(1, members.len() as int), key)
    }
}

/// Whether `i` is the position of the first member with this key.
pub open spec fn is_first_with_key(members: Seq<Member>, key: Seq<char>, i: int) -> bool {
    &&& 0 <= i < members.len()
    &&& members[i].key@ == key
    &&& forall|j: int| 0 <= j < i ==> (#[trigger] members[j]).key@ != key
}

/// `lookup` finds the first member with the key, and finds nothing exactly
/// where no member has the key.
pub proof fn law_lookup_finds_first(members: Seq<Member>, key: Seq<char>)
    ensures
        match lookup(members, key) {
            Some(value) => exists|i: int|
                is_first_with_key(members, key, i) && members[i].value == value,
            None => forall|i: int| 0 <= i < members.len() ==> (#[trigger] members[i]).key@ != key,
        },
    decreases members.len(),
{
    if members.len() == 0 {
    } else if members[0].key@ == key {
        assert(is_first_with_key(members, key, 0));
    } else {
        let rest = members.subrange(1, members.len() as int);
        law_lookup_finds_first(rest, key);
        match lookup(rest, key) {
            Some(value) => {
                let i = choose|i: int| is_first_with_key(rest, key, i) && rest[i].value == value;
                assert forall|j: int| 0 <= j < i + 1 implies (#[trigger] members[j]).key@ != key by {
                    if j > 0 {
                        assert(rest[j - 1].key@ != key);
                    }
                }
                assert(is_first_with_key(members, key, i + 1));
            },
            None => {
                assert forall|i: int| 0 <= i < members.len() implies (#[trigger] members[i]).key@
                    != key by {
                    if i > 0 {
                        assert(rest[i - 1].key@ != key);
                    }
                }
            },
        }
    }
}

impl Json {
    /// The characters of a value that is a string.
    pub open spec fn text_spec(self) -> Option<Seq<char>> {
        match self {
            Json::Text(s) => Some(s@),
            _ => None,
        }
    }

    /// The elements of a value that is an array.
    pub open spec fn elements_spec(self) -> Option<Seq<Json>> {
        match self {
            Json::Array(items) => Some(items@),
            _ => None,
        }
    }

    /// The value that an object holds under a key; `None` for a value that
    /// is no object or has no such member.
    pub open spec fn member_spec(self, key: Seq<char>) -> Option<Json> {
        match self {
            Json::Object(members) => lookup(members@, key),
            _ => None,
        }
    }

    /// The characters of a value that is a string.
    pub fn text(&self) -> (r: Option<&String>)
        ensures
            match r {
                Some(s) => self.text_spec() == Some(s@),
                None => self.text_spec() is None,
            },
    {
        match self {
            Json::Text(s) => Some(s),
            _ => None,
        }
    }

    /// The elements of a value that is an array.
    pub fn elements(&self) -> (r: Option<&Vec<Json>>)
        ensures
            match r {
                Some(items) => self.elements_spec() == Some(items@),
                None => self.elements_spec() is None,
            },
    {
        match self {
            Json::Array(items) => Some(items),
            _ => None,
        }
    }

    /// The value that an object holds under `key`.
    pub fn member(&self, key: &String) -> (r: Option<&Json>)
        ensures
            match r {
                Some(value) => self.member_spec(key@) == Some(*value),
                None => self.member_spec(key@) is None,
            },
    {
        match self {
            Json::Object(members) => {
                let mut i: usize = 0;
                assert(members@.subrange(0, members@.len() as int) =~= members@);
                while i < members.len()
                    invariant
                        0 <= i <= members.len(),
                        self.member_spec(key@) == lookup(
                            members@.subrange(i as int, members@.len() as int),
                            key@,
                        ),
                    decreases members.len() - i,
                {
                    let ghost rest = members@.subrange(i as int, members@.len() as int);
                    assert(rest[0] == members@[i as int]);
                    if members[i].key == *key {
                        return Some(&members[i].value);
                    }
                    assert(rest.subrange(1, rest.len() as int) =~= members@.subrange(
                        i + 1,
                        members@.len() as int,
                    ));
                    i += 1;
                }
                None
            },
            _ => None,
        }
    }
}

} // verus!
