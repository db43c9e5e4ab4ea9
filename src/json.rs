use vstd::prelude::*;

verus! {

/// A JSON value, as the protocol reads and writes it.
///
/// Numbers are integers: every number the protocol carries is an id.
/// An object keeps its members in order; a lookup finds the first member
/// with the requested key.
pub enum Json {
    Null,
    Bool(bool),
    Number(i64),
    Str(String),
    Array(Vec<Json>),
    Object(Vec<(String, Json)>),
}

/// The value of the first member at or after position `i` whose key is `key`.
pub open spec fn member_from(fields: Seq<(String, Json)>, key: Seq<char>, i: int) -> Option<Json>
    decreases fields.len() - i,
{
    if i < 0 || i >= fields.len() {
        None
    } else if fields[i].0@ == key {
        Some(fields[i].1)
    } else {
        member_from(fields, key, i + 1)
    }
}

/// The value of the first member of `fields` whose key is `key`.
pub open spec fn member(fields: Seq<(String, Json)>, key: Seq<char>) -> Option<Json> {
    member_from(fields, key, 0)
}

/// What `j[key]` denotes: the member of an object, nothing for any other value.
pub open spec fn field(j: Json, key: Seq<char>) -> Option<Json> {
    match j {
        Json::Object(fields) => member(fields@, key),
        _ => None,
    }
}

/// `j[key]` is present.
pub open spec fn has(j: Json, key: Seq<char>) -> bool {
    field(j, key) is Some
}

/// `j[key]` is present and is a string.
pub open spec fn str_field(j: Json, key: Seq<char>) -> Option<Seq<char>> {
    match field(j, key) {
        Some(Json::Str(s)) => Some(s@),
        _ => None,
    }
}

/// `j` is the string `s`.
pub open spec fn text_is(j: Json, s: Seq<char>) -> bool {
    j matches Json::Str(t) && t@ == s
}

/// `m` is the member `key`, whose value is the string `s`.
pub open spec fn pair_is(m: (String, Json), key: Seq<char>, s: Seq<char>) -> bool {
    m.0@ == key && text_is(m.1, s)
}

/// The members of an object, in order.
pub open spec fn members(j: Json) -> Option<Seq<(String, Json)>> {
    match j {
        Json::Object(fs) => Some(fs@),
        _ => None,
    }
}

/// A member with key `key` and value `value`.
pub fn entry(key: &str, value: Json) -> (r: (String, Json))
    ensures
        r.0@ == key@,
        r.1 == value,
{
    (key.to_owned(), value)
}

/// A string value.
pub fn text(s: &str) -> (r: Json)
    ensures
        text_is(r, s@),
{
    Json::Str(s.to_owned())
}

/// Whether two strings hold the same characters.
pub fn text_eq(a: &str, b: &str) -> (r: bool)
    ensures
        r == (a@ == b@),
{
    a.to_owned() == b.to_owned()
}

impl Json {
    /// The member of an object stored under `key`.
    pub fn get(&self, key: &str) -> (r: Option<&Json>)
        ensures
            match r {
                Some(v) => field(*self, key@) == Some(*v),
                None => field(*self, key@) is None,
            },
    {
        match self {
            Json::Object(fields) => {
                assert(field(*self, key@) == member(fields@, key@));
                let mut i: usize = 0;
                while i < fields.len()
                    invariant
                        i <= fields@.len(),
                        field(*self, key@) == member(fields@, key@),
                        member(fields@, key@) == member_from(fields@, key@, i as int),
                    decreases fields@.len() - i,
                {
                    if text_eq(fields[i].0.as_str(), key) {
                        assert(fields@[i as int].0@ == key@);
                        assert(member_from(fields@, key@, i as int) == Some(fields@[i as int].1));
                        return Some(&fields[i].1);
                    }
                    i = i + 1;
                }
                None
            },
            _ => None,
        }
    }

    /// The string stored under `key`, if there is one.
    pub fn get_str(&self, key: &str) -> (r: Option<String>)
        ensures
            match r {
                Some(s) => str_field(*self, key@) == Some(s@),
                None => str_field(*self, key@) is None,
            },
    {
        match self.get(key) {
            Some(Json::Str(s)) => Some(s.clone()),
            _ => None,
        }
    }
}

} // verus!
