//! A JSON document as plain values: what a listing is read from.

use vstd::prelude::*;

verus! {

/// A JSON value.
#[derive(Debug)]
pub enum Json {
    Null,
    Bool(bool),
    /// A number, held as the integer that it is where it is one that fits
    /// `i64`; any other number holds none.
    Number(Option<i64>),
    Text(String),
    Array(Vec<Json>),
    /// The members of an object, each a key and a value.
    Object(Vec<(String, Json)>),
}

/// Whether `at` is the first position of `members` whose key is `key`.
pub open spec fn is_first_keyed(members: Seq<(String, Json)>, key: Seq<char>, at: int) -> bool {
    &&& 0 <= at < members.len()
    &&& members[at].0@ == key
    &&& forall|before: int| 0 <= before < at ==> (#[trigger] members[before]).0@ != key
}

/// The first position of `members` whose key is `key`, if there is one.
pub open spec fn first_keyed(members: Seq<(String, Json)>, key: Seq<char>) -> Option<int> {
    if exists|at: int| is_first_keyed(members, key, at) {
        Some(choose|at: int| is_first_keyed(members, key, at))
    } else {
        None
    }
}

impl Json {
    /// The value of the member `key` of an object, the first where several
    /// members share the key; none where there is no such member or the
    /// value is no object.
    pub open spec fn spec_member(self, key: Seq<char>) -> Option<Json> {
        match self {
            Json::Object(members) => match first_keyed(members@, key) {
                Some(at) => Some(members@[at].1),
                None => None,
            },
            _ => None,
        }
    }

    /// The elements of an array; none where the value is no array.
    pub open spec fn spec_elements(self) -> Option<Seq<Json>> {
        match self {
            Json::Array(elements) => Some(elements@),
            _ => None,
        }
    }

    /// The characters of a text; none where the value is no text.
    pub open spec fn spec_text(self) -> Option<Seq<char>> {
        match self {
            Json::Text(text) => Some(text@),
            _ => None,
        }
    }

    /// The integer of a number that is one; none for any other value.
    pub open spec fn spec_integer(self) -> Option<i64> {
        match self {
            Json::Number(integer) => integer,
            _ => None,
        }
    }

    /// The value of the member `key`, if the value is an object that has one.
    pub fn member(&self, key: &str) -> (value: Option<&Json>)
        ensures
            value == match self.spec_member(key@) {
                Some(found) => Some(&found),
                None => None,
            },
    {
        match self {
            Json::Object(members) => {
                let wanted = key.to_owned();
                let mut at: usize = 0;
                while at < members.len()
                    invariant
                        at <= members@.len(),
                        *self == Json::Object(*members),
                        wanted@ == key@,
                        forall|before: int|
                            0 <= before < at ==> (#[trigger] members@[before]).0@ != key@,
                    decreases members@.len() - at,
                {
                    if members[at].0 == wanted {
                        proof {
                            assert(is_first_keyed(members@, key@, at as int));
                            let chosen = choose|k: int| is_first_keyed(members@, key@, k);
                            assert(chosen == at);
                        }
                        return Some(&members[at].1);
                    }
                    at += 1;
                }
                proof {
                    assert forall|k: int| !is_first_keyed(members@, key@, k) by {
                        if 0 <= k < members@.len() {
                            assert(members@[k].0@ != key@);
                        }
                    }
                }
                None
            },
            _ => None,
        }
    }

    /// The elements of the value, if it is an array.
    pub fn elements(&self) -> (elements: Option<&Vec<Json>>)
        ensures
            match elements {
                Some(found) => self.spec_elements() == Some(found@),
                None => self.spec_elements().is_none(),
            },
    {
        match self {
            Json::Array(elements) => Some(elements),
            _ => None,
        }
    }

    /// The characters of the value, if it is a text.
    pub fn text(&self) -> (text: Option<&str>)
        ensures
            text.deep_view() == self.spec_text(),
    {
        match self {
            Json::Text(text) => Some(text.as_str()),
            _ => None,
        }
    }

    /// The integer that the value is, if it is one.
    pub fn integer(&self) -> (integer: Option<i64>)
        ensures
            integer == self.spec_integer(),
    {
        match self {
            Json::Number(integer) => *integer,
            _ => None,
        }
    }
}

} // verus!
