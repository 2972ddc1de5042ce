use vstd::prelude::*;

use crate::text::same_text;

verus! {

/// A JSON value as the gateway protocol carries it.
#[derive(Debug, PartialEq)]
pub enum Json {
    Null,
    Bool(bool),
    /// An integral number.
    Int(i128),
    /// A number written with a fraction or an exponent, held as the bit
    /// pattern of the IEEE-754 double it denotes.
    Fraction(u64),
    Str(String),
    Array(Vec<Json>),
    /// The members of an object, in document order.
    Object(Vec<(String, Json)>),
}

/// `i` is the position of the first member named `key`.
pub open spec fn is_first_member(members: Seq<(String, Json)>, key: Seq<char>, i: int) -> bool {
    &&& 0 <= i < members.len()
    &&& members[i].0@ == key
    &&& forall|j: int| 0 <= j < i ==> members[j].0@ != key
}

/// Position of the first member named `key`, if any.
pub open spec fn member_pos(members: Seq<(String, Json)>, key: Seq<char>) -> Option<int> {
    if exists|i: int| is_first_member(members, key, i) {
        Some(choose|i: int| is_first_member(members, key, i))
    } else {
        None
    }
}

/// The value of the first member named `key`, if any.
pub open spec fn member(members: Seq<(String, Json)>, key: Seq<char>) -> Option<Json> {
    match member_pos(members, key) {
        Some(i) => Some(members[i].1),
        None => None,
    }
}

/// The text of the member named `key`, where it is a string.
pub open spec fn str_member(members: Seq<(String, Json)>, key: Seq<char>) -> Option<Seq<char>> {
    match member(members, key) {
        Some(Json::Str(s)) => Some(s@),
        _ => None,
    }
}

/// The value of the member named `key`, where it is an integer.
pub open spec fn int_member(members: Seq<(String, Json)>, key: Seq<char>) -> Option<int> {
    match member(members, key) {
        Some(Json::Int(n)) => Some(n as int),
        _ => None,
    }
}

/// A member named `key` whose value is the string `s`.
pub open spec fn is_str_entry(entry: (String, Json), key: Seq<char>, s: Seq<char>) -> bool {
    &&& entry.0@ == key
    &&& entry.1 matches Json::Str(v) && v@ == s
}

/// A member named `key` whose value is the integer `n`.
pub open spec fn is_int_entry(entry: (String, Json), key: Seq<char>, n: int) -> bool {
    &&& entry.0@ == key
    &&& entry.1 matches Json::Int(v) && v as int == n
}

pub open spec fn opt_index(r: Option<usize>) -> Option<int> {
    match r {
        Some(i) => Some(i as int),
        None => None,
    }
}

/// The member at `i` is the first one named `key`, so lookup by `key` finds it.
pub proof fn lemma_first_member(members: Seq<(String, Json)>, key: Seq<char>, i: int)
    requires
        is_first_member(members, key, i),
    ensures
        member_pos(members, key) == Some(i),
{
    let c = choose|c: int| is_first_member(members, key, c);
    assert(is_first_member(members, key, c));
    if c < i {
        assert(members[c].0@ != key);
    }
    if i < c {
        assert(members[i].0@ != key);
    }
}

/// Position of the first member named `key`.
pub fn find_member(members: &Vec<(String, Json)>, key: &str) -> (r: Option<usize>)
    ensures
        opt_index(r) == member_pos(members@, key@),
{
    let mut i: usize = 0;
    while i < members.len()
        invariant
            i <= members@.len(),
            forall|j: int| 0 <= j < i ==> members@[j].0@ != key@,
        decreases members@.len() - i,
    {
        if same_text(members[i].0.as_str(), key) {
            proof {
                lemma_first_member(members@, key@, i as int);
            }
            return Some(i);
        }
        i = i + 1;
    }
    assert(!exists|c: int| is_first_member(members@, key@, c));
    None
}

/// A copy of the member named `key`, where it is a string.
pub fn get_str(members: &Vec<(String, Json)>, key: &str) -> (r: Option<String>)
    ensures
        match r {
            Some(s) => str_member(members@, key@) == Some(s@),
            None => str_member(members@, key@) is None,
        },
{
    match find_member(members, key) {
        Some(i) => match &members[i].1 {
            Json::Str(s) => Some(s.clone()),
            _ => None,
        },
        None => None,
    }
}

/// The member named `key`, where it is an integer.
pub fn get_int(members: &Vec<(String, Json)>, key: &str) -> (r: Option<i128>)
    ensures
        match r {
            Some(n) => int_member(members@, key@) == Some(n as int),
            None => int_member(members@, key@) is None,
        },
{
    match find_member(members, key) {
        Some(i) => match &members[i].1 {
            Json::Int(n) => Some(*n),
            _ => None,
        },
        None => None,
    }
}

} // verus!
