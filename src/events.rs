use vstd::prelude::*;

use crate::json::{
    get_int, get_str, int_member, is_int_entry, is_str_entry, lemma_first_member, str_member, Json,
};
use crate::timestamp::{utc_millis_valid, Timestamp};

verus! {

pub open spec fn author_key() -> Seq<char> {
    seq!['a', 'u', 't', 'h', 'o', 'r', 'I', 'D']
}

pub open spec fn entity_type_key() -> Seq<char> {
    seq!['e', 'n', 't', 'i', 't', 'y', 'T', 'y', 'p', 'e']
}

pub open spec fn entity_id_key() -> Seq<char> {
    seq!['e', 'n', 't', 'i', 't', 'y', 'I', 'D']
}

pub open spec fn date_key() -> Seq<char> {
    seq!['d', 'a', 't', 'e']
}

pub open spec fn total_votes_key() -> Seq<char> {
    seq!['t', 'o', 't', 'a', 'l', 'V', 'o', 't', 'e', 's']
}

pub open spec fn user_votes_key() -> Seq<char> {
    seq!['u', 's', 'e', 'r', 'V', 'o', 't', 'e', 's']
}

pub open spec fn rating_key() -> Seq<char> {
    seq!['r', 'a', 't', 'i', 'n', 'g']
}

pub open spec fn details_key() -> Seq<char> {
    seq!['d', 'e', 't', 'a', 'i', 'l', 's']
}

pub open spec fn in_i32(n: int) -> bool {
    i32::MIN <= n <= i32::MAX
}

pub open spec fn in_i8(n: int) -> bool {
    i8::MIN <= n <= i8::MAX
}

/// `n` is a millisecond offset that names a UTC instant: every offset within
/// 8 * 10^15 ms of the epoch does, and beyond that those that chrono represents.
pub open spec fn valid_date(n: int) -> bool {
    &&& i64::MIN <= n <= i64::MAX
    &&& (-8_000_000_000_000_000 <= n <= 8_000_000_000_000_000 || utc_millis_valid(n))
}

/// One vote for an entity.
#[derive(Debug, Clone, PartialEq, Eq)]
pub struct VoteData {
    pub author_id: String,
    pub entity_type: String,
    pub entity_id: String,
    pub date: Timestamp,
    pub total_votes: i32,
    pub user_votes: i32,
}

/// One rating of an entity.
#[derive(Debug, Clone, PartialEq, Eq)]
pub struct RateData {
    pub author_id: String,
    pub entity_type: String,
    pub entity_id: String,
    pub date: Timestamp,
    pub rating: i8,
    pub details: String,
}

/// A vote's fields, with text as character sequences and the date in
/// milliseconds since the epoch.
pub ghost struct VoteModel {
    pub author_id: Seq<char>,
    pub entity_type: Seq<char>,
    pub entity_id: Seq<char>,
    pub date: int,
    pub total_votes: int,
    pub user_votes: int,
}

/// A rating's fields, as for a vote.
pub ghost struct RateModel {
    pub author_id: Seq<char>,
    pub entity_type: Seq<char>,
    pub entity_id: Seq<char>,
    pub date: int,
    pub rating: int,
    pub details: Seq<char>,
}

impl View for VoteData {
    type V = VoteModel;

    open spec fn view(&self) -> VoteModel {
        VoteModel {
            author_id: self.author_id@,
            entity_type: self.entity_type@,
            entity_id: self.entity_id@,
            date: self.date.millis as int,
            total_votes: self.total_votes as int,
            user_votes: self.user_votes as int,
        }
    }
}

impl View for RateData {
    type V = RateModel;

    open spec fn view(&self) -> RateModel {
        RateModel {
            author_id: self.author_id@,
            entity_type: self.entity_type@,
            entity_id: self.entity_id@,
            date: self.date.millis as int,
            rating: self.rating as int,
            details: self.details@,
        }
    }
}

/// The vote that a JSON value describes: an object with string members
/// `authorID`, `entityType`, `entityID`, a valid millisecond `date`, and
/// 32-bit integers `totalVotes` and `userVotes`.
pub open spec fn vote_model_of(j: Json) -> Option<VoteModel> {
    match j {
        Json::Object(ms) => {
            let a = str_member(ms@, author_key());
            let t = str_member(ms@, entity_type_key());
            let e = str_member(ms@, entity_id_key());
            let d = int_member(ms@, date_key());
            let tv = int_member(ms@, total_votes_key());
            let uv = int_member(ms@, user_votes_key());
            if a is Some && t is Some && e is Some && d is Some && tv is Some && uv is Some
                && valid_date(d.unwrap()) && in_i32(tv.unwrap()) && in_i32(uv.unwrap()) {
                Some(
                    VoteModel {
                        author_id: a.unwrap(),
                        entity_type: t.unwrap(),
                        entity_id: e.unwrap(),
                        date: d.unwrap(),
                        total_votes: tv.unwrap(),
                        user_votes: uv.unwrap(),
                    },
                )
            } else {
                None
            }
        },
        _ => None,
    }
}

/// The rating that a JSON value describes: as for a vote, with an 8-bit
/// integer `rating` and a string `details` in place of the two counts.
pub open spec fn rate_model_of(j: Json) -> Option<RateModel> {
    match j {
        Json::Object(ms) => {
            let a = str_member(ms@, author_key());
            let t = str_member(ms@, entity_type_key());
            let e = str_member(ms@, entity_id_key());
            let d = int_member(ms@, date_key());
            let r = int_member(ms@, rating_key());
            let x = str_member(ms@, details_key());
            if a is Some && t is Some && e is Some && d is Some && r is Some && x is Some
                && valid_date(d.unwrap()) && in_i8(r.unwrap()) {
                Some(
                    RateModel {
                        author_id: a.unwrap(),
                        entity_type: t.unwrap(),
                        entity_id: e.unwrap(),
                        date: d.unwrap(),
                        rating: r.unwrap(),
                        details: x.unwrap(),
                    },
                )
            } else {
                None
            }
        },
        _ => None,
    }
}

/// `j` is the wire form of the vote `m`.
pub open spec fn is_vote_json(j: Json, m: VoteModel) -> bool {
    &&& j matches Json::Object(ms)
    &&& ms@.len() == 6
    &&& is_str_entry(ms@[0], author_key(), m.author_id)
    &&& is_str_entry(ms@[1], entity_type_key(), m.entity_type)
    &&& is_str_entry(ms@[2], entity_id_key(), m.entity_id)
    &&& is_int_entry(ms@[3], date_key(), m.date)
    &&& is_int_entry(ms@[4], total_votes_key(), m.total_votes)
    &&& is_int_entry(ms@[5], user_votes_key(), m.user_votes)
}

/// `j` is the wire form of the rating `m`.
pub open spec fn is_rate_json(j: Json, m: RateModel) -> bool {
    &&& j matches Json::Object(ms)
    &&& ms@.len() == 6
    &&& is_str_entry(ms@[0], author_key(), m.author_id)
    &&& is_str_entry(ms@[1], entity_type_key(), m.entity_type)
    &&& is_str_entry(ms@[2], entity_id_key(), m.entity_id)
    &&& is_int_entry(ms@[3], date_key(), m.date)
    &&& is_int_entry(ms@[4], rating_key(), m.rating)
    &&& is_str_entry(ms@[5], details_key(), m.details)
}

pub open spec fn opt_vote_view(r: Option<VoteData>) -> Option<VoteModel> {
    match r {
        Some(v) => Some(v@),
        None => None,
    }
}

pub open spec fn opt_rate_view(r: Option<RateData>) -> Option<RateModel> {
    match r {
        Some(v) => Some(v@),
        None => None,
    }
}

proof fn reveal_event_keys()
    ensures
        "authorID"@ == author_key(),
        "entityType"@ == entity_type_key(),
        "entityID"@ == entity_id_key(),
        "date"@ == date_key(),
        "totalVotes"@ == total_votes_key(),
        "userVotes"@ == user_votes_key(),
        "rating"@ == rating_key(),
        "details"@ == details_key(),
{
    reveal_strlit("authorID");
    reveal_strlit("entityType");
    reveal_strlit("entityID");
    reveal_strlit("date");
    reveal_strlit("totalVotes");
    reveal_strlit("userVotes");
    reveal_strlit("rating");
    reveal_strlit("details");
    assert("authorID"@ =~= author_key());
    assert("entityType"@ =~= entity_type_key());
    assert("entityID"@ =~= entity_id_key());
    assert("date"@ =~= date_key());
    assert("totalVotes"@ =~= total_votes_key());
    assert("userVotes"@ =~= user_votes_key());
    assert("rating"@ =~= rating_key());
    assert("details"@ =~= details_key());
}

/// Reads a millisecond date that names a UTC instant.
fn date_from_int(n: i128) -> (r: Option<Timestamp>)
    ensures
        r is Some <==> valid_date(n as int),
        r matches Some(t) ==> t.millis as int == n as int,
{
    if i64::MIN as i128 <= n && n <= i64::MAX as i128 {
        Timestamp::from_millis(n as i64)
    } else {
        None
    }
}

fn str_entry(key: &str, value: String) -> (r: (String, Json))
    ensures
        r.0@ == key@,
        r.1 == Json::Str(value),
{
    (key.to_string(), Json::Str(value))
}

fn int_entry(key: &str, value: i128) -> (r: (String, Json))
    ensures
        r.0@ == key@,
        r.1 == Json::Int(value),
{
    (key.to_string(), Json::Int(value))
}

impl VoteData {
    /// Decodes the vote that `j` describes.
    pub fn from_json(j: &Json) -> (r: Option<VoteData>)
        ensures
            opt_vote_view(r) == vote_model_of(*j),
    {
        proof {
            reveal_event_keys();
        }
        match j {
            Json::Object(ms) => {
                let a = get_str(ms, "authorID");
                let t = get_str(ms, "entityType");
                let e = get_str(ms, "entityID");
                let d = get_int(ms, "date");
                let tv = get_int(ms, "totalVotes");
                let uv = get_int(ms, "userVotes");
                match (a, t, e, d, tv, uv) {
                    (Some(a), Some(t), Some(e), Some(d), Some(tv), Some(uv)) => {
                        if tv < i32::MIN as i128 || tv > i32::MAX as i128 || uv < i32::MIN as i128
                            || uv > i32::MAX as i128 {
                            return None;
                        }
                        match date_from_int(d) {
                            Some(date) => Some(
                                VoteData {
                                    author_id: a,
                                    entity_type: t,
                                    entity_id: e,
                                    date,
                                    total_votes: tv as i32,
                                    user_votes: uv as i32,
                                },
                            ),
                            None => None,
                        }
                    },
                    _ => None,
                }
            },
            _ => None,
        }
    }

    /// The wire form: an object with the six members in declaration order.
    pub fn to_json(self) -> (r: Json)
        ensures
            is_vote_json(r, self@),
    {
        proof {
            reveal_event_keys();
        }
        let mut ms: Vec<(String, Json)> = Vec::new();
        ms.push(str_entry("authorID", self.author_id));
        ms.push(str_entry("entityType", self.entity_type));
        ms.push(str_entry("entityID", self.entity_id));
        ms.push(int_entry("date", self.date.millis as i128));
        ms.push(int_entry("totalVotes", self.total_votes as i128));
        ms.push(int_entry("userVotes", self.user_votes as i128));
        Json::Object(ms)
    }
}

impl RateData {
    /// Decodes the rating that `j` describes.
    pub fn from_json(j: &Json) -> (r: Option<RateData>)
        ensures
            opt_rate_view(r) == rate_model_of(*j),
    {
        proof {
            reveal_event_keys();
        }
        match j {
            Json::Object(ms) => {
                let a = get_str(ms, "authorID");
                let t = get_str(ms, "entityType");
                let e = get_str(ms, "entityID");
                let d = get_int(ms, "date");
                let r = get_int(ms, "rating");
                let x = get_str(ms, "details");
                match (a, t, e, d, r, x) {
                    (Some(a), Some(t), Some(e), Some(d), Some(r), Some(x)) => {
                        if r < i8::MIN as i128 || r > i8::MAX as i128 {
                            return None;
                        }
                        match date_from_int(d) {
                            Some(date) => Some(
                                RateData {
                                    author_id: a,
                                    entity_type: t,
                                    entity_id: e,
                                    date,
                                    rating: r as i8,
                                    details: x,
                                },
                            ),
                            None => None,
                        }
                    },
                    _ => None,
                }
            },
            _ => None,
        }
    }

    /// The wire form: an object with the six members in declaration order.
    pub fn to_json(self) -> (r: Json)
        ensures
            is_rate_json(r, self@),
    {
        proof {
            reveal_event_keys();
        }
        let mut ms: Vec<(String, Json)> = Vec::new();
        ms.push(str_entry("authorID", self.author_id));
        ms.push(str_entry("entityType", self.entity_type));
        ms.push(str_entry("entityID", self.entity_id));
        ms.push(int_entry("date", self.date.millis as i128));
        ms.push(int_entry("rating", self.rating as i128));
        ms.push(str_entry("details", self.details));
        Json::Object(ms)
    }
}

proof fn lemma_event_keys_distinct()
    ensures
        author_key() != entity_type_key(),
        author_key() != entity_id_key(),
        entity_type_key() != entity_id_key(),
        date_key() != author_key(),
        date_key() != entity_type_key(),
        date_key() != entity_id_key(),
        total_votes_key() != author_key(),
        total_votes_key() != entity_type_key(),
        total_votes_key() != entity_id_key(),
        total_votes_key() != date_key(),
        user_votes_key() != author_key(),
        user_votes_key() != entity_type_key(),
        user_votes_key() != entity_id_key(),
        user_votes_key() != date_key(),
        user_votes_key() != total_votes_key(),
        rating_key() != author_key(),
        rating_key() != entity_type_key(),
        rating_key() != entity_id_key(),
        rating_key() != date_key(),
        details_key() != author_key(),
        details_key() != entity_type_key(),
        details_key() != entity_id_key(),
        details_key() != date_key(),
        details_key() != rating_key(),
{
    assert(author_key()[0] != entity_type_key()[0]);
    assert(author_key()[0] != entity_id_key()[0]);
    assert(entity_type_key().len() != entity_id_key().len());
    assert(date_key().len() != author_key().len());
    assert(date_key().len() != entity_type_key().len());
    assert(date_key().len() != entity_id_key().len());
    assert(total_votes_key().len() != author_key().len());
    assert(total_votes_key()[0] != entity_type_key()[0]);
    assert(total_votes_key().len() != entity_id_key().len());
    assert(total_votes_key().len() != date_key().len());
    assert(user_votes_key().len() != author_key().len());
    assert(user_votes_key().len() != entity_type_key().len());
    assert(user_votes_key().len() != entity_id_key().len());
    assert(user_votes_key().len() != date_key().len());
    assert(user_votes_key().len() != total_votes_key().len());
    assert(rating_key().len() != author_key().len());
    assert(rating_key().len() != entity_type_key().len());
    assert(rating_key().len() != entity_id_key().len());
    assert(rating_key().len() != date_key().len());
    assert(details_key().len() != author_key().len());
    assert(details_key().len() != entity_type_key().len());
    assert(details_key().len() != entity_id_key().len());
    assert(details_key().len() != date_key().len());
    assert(details_key().len() != rating_key().len());
}

/// Decoding the wire form of a vote gives back that vote, field for field;
/// in particular its date comes back as the same millisecond offset.
pub proof fn lemma_vote_round_trip(j: Json, v: VoteData)
    requires
        v.date.wf(),
        is_vote_json(j, v@),
    ensures
        vote_model_of(j) == Some(v@),
{
    let ms = j->Object_0@;
    lemma_event_keys_distinct();
    lemma_first_member(ms, author_key(), 0);
    lemma_first_member(ms, entity_type_key(), 1);
    lemma_first_member(ms, entity_id_key(), 2);
    lemma_first_member(ms, date_key(), 3);
    lemma_first_member(ms, total_votes_key(), 4);
    lemma_first_member(ms, user_votes_key(), 5);
}

/// Decoding the wire form of a rating gives back that rating, field for field.
pub proof fn lemma_rate_round_trip(j: Json, r: RateData)
    requires
        r.date.wf(),
        is_rate_json(j, r@),
    ensures
        rate_model_of(j) == Some(r@),
{
    let ms = j->Object_0@;
    lemma_event_keys_distinct();
    lemma_first_member(ms, author_key(), 0);
    lemma_first_member(ms, entity_type_key(), 1);
    lemma_first_member(ms, entity_id_key(), 2);
    lemma_first_member(ms, date_key(), 3);
    lemma_first_member(ms, rating_key(), 4);
    lemma_first_member(ms, details_key(), 5);
}

} // verus!
