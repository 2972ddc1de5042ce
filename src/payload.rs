use vstd::prelude::*;

use crate::json::{find_member, get_int, is_int_entry, is_str_entry, lemma_first_member, member, int_member, Json};

verus! {

/// The opcode of an envelope.
#[derive(Debug, Clone, Copy, PartialEq, Eq, Structural)]
pub enum GatewayOp {
    Hello,
    Identify,
    Ready,
    Disconnect,
    Event,
}

/// The number that stands for an opcode on the wire.
pub open spec fn op_code(op: GatewayOp) -> int {
    match op {
        GatewayOp::Hello => 1,
        GatewayOp::Identify => 2,
        GatewayOp::Ready => 3,
        GatewayOp::Disconnect => 4,
        GatewayOp::Event => 5,
    }
}

/// The opcode that the number `n` stands for.
pub open spec fn op_of_code(n: int) -> Option<GatewayOp> {
    if n == 1 {
        Some(GatewayOp::Hello)
    } else if n == 2 {
        Some(GatewayOp::Identify)
    } else if n == 3 {
        Some(GatewayOp::Ready)
    } else if n == 4 {
        Some(GatewayOp::Disconnect)
    } else if n == 5 {
        Some(GatewayOp::Event)
    } else {
        None
    }
}

impl GatewayOp {
    /// The wire number of this opcode.
    pub fn code(&self) -> (r: u8)
        ensures
            r as int == op_code(*self),
    {
        match self {
            GatewayOp::Hello => 1,
            GatewayOp::Identify => 2,
            GatewayOp::Ready => 3,
            GatewayOp::Disconnect => 4,
            GatewayOp::Event => 5,
        }
    }

    /// The opcode whose wire number is `n`.
    pub fn from_code(n: i128) -> (r: Option<GatewayOp>)
        ensures
            r == op_of_code(n as int),
    {
        if n == 1 {
            Some(GatewayOp::Hello)
        } else if n == 2 {
            Some(GatewayOp::Identify)
        } else if n == 3 {
            Some(GatewayOp::Ready)
        } else if n == 4 {
            Some(GatewayOp::Disconnect)
        } else if n == 5 {
            Some(GatewayOp::Event)
        } else {
            None
        }
    }
}

/// The unit of exchange with the gateway: an opcode, an untyped payload, and
/// an event name that only `Event` envelopes use.
#[derive(Debug, PartialEq)]
pub struct Payload {
    pub op: GatewayOp,
    pub data: Json,
    pub event: String,
}

/// An envelope with its event name as a character sequence.
pub ghost struct PayloadModel {
    pub op: GatewayOp,
    pub data: Json,
    pub event: Seq<char>,
}

impl View for Payload {
    type V = PayloadModel;

    open spec fn view(&self) -> PayloadModel {
        PayloadModel { op: self.op, data: self.data, event: self.event@ }
    }
}

pub open spec fn op_key() -> Seq<char> {
    seq!['o', 'p']
}

pub open spec fn data_key() -> Seq<char> {
    seq!['d', 'a', 't', 'a']
}

pub open spec fn event_key() -> Seq<char> {
    seq!['e', 'v', 'e', 'n', 't']
}

/// The envelope that a JSON value describes: an object whose `op` is the
/// number of an opcode, that has a `data` member of any kind, and whose
/// `event`, where present, is a string (empty where absent).
pub open spec fn payload_model_of(j: Json) -> Option<PayloadModel> {
    match j {
        Json::Object(ms) => {
            let op = int_member(ms@, op_key());
            let data = member(ms@, data_key());
            let event = member(ms@, event_key());
            if op is Some && op_of_code(op.unwrap()) is Some && data is Some && (event is None
                || event.unwrap() is Str) {
                Some(
                    PayloadModel {
                        op: op_of_code(op.unwrap()).unwrap(),
                        data: data.unwrap(),
                        event: match event {
                            Some(Json::Str(s)) => s@,
                            _ => Seq::empty(),
                        },
                    },
                )
            } else {
                None
            }
        },
        _ => None,
    }
}

/// `j` has the shape of an envelope, but its `op` is an integer that names
/// no opcode known here.
pub open spec fn unknown_op_envelope(j: Json) -> bool {
    &&& j matches Json::Object(ms)
    &&& int_member(ms@, op_key()) is Some
    &&& op_of_code(int_member(ms@, op_key()).unwrap()) is None
    &&& member(ms@, data_key()) is Some
    &&& (member(ms@, event_key()) is None || member(ms@, event_key()).unwrap() is Str)
}

/// Whether `j` is an envelope whose opcode is not one known here.
pub fn is_unknown_op_envelope(j: &Json) -> (r: bool)
    ensures
        r == unknown_op_envelope(*j),
{
    proof {
        reveal_payload_keys();
    }
    match j {
        Json::Object(ms) => {
            let known = match get_int(ms, "op") {
                Some(n) => GatewayOp::from_code(n).is_some(),
                None => return false,
            };
            if known || find_member(ms, "data").is_none() {
                return false;
            }
            match find_member(ms, "event") {
                Some(i) => match &ms[i].1 {
                    Json::Str(_) => true,
                    _ => false,
                },
                None => true,
            }
        },
        _ => false,
    }
}

/// `j` is the wire form of the envelope `m`.
pub open spec fn is_payload_json(j: Json, m: PayloadModel) -> bool {
    &&& j matches Json::Object(ms)
    &&& ms@.len() == 3
    &&& is_int_entry(ms@[0], op_key(), op_code(m.op))
    &&& ms@[1].0@ == data_key() && ms@[1].1 == m.data
    &&& is_str_entry(ms@[2], event_key(), m.event)
}

pub open spec fn opt_payload_view(r: Option<Payload>) -> Option<PayloadModel> {
    match r {
        Some(p) => Some(p@),
        None => None,
    }
}

proof fn reveal_payload_keys()
    ensures
        "op"@ == op_key(),
        "data"@ == data_key(),
        "event"@ == event_key(),
{
    reveal_strlit("op");
    reveal_strlit("data");
    reveal_strlit("event");
    assert("op"@ =~= op_key());
    assert("data"@ =~= data_key());
    assert("event"@ =~= event_key());
}

impl Payload {
    /// Decodes the envelope that `j` describes; its `data` is moved out of `j`.
    pub fn from_json(j: Json) -> (r: Option<Payload>)
        ensures
            opt_payload_view(r) == payload_model_of(j),
    {
        proof {
            reveal_payload_keys();
        }
        match j {
            Json::Object(ms) => {
                let op = match get_int(&ms, "op") {
                    Some(n) => GatewayOp::from_code(n),
                    None => None,
                };
                let op = match op {
                    Some(op) => op,
                    None => return None,
                };
                let event = match find_member(&ms, "event") {
                    Some(i) => match &ms[i].1 {
                        Json::Str(s) => s.clone(),
                        _ => return None,
                    },
                    None => String::new(),
                };
                let mut ms = ms;
                match find_member(&ms, "data") {
                    Some(i) => {
                        let (_, data) = ms.remove(i);
                        Some(Payload { op, data, event })
                    },
                    None => None,
                }
            },
            _ => None,
        }
    }

    /// The wire form: an object with members `op`, `data` and `event`.
    pub fn to_json(self) -> (r: Json)
        ensures
            is_payload_json(r, self@),
    {
        proof {
            reveal_payload_keys();
        }
        let k0 = "op".to_string();
        let k1 = "data".to_string();
        let k2 = "event".to_string();
        let code = self.op.code();
        let mut ms: Vec<(String, Json)> = Vec::new();
        ms.push((k0, Json::Int(code as i128)));
        ms.push((k1, self.data));
        ms.push((k2, Json::Str(self.event)));
        Json::Object(ms)
    }
}

/// Decoding the wire form of an envelope gives back that envelope, field for
/// field, whatever its opcode and payload.
pub proof fn lemma_payload_round_trip(j: Json, m: PayloadModel)
    requires
        is_payload_json(j, m),
    ensures
        payload_model_of(j) == Some(m),
{
    let ms = j->Object_0@;
    assert(op_key().len() != data_key().len());
    assert(op_key().len() != event_key().len());
    assert(data_key().len() != event_key().len());
    lemma_first_member(ms, op_key(), 0);
    lemma_first_member(ms, data_key(), 1);
    lemma_first_member(ms, event_key(), 2);
}

} // verus!
