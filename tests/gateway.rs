use std::cell::RefCell;

use dlist_top::client::{
    event_kind, identify, route, route_lowered, Client, ClientError, Dispatch, EventHandler,
    EventKind, IgnoreEvents,
};
use dlist_top::entity::{Entity, EntityType};
use dlist_top::events::{RateData, VoteData};
use dlist_top::json::{find_member, Json};
use dlist_top::payload::{GatewayOp, Payload};
use dlist_top::text::same_text;
use dlist_top::timestamp::Timestamp;

#[derive(Default)]
struct Recorder {
    calls: RefCell<Vec<String>>,
}

impl EventHandler for Recorder {
    fn on_ready(&self, entity: &Entity) {
        self.calls.borrow_mut().push(format!("ready:{}:{}", entity.id, entity.name));
    }
    fn on_disconnect(&self, reason: &str) {
        self.calls.borrow_mut().push(format!("disconnect:{}", reason));
    }
    fn on_vote(&self, data: VoteData) {
        self.calls
            .borrow_mut()
            .push(format!("vote:{}:{}:{}", data.author_id, data.total_votes, data.date.millis));
    }
    fn on_rate(&self, data: RateData) {
        self.calls
            .borrow_mut()
            .push(format!("rate:{}:{}:{}", data.author_id, data.rating, data.details));
    }
}

fn s(text: &str) -> Json {
    Json::Str(text.to_string())
}

fn obj(members: Vec<(&str, Json)>) -> Json {
    Json::Object(members.into_iter().map(|(k, v)| (k.to_string(), v)).collect())
}

fn envelope(op: i128, data: Json, event: Option<&str>) -> Json {
    let mut members = vec![("op", Json::Int(op)), ("data", data)];
    if let Some(e) = event {
        members.push(("event", s(e)));
    }
    obj(members)
}

fn vote_json(date: i128, total: i128) -> Json {
    obj(vec![
        ("authorID", s("u1")),
        ("entityType", s("bot")),
        ("entityID", s("b1")),
        ("date", Json::Int(date)),
        ("totalVotes", Json::Int(total)),
        ("userVotes", Json::Int(3)),
    ])
}

fn rate_json(rating: i128) -> Json {
    obj(vec![
        ("authorID", s("u2")),
        ("entityType", s("server")),
        ("entityID", s("s1")),
        ("date", Json::Int(1700000000000)),
        ("rating", Json::Int(rating)),
        ("details", s("nice")),
    ])
}

fn client() -> Client<Recorder> {
    Client::new("secret-token".to_string(), Recorder::default())
}

fn calls(c: &Client<Recorder>) -> Vec<String> {
    c.handler().calls.borrow().clone()
}

#[test]
fn ready_stores_entity_and_calls_on_ready() {
    let mut c = client();
    let data = obj(vec![("id", s("42")), ("type", s("bots")), ("name", s("Foo"))]);
    let r = c.on_message("{...}", Some(envelope(3, data, None)));
    assert_eq!(r, Ok(None));
    assert_eq!(
        c.entity,
        Some(Entity { id: "42".to_string(), entity_type: EntityType::Bot, name: "Foo".to_string() })
    );
    assert_eq!(calls(&c), vec!["ready:42:Foo".to_string()]);
}

#[test]
fn second_ready_replaces_entity() {
    let mut c = client();
    let a = obj(vec![("id", s("1")), ("type", s("bots")), ("name", s("A"))]);
    let b = obj(vec![("id", s("2")), ("type", s("servers")), ("name", s("B"))]);
    assert_eq!(c.on_message("a", Some(envelope(3, a, None))), Ok(None));
    assert_eq!(c.on_message("b", Some(envelope(3, b, None))), Ok(None));
    let e = c.entity.as_ref().unwrap();
    assert_eq!(e.id, "2");
    assert_eq!(e.entity_type, EntityType::Server);
    assert_eq!(calls(&c).len(), 2);
}

#[test]
fn ready_with_bad_entity_is_invalid_data() {
    let mut c = client();
    let data = obj(vec![("id", s("42")), ("type", s("robots")), ("name", s("Foo"))]);
    assert_eq!(c.on_message("x", Some(envelope(3, data, None))), Err(ClientError::InvalidData));
    assert_eq!(c.entity, None);
    assert!(calls(&c).is_empty());
}

#[test]
fn hello_produces_one_identify() {
    let mut c = client();
    let r = c.on_message("x", Some(envelope(1, s("welcome"), None)));
    let expected = obj(vec![
        ("op", Json::Int(2)),
        ("data", obj(vec![("token", s("secret-token"))])),
        ("event", s("")),
    ]);
    assert_eq!(r, Ok(Some(expected)));
    assert!(calls(&c).is_empty());
    assert_eq!(c.entity, None);
}

#[test]
fn vote_event_any_case_calls_on_vote() {
    for name in ["VOTE", "vote", "VoTe"] {
        let mut c = client();
        let r = c.on_message("x", Some(envelope(5, vote_json(1700000000000, 10), Some(name))));
        assert_eq!(r, Ok(None));
        assert_eq!(calls(&c), vec!["vote:u1:10:1700000000000".to_string()]);
    }
}

#[test]
fn rate_event_calls_on_rate() {
    let mut c = client();
    let r = c.on_message("x", Some(envelope(5, rate_json(-1), Some("Rate"))));
    assert_eq!(r, Ok(None));
    assert_eq!(calls(&c), vec!["rate:u2:-1:nice".to_string()]);
}

#[test]
fn unknown_event_is_ignored() {
    let mut c = client();
    assert_eq!(c.on_message("x", Some(envelope(5, vote_json(0, 1), Some("unknown")))), Ok(None));
    assert_eq!(c.on_message("x", Some(envelope(5, Json::Null, None))), Ok(None));
    assert!(calls(&c).is_empty());
}

#[test]
fn vote_with_bad_payload_is_invalid_data() {
    let mut c = client();
    let too_many = (i32::MAX as i128) + 1;
    assert_eq!(
        c.on_message("x", Some(envelope(5, vote_json(0, too_many), Some("vote")))),
        Err(ClientError::InvalidData)
    );
    assert_eq!(
        c.on_message("x", Some(envelope(5, rate_json(200), Some("rate")))),
        Err(ClientError::InvalidData)
    );
    assert!(calls(&c).is_empty());
}

#[test]
fn vote_with_out_of_range_date_is_invalid_data() {
    let mut c = client();
    assert_eq!(
        c.on_message("x", Some(envelope(5, vote_json(i64::MAX as i128, 1), Some("vote")))),
        Err(ClientError::InvalidData)
    );
    assert!(calls(&c).is_empty());
}

#[test]
fn disconnect_passes_reason() {
    let mut c = client();
    assert_eq!(c.on_message("x", Some(envelope(4, s("maintenance"), None))), Ok(None));
    assert_eq!(c.on_message("x", Some(envelope(4, Json::Int(7), None))), Ok(None));
    assert_eq!(
        calls(&c),
        vec!["disconnect:maintenance".to_string(), "disconnect:".to_string()]
    );
}

#[test]
fn inbound_identify_is_ignored() {
    let mut c = client();
    assert_eq!(c.on_message("x", Some(envelope(2, Json::Null, None))), Ok(None));
    assert!(calls(&c).is_empty());
}

#[test]
fn non_envelope_json_is_dropped_without_callbacks() {
    let mut c = client();
    let shapes = vec![
        Json::Array(vec![Json::Int(1)]),
        Json::Int(3),
        s("hello"),
        obj(vec![("data", Json::Null)]),
        obj(vec![("op", Json::Int(1))]),
        obj(vec![("op", s("1")), ("data", Json::Null)]),
        obj(vec![("op", Json::Int(5)), ("data", Json::Null), ("event", Json::Int(1))]),
        obj(vec![("op", Json::Fraction(1.0f64.to_bits())), ("data", Json::Null)]),
    ];
    for j in shapes {
        assert_eq!(c.on_message("x", Some(j)), Err(ClientError::CannotParsePayload));
    }
    assert!(calls(&c).is_empty());
    assert_eq!(c.entity, None);
}

#[test]
fn unparsable_text_is_dropped() {
    let mut c = client();
    assert_eq!(c.on_message("not json", None), Err(ClientError::CannotParsePayload));
    assert!(calls(&c).is_empty());
}

#[test]
fn close_notice_is_ignored() {
    let mut c = client();
    assert_eq!(c.on_message("Connection closed", None), Ok(None));
    assert_eq!(c.on_message("connection closed", None), Err(ClientError::CannotParsePayload));
    assert!(calls(&c).is_empty());
}

#[test]
fn frames_trigger_callbacks_in_order() {
    let mut c = client();
    assert_eq!(c.on_message("x", Some(envelope(5, rate_json(5), Some("rate")))), Ok(None));
    assert_eq!(c.on_message("x", Some(envelope(5, vote_json(1, 2), Some("vote")))), Ok(None));
    assert_eq!(
        calls(&c),
        vec!["rate:u2:5:nice".to_string(), "vote:u1:2:1".to_string()]
    );
}

#[test]
fn default_handler_does_nothing() {
    let mut c = Client::new("t".to_string(), IgnoreEvents);
    let data = obj(vec![("id", s("1")), ("type", s("bots")), ("name", s("A"))]);
    assert_eq!(c.on_message("x", Some(envelope(3, data, None))), Ok(None));
    assert_eq!(c.on_message("x", Some(envelope(4, s("bye"), None))), Ok(None));
    assert_eq!(c.token(), "t");
}

#[test]
fn vote_timestamp_round_trip() {
    let v = VoteData {
        author_id: "a".to_string(),
        entity_type: "bot".to_string(),
        entity_id: "e".to_string(),
        date: Timestamp::from_millis(1700000000000).unwrap(),
        total_votes: 5,
        user_votes: 1,
    };
    let j = v.clone().to_json();
    if let Json::Object(ms) = &j {
        let i = find_member(ms, "date").unwrap();
        assert_eq!(ms[i].1, Json::Int(1700000000000));
    } else {
        panic!("not an object");
    }
    let back = VoteData::from_json(&j).unwrap();
    assert_eq!(back, v);
    assert_eq!(back.date.as_millis(), 1700000000000);
}

#[test]
fn rate_round_trip() {
    let r = RateData {
        author_id: "a".to_string(),
        entity_type: "server".to_string(),
        entity_id: "e".to_string(),
        date: Timestamp::from_millis(-5).unwrap(),
        rating: 10,
        details: "ok".to_string(),
    };
    assert_eq!(RateData::from_json(&r.clone().to_json()), Some(r));
}

#[test]
fn timestamp_range() {
    assert_eq!(Timestamp::from_millis(0).map(|t| t.as_millis()), Some(0));
    assert_eq!(Timestamp::from_millis(i64::MAX), None);
    assert_eq!(Timestamp::from_millis(i64::MIN), None);
}

#[test]
fn entity_round_trip_and_tags() {
    let e = Entity { id: "9".to_string(), entity_type: EntityType::Server, name: "S".to_string() };
    let j = e.clone().to_json();
    assert_eq!(
        j,
        obj(vec![("id", s("9")), ("type", s("servers")), ("name", s("S"))])
    );
    assert_eq!(Entity::from_json(&j), Some(e));
    assert_eq!(EntityType::from_tag("bots"), Some(EntityType::Bot));
    assert_eq!(EntityType::from_tag("Bots"), None);
    assert_eq!(EntityType::Bot.tag(), "bots");
}

#[test]
fn payload_round_trip_every_opcode() {
    for op in [
        GatewayOp::Hello,
        GatewayOp::Identify,
        GatewayOp::Ready,
        GatewayOp::Disconnect,
        GatewayOp::Event,
    ] {
        let p = Payload { op, data: obj(vec![("k", Json::Array(vec![Json::Bool(true)]))]), event: "vote".to_string() };
        let j = Payload {
            op,
            data: obj(vec![("k", Json::Array(vec![Json::Bool(true)]))]),
            event: "vote".to_string(),
        }
        .to_json();
        assert_eq!(Payload::from_json(j), Some(p));
    }
}

#[test]
fn payload_event_defaults_to_empty() {
    let p = Payload::from_json(envelope(1, Json::Null, None)).unwrap();
    assert_eq!(p.op, GatewayOp::Hello);
    assert_eq!(p.event, "");
    assert_eq!(p.data, Json::Null);
}

#[test]
fn opcode_numbers() {
    assert_eq!(GatewayOp::Hello.code(), 1);
    assert_eq!(GatewayOp::Identify.code(), 2);
    assert_eq!(GatewayOp::Ready.code(), 3);
    assert_eq!(GatewayOp::Disconnect.code(), 4);
    assert_eq!(GatewayOp::Event.code(), 5);
    assert_eq!(GatewayOp::from_code(0), None);
    assert_eq!(GatewayOp::from_code(6), None);
    assert_eq!(GatewayOp::from_code(4), Some(GatewayOp::Disconnect));
}

#[test]
fn identify_envelope_carries_token() {
    let p = identify("abc");
    assert_eq!(p.op, GatewayOp::Identify);
    assert_eq!(p.event, "");
    assert_eq!(p.data, obj(vec![("token", s("abc"))]));
}

#[test]
fn routing_lowercases_event_name() {
    let p = Payload { op: GatewayOp::Event, data: rate_json(3), event: "RATE".to_string() };
    assert!(matches!(route(p, "t"), Ok(Dispatch::Rate(r)) if r.rating == 3));
    let p = Payload { op: GatewayOp::Event, data: rate_json(3), event: "RATE".to_string() };
    assert_eq!(route_lowered(p, "RATE", "t"), Ok(Dispatch::Nothing));
    assert_eq!(event_kind("vote"), EventKind::Vote);
    assert_eq!(event_kind("rate"), EventKind::Rate);
    assert_eq!(event_kind("Vote"), EventKind::Other);
}

#[test]
fn text_comparison() {
    assert!(same_text("héllo", "héllo"));
    assert!(!same_text("abc", "abd"));
    assert!(!same_text("ab", "abc"));
}

#[test]
fn unknown_opcode_is_ignored() {
    let mut c = client();
    for op in [0, 6, 9, 300, -1] {
        assert_eq!(c.on_message("x", Some(envelope(op, Json::Null, Some("vote")))), Ok(None));
    }
    assert_eq!(
        c.on_message("x", Some(obj(vec![("op", Json::Int(9))]))),
        Err(ClientError::CannotParsePayload)
    );
    assert!(calls(&c).is_empty());
    assert_eq!(c.entity, None);
}

#[test]
fn interpret_then_deliver() {
    let mut c = client();
    let d = c.interpret("x", Some(envelope(5, vote_json(7, 1), Some("Vote")))).unwrap();
    assert!(matches!(&d, Dispatch::Vote(v) if v.date.as_millis() == 7));
    assert!(calls(&c).is_empty());
    assert_eq!(c.deliver(d), None);
    assert_eq!(calls(&c), vec!["vote:u1:1:7".to_string()]);
    assert_eq!(c.interpret("Connection closed", None), Ok(Dispatch::Nothing));
    let d = c.interpret("x", Some(envelope(1, Json::Null, None))).unwrap();
    assert!(matches!(c.deliver(d), Some(Json::Object(_))));
}

#[test]
fn client_keeps_token_and_handler() {
    let c = Client::new("abc".to_string(), Recorder::default());
    assert_eq!(c.token(), "abc");
    assert!(c.handler().calls.borrow().is_empty());
    assert!(c.entity.is_none());
}
