use vstd::prelude::*;
use vstd::utf8::is_ascii_chars;

use crate::entity::{entity_model_of, opt_entity_view, Entity, EntityModel};
use crate::events::{rate_model_of, vote_model_of, RateData, VoteData};
use crate::json::{is_str_entry, Json};
use crate::payload::{
    is_payload_json, is_unknown_op_envelope, lemma_payload_round_trip, payload_model_of,
    unknown_op_envelope, GatewayOp, Payload, PayloadModel,
};
use crate::text::same_text;

verus! {

/// The receiver of the events of a connection. Every callback does nothing
/// unless the implementer overrides it.
pub trait EventHandler {
    /// The handshake completed; `entity` is who the connection speaks for.
    fn on_ready(&self, _entity: &Entity) {
    }

    /// The gateway asked to disconnect, for `_reason`.
    fn on_disconnect(&self, _reason: &str) {
    }

    /// Someone voted.
    fn on_vote(&self, _data: VoteData) {
    }

    /// Someone rated.
    fn on_rate(&self, _data: RateData) {
    }
}

/// Why a frame was dropped.
#[derive(Debug, Clone, Copy, PartialEq, Eq, Structural)]
pub enum ClientError {
    /// The frame is not an envelope.
    CannotParsePayload,
    /// The envelope's data does not have the shape its opcode or event asks for.
    InvalidData,
}

/// What an `Event` envelope carries, told apart by its lower-cased name.
#[derive(Debug, Clone, Copy, PartialEq, Eq, Structural)]
pub enum EventKind {
    Vote,
    Rate,
    Other,
}

/// What a decoded envelope leads to.
#[derive(Debug, PartialEq)]
pub enum Dispatch {
    Ready(Entity),
    Identify(Payload),
    Vote(VoteData),
    Rate(RateData),
    Disconnect(String),
    Nothing,
}

/// The lower-case form of a text, as Rust's `str::to_lowercase` gives it.
pub uninterp spec fn lower_of(s: Seq<char>) -> Seq<char>;

/// The ASCII lower-case form of a character: `A` to `Z` become `a` to `z`,
/// every other character stays.
pub open spec fn ascii_lower_char(c: char) -> char {
    if 'A' <= c && c <= 'Z' {
        ((c as u8) + 32) as char
    } else {
        c
    }
}

/// Relies on `str::to_lowercase`: the result depends on the characters alone,
/// and on ASCII text it is the ASCII lower-case form.
#[verifier::external_body]
fn lowercase(s: &str) -> (r: String)
    ensures
        r@ == lower_of(s@),
        is_ascii_chars(s@) ==> r@ == s@.map_values(|c: char| ascii_lower_char(c)),
{
    s.to_lowercase()
}

pub open spec fn vote_name() -> Seq<char> {
    seq!['v', 'o', 't', 'e']
}

pub open spec fn rate_name() -> Seq<char> {
    seq!['r', 'a', 't', 'e']
}

pub open spec fn token_key() -> Seq<char> {
    seq!['t', 'o', 'k', 'e', 'n']
}

/// The text of a frame that the gateway sends in place of a message and that
/// is to be ignored.
pub open spec fn close_notice() -> Seq<char> {
    seq!['C', 'o', 'n', 'n', 'e', 'c', 't', 'i', 'o', 'n', ' ', 'c', 'l', 'o', 's', 'e', 'd']
}

/// The kind of event whose lower-cased name is `lowered`.
pub open spec fn event_kind_of(lowered: Seq<char>) -> EventKind {
    if lowered == vote_name() {
        EventKind::Vote
    } else if lowered == rate_name() {
        EventKind::Rate
    } else {
        EventKind::Other
    }
}

/// The reason that a `Disconnect` payload gives: its text where it is a
/// string, else empty.
pub open spec fn reason_of(data: Json) -> Seq<char> {
    match data {
        Json::Str(s) => s@,
        _ => Seq::empty(),
    }
}

/// `data` is the object `{"token": token}`.
pub open spec fn is_token_object(data: Json, token: Seq<char>) -> bool {
    &&& data matches Json::Object(ms)
    &&& ms@.len() == 1
    &&& is_str_entry(ms@[0], token_key(), token)
}

/// `m` is the handshake reply that identifies with `token`.
pub open spec fn is_identify(m: PayloadModel, token: Seq<char>) -> bool {
    &&& m.op == GatewayOp::Identify
    &&& is_token_object(m.data, token)
    &&& m.event.len() == 0
}

/// `r` is what the envelope `m` leads to, for a client holding `token`,
/// where `lowered` is the lower-cased event name.
pub open spec fn routes(
    m: PayloadModel,
    lowered: Seq<char>,
    token: Seq<char>,
    r: Result<Dispatch, ClientError>,
) -> bool {
    match m.op {
        GatewayOp::Ready => match entity_model_of(m.data) {
            Some(e) => r matches Ok(Dispatch::Ready(x)) && x@ == e,
            None => r == Err::<Dispatch, ClientError>(ClientError::InvalidData),
        },
        GatewayOp::Hello => r matches Ok(Dispatch::Identify(p)) && is_identify(p@, token),
        GatewayOp::Event => match event_kind_of(lowered) {
            EventKind::Vote => match vote_model_of(m.data) {
                Some(v) => r matches Ok(Dispatch::Vote(x)) && x@ == v,
                None => r == Err::<Dispatch, ClientError>(ClientError::InvalidData),
            },
            EventKind::Rate => match rate_model_of(m.data) {
                Some(v) => r matches Ok(Dispatch::Rate(x)) && x@ == v,
                None => r == Err::<Dispatch, ClientError>(ClientError::InvalidData),
            },
            EventKind::Other => r == Ok::<Dispatch, ClientError>(Dispatch::Nothing),
        },
        GatewayOp::Disconnect => r matches Ok(Dispatch::Disconnect(s)) && s@ == reason_of(m.data),
        GatewayOp::Identify => r == Ok::<Dispatch, ClientError>(Dispatch::Nothing),
    }
}

/// `f` is the wire form of the handshake reply that identifies with `token`.
pub open spec fn is_identify_frame(f: Json, token: Seq<char>) -> bool {
    exists|m: PayloadModel| is_payload_json(f, m) && is_identify(m, token)
}

/// The reply `r` and the stored entity `after` that an envelope `m` leads to,
/// from the stored entity `before`.
pub open spec fn reacts(
    m: PayloadModel,
    lowered: Seq<char>,
    token: Seq<char>,
    before: Option<EntityModel>,
    r: Result<Option<Json>, ClientError>,
    after: Option<EntityModel>,
) -> bool {
    match m.op {
        GatewayOp::Ready => match entity_model_of(m.data) {
            Some(e) => r == Ok::<Option<Json>, ClientError>(None) && after == Some(e),
            None => r == Err::<Option<Json>, ClientError>(ClientError::InvalidData) && after
                == before,
        },
        GatewayOp::Hello => r matches Ok(Some(f)) && is_identify_frame(f, token) && after == before,
        GatewayOp::Event => after == before && match event_kind_of(lowered) {
            EventKind::Vote if vote_model_of(m.data) is None => r == Err::<
                Option<Json>,
                ClientError,
            >(ClientError::InvalidData),
            EventKind::Rate if rate_model_of(m.data) is None => r == Err::<
                Option<Json>,
                ClientError,
            >(ClientError::InvalidData),
            _ => r == Ok::<Option<Json>, ClientError>(None),
        },
        _ => r == Ok::<Option<Json>, ClientError>(None) && after == before,
    }
}

/// The reply `r` and the stored entity `after` that a frame with text `text`
/// leads to, where `tree` is that text read as JSON (none where it is not JSON).
pub open spec fn frame_outcome(
    token: Seq<char>,
    text: Seq<char>,
    tree: Option<Json>,
    before: Option<EntityModel>,
    r: Result<Option<Json>, ClientError>,
    after: Option<EntityModel>,
) -> bool {
    if text == close_notice() {
        r == Ok::<Option<Json>, ClientError>(None) && after == before
    } else {
        match tree {
            Some(j) => match payload_model_of(j) {
                Some(m) => reacts(m, lower_of(m.event), token, before, r, after),
                None => after == before && if unknown_op_envelope(j) {
                    r == Ok::<Option<Json>, ClientError>(None)
                } else {
                    r == Err::<Option<Json>, ClientError>(ClientError::CannotParsePayload)
                },
            },
            None => r == Err::<Option<Json>, ClientError>(ClientError::CannotParsePayload) && after
                == before,
        }
    }
}

/// The kind of event whose lower-cased name is `lowered`.
pub fn event_kind(lowered: &str) -> (r: EventKind)
    ensures
        r == event_kind_of(lowered@),
{
    proof {
        reveal_strlit("vote");
        reveal_strlit("rate");
    }
    assert("vote"@ =~= vote_name());
    assert("rate"@ =~= rate_name());
    if same_text(lowered, "vote") {
        EventKind::Vote
    } else if same_text(lowered, "rate") {
        EventKind::Rate
    } else {
        EventKind::Other
    }
}

/// The handshake reply that identifies with `token`.
pub fn identify(token: &str) -> (r: Payload)
    ensures
        is_identify(r@, token@),
{
    proof {
        reveal_strlit("token");
    }
    let key = "token".to_string();
    assert(key@ =~= token_key());
    let mut ms: Vec<(String, Json)> = Vec::new();
    ms.push((key, Json::Str(token.to_string())));
    Payload { op: GatewayOp::Identify, data: Json::Object(ms), event: String::new() }
}

/// What the envelope `p` leads to, for a client holding `token`, where
/// `lowered` is the lower-cased form of `p`'s event name.
pub fn route_lowered(p: Payload, lowered: &str, token: &str) -> (r: Result<Dispatch, ClientError>)
    ensures
        routes(p@, lowered@, token@, r),
{
    match p.op {
        GatewayOp::Ready => match Entity::from_json(&p.data) {
            Some(e) => Ok(Dispatch::Ready(e)),
            None => Err(ClientError::InvalidData),
        },
        GatewayOp::Hello => Ok(Dispatch::Identify(identify(token))),
        GatewayOp::Event => match event_kind(lowered) {
            EventKind::Vote => match VoteData::from_json(&p.data) {
                Some(v) => Ok(Dispatch::Vote(v)),
                None => Err(ClientError::InvalidData),
            },
            EventKind::Rate => match RateData::from_json(&p.data) {
                Some(v) => Ok(Dispatch::Rate(v)),
                None => Err(ClientError::InvalidData),
            },
            EventKind::Other => Ok(Dispatch::Nothing),
        },
        GatewayOp::Disconnect => match p.data {
            Json::Str(s) => Ok(Dispatch::Disconnect(s)),
            _ => Ok(Dispatch::Disconnect(String::new())),
        },
        GatewayOp::Identify => Ok(Dispatch::Nothing),
    }
}

/// What the envelope `p` leads to, for a client holding `token`; the event
/// name is compared without regard to case.
pub fn route(p: Payload, token: &str) -> (r: Result<Dispatch, ClientError>)
    ensures
        routes(p@, lower_of(p.event@), token@, r),
        is_ascii_chars(p.event@) ==> lower_of(p.event@) == p.event@.map_values(
            |c: char| ascii_lower_char(c),
        ),
{
    let lowered = lowercase(p.event.as_str());
    route_lowered(p, lowered.as_str(), token)
}

/// What a frame with text `text` leads to, for a client holding `token`,
/// where `tree` is that text read as JSON (none where it is not JSON).
pub open spec fn frame_dispatch(
    token: Seq<char>,
    text: Seq<char>,
    tree: Option<Json>,
    r: Result<Dispatch, ClientError>,
) -> bool {
    if text == close_notice() {
        r == Ok::<Dispatch, ClientError>(Dispatch::Nothing)
    } else {
        match tree {
            Some(j) => match payload_model_of(j) {
                Some(m) => routes(m, lower_of(m.event), token, r),
                None => if unknown_op_envelope(j) {
                    r == Ok::<Dispatch, ClientError>(Dispatch::Nothing)
                } else {
                    r == Err::<Dispatch, ClientError>(ClientError::CannotParsePayload)
                },
            },
            None => r == Err::<Dispatch, ClientError>(ClientError::CannotParsePayload),
        }
    }
}

/// A handler that ignores every event.
pub struct IgnoreEvents;

impl EventHandler for IgnoreEvents {

}

/// A connection's state: the token it identifies with, the handler that
/// receives its events, and the entity that the last handshake resolved.
pub struct Client<H: EventHandler> {
    pub token: String,
    pub handler: H,
    pub entity: Option<Entity>,
}

impl<H: EventHandler> Client<H> {
    /// The token that the client identifies with.
    pub open spec fn spec_token(&self) -> Seq<char> {
        self.token@
    }

    /// The handler that receives the events.
    pub open spec fn spec_handler(&self) -> H {
        self.handler
    }

    /// The entity that the last handshake resolved.
    pub open spec fn spec_entity(&self) -> Option<EntityModel> {
        opt_entity_view(self.entity)
    }

    /// A client that has not yet connected.
    pub fn new(token: String, handler: H) -> (r: Self)
        ensures
            r.spec_token() == token@,
            r.spec_handler() == handler,
            r.spec_entity() is None,
    {
        Client { token, handler, entity: None }
    }

    /// The token that the client identifies with.
    pub fn token(&self) -> (r: &str)
        ensures
            r@ == self.spec_token(),
    {
        self.token.as_str()
    }

    /// The handler that receives the events.
    pub fn handler(&self) -> (r: &H)
        ensures
            *r == self.spec_handler(),
    {
        &self.handler
    }

    /// What one inbound frame leads to: `text` is the frame as received and
    /// `tree` is that text read as JSON, or none where it is not JSON.
    ///
    /// The close notice, envelopes with an opcode not known here, and inbound
    /// `Identify` envelopes lead to nothing; text that is no envelope is an
    /// error; every other envelope is routed as `route` says.
    pub fn interpret(&self, text: &str, tree: Option<Json>) -> (r: Result<Dispatch, ClientError>)
        ensures
            frame_dispatch(self.spec_token(), text@, tree, r),
            text@ != close_notice() && tree is Some && payload_model_of(tree.unwrap()) is Some
                && is_ascii_chars(payload_model_of(tree.unwrap()).unwrap().event) ==> lower_of(
                payload_model_of(tree.unwrap()).unwrap().event,
            ) == payload_model_of(tree.unwrap()).unwrap().event.map_values(
                |c: char| ascii_lower_char(c),
            ),
    {
        proof {
            reveal_strlit("Connection closed");
        }
        assert("Connection closed"@ =~= close_notice());
        if same_text(text, "Connection closed") {
            return Ok(Dispatch::Nothing);
        }
        let j = match tree {
            Some(j) => j,
            None => return Err(ClientError::CannotParsePayload),
        };
        if is_unknown_op_envelope(&j) {
            return Ok(Dispatch::Nothing);
        }
        match Payload::from_json(j) {
            Some(p) => route(p, self.token.as_str()),
            None => Err(ClientError::CannotParsePayload),
        }
    }

    /// Acts on what a frame led to, with one callback at most: `Ready` stores
    /// the entity and hands it to `on_ready`; `Identify` gives the frame to
    /// send back; `Vote`, `Rate` and `Disconnect` go to `on_vote`, `on_rate`
    /// and `on_disconnect`; `Nothing` does nothing.
    pub fn deliver(&mut self, d: Dispatch) -> (r: Option<Json>)
        ensures
            final(self).spec_token() == old(self).spec_token(),
            final(self).spec_handler() == old(self).spec_handler(),
            match d {
                Dispatch::Ready(e) => r is None && final(self).spec_entity() == Some(e@),
                Dispatch::Identify(p) => r matches Some(f) && is_payload_json(f, p@)
                    && final(self).spec_entity() == old(self).spec_entity(),
                _ => r is None && final(self).spec_entity() == old(self).spec_entity(),
            },
    {
        match d {
            Dispatch::Ready(e) => {
                self.entity = Some(e);
                if let Some(e) = &self.entity {
                    self.handler.on_ready(e);
                }
                None
            },
            Dispatch::Identify(p) => Some(p.to_json()),
            Dispatch::Vote(v) => {
                self.handler.on_vote(v);
                None
            },
            Dispatch::Rate(v) => {
                self.handler.on_rate(v);
                None
            },
            Dispatch::Disconnect(reason) => {
                self.handler.on_disconnect(reason.as_str());
                None
            },
            Dispatch::Nothing => None,
        }
    }

    /// Processes one inbound frame: `interpret` it, then `deliver` what it
    /// led to. At most one callback runs, and it has returned before this
    /// function does.
    pub fn on_message(&mut self, text: &str, tree: Option<Json>) -> (r: Result<
        Option<Json>,
        ClientError,
    >)
        ensures
            final(self).spec_token() == old(self).spec_token(),
            final(self).spec_handler() == old(self).spec_handler(),
            frame_outcome(
                old(self).spec_token(),
                text@,
                tree,
                old(self).spec_entity(),
                r,
                final(self).spec_entity(),
            ),
    {
        let d = match self.interpret(text, tree) {
            Ok(d) => d,
            Err(e) => return Err(e),
        };
        let ghost reply = match &d {
            Dispatch::Identify(q) => Some(q@),
            _ => None,
        };
        let f = self.deliver(d);
        proof {
            if reply is Some {
                assert(is_payload_json(f.unwrap(), reply.unwrap()));
            }
        }
        Ok(f)
    }
}

/// The handshake reply, once encoded, decodes to an `Identify` envelope whose
/// data is `{"token": token}` and whose event name is empty.
pub proof fn lemma_identify_round_trip(f: Json, token: Seq<char>)
    requires
        is_identify_frame(f, token),
    ensures
        payload_model_of(f) matches Some(m) && is_identify(m, token),
{
    let m = choose|m: PayloadModel| is_payload_json(f, m) && is_identify(m, token);
    lemma_payload_round_trip(f, m);
}

/// A frame that is JSON but not an envelope is dropped with a parse error,
/// and leaves the stored entity as it was.
pub proof fn lemma_non_envelope_dropped(
    token: Seq<char>,
    text: Seq<char>,
    j: Json,
    before: Option<EntityModel>,
    r: Result<Option<Json>, ClientError>,
    after: Option<EntityModel>,
)
    requires
        text != close_notice(),
        payload_model_of(j) is None,
        !unknown_op_envelope(j),
        frame_outcome(token, text, Some(j), before, r, after),
    ensures
        r == Err::<Option<Json>, ClientError>(ClientError::CannotParsePayload),
        after == before,
{
}

/// A `Hello` envelope is answered with exactly one frame, the `Identify`
/// envelope that carries the client's token, and changes nothing else.
pub proof fn lemma_hello_identifies(
    token: Seq<char>,
    text: Seq<char>,
    j: Json,
    before: Option<EntityModel>,
    r: Result<Option<Json>, ClientError>,
    after: Option<EntityModel>,
)
    requires
        text != close_notice(),
        payload_model_of(j) matches Some(m) && m.op == GatewayOp::Hello,
        frame_outcome(token, text, Some(j), before, r, after),
    ensures
        r matches Ok(Some(f)) && is_identify_frame(f, token),
        after == before,
{
}

/// A `Ready` envelope whose data is an entity stores that entity, replacing
/// any earlier one, and sends nothing back.
pub proof fn lemma_ready_stores_entity(
    token: Seq<char>,
    text: Seq<char>,
    j: Json,
    before: Option<EntityModel>,
    r: Result<Option<Json>, ClientError>,
    after: Option<EntityModel>,
)
    requires
        text != close_notice(),
        payload_model_of(j) matches Some(m) && m.op == GatewayOp::Ready && entity_model_of(
            m.data,
        ) is Some,
        frame_outcome(token, text, Some(j), before, r, after),
    ensures
        r == Ok::<Option<Json>, ClientError>(None),
        after == entity_model_of(payload_model_of(j).unwrap().data),
{
}

/// An `Event` envelope whose name lower-cases to `vote` and whose data is a
/// vote is routed to the vote callback with that vote, and to nothing else.
pub proof fn lemma_vote_event_routed(
    m: PayloadModel,
    token: Seq<char>,
    r: Result<Dispatch, ClientError>,
)
    requires
        m.op == GatewayOp::Event,
        lower_of(m.event) == vote_name(),
        vote_model_of(m.data) is Some,
        routes(m, lower_of(m.event), token, r),
    ensures
        r matches Ok(Dispatch::Vote(v)) && v@ == vote_model_of(m.data).unwrap(),
{
}

/// An `Event` envelope whose lower-cased name is neither `vote` nor `rate`
/// is ignored without error.
pub proof fn lemma_unknown_event_ignored(
    m: PayloadModel,
    token: Seq<char>,
    r: Result<Dispatch, ClientError>,
)
    requires
        m.op == GatewayOp::Event,
        lower_of(m.event) != vote_name(),
        lower_of(m.event) != rate_name(),
        routes(m, lower_of(m.event), token, r),
    ensures
        r == Ok::<Dispatch, ClientError>(Dispatch::Nothing),
{
}

} // verus!
