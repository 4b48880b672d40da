//! The event decoder: from the payload of a frame to an event, or to the
//! reason why the payload holds none.
//!
//! A payload is parsed as JSON. The event is read from the members `id`,
//! `type` and `actor.display_login` of the document, each of which has to be
//! a string; whatever else the document holds is passed over.

use vstd::prelude::*;
use vstd::string::*;
use crate::error::{AppError, AppErrorView};
use crate::json::{error_text, json_of, json_parse, member, parse_document, text_of, Json};
use crate::record::{Actor, ActorView, GithubEvent, GithubEventView, RawFrame, RawFrameView};

verus! {

/// What a document holds where a string is looked for.
#[derive(Debug, Clone, PartialEq, Eq)]
pub enum Member {
    /// Nothing is there.
    Absent,
    /// Something is there that is no string.
    NotText,
    /// The string that is there.
    Text(String),
}

pub enum MemberView {
    Absent,
    NotText,
    Text(Seq<char>),
}

impl View for Member {
    type V = MemberView;

    open spec fn view(&self) -> MemberView {
        match self {
            Member::Absent => MemberView::Absent,
            Member::NotText => MemberView::NotText,
            Member::Text(text) => MemberView::Text(text@),
        }
    }
}

/// What a document holds where the actor is looked for.
#[derive(Debug, Clone, PartialEq, Eq)]
pub enum ActorMember {
    /// The document has no member `actor`.
    Absent,
    /// It has one: what that member holds under `display_login`.
    Present(Member),
}

pub enum ActorMemberView {
    Absent,
    Present(MemberView),
}

impl View for ActorMember {
    type V = ActorMemberView;

    open spec fn view(&self) -> ActorMemberView {
        match self {
            ActorMember::Absent => ActorMemberView::Absent,
            ActorMember::Present(login) => ActorMemberView::Present(login@),
        }
    }
}

/// The parts of a document that an event is made of, each as it was found.
#[derive(Debug, Clone, PartialEq, Eq)]
pub struct Envelope {
    pub id: Member,
    pub event_type: Member,
    pub actor: ActorMember,
}

pub struct EnvelopeView {
    pub id: MemberView,
    pub event_type: MemberView,
    pub actor: ActorMemberView,
}

impl View for Envelope {
    type V = EnvelopeView;

    open spec fn view(&self) -> EnvelopeView {
        EnvelopeView { id: self.id@, event_type: self.event_type@, actor: self.actor@ }
    }
}

/// What `doc` holds under `key` where a string is looked for.
pub open spec fn member_of(doc: Json, key: Seq<char>) -> MemberView {
    match doc {
        Json::Object(members) => if members.contains_key(key) {
            match members[key] {
                Json::Text(text) => MemberView::Text(text),
                _ => MemberView::NotText,
            }
        } else {
            MemberView::Absent
        },
        _ => MemberView::Absent,
    }
}

/// What `doc` holds where the actor is looked for.
pub open spec fn actor_of(doc: Json) -> ActorMemberView {
    match doc {
        Json::Object(members) => if members.contains_key("actor"@) {
            ActorMemberView::Present(member_of(members["actor"@], "display_login"@))
        } else {
            ActorMemberView::Absent
        },
        _ => ActorMemberView::Absent,
    }
}

/// The parts of `doc` that an event is made of.
pub open spec fn envelope_of(doc: Json) -> EnvelopeView {
    EnvelopeView {
        id: member_of(doc, "id"@),
        event_type: member_of(doc, "type"@),
        actor: actor_of(doc),
    }
}

/// What parsing a payload gives the decoder: the envelope of the document, or
/// the parser's message.
pub open spec fn inspected(parsed: Result<Json, Seq<char>>) -> Result<EnvelopeView, Seq<char>> {
    match parsed {
        Ok(doc) => Ok(envelope_of(doc)),
        Err(message) => Err(message),
    }
}

/// The reason given for a field that is not there.
pub open spec fn missing(field: Seq<char>) -> Seq<char> {
    "missing field `"@ + field + "`"@
}

/// The reason given for a field that holds no string.
pub open spec fn mistyped(field: Seq<char>) -> Seq<char> {
    "invalid type for field `"@ + field + "`, expected a string"@
}

/// The string of a required field, or the reason why there is none.
pub open spec fn required(found: MemberView, field: Seq<char>) -> Result<Seq<char>, Seq<char>> {
    match found {
        MemberView::Text(text) => Ok(text),
        MemberView::NotText => Err(mistyped(field)),
        MemberView::Absent => Err(missing(field)),
    }
}

/// The login of the actor, or the reason why there is none.
pub open spec fn required_login(found: ActorMemberView) -> Result<Seq<char>, Seq<char>> {
    match found {
        ActorMemberView::Present(login) => required(login, "actor.display_login"@),
        ActorMemberView::Absent => Err(missing("actor"@)),
    }
}

/// The event that an envelope holds, or the reason why it holds none. The
/// fields are looked at in the order `id`, `type`, `actor`, and the first one
/// that fails gives the reason.
pub open spec fn event_of(envelope: EnvelopeView) -> Result<GithubEventView, Seq<char>> {
    match required(envelope.id, "id"@) {
        Err(reason) => Err(reason),
        Ok(id) => match required(envelope.event_type, "type"@) {
            Err(reason) => Err(reason),
            Ok(event_type) => match required_login(envelope.actor) {
                Err(reason) => Err(reason),
                Ok(display_login) => Ok(
                    GithubEventView { id, event_type, actor: ActorView { display_login } },
                ),
            },
        },
    }
}

/// What a payload decodes to, given what parsing it gave: the event, or a
/// `JsonError` that holds the payload and the reason.
pub open spec fn assembled(payload: Seq<char>, parsed: Result<EnvelopeView, Seq<char>>) -> Result<
    GithubEventView,
    AppErrorView,
> {
    match parsed {
        Err(message) => Err(AppErrorView::JsonError { payload, reason: message }),
        Ok(envelope) => match event_of(envelope) {
            Ok(event) => Ok(event),
            Err(reason) => Err(AppErrorView::JsonError { payload, reason }),
        },
    }
}

/// What a frame decodes to.
pub open spec fn decoded(frame: RawFrameView) -> Result<GithubEventView, AppErrorView> {
    assembled(frame.payload, inspected(json_parse(frame.payload)))
}

/// The view of what the decoder returns.
pub open spec fn outcome_view(outcome: Result<GithubEvent, AppError>) -> Result<
    GithubEventView,
    AppErrorView,
> {
    match outcome {
        Ok(event) => Ok(event@),
        Err(error) => Err(error@),
    }
}

/// The view of what inspecting a payload returns.
pub open spec fn inspection_view(parsed: Result<Envelope, String>) -> Result<
    EnvelopeView,
    Seq<char>,
> {
    match parsed {
        Ok(envelope) => Ok(envelope@),
        Err(message) => Err(message@),
    }
}

fn read_member(doc: &serde_json::Value, key: &str) -> (r: Member)
    ensures
        r@ == member_of(json_of(*doc), key@),
{
    match member(doc, key) {
        None => Member::Absent,
        Some(found) => match text_of(found) {
            Some(text) => Member::Text(String::from_str(text)),
            None => Member::NotText,
        },
    }
}

fn read_actor(doc: &serde_json::Value) -> (r: ActorMember)
    ensures
        r@ == actor_of(json_of(*doc)),
{
    match member(doc, "actor") {
        None => ActorMember::Absent,
        Some(actor) => ActorMember::Present(read_member(actor, "display_login")),
    }
}

/// Reads out of a parsed document the parts that an event is made of.
pub fn read_envelope(doc: &serde_json::Value) -> (r: Envelope)
    ensures
        r@ == envelope_of(json_of(*doc)),
{
    Envelope {
        id: read_member(doc, "id"),
        event_type: read_member(doc, "type"),
        actor: read_actor(doc),
    }
}

/// Parses a payload and reads the envelope of the document, or hands on the
/// parser's message where the payload is no JSON.
pub fn inspect(payload: &str) -> (r: Result<Envelope, String>)
    ensures
        inspection_view(r) == inspected(json_parse(payload@)),
{
    match parse_document(payload) {
        Ok(doc) => Ok(read_envelope(&doc)),
        Err(error) => Err(error_text(&error)),
    }
}

fn missing_reason(field: &str) -> (r: String)
    ensures
        r@ == missing(field@),
{
    let mut reason = String::from_str("missing field `");
    reason.append(field);
    reason.append("`");
    reason
}

fn mistyped_reason(field: &str) -> (r: String)
    ensures
        r@ == mistyped(field@),
{
    let mut reason = String::from_str("invalid type for field `");
    reason.append(field);
    reason.append("`, expected a string");
    reason
}

fn require(found: Member, field: &str) -> (r: Result<String, String>)
    ensures
        match r {
            Ok(text) => required(found@, field@) == Ok::<Seq<char>, Seq<char>>(text@),
            Err(reason) => required(found@, field@) == Err::<Seq<char>, Seq<char>>(reason@),
        },
{
    match found {
        Member::Text(text) => Ok(text),
        Member::NotText => Err(mistyped_reason(field)),
        Member::Absent => Err(missing_reason(field)),
    }
}

fn require_login(found: ActorMember) -> (r: Result<String, String>)
    ensures
        match r {
            Ok(text) => required_login(found@) == Ok::<Seq<char>, Seq<char>>(text@),
            Err(reason) => required_login(found@) == Err::<Seq<char>, Seq<char>>(reason@),
        },
{
    match found {
        ActorMember::Present(login) => require(login, "actor.display_login"),
        ActorMember::Absent => Err(missing_reason("actor")),
    }
}

/// Makes the event out of an envelope, or says which field stands in the way.
pub fn event_from(envelope: Envelope) -> (r: Result<GithubEvent, String>)
    ensures
        match r {
            Ok(event) => event_of(envelope@) == Ok::<GithubEventView, Seq<char>>(event@),
            Err(reason) => event_of(envelope@) == Err::<GithubEventView, Seq<char>>(reason@),
        },
{
    let Envelope { id, event_type, actor } = envelope;
    let id = match require(id, "id") {
        Ok(text) => text,
        Err(reason) => {
            return Err(reason);
        },
    };
    let event_type = match require(event_type, "type") {
        Ok(text) => text,
        Err(reason) => {
            return Err(reason);
        },
    };
    let display_login = match require_login(actor) {
        Ok(text) => text,
        Err(reason) => {
            return Err(reason);
        },
    };
    Ok(GithubEvent { id, event_type, actor: Actor { display_login } })
}

/// Decides what a payload decodes to, given what parsing it gave.
pub fn assemble(payload: String, parsed: Result<Envelope, String>) -> (r: Result<
    GithubEvent,
    AppError,
>)
    ensures
        outcome_view(r) == assembled(payload@, inspection_view(parsed)),
{
    match parsed {
        Err(message) => Err(AppError::JsonError { payload, reason: message }),
        Ok(envelope) => match event_from(envelope) {
            Ok(event) => Ok(event),
            Err(reason) => Err(AppError::JsonError { payload, reason }),
        },
    }
}

/// Decodes a frame: the event that its payload holds, or a `JsonError` with
/// the payload and the reason.
pub fn decode(frame: RawFrame) -> (r: Result<GithubEvent, AppError>)
    ensures
        outcome_view(r) == decoded(frame@),
{
    let parsed = inspect(frame.payload.as_str());
    assemble(frame.payload, parsed)
}

/// The decoding stage of the pipeline. It keeps nothing between two frames.
#[derive(Debug, Clone, Copy, PartialEq, Eq)]
pub struct EventProcessor {}

impl EventProcessor {
    pub fn new() -> (r: Self)
        ensures
            r == (EventProcessor {  }),
    {
        EventProcessor {  }
    }

    /// Decodes one frame. A frame that does not decode is an error of its own
    /// and leaves the processor as it was.
    pub fn process_event(&self, event: RawFrame) -> (r: Result<GithubEvent, AppError>)
        ensures
            outcome_view(r) == decoded(event@),
    {
        decode(event)
    }
}

} // verus!
