//! The record model: a raw frame as it comes off the wire, and the event that
//! a well-formed payload decodes to.

use vstd::prelude::*;
use vstd::string::*;

verus! {

/// One unit of the event stream: the label of the event and its payload, the
/// `data` lines of the frame joined by newlines.
#[derive(Debug, Clone, PartialEq, Eq)]
pub struct RawFrame {
    pub event_type: String,
    pub payload: String,
}

pub struct RawFrameView {
    pub event_type: Seq<char>,
    pub payload: Seq<char>,
}

impl View for RawFrame {
    type V = RawFrameView;

    open spec fn view(&self) -> RawFrameView {
        RawFrameView { event_type: self.event_type@, payload: self.payload@ }
    }
}

/// Who caused an event.
#[derive(Debug, Clone, PartialEq, Eq)]
pub struct Actor {
    pub display_login: String,
}

pub struct ActorView {
    pub display_login: Seq<char>,
}

impl View for Actor {
    type V = ActorView;

    open spec fn view(&self) -> ActorView {
        ActorView { display_login: self.display_login@ }
    }
}

/// A decoded event. One exists only for a payload that held all of its fields.
#[derive(Debug, Clone, PartialEq, Eq)]
pub struct GithubEvent {
    pub id: String,
    pub event_type: String,
    pub actor: Actor,
}

pub struct GithubEventView {
    pub id: Seq<char>,
    pub event_type: Seq<char>,
    pub actor: ActorView,
}

impl View for GithubEvent {
    type V = GithubEventView;

    open spec fn view(&self) -> GithubEventView {
        GithubEventView { id: self.id@, event_type: self.event_type@, actor: self.actor@ }
    }
}

/// The block of three lines that an event is shown as.
pub open spec fn rendered(event: GithubEventView) -> Seq<char> {
    "id: "@ + event.id + "\ntype: "@ + event.event_type + "\ndisplay login: "@
        + event.actor.display_login
}

impl RawFrame {
    pub fn new(event_type: String, payload: String) -> (r: Self)
        ensures
            r@ == (RawFrameView { event_type: event_type@, payload: payload@ }),
    {
        RawFrame { event_type, payload }
    }
}

impl GithubEvent {
    pub fn new(id: String, event_type: String, display_login: String) -> (r: Self)
        ensures
            r@ == (GithubEventView {
                id: id@,
                event_type: event_type@,
                actor: ActorView { display_login: display_login@ },
            }),
    {
        GithubEvent { id, event_type, actor: Actor { display_login } }
    }

    /// The text that reports this event: its id, its type and the login of its
    /// actor, one per line.
    pub fn render(&self) -> (r: String)
        ensures
            r@ == rendered(self@),
    {
        let mut text = String::from_str("id: ");
        text.append(self.id.as_str());
        text.append("\ntype: ");
        text.append(self.event_type.as_str());
        text.append("\ndisplay login: ");
        text.append(self.actor.display_login.as_str());
        text
    }
}

} // verus!
