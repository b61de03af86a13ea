//! Chat events, and the codec between transport frames and those events.
use vstd::prelude::*;
use crate::identity::{ClientAddr, Color, color_of, derive_color};

verus! {

/// What a chat event carries: a user's message, or a lifecycle marker.
#[derive(Clone, Debug, PartialEq, Eq)]
pub enum Body {
    Text(String),
    Joined,
    Left,
}

/// The unit of broadcast: who it is from, and what it says.
#[derive(Clone, Debug, PartialEq, Eq)]
pub struct ChatEvent {
    pub sender: ClientAddr,
    pub body: Body,
}

/// The mathematical value of a `Body`.
pub enum BodyView {
    Text(Seq<char>),
    Joined,
    Left,
}

/// The mathematical value of a `ChatEvent`.
pub struct EventView {
    pub sender: ClientAddr,
    pub body: BodyView,
}

impl View for Body {
    type V = BodyView;

    open spec fn view(&self) -> BodyView {
        match self {
            Body::Text(t) => BodyView::Text(t@),
            Body::Joined => BodyView::Joined,
            Body::Left => BodyView::Left,
        }
    }
}

impl View for ChatEvent {
    type V = EventView;

    open spec fn view(&self) -> EventView {
        EventView { sender: self.sender, body: self.body@ }
    }
}

impl ChatEvent {
    pub fn new(sender: ClientAddr, body: Body) -> (r: ChatEvent)
        ensures
            r.sender == sender,
            r.body == body,
    {
        ChatEvent { sender, body }
    }
}

/// Unicode's White_Space property, which `char::is_whitespace` follows.
pub open spec fn is_white_space(c: char) -> bool {
    let u = c as u32;
    ||| 0x09 <= u <= 0x0d
    ||| u == 0x20
    ||| u == 0x85
    ||| u == 0xa0
    ||| u == 0x1680
    ||| 0x2000 <= u <= 0x200a
    ||| u == 0x2028
    ||| u == 0x2029
    ||| u == 0x202f
    ||| u == 0x205f
    ||| u == 0x3000
}

/// The number of white space characters at the start of `s`.
pub open spec fn leading_ws(s: Seq<char>) -> nat
    decreases s.len(),
{
    if s.len() > 0 && is_white_space(s[0]) {
        1 + leading_ws(s.drop_first())
    } else {
        0
    }
}

/// The number of white space characters at the end of `s`.
pub open spec fn trailing_ws(s: Seq<char>) -> nat
    decreases s.len(),
{
    if s.len() > 0 && is_white_space(s.last()) {
        1 + trailing_ws(s.drop_last())
    } else {
        0
    }
}

/// `s` without its leading and trailing white space.
pub open spec fn trim_ws(s: Seq<char>) -> Seq<char> {
    if leading_ws(s) == s.len() {
        Seq::empty()
    } else {
        s.subrange(leading_ws(s) as int, s.len() - trailing_ws(s))
    }
}

/// The string under `key` in the JSON object that `text` holds, as
/// serde_json reads it; `None` where `text` is no JSON object, or the key is
/// absent, or its value is no string.
pub uninterp spec fn json_str_field(text: Seq<char>, key: Seq<char>) -> Option<Seq<char>>;

/// The message that an inbound frame carries: its trimmed `msg` field, where
/// that is a string that is not blank.
pub open spec fn decoded(frame: Seq<char>) -> Option<Seq<char>> {
    match json_str_field(frame, "msg"@) {
        Some(m) => if trim_ws(m).len() == 0 {
            None
        } else {
            Some(trim_ws(m))
        },
        None => None,
    }
}

/// Relies on `serde_json::from_str` into a `serde_json::Value`, then
/// `Value::get` and `Value::as_str`: parsing is a function of the text alone.
#[verifier::external_body]
fn read_str_field(text: &str, key: &str) -> (r: Option<String>)
    ensures
        match r {
            Some(s) => json_str_field(text@, key@) == Some(s@),
            None => json_str_field(text@, key@) is None,
        },
{
    match serde_json::from_str::<serde_json::Value>(text) {
        Ok(v) => v.get(key).and_then(serde_json::Value::as_str).map(String::from),
        Err(_) => None,
    }
}

/// Relies on `str::trim`: it removes leading and trailing characters of the
/// Unicode White_Space property.
#[verifier::external_body]
fn trim(s: &str) -> (r: &str)
    ensures
        r@ == trim_ws(s@),
{
    s.trim()
}

/// Decodes an inbound text frame into the message it carries. Malformed,
/// missing and blank messages give `None`: they are dropped, not errors.
pub fn decode(frame: &str) -> (r: Option<String>)
    ensures
        match r {
            Some(s) => decoded(frame@) == Some(s@),
            None => decoded(frame@) is None,
        },
{
    match read_str_field(frame, "msg") {
        Some(m) => {
            let t = trim(m.as_str());
            if t.is_empty() {
                None
            } else {
                Some(t.to_owned())
            }
        },
        None => None,
    }
}

/// A payload whose `msg` field is missing, is no string, or is blank decodes
/// to no message, so nothing is published for it.
pub proof fn lemma_blank_or_missing_is_dropped(frame: Seq<char>)
    requires
        json_str_field(frame, "msg"@) is None || trim_ws(json_str_field(frame, "msg"@)->0).len()
            == 0,
    ensures
        decoded(frame) is None,
{
}

/// A UI fragment to render, with its placement: a line appended to the
/// message list, or the input box that replaces the box's contents.
#[derive(Clone, Debug, PartialEq, Eq)]
pub enum Fragment {
    MessageLine { sender: ClientAddr, color: Color, text: String },
    InputBox { owner: ClientAddr, color: Color },
}

/// The text that the message line of an event shows; a lifecycle marker
/// shows as a tag.
pub open spec fn line_text(b: BodyView) -> Seq<char> {
    match b {
        BodyView::Text(t) => t,
        BodyView::Joined => "<JOINED>"@,
        BodyView::Left => "<LEFT>"@,
    }
}

/// Encodes an event as the message line that every subscriber appends.
pub fn encode(event: &ChatEvent) -> (r: Fragment)
    ensures
        match r {
            Fragment::MessageLine { sender, color, text } => {
                &&& sender == event.sender
                &&& color == color_of(event.sender)
                &&& text@ == line_text(event.body@)
            },
            Fragment::InputBox { .. } => false,
        },
{
    let text = match &event.body {
        Body::Text(t) => t.clone(),
        Body::Joined => "<JOINED>".to_owned(),
        Body::Left => "<LEFT>".to_owned(),
    };
    Fragment::MessageLine { sender: event.sender, color: derive_color(&event.sender), text }
}

/// The input box of a client, reasserting its identity; sent to that client
/// alone.
pub fn input_box(owner: &ClientAddr) -> (r: Fragment)
    ensures
        r == (Fragment::InputBox { owner: *owner, color: color_of(*owner) }),
{
    Fragment::InputBox { owner: *owner, color: derive_color(owner) }
}

} // verus!
