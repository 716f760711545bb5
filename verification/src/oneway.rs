//! The one-way protocol: orders that a client sends without waiting for an
//! answer. Each message is one JSON value: an order that carries something
//! is an object of one member named after it, an order that carries
//! nothing is its bare name.

use vstd::prelude::*;
use crate::json::{
    json_text, lemma_members_view, parse, parsed_json, render, Json, JsonView, Member,
};
use crate::text::same_text;

verus! {

/// An order of the one-way protocol.
#[derive(Debug, PartialEq, Eq)]
pub enum Message {
    /// Show the wallpaper at this path.
    SwitchToBackground(String),
    /// Open the playlist for editing.
    EditQueue,
}

/// An order as contracts see it.
pub enum MessageView {
    SwitchToBackground(Seq<char>),
    EditQueue,
}

impl View for Message {
    type V = MessageView;

    open spec fn view(&self) -> MessageView {
        match *self {
            Message::SwitchToBackground(path) => MessageView::SwitchToBackground(path@),
            Message::EditQueue => MessageView::EditQueue,
        }
    }
}

/// The JSON value that stands for an order.
pub open spec fn json_of_message(message: MessageView) -> JsonView {
    match message {
        MessageView::SwitchToBackground(path) => JsonView::Object(
            seq![("SwitchToBackground"@, JsonView::Text(path))],
        ),
        MessageView::EditQueue => JsonView::Text("EditQueue"@),
    }
}

/// The order that a JSON value stands for, if it stands for one. The order
/// that carries nothing may also come as an object whose one member bears
/// its name and holds `null`.
pub open spec fn message_of_json(json: JsonView) -> Option<MessageView> {
    match json {
        JsonView::Text(name) => if name == "EditQueue"@ {
            Some(MessageView::EditQueue)
        } else {
            None
        },
        JsonView::Object(members) => if members.len() != 1 {
            None
        } else if members[0].0 == "SwitchToBackground"@ {
            match members[0].1 {
                JsonView::Text(path) => Some(MessageView::SwitchToBackground(path)),
                _ => None,
            }
        } else if members[0].0 == "EditQueue"@ && members[0].1 == JsonView::Null {
            Some(MessageView::EditQueue)
        } else {
            None
        },
        _ => None,
    }
}

impl Message {
    /// The JSON value that stands for the order.
    pub fn to_json(&self) -> (r: Json)
        ensures
            r@ == json_of_message(self@),
    {
        match self {
            Message::SwitchToBackground(path) => {
                let mut members: Vec<Member> = Vec::new();
                members.push(
                    Member { key: "SwitchToBackground".to_owned(), value: Json::Text(path.clone()) },
                );
                let json = Json::Object(members);
                proof {
                    lemma_members_view(members@);
                    assert(json@ matches JsonView::Object(got) && got =~= seq![
                        ("SwitchToBackground"@, JsonView::Text(path@)),
                    ]);
                }
                json
            },
            Message::EditQueue => Json::Text("EditQueue".to_owned()),
        }
    }

    /// The order that a JSON value stands for, if it stands for one.
    pub fn from_json(json: &Json) -> (r: Option<Message>)
        ensures
            match r {
                Some(message) => message_of_json(json@) == Some(message@),
                None => message_of_json(json@) is None,
            },
    {
        match json {
            Json::Text(name) => {
                if same_text(name.as_str(), "EditQueue") {
                    Some(Message::EditQueue)
                } else {
                    None
                }
            },
            Json::Object(members) => {
                proof {
                    lemma_members_view(members@);
                }
                if members.len() != 1 {
                    return None;
                }
                let only = &members[0];
                if same_text(only.key.as_str(), "SwitchToBackground") {
                    match &only.value {
                        Json::Text(path) => Some(Message::SwitchToBackground(path.clone())),
                        _ => None,
                    }
                } else if same_text(only.key.as_str(), "EditQueue") {
                    match &only.value {
                        Json::Null => Some(Message::EditQueue),
                        _ => None,
                    }
                } else {
                    None
                }
            },
            _ => None,
        }
    }
}

/// The text to send for an order.
pub fn send(message: &Message) -> (r: String)
    ensures
        r@ == json_text(json_of_message(message@)),
{
    render(&message.to_json())
}

/// The order that a text holds, if it is the JSON text of one; any other
/// text is skipped.
pub fn recv(text: &str) -> (r: Option<Message>)
    ensures
        match parsed_json(text@) {
            Some(json) => match r {
                Some(message) => message_of_json(json) == Some(message@),
                None => message_of_json(json) is None,
            },
            None => r is None,
        },
{
    match parse(text) {
        Some(json) => Message::from_json(&json),
        None => None,
    }
}

/// Reading back the JSON value of an order gives that order.
pub proof fn message_round_trip(message: MessageView)
    ensures
        message_of_json(json_of_message(message)) == Some(message),
{
}

} // verus!
