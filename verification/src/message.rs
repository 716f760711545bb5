//! Requests and responses exchanged between a client and the daemon.

use vstd::prelude::*;
use vstd::std_specs::convert::TryFromSpecImpl;
use crate::text::{clone_paths, paths_of, same_text};

verus! {

/// Where a moved wallpaper lands relative to its target.
#[derive(Clone, Copy, Debug, PartialEq, Eq, Structural)]
pub enum Position {
    Before,
    After,
}

/// What a client asks of the daemon.
#[derive(Debug, PartialEq, Eq)]
pub enum Request {
    /// Show the wallpaper with exactly this path.
    SwitchToBackground(String),
    /// Move a wallpaper before or after another; both are named by the end
    /// of their paths.
    RearrangeBackground((String, Position, String)),
    /// Send the playlist.
    GetQueue,
}

/// What the daemon answers; each request has the answer of its own name.
#[derive(Debug, PartialEq, Eq)]
pub enum Response {
    /// Whether the switch was made.
    SwitchToBackground(bool),
    /// Whether the move was made, the index the wallpaper was taken from
    /// and the index it landed at; both are zero when it was not made.
    RearrangeBackground((bool, usize, usize)),
    /// The playlist, in rotation order.
    GetQueue(Vec<String>),
}

/// A request as contracts see it.
pub enum RequestView {
    SwitchToBackground(Seq<char>),
    RearrangeBackground(Seq<char>, Position, Seq<char>),
    GetQueue,
}

/// A response as contracts see it.
pub enum ResponseView {
    SwitchToBackground(bool),
    RearrangeBackground(bool, usize, usize),
    GetQueue(Seq<Seq<char>>),
}

impl View for Request {
    type V = RequestView;

    open spec fn view(&self) -> RequestView {
        match *self {
            Request::SwitchToBackground(path) => RequestView::SwitchToBackground(path@),
            Request::RearrangeBackground((bg, position, target_bg)) => {
                RequestView::RearrangeBackground(bg@, position, target_bg@)
            },
            Request::GetQueue => RequestView::GetQueue,
        }
    }
}

impl View for Response {
    type V = ResponseView;

    open spec fn view(&self) -> ResponseView {
        match *self {
            Response::SwitchToBackground(ok) => ResponseView::SwitchToBackground(ok),
            Response::RearrangeBackground((ok, moved, landing)) => {
                ResponseView::RearrangeBackground(ok, moved, landing)
            },
            Response::GetQueue(items) => ResponseView::GetQueue(paths_of(items@)),
        }
    }
}

impl Clone for Response {
    fn clone(&self) -> (r: Response)
        ensures
            r@ == self@,
    {
        match self {
            Response::SwitchToBackground(ok) => Response::SwitchToBackground(*ok),
            Response::RearrangeBackground((ok, moved, landing)) => {
                Response::RearrangeBackground((*ok, *moved, *landing))
            },
            Response::GetQueue(items) => Response::GetQueue(clone_paths(items)),
        }
    }
}

/// What `Position::try_from` says of a word that names no position.
pub open spec fn position_error() -> Seq<char> {
    "Position must be 'before' or 'after'"@
}

/// The position that a word names: `before` or `after`, in lower case.
pub open spec fn position_named(word: Seq<char>) -> Option<Position> {
    if word == "before"@ {
        Some(Position::Before)
    } else if word == "after"@ {
        Some(Position::After)
    } else {
        None
    }
}

impl TryFrom<&str> for Position {
    type Error = &'static str;

    fn try_from(value: &str) -> (r: Result<Self, Self::Error>) {
        if same_text(value, "before") {
            Ok(Position::Before)
        } else if same_text(value, "after") {
            Ok(Position::After)
        } else {
            Err("Position must be 'before' or 'after'")
        }
    }
}

impl TryFromSpecImpl<&str> for Position {
    open spec fn obeys_try_from_spec() -> bool {
        true
    }

    open spec fn try_from_spec(value: &str) -> Result<Self, &'static str> {
        match position_named(value@) {
            Some(position) => Ok(position),
            None => Err("Position must be 'before' or 'after'"),
        }
    }
}

impl Position {
    /// The word that names the position on the wire and to the user.
    pub open spec fn name(self) -> Seq<char> {
        match self {
            Position::Before => "before"@,
            Position::After => "after"@,
        }
    }

    /// The word that names the position: `before` or `after`.
    pub fn to_string(&self) -> (r: String)
        ensures
            r@ == self.name(),
    {
        match self {
            Position::Before => "before".to_owned(),
            Position::After => "after".to_owned(),
        }
    }
}

/// The word of a position names that position and no other.
pub proof fn position_name_round_trip(position: Position)
    ensures
        position_named(position.name()) == Some(position),
{
    reveal_strlit("before");
    reveal_strlit("after");
    assert("before"@.len() != "after"@.len());
}

impl Response {
    /// Whether the response is the answer to a request of the kind of
    /// `request`: each kind of request has the answer of its own name, and
    /// nothing else ties an answer to its request.
    pub open spec fn answers_spec(self, request: RequestView) -> bool {
        match (self@, request) {
            (ResponseView::SwitchToBackground(_), RequestView::SwitchToBackground(_)) => true,
            (
                ResponseView::RearrangeBackground(_, _, _),
                RequestView::RearrangeBackground(_, _, _),
            ) => true,
            (ResponseView::GetQueue(_), RequestView::GetQueue) => true,
            _ => false,
        }
    }

    /// Whether the response is the answer to a request of the kind of `request`.
    pub fn answers(&self, request: &Request) -> (r: bool)
        ensures
            r == self.answers_spec(request@),
    {
        match (self, request) {
            (Response::SwitchToBackground(_), Request::SwitchToBackground(_)) => true,
            (Response::RearrangeBackground(_), Request::RearrangeBackground(_)) => true,
            (Response::GetQueue(_), Request::GetQueue) => true,
            _ => false,
        }
    }
}

impl Request {
    /// The request to move `bg` to the side of `target_bg` that `position`
    /// names; refused when `position` is neither `before` nor `after`.
    pub fn rearrange_background(bg: String, position: String, target_bg: String) -> (r: Result<
        Request,
        &'static str,
    >)
        ensures
            match position_named(position@) {
                Some(place) => r matches Ok(request) && request@
                    == RequestView::RearrangeBackground(bg@, place, target_bg@),
                None => r matches Err(message) && message@ == position_error(),
            },
    {
        match Position::try_from(position.as_str()) {
            Ok(place) => Ok(Request::RearrangeBackground((bg, place, target_bg))),
            Err(message) => Err(message),
        }
    }
}

} // verus!
