//! The wire format: every message is one JSON object of two members. The
//! member `type` says `request` or `response`; the other is named after the
//! request or response and holds what it carries.

use vstd::prelude::*;
use crate::json::{
    json_text, lemma_list_view, lemma_members_view, list_view, parse, parsed_json, render, Json,
    JsonView, Member,
};
use crate::message::{position_named, Position, Request, RequestView, Response, ResponseView};
use crate::text::{paths_of, same_text};

verus! {

/// The envelope of the given kind around `body`.
pub open spec fn envelope(kind: Seq<char>, body: (Seq<char>, JsonView)) -> JsonView {
    JsonView::Object(seq![body, ("type"@, JsonView::Text(kind))])
}

/// The member that an envelope of the given kind carries beside its `type`.
pub open spec fn envelope_body(json: JsonView, kind: Seq<char>) -> Option<(Seq<char>, JsonView)> {
    match json {
        JsonView::Object(members) => if members.len() != 2 {
            None
        } else if members[0].0 == "type"@ {
            if members[0].1 == JsonView::Text(kind) {
                Some(members[1])
            } else {
                None
            }
        } else if members[1].0 == "type"@ {
            if members[1].1 == JsonView::Text(kind) {
                Some(members[0])
            } else {
                None
            }
        } else {
            None
        },
        _ => None,
    }
}

/// A list of texts.
pub open spec fn text_list(items: Seq<Seq<char>>) -> JsonView {
    JsonView::List(Seq::new(items.len(), |i: int| JsonView::Text(items[i])))
}

/// The texts of a list that holds nothing but texts.
pub open spec fn texts_of(items: Seq<JsonView>) -> Option<Seq<Seq<char>>> {
    if forall|i: int| 0 <= i < items.len() ==> #[trigger] items[i] is Text {
        Some(Seq::new(items.len(), |i: int| items[i]->Text_0))
    } else {
        None
    }
}

/// The member that stands for a request.
pub open spec fn request_body(request: RequestView) -> (Seq<char>, JsonView) {
    match request {
        RequestView::SwitchToBackground(path) => ("switchToBackground"@, JsonView::Text(path)),
        RequestView::RearrangeBackground(bg, place, target_bg) => (
            "rearrangeBackground"@,
            JsonView::List(
                seq![JsonView::Text(bg), JsonView::Text(place.name()), JsonView::Text(target_bg)],
            ),
        ),
        RequestView::GetQueue => ("getQueue"@, JsonView::Null),
    }
}

/// The request that a member stands for.
pub open spec fn request_of_body(body: (Seq<char>, JsonView)) -> Option<RequestView> {
    if body.0 == "switchToBackground"@ {
        match body.1 {
            JsonView::Text(path) => Some(RequestView::SwitchToBackground(path)),
            _ => None,
        }
    } else if body.0 == "rearrangeBackground"@ {
        match body.1 {
            JsonView::List(items) => if items.len() == 3 {
                match (items[0], items[1], items[2]) {
                    (JsonView::Text(bg), JsonView::Text(word), JsonView::Text(target_bg)) => {
                        match position_named(word) {
                            Some(place) => Some(
                                RequestView::RearrangeBackground(bg, place, target_bg),
                            ),
                            None => None,
                        }
                    },
                    _ => None,
                }
            } else {
                None
            },
            _ => None,
        }
    } else if body.0 == "getQueue"@ {
        match body.1 {
            JsonView::Null => Some(RequestView::GetQueue),
            _ => None,
        }
    } else {
        None
    }
}

/// The member that stands for a response.
pub open spec fn response_body(response: ResponseView) -> (Seq<char>, JsonView) {
    match response {
        ResponseView::SwitchToBackground(ok) => ("switchToBackground"@, JsonView::Bool(ok)),
        ResponseView::RearrangeBackground(ok, moved, landing) => (
            "rearrangeBackground"@,
            JsonView::List(
                seq![
                    JsonView::Bool(ok),
                    JsonView::Number(Some(moved as u64)),
                    JsonView::Number(Some(landing as u64)),
                ],
            ),
        ),
        ResponseView::GetQueue(items) => ("getQueue"@, text_list(items)),
    }
}

/// The response that a member stands for.
pub open spec fn response_of_body(body: (Seq<char>, JsonView)) -> Option<ResponseView> {
    if body.0 == "switchToBackground"@ {
        match body.1 {
            JsonView::Bool(ok) => Some(ResponseView::SwitchToBackground(ok)),
            _ => None,
        }
    } else if body.0 == "rearrangeBackground"@ {
        match body.1 {
            JsonView::List(items) => if items.len() == 3 {
                match (items[0], items[1], items[2]) {
                    (
                        JsonView::Bool(ok),
                        JsonView::Number(Some(moved)),
                        JsonView::Number(Some(landing)),
                    ) => if moved <= usize::MAX && landing <= usize::MAX {
                        Some(
                            ResponseView::RearrangeBackground(ok, moved as usize, landing as usize),
                        )
                    } else {
                        None
                    },
                    _ => None,
                }
            } else {
                None
            },
            _ => None,
        }
    } else if body.0 == "getQueue"@ {
        match body.1 {
            JsonView::List(items) => match texts_of(items) {
                Some(texts) => Some(ResponseView::GetQueue(texts)),
                None => None,
            },
            _ => None,
        }
    } else {
        None
    }
}

/// The JSON value that stands for a request.
pub open spec fn json_of_request(request: RequestView) -> JsonView {
    envelope("request"@, request_body(request))
}

/// The request that a JSON value stands for, if it stands for one.
pub open spec fn request_of_json(json: JsonView) -> Option<RequestView> {
    match envelope_body(json, "request"@) {
        Some(body) => request_of_body(body),
        None => None,
    }
}

/// The JSON value that stands for a response.
pub open spec fn json_of_response(response: ResponseView) -> JsonView {
    envelope("response"@, response_body(response))
}

/// The response that a JSON value stands for, if it stands for one.
pub open spec fn response_of_json(json: JsonView) -> Option<ResponseView> {
    match envelope_body(json, "response"@) {
        Some(body) => response_of_body(body),
        None => None,
    }
}

/// The names on the wire differ from one another.
pub proof fn lemma_wire_names()
    ensures
        "type"@ != "switchToBackground"@,
        "type"@ != "rearrangeBackground"@,
        "type"@ != "getQueue"@,
        "switchToBackground"@ != "rearrangeBackground"@,
        "switchToBackground"@ != "getQueue"@,
        "rearrangeBackground"@ != "getQueue"@,
        "request"@ != "response"@,
{
    reveal_strlit("type");
    reveal_strlit("switchToBackground");
    reveal_strlit("rearrangeBackground");
    reveal_strlit("getQueue");
    reveal_strlit("request");
    reveal_strlit("response");
    assert("type"@.len() == 4);
    assert("switchToBackground"@.len() == 18);
    assert("rearrangeBackground"@.len() == 19);
    assert("getQueue"@.len() == 8);
    assert("request"@.len() == 7);
    assert("response"@.len() == 8);
}

/// Reading back the JSON value of a request gives that request.
pub proof fn request_round_trip(request: RequestView)
    ensures
        request_of_json(json_of_request(request)) == Some(request),
        response_of_json(json_of_request(request)) is None,
{
    lemma_wire_names();
    crate::message::position_name_round_trip(Position::Before);
    crate::message::position_name_round_trip(Position::After);
}

/// Reading back the JSON value of a response gives that response.
pub proof fn response_round_trip(response: ResponseView)
    ensures
        response_of_json(json_of_response(response)) == Some(response),
        request_of_json(json_of_response(response)) is None,
{
    lemma_wire_names();
    match response {
        ResponseView::GetQueue(items) => {
            let list = Seq::new(items.len(), |i: int| JsonView::Text(items[i]));
            assert(texts_of(list) == Some(items)) by {
                assert(forall|i: int| 0 <= i < list.len() ==> #[trigger] list[i] is Text);
                assert(Seq::new(list.len(), |i: int| list[i]->Text_0) =~= items);
            }
        },
        _ => {},
    }
}

/// A member with the given key.
fn member(key: &str, value: Json) -> (r: Member)
    ensures
        r.key@ == key@,
        r.value == value,
{
    Member { key: key.to_owned(), value }
}

/// The envelope of the given kind around `body`.
fn enveloped(kind: &str, body: Member) -> (r: Json)
    ensures
        r@ == envelope(kind@, (body.key@, body.value@)),
{
    let mut members: Vec<Member> = Vec::new();
    let ghost body_view = (body.key@, body.value@);
    members.push(body);
    members.push(member("type", Json::Text(kind.to_owned())));
    let json = Json::Object(members);
    proof {
        let expected = seq![body_view, ("type"@, JsonView::Text(kind@))];
        lemma_members_view(members@);
        assert(json@ matches JsonView::Object(got) && got =~= expected);
    }
    json
}

/// The member that an envelope of the given kind carries beside its `type`.
fn body_of<'a>(json: &'a Json, kind: &str) -> (r: Option<&'a Member>)
    ensures
        match r {
            Some(body) => envelope_body(json@, kind@) == Some((body.key@, body.value@)),
            None => envelope_body(json@, kind@) is None,
        },
{
    match json {
        Json::Object(members) => {
            proof {
                lemma_members_view(members@);
            }
            if members.len() != 2 {
                return None;
            }
            assert(json@ matches JsonView::Object(got) && got.len() == 2 && got[0] == (
                members@[0].key@,
                members@[0].value@,
            ) && got[1] == (members@[1].key@, members@[1].value@));
            let (tag, body) = if same_text(members[0].key.as_str(), "type") {
                (&members[0], &members[1])
            } else if same_text(members[1].key.as_str(), "type") {
                (&members[1], &members[0])
            } else {
                return None;
            };
            match &tag.value {
                Json::Text(word) => {
                    if same_text(word.as_str(), kind) {
                        Some(body)
                    } else {
                        None
                    }
                },
                _ => None,
            }
        },
        _ => None,
    }
}

/// A list of texts.
fn list_of_texts(items: &Vec<String>) -> (r: Json)
    ensures
        r@ == text_list(paths_of(items@)),
{
    let mut list: Vec<Json> = Vec::new();
    let mut i: usize = 0;
    while i < items.len()
        invariant
            i <= items.len(),
            list.len() == i,
            forall|j: int| 0 <= j < i ==> list@[j]@ == JsonView::Text(items@[j]@),
        decreases items.len() - i,
    {
        list.push(Json::Text(items[i].clone()));
        i += 1;
    }
    let json = Json::List(list);
    proof {
        let paths = paths_of(items@);
        let expected = Seq::new(paths.len(), |i: int| JsonView::Text(paths[i]));
        lemma_list_view(list@);
        assert(json@ matches JsonView::List(got) && got =~= expected);
    }
    json
}

/// The texts of a list that holds nothing but texts.
fn texts_in(items: &Vec<Json>) -> (r: Option<Vec<String>>)
    ensures
        match r {
            Some(texts) => texts_of(list_view(items@)) == Some(paths_of(texts@)),
            None => texts_of(list_view(items@)) is None,
        },
{
    let ghost views = list_view(items@);
    proof {
        lemma_list_view(items@);
    }
    let mut texts: Vec<String> = Vec::new();
    let mut i: usize = 0;
    while i < items.len()
        invariant
            i <= items.len(),
            texts.len() == i,
            views == list_view(items@),
            views.len() == items@.len(),
            forall|j: int| 0 <= j < items@.len() ==> views[j] == items@[j]@,
            forall|j: int| 0 <= j < i ==> views[j] == JsonView::Text(#[trigger] texts@[j]@),
        decreases items.len() - i,
    {
        match &items[i] {
            Json::Text(s) => {
                texts.push(s.clone());
            },
            _ => {
                assert(!(views[i as int] is Text));
                return None;
            },
        }
        i += 1;
    }
    proof {
        assert forall|j: int| 0 <= j < views.len() implies #[trigger] views[j] is Text by {
            assert(views[j] == JsonView::Text(texts@[j]@));
        }
        assert(Seq::new(views.len(), |j: int| views[j]->Text_0) =~= paths_of(texts@)) by {
            assert forall|j: int| 0 <= j < views.len() implies views[j]->Text_0 == paths_of(
                texts@,
            )[j] by {
                assert(views[j] == JsonView::Text(texts@[j]@));
            }
        }
    }
    Some(texts)
}

impl Request {
    /// The JSON value that stands for the request.
    pub fn to_json(&self) -> (r: Json)
        ensures
            r@ == json_of_request(self@),
    {
        let body = match self {
            Request::SwitchToBackground(path) => member(
                "switchToBackground",
                Json::Text(path.clone()),
            ),
            Request::RearrangeBackground((bg, place, target_bg)) => {
                let mut items: Vec<Json> = Vec::new();
                items.push(Json::Text(bg.clone()));
                items.push(Json::Text(place.to_string()));
                items.push(Json::Text(target_bg.clone()));
                let list = Json::List(items);
                proof {
                    let expected = seq![
                        JsonView::Text(bg@),
                        JsonView::Text(place.name()),
                        JsonView::Text(target_bg@),
                    ];
                    lemma_list_view(items@);
                    assert(list@ matches JsonView::List(got) && got =~= expected);
                }
                member("rearrangeBackground", list)
            },
            Request::GetQueue => member("getQueue", Json::Null),
        };
        enveloped("request", body)
    }

    /// The request that a JSON value stands for, if it stands for one.
    pub fn from_json(json: &Json) -> (r: Option<Request>)
        ensures
            match r {
                Some(request) => request_of_json(json@) == Some(request@),
                None => request_of_json(json@) is None,
            },
    {
        let body = match body_of(json, "request") {
            Some(body) => body,
            None => {
                return None;
            },
        };
        if same_text(body.key.as_str(), "switchToBackground") {
            match &body.value {
                Json::Text(path) => Some(Request::SwitchToBackground(path.clone())),
                _ => None,
            }
        } else if same_text(body.key.as_str(), "rearrangeBackground") {
            match &body.value {
                Json::List(items) => {
                    proof {
                        lemma_list_view(items@);
                    }
                    if items.len() != 3 {
                        return None;
                    }
                    assert(body.value@ matches JsonView::List(got) && got.len() == 3 && got[0]
                        == items@[0]@ && got[1] == items@[1]@ && got[2] == items@[2]@);
                    match (&items[0], &items[1], &items[2]) {
                        (Json::Text(bg), Json::Text(word), Json::Text(target_bg)) => {
                            match Position::try_from(word.as_str()) {
                                Ok(place) => Some(
                                    Request::RearrangeBackground(
                                        (bg.clone(), place, target_bg.clone()),
                                    ),
                                ),
                                Err(_) => None,
                            }
                        },
                        _ => None,
                    }
                },
                _ => None,
            }
        } else if same_text(body.key.as_str(), "getQueue") {
            match &body.value {
                Json::Null => Some(Request::GetQueue),
                _ => None,
            }
        } else {
            None
        }
    }
}

impl Response {
    /// The JSON value that stands for the response.
    pub fn to_json(&self) -> (r: Json)
        ensures
            r@ == json_of_response(self@),
    {
        let body = match self {
            Response::SwitchToBackground(ok) => member("switchToBackground", Json::Bool(*ok)),
            Response::RearrangeBackground((ok, moved, landing)) => {
                let mut items: Vec<Json> = Vec::new();
                items.push(Json::Bool(*ok));
                items.push(Json::Number(Some(*moved as u64)));
                items.push(Json::Number(Some(*landing as u64)));
                let list = Json::List(items);
                proof {
                    let expected = seq![
                        JsonView::Bool(*ok),
                        JsonView::Number(Some(*moved as u64)),
                        JsonView::Number(Some(*landing as u64)),
                    ];
                    lemma_list_view(items@);
                    assert(list@ matches JsonView::List(got) && got =~= expected);
                }
                member("rearrangeBackground", list)
            },
            Response::GetQueue(items) => member("getQueue", list_of_texts(items)),
        };
        enveloped("response", body)
    }

    /// The response that a JSON value stands for, if it stands for one.
    pub fn from_json(json: &Json) -> (r: Option<Response>)
        ensures
            match r {
                Some(response) => response_of_json(json@) == Some(response@),
                None => response_of_json(json@) is None,
            },
    {
        let body = match body_of(json, "response") {
            Some(body) => body,
            None => {
                return None;
            },
        };
        if same_text(body.key.as_str(), "switchToBackground") {
            match &body.value {
                Json::Bool(ok) => Some(Response::SwitchToBackground(*ok)),
                _ => None,
            }
        } else if same_text(body.key.as_str(), "rearrangeBackground") {
            match &body.value {
                Json::List(items) => {
                    proof {
                        lemma_list_view(items@);
                    }
                    if items.len() != 3 {
                        return None;
                    }
                    assert(body.value@ matches JsonView::List(got) && got.len() == 3 && got[0]
                        == items@[0]@ && got[1] == items@[1]@ && got[2] == items@[2]@);
                    match (&items[0], &items[1], &items[2]) {
                        (
                            Json::Bool(ok),
                            Json::Number(Some(moved)),
                            Json::Number(Some(landing)),
                        ) => {
                            if *moved <= usize::MAX as u64 && *landing <= usize::MAX as u64 {
                                Some(
                                    Response::RearrangeBackground(
                                        (*ok, *moved as usize, *landing as usize),
                                    ),
                                )
                            } else {
                                None
                            }
                        },
                        _ => None,
                    }
                },
                _ => None,
            }
        } else if same_text(body.key.as_str(), "getQueue") {
            match &body.value {
                Json::List(items) => match texts_in(items) {
                    Some(texts) => Some(Response::GetQueue(texts)),
                    None => None,
                },
                _ => None,
            }
        } else {
            None
        }
    }
}

/// The text to send for `request`: its JSON value as `serde_json` prints it.
pub fn encode_request(request: &Request) -> (r: String)
    ensures
        r@ == json_text(json_of_request(request@)),
{
    render(&request.to_json())
}

/// The request that `text` holds, if it is the JSON text of one.
pub fn decode_request(text: &str) -> (r: Option<Request>)
    ensures
        match parsed_json(text@) {
            Some(json) => match r {
                Some(request) => request_of_json(json) == Some(request@),
                None => request_of_json(json) is None,
            },
            None => r is None,
        },
{
    match parse(text) {
        Some(json) => Request::from_json(&json),
        None => None,
    }
}

/// The text to send for `response`: its JSON value as `serde_json` prints it.
pub fn encode_response(response: &Response) -> (r: String)
    ensures
        r@ == json_text(json_of_response(response@)),
{
    render(&response.to_json())
}

/// The response that `text` holds, if it is the JSON text of one.
pub fn decode_response(text: &str) -> (r: Option<Response>)
    ensures
        match parsed_json(text@) {
            Some(json) => match r {
                Some(response) => response_of_json(json) == Some(response@),
                None => response_of_json(json) is None,
            },
            None => r is None,
        },
{
    match parse(text) {
        Some(json) => Response::from_json(&json),
        None => None,
    }
}

} // verus!
