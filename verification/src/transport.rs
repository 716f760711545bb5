//! The transport over the local socket: where the socket lies, how the
//! bytes of one read become one message, and how a request travels with
//! the peer that sent it.
//!
//! A message has no length before it and no mark after it: what one read
//! gives is one message. Reading and writing are the caller's; what is
//! read and what is to be written pass through here.

use vstd::prelude::*;
use vstd::utf8::{decode_utf8, valid_utf8};
use crate::message::{Request, Response};
use crate::json::{json_text, parsed_json};
use crate::paths::{join_path, joined_path};
use crate::wire::{
    decode_request, decode_response, encode_request, encode_response, json_of_request,
    json_of_response, request_of_json, response_of_json,
};

verus! {

/// The milliseconds to wait after a failed bind before the next one.
pub const BIND_RETRY_DELAY: u64 = 5_000;

/// Where the socket lies.
#[derive(Clone, Copy, Debug)]
pub enum UnixSocketPath {
    /// Under the user's runtime directory, by this file name.
    RuntimeDir(&'static str),
    /// At this path.
    AbsolutePath(&'static str),
}

/// What can say where the socket lies.
pub trait IntoUnixSocketPath {
    /// The place of the socket as contracts see it.
    spec fn listen_path(self) -> UnixSocketPath where Self: Sized;

    /// The place of the socket.
    fn into_listen_path(self) -> (r: UnixSocketPath) where Self: Sized
        ensures
            r == self.listen_path(),
    ;
}

impl IntoUnixSocketPath for &'static str {
    open spec fn listen_path(self) -> UnixSocketPath {
        UnixSocketPath::AbsolutePath(self)
    }

    fn into_listen_path(self) -> (r: UnixSocketPath) {
        UnixSocketPath::AbsolutePath(self)
    }
}

impl IntoUnixSocketPath for UnixSocketPath {
    open spec fn listen_path(self) -> UnixSocketPath {
        self
    }

    fn into_listen_path(self) -> (r: UnixSocketPath) {
        self
    }
}

/// What `String::from_utf8_lossy` makes of bytes that are no UTF-8: their
/// text with the replacement character in place of each part that is none.
pub uninterp spec fn repaired_text(bytes: Seq<u8>) -> Seq<char>;

/// Whether a character is white space, as `char::is_whitespace` tells:
/// whether it has the property White_Space of Unicode.
pub open spec fn is_white_space(c: char) -> bool {
    let code = c as u32;
    ||| 0x09 <= code <= 0x0d
    ||| code == 0x20
    ||| code == 0x85
    ||| code == 0xa0
    ||| code == 0x1680
    ||| 0x2000 <= code <= 0x200a
    ||| code == 0x2028
    ||| code == 0x2029
    ||| code == 0x202f
    ||| code == 0x205f
    ||| code == 0x3000
}

/// The text that a run of bytes stands for: what they encode where they
/// are UTF-8, their repaired text where they are not.
pub open spec fn lossy_text(bytes: Seq<u8>) -> Seq<char> {
    if valid_utf8(bytes) {
        decode_utf8(bytes)
    } else {
        repaired_text(bytes)
    }
}

/// The number of white space characters at the start of a text.
pub open spec fn leading_white(text: Seq<char>) -> nat
    decreases text.len(),
{
    if text.len() > 0 && is_white_space(text.first()) {
        1 + leading_white(text.drop_first())
    } else {
        0
    }
}

/// The number of white space characters at the end of a text.
pub open spec fn trailing_white(text: Seq<char>) -> nat
    decreases text.len(),
{
    if text.len() > 0 && is_white_space(text.last()) {
        1 + trailing_white(text.drop_last())
    } else {
        0
    }
}

/// A text without the white space at its start and at its end; nothing is
/// left of a text that is white space throughout.
pub open spec fn trimmed_text(text: Seq<char>) -> Seq<char> {
    if leading_white(text) >= text.len() {
        Seq::empty()
    } else {
        text.subrange(leading_white(text) as int, text.len() - trailing_white(text))
    }
}

/// Reads bytes as UTF-8 with `String::from_utf8_lossy` of the standard
/// library: bytes that are UTF-8 give the text they encode, any others a
/// text that is a function of the bytes alone.
#[verifier::external_body]
fn utf8_lossy(bytes: &[u8]) -> (r: String)
    ensures
        r@ == if valid_utf8(bytes@) {
            decode_utf8(bytes@)
        } else {
            repaired_text(bytes@)
        },
{
    String::from_utf8_lossy(bytes).into_owned()
}

/// Cuts the white space off both ends of a text with `str::trim` of the
/// standard library, where white space is what `char::is_whitespace` tells.
#[verifier::external_body]
fn trim(text: &str) -> (r: &str)
    ensures
        r@ == trimmed_text(text@),
{
    text.trim()
}

impl UnixSocketPath {
    /// The path of the socket, given what the environment holds for the
    /// runtime directory. A socket under the runtime directory needs that
    /// directory and fails as reading it failed; a socket at a path of its
    /// own needs nothing.
    pub fn to_pathbuf<E>(self, runtime_dir: Result<String, E>) -> (r: Result<String, E>)
        ensures
            match self {
                UnixSocketPath::RuntimeDir(name) => match runtime_dir {
                    Ok(dir) => r matches Ok(path) && path@ == joined_path(dir@, name@),
                    Err(e) => r matches Err(cause) && cause == e,
                },
                UnixSocketPath::AbsolutePath(path) => r matches Ok(same) && same@ == path@,
            },
    {
        match self {
            UnixSocketPath::RuntimeDir(name) => match runtime_dir {
                Ok(dir) => Ok(join_path(dir.as_str(), name)),
                Err(e) => Err(e),
            },
            UnixSocketPath::AbsolutePath(path) => Ok(path.to_owned()),
        }
    }
}

/// The file name of the daemon's socket in the user's runtime directory.
pub open spec fn socket_name() -> Seq<char> {
    "swwwitch.sock"@
}

/// The path of the daemon's socket, given what the environment holds for
/// the runtime directory.
pub fn socket_path<E>(runtime_dir: Result<String, E>) -> (r: Result<String, E>)
    ensures
        match runtime_dir {
            Ok(dir) => r matches Ok(path) && path@ == joined_path(dir@, socket_name()),
            Err(e) => r matches Err(cause) && cause == e,
        },
{
    UnixSocketPath::RuntimeDir("swwwitch.sock").to_pathbuf(runtime_dir)
}

/// What to do after an attempt to bind the socket: nothing more when it
/// is bound, else wait this many milliseconds and bind again, however
/// often it has failed.
pub fn setup_listener(bound: bool) -> (retry_after: Option<u64>)
    ensures
        retry_after == if bound {
            None
        } else {
            Some(BIND_RETRY_DELAY)
        },
{
    if bound {
        None
    } else {
        Some(BIND_RETRY_DELAY)
    }
}

/// The message that the bytes of one read hold: their text without the
/// white space around it. A read of no bytes holds none: it stands for a
/// peer that has closed.
pub open spec fn message_text(bytes: Seq<u8>) -> Option<Seq<char>> {
    if bytes.len() == 0 {
        None
    } else {
        Some(trimmed_text(lossy_text(bytes)))
    }
}

/// The messages that a run of reads from one peer gives, in the order of
/// the reads: one for each read up to the first that holds none, and
/// nothing from there on.
pub open spec fn messages_of(reads: Seq<Seq<u8>>) -> Seq<Seq<char>>
    decreases reads.len(),
{
    if reads.len() == 0 {
        Seq::empty()
    } else {
        match message_text(reads.first()) {
            Some(text) => seq![text] + messages_of(reads.drop_first()),
            None => Seq::empty(),
        }
    }
}

/// Takes what one read from a peer gave, `None` for a failed read, and
/// answers with the message to pass on. `None` tells to close the
/// connection: the read failed, or it gave no bytes, as it does when the
/// peer has closed. Any other read is one message, which is passed on
/// even where nothing but white space was read.
pub fn join_messages(read: Option<&[u8]>) -> (r: Option<String>)
    ensures
        match read {
            Some(bytes) => match r {
                Some(text) => message_text(bytes@) == Some(text@),
                None => message_text(bytes@) is None,
            },
            None => r is None,
        },
{
    match read {
        Some(bytes) => {
            if bytes.len() == 0 {
                None
            } else {
                let whole = utf8_lossy(bytes);
                Some(trim(whole.as_str()).to_owned())
            }
        },
        None => None,
    }
}

/// When a peer gives `k` reads of at least one byte each and then a read
/// of no bytes, exactly `k` messages are passed on, one for each of those
/// reads and in their order, and nothing of what follows the empty read.
pub proof fn reads_before_the_close_are_the_messages(reads: Seq<Seq<u8>>, k: int)
    requires
        0 <= k < reads.len(),
        forall|i: int| 0 <= i < k ==> (#[trigger] reads[i]).len() > 0,
        reads[k].len() == 0,
    ensures
        messages_of(reads).len() == k,
        forall|i: int|
            0 <= i < k ==> (#[trigger] messages_of(reads)[i]) == trimmed_text(
                lossy_text(reads[i]),
            ),
    decreases k,
{
    if k > 0 {
        let rest = reads.drop_first();
        assert forall|i: int| 0 <= i < k - 1 implies (#[trigger] rest[i]).len() > 0 by {
            assert(rest[i] == reads[i + 1]);
        }
        reads_before_the_close_are_the_messages(rest, k - 1);
        let first = trimmed_text(lossy_text(reads.first()));
        assert(messages_of(reads) == seq![first] + messages_of(rest));
        assert forall|i: int| 0 <= i < k implies (#[trigger] messages_of(reads)[i])
            == trimmed_text(lossy_text(reads[i])) by {
            if i > 0 {
                assert(messages_of(reads)[i] == messages_of(rest)[i - 1]);
                assert(rest[i - 1] == reads[i]);
            }
        }
    }
}

/// A request together with the peer that sent it, so that the answer can
/// go back to that peer and no other.
pub struct RequestContext<P> {
    peer: P,
    _request_string: String,
    request: Option<Request>,
}

impl<P> RequestContext<P> {
    /// The peer that sent the request.
    pub closed spec fn peer(&self) -> P {
        self.peer
    }

    /// The request, until it is taken.
    pub closed spec fn request(&self) -> Option<Request> {
        self.request
    }

    /// Reads the message `text` that came from `peer`. A message that is
    /// no request is dropped: the answer is `None`.
    pub fn recv(peer: P, text: String) -> (r: Option<RequestContext<P>>)
        ensures
            match r {
                Some(context) => {
                    &&& context.peer() == peer
                    &&& context.request() matches Some(request)
                    &&& parsed_json(text@) matches Some(json)
                    &&& request_of_json(json) == Some(request@)
                },
                None => parsed_json(text@) matches Some(json) ==> request_of_json(json) is None,
            },
    {
        match decode_request(text.as_str()) {
            Some(request) => Some(
                RequestContext { peer, _request_string: text, request: Some(request) },
            ),
            None => None,
        }
    }

    /// Takes the request out, once.
    pub fn take_request(&mut self) -> (r: Request)
        requires
            old(self).request() is Some,
        ensures
            Some(r) == old(self).request(),
            final(self).request() is None,
            final(self).peer() == old(self).peer(),
    {
        self.request.take().unwrap()
    }

    /// The peer to answer and the text to write to it for `res`.
    pub fn respond(self, res: &Response) -> (r: (P, String))
        ensures
            r.0 == self.peer(),
            r.1@ == json_text(json_of_response(res@)),
    {
        (self.peer, encode_response(res))
    }
}

/// The text to write for a request.
pub fn send_request(req: &Request) -> (r: String)
    ensures
        r@ == json_text(json_of_request(req@)),
{
    encode_request(req)
}

/// The response that the bytes of one read hold, if they hold one; what
/// holds none is dropped.
pub fn receive_response(bytes: &[u8]) -> (r: Option<Response>)
    ensures
        match parsed_json(trimmed_text(lossy_text(bytes@))) {
            Some(json) => match r {
                Some(response) => response_of_json(json) == Some(response@),
                None => response_of_json(json) is None,
            },
            None => r is None,
        },
{
    let whole = utf8_lossy(bytes);
    decode_response(trim(whole.as_str()))
}

} // verus!
