//! The launcher's part of a request: the envelope that the guest receives as
//! its input, and the response that a status of the invocation is answered
//! with.

use crate::status::{Status, StatusView};
use vstd::prelude::*;

verus! {

/// The port that the launcher serves on.
pub const LAUNCHER_PORT: u16 = 5543;

/// The standard base64 encoding, with padding, of a byte string.
pub uninterp spec fn base64_standard(bytes: Seq<u8>) -> Seq<char>;

/// Whether a byte string of `len` bytes can be encoded: the length of the
/// encoding, four characters for each three bytes begun, fits into `usize`.
pub open spec fn encodable(len: nat) -> bool {
    (len / 3) * 4 + if len % 3 > 0 {
        4int
    } else {
        0int
    } <= usize::MAX
}

/// `base64::encode`: the standard base64 encoding, with padding, of `bytes`.
/// It panics where the length of the encoding does not fit into `usize`.
#[verifier::external_body]
fn base64_encode(bytes: &[u8]) -> (encoded: String)
    requires
        encodable(bytes@.len()),
    ensures
        encoded@ == base64_standard(bytes@),
{
    base64::encode(bytes)
}

/// The headers that a list of header lines stands for: of two lines with the
/// same name the later one counts.
pub open spec fn header_map(lines: Seq<(String, String)>) -> Map<Seq<char>, Seq<char>>
    decreases lines.len(),
{
    if lines.len() == 0 {
        Map::empty()
    } else {
        header_map(lines.drop_last()).insert(lines.last().0@, lines.last().1@)
    }
}

/// The envelope of a request as the guest receives it.
#[derive(Clone, Debug, PartialEq, Eq)]
pub struct LauncherRequest {
    /// The method of the request.
    pub method: String,
    /// The header lines of the request, in the order in which they came.
    pub headers: Vec<(String, String)>,
    /// How `body` is encoded: always `base64`.
    pub body_encoding: String,
    /// The body of the request, encoded.
    pub body: Option<String>,
}

impl LauncherRequest {
    /// The envelope of a request with the given method, header lines and
    /// body.
    pub fn new(method: String, headers: Vec<(String, String)>, body: &[u8]) -> (request: Self)
        requires
            encodable(body@.len()),
        ensures
            request.method == method,
            request.headers == headers,
            request.body_encoding@ == "base64"@,
            request.body matches Some(encoded) && encoded@ == base64_standard(body@),
    {
        LauncherRequest {
            method,
            headers,
            body_encoding: "base64".to_owned(),
            body: Some(base64_encode(body)),
        }
    }

    /// Whether a body of `len` bytes can be put into an envelope.
    pub fn can_encode(len: usize) -> (b: bool)
        ensures
            b == encodable(len as nat),
    {
        let chunks = len / 3;
        if len % 3 > 0 {
            chunks <= (usize::MAX - 4) / 4
        } else {
            chunks <= usize::MAX / 4
        }
    }

    /// The value of the header `name`; none where the request has no such
    /// header.
    pub fn header(&self, name: &String) -> (value: Option<&String>)
        ensures
            match value {
                Some(v) => header_map(self.headers@).contains_key(name@) && header_map(
                    self.headers@,
                )[name@] == v@,
                None => !header_map(self.headers@).contains_key(name@),
            },
    {
        let mut i: usize = self.headers.len();
        assert(self.headers@.subrange(0, i as int) =~= self.headers@);
        while i > 0
            invariant
                i <= self.headers@.len(),
                header_map(self.headers@).contains_key(name@) <==> header_map(
                    self.headers@.subrange(0, i as int),
                ).contains_key(name@),
                header_map(self.headers@).contains_key(name@) ==> header_map(self.headers@)[name@]
                    == header_map(self.headers@.subrange(0, i as int))[name@],
            decreases i,
        {
            let ghost prefix = self.headers@.subrange(0, i as int);
            assert(prefix.drop_last() =~= self.headers@.subrange(0, i - 1));
            assert(prefix.last() == self.headers@[i - 1]);
            i -= 1;
            if self.headers[i].0 == *name {
                return Some(&self.headers[i].1);
            }
        }
        assert(self.headers@.subrange(0, 0) =~= Seq::<(String, String)>::empty());
        None
    }
}

/// A response to the client of the launcher.
#[derive(Clone, Debug, PartialEq, Eq)]
pub struct HttpResponse {
    /// The status code.
    pub status: u16,
    /// The body.
    pub body: Vec<u8>,
}

/// What the launcher does when a status of the invocation has come in.
#[derive(Clone, Debug, PartialEq, Eq)]
pub enum LauncherStep {
    /// Answer the client with this response.
    Respond(HttpResponse),
    /// Wait for the next status.
    KeepWaiting,
}

/// The status code and body that `status` is answered with; none where the
/// launcher goes on waiting.
pub open spec fn answer(status: StatusView) -> Option<(u16, Seq<u8>)> {
    match status {
        StatusView::Success(bytes) => Some((200u16, bytes)),
        StatusView::Failure(bytes) => Some((500u16, bytes)),
        StatusView::Exited(_) => None,
    }
}

/// What the launcher does with `status`: a success is answered with 200 and
/// its payload, a failure with 500 and its payload; after an exit the
/// launcher goes on waiting.
pub fn on_status(status: Status) -> (step: LauncherStep)
    ensures
        match answer(status@) {
            Some((code, body)) => step matches LauncherStep::Respond(response) && response.status
                == code && response.body@ == body,
            None => step is KeepWaiting,
        },
{
    match status {
        Status::Success(body) => LauncherStep::Respond(HttpResponse { status: 200, body }),
        Status::Failure(body) => LauncherStep::Respond(HttpResponse { status: 500, body }),
        Status::Exited(_) => LauncherStep::KeepWaiting,
    }
}

/// The response to a client whose invocation has reported neither success
/// nor failure when the launcher stops waiting: 500 with an empty body.
pub fn on_timeout() -> (response: HttpResponse)
    ensures
        response.status == 500,
        response.body@ == Seq::<u8>::empty(),
{
    HttpResponse { status: 500, body: Vec::new() }
}

} // verus!
