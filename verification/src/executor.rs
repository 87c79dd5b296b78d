use vstd::prelude::*;
use crate::outcome::ExecutorError;

verus! {

/// What the transport hands back when an exchange went through.
#[derive(Debug, Clone, PartialEq, Eq)]
pub struct Response {
    pub status: u16,
    pub body: Vec<u8>,
}

/// The most bytes of a body that a `Remote` error keeps.
pub const BODY_EXCERPT_MAX: usize = 256;

/// Whether a status is in the 2xx range.
pub open spec fn is_success_status(status: u16) -> bool {
    200 <= status <= 299
}

/// The beginning of a body: all of it if it is short enough.
pub open spec fn excerpt_of(body: Seq<u8>) -> Seq<u8> {
    if body.len() <= BODY_EXCERPT_MAX {
        body
    } else {
        body.take(BODY_EXCERPT_MAX as int)
    }
}

/// Copies the beginning of a body.
pub fn excerpt(body: &Vec<u8>) -> (head: Vec<u8>)
    ensures
        head@ == excerpt_of(body@),
{
    let mut head: Vec<u8> = Vec::new();
    let mut i: usize = 0;
    while i < body.len() && i < BODY_EXCERPT_MAX
        invariant
            i <= body.len(),
            i <= BODY_EXCERPT_MAX,
            head@ == body@.take(i as int),
        decreases body.len() - i,
    {
        head.push(body[i]);
        i = i + 1;
        assert(head@ == body@.take(i as int));
    }
    assert(body@.take(body@.len() as int) == body@);
    head
}

/// Classifies what the transport returned. A transport failure and a
/// status outside 2xx are errors; otherwise the body is handed on for
/// parsing.
pub fn inspect(reply: Result<Response, String>) -> (r: Result<Vec<u8>, ExecutorError>)
    ensures
        match reply {
            Err(detail) => r == Err::<Vec<u8>, ExecutorError>(ExecutorError::Transport(detail)),
            Ok(response) => if is_success_status(response.status) {
                r == Ok::<Vec<u8>, ExecutorError>(response.body)
            } else {
                &&& r matches Err(ExecutorError::Remote(status, head))
                &&& status == response.status
                &&& head@ == excerpt_of(response.body@)
            },
        },
{
    match reply {
        Err(detail) => Err(ExecutorError::Transport(detail)),
        Ok(response) => {
            if 200 <= response.status && response.status <= 299 {
                Ok(response.body)
            } else {
                let head = excerpt(&response.body);
                Err(ExecutorError::Remote(response.status, head))
            }
        },
    }
}

/// Classifies the result of parsing a body: a body that does not parse is
/// a `Parse` error with the parser's message.
pub fn parsed<T>(value: Result<T, String>) -> (r: Result<T, ExecutorError>)
    ensures
        match value {
            Ok(v) => r == Ok::<T, ExecutorError>(v),
            Err(detail) => r == Err::<T, ExecutorError>(ExecutorError::Parse(detail)),
        },
{
    match value {
        Ok(v) => Ok(v),
        Err(detail) => Err(ExecutorError::Parse(detail)),
    }
}

} // verus!
