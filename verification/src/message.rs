//! The typed messages exchanged over a connection, and the reply owed to
//! each request.

use vstd::prelude::*;

verus! {

/// Upper bound, in bytes, on one frame: a single read never asks for more.
pub const MAX_MESSAGE_SIZE: usize = 4096;

/// A request as the codec hands it over.
#[derive(Debug, Clone, PartialEq, Eq)]
pub enum Request {
    /// Add two 32-bit signed integers.
    Add { a: i32, b: i32 },
    /// Send the text back unchanged.
    Echo { text: String },
}

/// A response as it is handed to the codec.
#[derive(Debug, Clone, PartialEq, Eq)]
pub enum Response {
    /// The sum asked for by `Request::Add`.
    AddResult { sum: i32 },
    /// The text of a `Request::Echo`.
    Echo { text: String },
}

/// Mathematical content of a `Request`.
pub enum RequestView {
    Add { a: int, b: int },
    Echo { text: Seq<char> },
}

/// Mathematical content of a `Response`.
pub enum ResponseView {
    AddResult { sum: int },
    Echo { text: Seq<char> },
}

impl View for Request {
    type V = RequestView;

    open spec fn view(&self) -> RequestView {
        match *self {
            Request::Add { a, b } => RequestView::Add { a: a as int, b: b as int },
            Request::Echo { text } => RequestView::Echo { text: text@ },
        }
    }
}

impl View for Response {
    type V = ResponseView;

    open spec fn view(&self) -> ResponseView {
        match *self {
            Response::AddResult { sum } => ResponseView::AddResult { sum: sum as int },
            Response::Echo { text } => ResponseView::Echo { text: text@ },
        }
    }
}

/// The 32-bit signed integer congruent to `a + b` modulo 2^32.
///
/// Addition wraps around in two's complement: a sum above `i32::MAX`
/// comes back 2^32 lower, a sum below `i32::MIN` comes back 2^32 higher.
pub open spec fn wrapped_sum(a: int, b: int) -> int {
    if a + b > i32::MAX {
        a + b - 0x1_0000_0000
    } else if a + b < i32::MIN {
        a + b + 0x1_0000_0000
    } else {
        a + b
    }
}

/// The response owed to a request.
pub open spec fn reply(request: RequestView) -> ResponseView {
    match request {
        RequestView::Add { a, b } => ResponseView::AddResult { sum: wrapped_sum(a, b) },
        RequestView::Echo { text } => ResponseView::Echo { text },
    }
}

/// Computes the response to one request: the wrapped sum for `Add`, the
/// same text for `Echo`.
pub fn dispatch(request: Request) -> (response: Response)
    ensures
        response@ == reply(request@),
{
    match request {
        Request::Add { a, b } => Response::AddResult { sum: a.wrapping_add(b) },
        Request::Echo { text } => Response::Echo { text },
    }
}

/// Where the true sum of two 32-bit integers is itself a 32-bit integer,
/// the reply to `Add` carries exactly that sum.
pub proof fn lemma_add_is_exact_in_range(a: int, b: int)
    requires
        i32::MIN <= a <= i32::MAX,
        i32::MIN <= b <= i32::MAX,
        i32::MIN <= a + b <= i32::MAX,
    ensures
        reply(RequestView::Add { a, b }) == (ResponseView::AddResult { sum: a + b }),
{
}

/// The reply to `Add` always fits 32 bits and differs from the true sum by
/// a multiple of 2^32.
pub proof fn lemma_add_wraps(a: int, b: int)
    requires
        i32::MIN <= a <= i32::MAX,
        i32::MIN <= b <= i32::MAX,
    ensures
        i32::MIN <= wrapped_sum(a, b) <= i32::MAX,
        (wrapped_sum(a, b) - (a + b)) % 0x1_0000_0000 == 0,
{
}

/// The reply to `Echo` carries the request's text, character for character.
pub proof fn lemma_echo_is_identity(text: Seq<char>)
    ensures
        reply(RequestView::Echo { text }) == (ResponseView::Echo { text }),
{
}

} // verus!
