//! The request handlers. Each one answers with a fixed text, takes no input
//! and holds no state.

use vstd::prelude::*;

verus! {

/// The text that the index handler answers with.
pub open spec fn index_body() -> Seq<char> {
    "Hello world!"@
}

/// The text that the hello handler answers with.
pub open spec fn hello_body() -> Seq<char> {
    "hello world!"@
}

/// Handler of the root path.
pub fn index() -> (body: &'static str)
    ensures
        body@ == index_body(),
{
    "Hello world!"
}

/// Handler of the path `/world`.
pub fn hello() -> (body: &'static str)
    ensures
        body@ == hello_body(),
{
    "hello world!"
}

/// Names one of the handlers, so that a route can carry it as a value.
#[derive(Clone, Copy, Debug, PartialEq, Eq, Hash, Structural)]
pub enum Handler {
    Index,
    Hello,
}

impl Handler {
    /// The text that this handler answers with.
    pub open spec fn body(self) -> Seq<char> {
        match self {
            Handler::Index => index_body(),
            Handler::Hello => hello_body(),
        }
    }

    /// Invokes the handler and returns its response body.
    pub fn respond(self) -> (body: &'static str)
        ensures
            body@ == self.body(),
    {
        match self {
            Handler::Index => index(),
            Handler::Hello => hello(),
        }
    }
}

/// Handlers are idempotent: a handler answers every invocation alike. Any two
/// responses of one handler, each as `respond` promises it, are the same text.
pub proof fn lemma_respond_idempotent(handler: Handler, first: Seq<char>, second: Seq<char>)
    requires
        first == handler.body(),
        second == handler.body(),
    ensures
        first == second,
{
}

/// Handlers are free of side effects: invoking one does not change what
/// another answers. With an invocation of `other` between two invocations of
/// `handler`, the later response of `handler` is the earlier one.
pub proof fn lemma_handlers_independent(
    handler: Handler,
    other: Handler,
    before: Seq<char>,
    between: Seq<char>,
    after: Seq<char>,
)
    requires
        before == handler.body(),
        between == other.body(),
        after == handler.body(),
    ensures
        after == before,
{
}

} // verus!
