//! The per-connection session: the dispatch policy for each decoded
//! request and the connection's state machine, which guarantees exactly
//! one response per successfully decoded request.

use vstd::prelude::*;

verus! {

use crate::text::str_eq;

/// How one decoded request is to be handled, in priority order.
#[derive(Debug, Clone, Copy, PartialEq, Eq, Structural)]
pub enum RequestClass {
    /// The liveness probe: answered `Ok` directly, no side effects.
    Keepalive,
    /// The test-only forced-success mode: answered `Ok` unconditionally.
    ForcedOk,
    /// A configuration request: handed to the reload engine.
    Reload,
}

/// The dispatch policy: the keepalive probe wins over every mode, the
/// forced-success mode bypasses orchestration, everything else reloads.
pub open spec fn spec_classify(request: Seq<char>, always_ok: bool) -> RequestClass {
    if request == "KEEPALIVE"@ {
        RequestClass::Keepalive
    } else if always_ok {
        RequestClass::ForcedOk
    } else {
        RequestClass::Reload
    }
}

/// Classifies one decoded request.
pub fn classify_request(request: &str, always_ok: bool) -> (c: RequestClass)
    ensures
        c == spec_classify(request@, always_ok),
{
    if str_eq(request, "KEEPALIVE") {
        RequestClass::Keepalive
    } else if always_ok {
        RequestClass::ForcedOk
    } else {
        RequestClass::Reload
    }
}

/// The response sent without touching the reload engine: `Ok` for the
/// keepalive probe and for the forced-success mode, nothing otherwise.
pub fn immediate_response(class: RequestClass) -> (r: Option<String>)
    ensures
        class is Keepalive ==> (r matches Some(s) && s@ == "Ok"@),
        class is ForcedOk ==> (r matches Some(s) && s@ == "Ok"@),
        class is Reload ==> r is None,
{
    match class {
        RequestClass::Keepalive => Some("Ok".to_owned()),
        RequestClass::ForcedOk => Some("Ok".to_owned()),
        RequestClass::Reload => None,
    }
}

/// A keepalive request is side-effect-free in every mode: it is never
/// classified for orchestration, so no staging and no subprocess can
/// follow, and its immediate response is always `Ok`.
pub proof fn lemma_keepalive_side_effect_free(always_ok: bool)
    ensures
        spec_classify("KEEPALIVE"@, always_ok) == RequestClass::Keepalive,
        spec_classify("KEEPALIVE"@, always_ok) !is Reload,
{
}

/// Where one accepted connection stands.
#[derive(Debug, Clone, Copy, PartialEq, Eq, Structural)]
pub enum SessionState {
    /// Ready to read the next frame.
    AwaitingFrame,
    /// A request was decoded and its response is owed.
    Responding,
    /// The connection is shut down, after a decode or send failure.
    Closed,
}

/// One accepted connection. The next frame may be read only once the
/// prior response is fully sent; a decode or send failure closes the
/// session without resynchronization.
pub struct Session {
    st: SessionState,
    reqs: Ghost<nat>,
    resps: Ghost<nat>,
}

impl Session {
    /// Where the connection stands.
    pub closed spec fn state(&self) -> SessionState {
        self.st
    }

    /// How many requests have been decoded on this connection.
    pub closed spec fn requests_seen(&self) -> nat {
        self.reqs@
    }

    /// How many responses have been sent on this connection.
    pub closed spec fn responses_sent(&self) -> nat {
        self.resps@
    }

    /// The session invariant: a response is owed exactly while
    /// responding, and never more than one at a time.
    pub open spec fn wf(&self) -> bool {
        &&& (self.state() is AwaitingFrame ==> self.responses_sent() == self.requests_seen())
        &&& (self.state() is Responding ==> self.requests_seen() == self.responses_sent() + 1)
        &&& (self.state() is Closed ==> self.requests_seen() <= self.responses_sent() + 1)
    }

    /// A fresh session on a newly accepted connection.
    pub fn new() -> (s: Self)
        ensures
            s.wf(),
            s.state() is AwaitingFrame,
            s.requests_seen() == 0,
            s.responses_sent() == 0,
    {
        Session { st: SessionState::AwaitingFrame, reqs: Ghost(0), resps: Ghost(0) }
    }

    /// Accounts one decoded request and classifies it; its response is
    /// now owed before any further frame is read.
    pub fn on_request(&mut self, request: &str, always_ok: bool) -> (c: RequestClass)
        requires
            old(self).wf(),
            old(self).state() is AwaitingFrame,
        ensures
            final(self).wf(),
            final(self).state() is Responding,
            final(self).requests_seen() == old(self).requests_seen() + 1,
            final(self).responses_sent() == old(self).responses_sent(),
            c == spec_classify(request@, always_ok),
    {
        self.st = SessionState::Responding;
        proof {
            self.reqs@ = self.reqs@ + 1;
        }
        classify_request(request, always_ok)
    }

    /// Accounts the owed response as sent; the next frame may be read.
    pub fn on_response_sent(&mut self)
        requires
            old(self).wf(),
            old(self).state() is Responding,
        ensures
            final(self).wf(),
            final(self).state() is AwaitingFrame,
            final(self).requests_seen() == old(self).requests_seen(),
            final(self).responses_sent() == old(self).responses_sent() + 1,
    {
        self.st = SessionState::AwaitingFrame;
        proof {
            self.resps@ = self.resps@ + 1;
        }
    }

    /// Closes the session after a decode or send failure.
    pub fn close(&mut self)
        requires
            old(self).wf(),
        ensures
            final(self).wf(),
            final(self).state() is Closed,
            final(self).requests_seen() == old(self).requests_seen(),
            final(self).responses_sent() == old(self).responses_sent(),
    {
        self.st = SessionState::Closed;
    }

    /// Exactly one response per request: whenever the session is ready
    /// for a new frame, every decoded request has been answered once.
    pub proof fn lemma_one_response_per_request(&self)
        requires
            self.wf(),
            self.state() is AwaitingFrame,
        ensures
            self.responses_sent() == self.requests_seen(),
    {
    }
}

} // verus!
