//! The handshake's three-way outcome: a stream, a suspension, or a failure.
use vstd::prelude::*;

use crate::engine;
use crate::engine::RawHandshake;
use crate::error::{Error, ErrorKind};
use crate::stream::TlsStream;

verus! {

/// A handshake suspended because the transport would block. It preserves
/// exactly the negotiation context and the transport, so the attempt can be
/// resumed once the transport is ready. Consumed by [`Self::handshake`].
#[verifier::reject_recursive_types(S)]
pub struct MidHandshakeTlsStream<S> {
    pub(crate) inner: openssl::ssl::MidHandshakeSslStream<S>,
}

/// How a handshake attempt ended when it did not produce a stream: a terminal
/// failure, or a suspension to be resumed. A suspension is not a fault; it
/// asks the caller to retry once the transport is ready.
#[verifier::reject_recursive_types(S)]
pub enum HandshakeError<S> {
    /// The negotiation failed for good; no retry with this attempt can
    /// succeed.
    Failure(Error),
    /// The transport would block; the carried state resumes the attempt.
    Interrupted(MidHandshakeTlsStream<S>),
}

impl<S> MidHandshakeTlsStream<S> {
    /// A shared reference to the suspended transport.
    pub fn get_ref(&self) -> &S {
        engine::mid_get_ref(&self.inner)
    }

    /// A mutable reference to the suspended transport.
    pub fn get_mut(&mut self) -> &mut S {
        engine::mid_get_mut(&mut self.inner)
    }
}

impl<S: std::io::Read + std::io::Write> MidHandshakeTlsStream<S> {
    /// Resumes the suspended negotiation exactly where it stopped, with the
    /// same three-way outcome as the call that suspended it.
    pub fn handshake(self) -> (r: Result<TlsStream<S>, HandshakeError<S>>)
        ensures
            r matches Err(HandshakeError::Failure(e)) ==> e.spec_kind() == ErrorKind::Handshake
                && e.spec_engine_fault(),
    {
        finish_attempt(engine::mid_handshake(self.inner))
    }
}

/// Folds what the engine reported into the surface's three-way outcome:
/// completion yields the established stream, a would-block suspension is kept
/// resumable, and both setup faults and negotiation faults are terminal
/// handshake failures.
pub(crate) fn finish_attempt<S>(raw: RawHandshake<S>) -> (r: Result<
    TlsStream<S>,
    HandshakeError<S>,
>)
    ensures
        raw matches RawHandshake::Done(s) ==> r matches Ok(t) && t.inner == s,
        raw matches RawHandshake::Blocked(m) ==> (r matches Err(HandshakeError::Interrupted(mid))
            && mid.inner == m),
        (raw matches RawHandshake::Setup(_) || raw matches RawHandshake::Fatal(_)) ==> (
        r matches Err(HandshakeError::Failure(e)) && e.spec_kind() == ErrorKind::Handshake
            && e.spec_engine_fault()),
{
    match raw {
        RawHandshake::Done(s) => Ok(TlsStream { inner: s }),
        RawHandshake::Setup(e) => Err(HandshakeError::Failure(Error::handshake_stack(e))),
        RawHandshake::Fatal(m) => Err(
            HandshakeError::Failure(Error::handshake_ssl(engine::mid_into_error(m))),
        ),
        RawHandshake::Blocked(m) => Err(
            HandshakeError::Interrupted(MidHandshakeTlsStream { inner: m }),
        ),
    }
}

} // verus!
