//! The established encrypted stream.
use vstd::prelude::*;

use crate::engine;
use crate::engine::ShutdownStep;
use crate::error::Error;

verus! {

/// A secure channel over a transport, established by a completed handshake.
/// It owns the transport exclusively for its lifetime; reads and writes carry
/// plaintext, encrypted and decrypted by the engine underneath. Shutting the
/// stream down does not consume the transport.
#[verifier::reject_recursive_types(S)]
pub struct TlsStream<S> {
    pub(crate) inner: openssl::ssl::SslStream<S>,
}

impl<S> TlsStream<S> {
    /// A shared reference to the wrapped transport.
    pub fn get_ref(&self) -> &S {
        engine::stream_get_ref(&self.inner)
    }

    /// A mutable reference to the wrapped transport.
    pub fn get_mut(&mut self) -> &mut S {
        engine::stream_get_mut(&mut self.inner)
    }
}

impl<S: std::io::Read + std::io::Write> TlsStream<S> {
    /// How many already-decrypted plaintext bytes wait in the engine's
    /// buffer: that many can be read without another transport read.
    pub fn buffered_read_size(&self) -> (r: Result<usize, Error>)
        ensures
            r is Ok,
    {
        Ok(engine::stream_pending(&self.inner))
    }

    /// Reads decrypted plaintext into `buf`, reporting how many bytes were
    /// placed there. Transport interruption markers (would-block and the
    /// like) come through verbatim; they are not protocol failures.
    pub fn read(&mut self, buf: &mut [u8]) -> (r: Result<usize, std::io::Error>)
        ensures
            final(buf)@.len() == old(buf)@.len(),
            r matches Ok(n) ==> n <= old(buf)@.len(),
    {
        engine::stream_read(&mut self.inner, buf)
    }

    /// Encrypts a prefix of `buf` onto the transport, reporting that prefix's
    /// length. Transport interruption markers come through verbatim.
    pub fn write(&mut self, buf: &[u8]) -> (r: Result<usize, std::io::Error>)
        ensures
            r matches Ok(n) ==> n <= buf@.len(),
    {
        engine::stream_write(&mut self.inner, buf)
    }

    /// Flushes the transport underneath the record layer.
    pub fn flush(&mut self) -> Result<(), std::io::Error> {
        engine::stream_flush(&mut self.inner)
    }

    /// Performs the protocol's orderly close sequence.
    ///
    /// The engine's shutdown primitive is driven repeatedly; what each of its
    /// reports does to the sequence is fixed by [`shutdown_decision`]'s
    /// contract: a lone "close notification sent" never ends the sequence,
    /// "close notification received" and an already-closed session end it
    /// successfully, a transport fault (a would-block signal included)
    /// surfaces verbatim as that transport's own error, and any other
    /// negotiation-layer fault as a generic one. Which report comes back is
    /// the engine's and the peer's choice, so nothing relates the outcome to
    /// the inputs; on an already-shut-down stream the engine reports the
    /// close as complete, and another call returns success again.
    ///
    /// The engine documents the close sequence as two steps: one that sends
    /// the local notification and one that receives the peer's. A third
    /// "notification sent" report in one sequence would put the engine off
    /// its documented protocol; it surfaces as a generic I/O fault rather
    /// than driving the primitive forever.
    pub fn shutdown(&mut self) -> Result<(), std::io::Error> {
        let mut sent_rounds: usize = 0;
        while sent_rounds < 2
            decreases 2 - sent_rounds,
        {
            match shutdown_decision(engine::stream_shutdown_once(&mut self.inner)) {
                None => {
                    sent_rounds += 1;
                },
                Some(outcome) => {
                    return outcome;
                },
            }
        }
        Err(engine::io_error_msg("the engine kept reporting its close notification as sent"))
    }
}

/// Decides one round of the orderly close sequence from the engine's report:
/// `None` drives the primitive again, `Some` ends the sequence with that
/// outcome. A lone "sent" report never ends the sequence by itself; success
/// comes exactly on "received" or an already-closed session; a transport
/// fault passes through verbatim; any other fault ends the sequence with a
/// generic I/O error.
pub(crate) fn shutdown_decision(step: ShutdownStep) -> (r: Option<
    Result<(), std::io::Error>,
>)
    ensures
        (step matches ShutdownStep::Sent) <==> r is None,
        (step matches ShutdownStep::Received || step matches ShutdownStep::PeerClosed) ==> r
            == Some(Result::<(), std::io::Error>::Ok(())),
        step matches ShutdownStep::Transport(e) ==> r == Some(
            Result::<(), std::io::Error>::Err(e),
        ),
        step matches ShutdownStep::Fatal(_) ==> (r matches Some(out) && out is Err),
{
    match step {
        ShutdownStep::Sent => None,
        ShutdownStep::Received => Some(Ok(())),
        ShutdownStep::PeerClosed => Some(Ok(())),
        ShutdownStep::Transport(e) => Some(Err(e)),
        ShutdownStep::Fatal(f) => Some(Err(engine::io_error_other(f))),
    }
}

/// Access to the engine's own stream, for callers that need to reach past
/// the backend-independent surface.
pub trait TlsStreamExt<S> {
    /// A shared reference to the engine's stream.
    fn raw_stream(&self) -> &openssl::ssl::SslStream<S>;

    /// A mutable reference to the engine's stream.
    fn raw_stream_mut(&mut self) -> &mut openssl::ssl::SslStream<S>;
}

impl<S> TlsStreamExt<S> for TlsStream<S> {
    fn raw_stream(&self) -> &openssl::ssl::SslStream<S> {
        &self.inner
    }

    fn raw_stream_mut(&mut self) -> &mut openssl::ssl::SslStream<S> {
        &mut self.inner
    }
}

} // verus!
