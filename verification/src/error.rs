//! The narrow error taxonomy the whole surface reports through.
use vstd::prelude::*;

use crate::engine;

verus! {

/// The branch of the taxonomy a failure falls under.
#[derive(Clone, Copy, Debug, PartialEq, Eq, Structural)]
pub enum ErrorKind {
    /// Bad identity material, a wrong passphrase, a key that does not match
    /// its certificate, or a configuration step the engine refused.
    Configuration,
    /// A terminal negotiation failure: never retryable with the same attempt.
    Handshake,
}

/// What the failure wraps.
#[derive(Debug)]
enum Cause {
    /// A fault the engine raised outside any session.
    Stack(openssl::error::ErrorStack),
    /// A fault the engine raised within a session.
    Ssl(openssl::ssl::Error),
    /// The parsed bundle lacked a leaf certificate or a private key.
    MissingIdentityParts,
}

/// A failure, carrying its taxonomy branch and the engine's fault as an
/// opaque cause. It never carries partial success state.
#[derive(Debug)]
pub struct Error {
    kind: ErrorKind,
    cause: Cause,
}

impl Error {
    /// The branch of the taxonomy this failure falls under.
    pub closed spec fn spec_kind(&self) -> ErrorKind {
        self.kind
    }

    /// Whether the failure carries a fault the engine itself raised, as
    /// opposed to one this library diagnosed.
    pub closed spec fn spec_engine_fault(&self) -> bool {
        !(self.cause matches Cause::MissingIdentityParts)
    }

    /// Reports which branch of the taxonomy this failure falls under.
    pub fn kind(&self) -> (k: ErrorKind)
        ensures
            k == self.spec_kind(),
    {
        self.kind
    }

    /// A human-readable description of the failure.
    pub fn message(&self) -> String {
        match &self.cause {
            Cause::Stack(e) => engine::errorstack_message(e),
            Cause::Ssl(e) => engine::ssl_error_message(e),
            Cause::MissingIdentityParts => {
                "the bundle holds no leaf certificate or no private key".to_string()
            },
        }
    }

    pub(crate) fn configuration(e: openssl::error::ErrorStack) -> (r: Error)
        ensures
            r.spec_kind() == ErrorKind::Configuration,
            r.spec_engine_fault(),
    {
        Error { kind: ErrorKind::Configuration, cause: Cause::Stack(e) }
    }

    pub(crate) fn incomplete_identity() -> (r: Error)
        ensures
            r.spec_kind() == ErrorKind::Configuration,
            !r.spec_engine_fault(),
    {
        Error { kind: ErrorKind::Configuration, cause: Cause::MissingIdentityParts }
    }

    pub(crate) fn handshake_stack(e: openssl::error::ErrorStack) -> (r: Error)
        ensures
            r.spec_kind() == ErrorKind::Handshake,
            r.spec_engine_fault(),
    {
        Error { kind: ErrorKind::Handshake, cause: Cause::Stack(e) }
    }

    pub(crate) fn handshake_ssl(e: openssl::ssl::Error) -> (r: Error)
        ensures
            r.spec_kind() == ErrorKind::Handshake,
            r.spec_engine_fault(),
    {
        Error { kind: ErrorKind::Handshake, cause: Cause::Ssl(e) }
    }
}

} // verus!
