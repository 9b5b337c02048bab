//! The boundary to the OpenSSL engine.
//!
//! This module declares the engine's types and wraps every call the library
//! makes into it. Each wrapper's contract states what the wrapped routine is
//! documented (and its source shown) to do; nothing else in the crate talks to
//! the engine directly.
//!
//! The version-disabling option flags of a context are modelled as the set of
//! [`Protocol`] values they shut off; the extra chain certificates as the
//! sequence of handles added so far. Versions older or newer than the
//! enumeration (SSL 2.0, TLS 1.3) sit outside the model: the wrappers that
//! flag off "every version" flag those off as well, and nothing here ever
//! clears their flags.
use vstd::prelude::*;

use crate::Protocol;
use openssl::error::ErrorStack;
use openssl::ssl::Error as SslFault;
use std::io::Error as IoFault;
use openssl::pkey::{PKey, Private};
use openssl::ssl::{
    MidHandshakeSslStream, SslAcceptor, SslAcceptorBuilder, SslConnector, SslConnectorBuilder,
    SslMethod, SslOptions, SslStream,
};
use openssl::x509::X509;
use std::io::Read;
use std::io::Write;

verus! {

#[verifier::external_type_specification]
#[verifier::external_body]
pub struct ExX509(X509);

#[verifier::external_type_specification]
#[verifier::external_body]
pub struct ExPrivate(Private);

#[verifier::external_type_specification]
#[verifier::external_body]
#[verifier::reject_recursive_types(T)]
pub struct ExPKey<T>(PKey<T>);

#[verifier::external_type_specification]
#[verifier::external_body]
pub struct ExErrorStack(ErrorStack);

#[verifier::external_type_specification]
#[verifier::external_body]
pub struct ExSslError(SslFault);

#[verifier::external_type_specification]
#[verifier::external_body]
pub struct ExIoError(IoFault);

#[verifier::external_type_specification]
#[verifier::external_body]
pub struct ExSslConnectorBuilder(SslConnectorBuilder);

#[verifier::external_type_specification]
#[verifier::external_body]
pub struct ExSslConnector(SslConnector);

#[verifier::external_type_specification]
#[verifier::external_body]
pub struct ExSslAcceptorBuilder(SslAcceptorBuilder);

#[verifier::external_type_specification]
#[verifier::external_body]
pub struct ExSslAcceptor(SslAcceptor);

#[verifier::external_type_specification]
#[verifier::external_body]
#[verifier::reject_recursive_types(S)]
pub struct ExSslStream<S>(SslStream<S>);

#[verifier::external_type_specification]
#[verifier::external_body]
#[verifier::reject_recursive_types(S)]
pub struct ExMidHandshakeSslStream<S>(MidHandshakeSslStream<S>);

/// Whether the engine parses `der` under `pass` into a bundle that carries
/// both a leaf certificate and a private key. Parsing reads nothing but the
/// two inputs, so this is a function of them alone.
pub uninterp spec fn pkcs12_identity(der: Seq<u8>, pass: Seq<char>) -> bool;

/// The protocol versions a connector context's option flags disable.
pub uninterp spec fn connector_disabled(b: SslConnectorBuilder) -> Set<Protocol>;

/// The extra chain certificates added to a connector context, in order.
pub uninterp spec fn connector_chain(b: SslConnectorBuilder) -> Seq<X509>;

/// The protocol versions an acceptor context's option flags disable.
pub uninterp spec fn acceptor_disabled(b: SslAcceptorBuilder) -> Set<Protocol>;

/// The extra chain certificates added to an acceptor context, in order.
pub uninterp spec fn acceptor_chain(b: SslAcceptorBuilder) -> Seq<X509>;

/// The leaf certificate bound to a connector context, if one was set.
pub uninterp spec fn connector_cert(b: SslConnectorBuilder) -> Option<X509>;

/// The private key bound to a connector context, if one was set.
pub uninterp spec fn connector_key(b: SslConnectorBuilder) -> Option<PKey<Private>>;

/// The leaf certificate bound to an acceptor context, if one was set.
pub uninterp spec fn acceptor_cert(b: SslAcceptorBuilder) -> Option<X509>;

/// The private key bound to an acceptor context, if one was set.
pub uninterp spec fn acceptor_key(b: SslAcceptorBuilder) -> Option<PKey<Private>>;

/// Whether the engine's key check accepts `key` as the private key belonging
/// to `cert`. The check compares the two handles' key material and nothing
/// else, so it is a function of them alone.
pub uninterp spec fn key_matches(cert: X509, key: PKey<Private>) -> bool;

/// The protocol versions a finalized connector's context disables.
pub uninterp spec fn connector_context_disabled(c: SslConnector) -> Set<Protocol>;

/// The protocol versions a finalized acceptor's context disables.
pub uninterp spec fn acceptor_context_disabled(a: SslAcceptor) -> Set<Protocol>;

/// What the engine handed back when a PKCS#12 bundle was parsed.
pub(crate) struct ParsedBundle {
    pub(crate) cert: Option<X509>,
    pub(crate) key: Option<PKey<Private>>,
    pub(crate) chain: Vec<X509>,
}

/// One attempt to drive a handshake to completion, as the engine reports it.
#[verifier::reject_recursive_types(S)]
pub(crate) enum RawHandshake<S> {
    /// Negotiation finished; the secure channel is up.
    Done(SslStream<S>),
    /// The context refused the attempt before any negotiation.
    Setup(ErrorStack),
    /// Negotiation failed for good; the suspended state carries the fault.
    Fatal(MidHandshakeSslStream<S>),
    /// The transport would block; the attempt can be resumed.
    Blocked(MidHandshakeSslStream<S>),
}

/// One call of the engine's shutdown primitive, classified.
pub(crate) enum ShutdownStep {
    /// A close notification went out; the peer's answer is still owed.
    Sent,
    /// The peer's close notification arrived.
    Received,
    /// The session was already shut down on both sides.
    PeerClosed,
    /// The transport itself failed or would block.
    Transport(std::io::Error),
    /// A negotiation-layer fault.
    Fatal(openssl::ssl::Error),
}

/// Relies on `Pkcs12::from_der` and `Pkcs12::parse2`: they parse the buffer
/// under the passphrase, deterministically in those two inputs, and hand back
/// whatever leaf certificate, key and chain the bundle holds. `parse2` turns
/// the passphrase into a C string and panics on a NUL byte in it, so that
/// input is excluded.
#[verifier::external_body]
pub(crate) fn pkcs12_parse(der: &[u8], pass: &str) -> (r: Result<ParsedBundle, ErrorStack>)
    requires
        !pass@.contains('\0'),
    ensures
        (r matches Ok(p) && p.cert is Some && p.key is Some) <==> pkcs12_identity(der@, pass@),
{
    let parsed = openssl::pkcs12::Pkcs12::from_der(der)?.parse2(pass)?;
    Ok(ParsedBundle {
        cert: parsed.cert,
        key: parsed.pkey,
        chain: parsed.ca.map(|c| c.into_iter().collect()).unwrap_or_default(),
    })
}

/// Relies on `X509::clone`: the handle is reference-counted, so the clone is
/// the same certificate.
#[verifier::external_body]
pub(crate) fn x509_clone(cert: &X509) -> (r: X509)
    ensures
        r == *cert,
{
    cert.clone()
}

/// Relies on `SslConnector::builder` with `SslMethod::tls`: the fresh context
/// carries no extra chain certificates, no certificate and no key, and its
/// baseline options flag off exactly SSL 3.0 of the modelled versions
/// (SSL 2.0 besides).
#[verifier::external_body]
pub(crate) fn connector_builder_new() -> (r: Result<SslConnectorBuilder, ErrorStack>)
    ensures
        r matches Ok(b) ==> connector_disabled(b) == set![Protocol::Sslv3]
            && connector_chain(b) == Seq::<X509>::empty() && connector_cert(b) is None
            && connector_key(b) is None,
{
    SslConnector::builder(SslMethod::tls())
}

/// Relies on `SslContextBuilder::set_certificate`: on success it replaces the
/// context's leaf certificate with the given one; it touches neither the
/// option flags, the chain, nor the key.
#[verifier::external_body]
pub(crate) fn connector_set_certificate(
    b: &mut SslConnectorBuilder,
    cert: &X509,
) -> (r: Result<(), ErrorStack>)
    ensures
        connector_disabled(*final(b)) == connector_disabled(*old(b)),
        connector_chain(*final(b)) == connector_chain(*old(b)),
        connector_key(*final(b)) == connector_key(*old(b)),
        r is Ok ==> connector_cert(*final(b)) == Some(*cert),
{
    b.set_certificate(cert)
}

/// Relies on `SslContextBuilder::set_private_key`: on success it replaces the
/// context's private key with the given one; it touches neither the option
/// flags, the chain, nor the certificate.
#[verifier::external_body]
pub(crate) fn connector_set_private_key(
    b: &mut SslConnectorBuilder,
    key: &PKey<Private>,
) -> (r: Result<(), ErrorStack>)
    ensures
        connector_disabled(*final(b)) == connector_disabled(*old(b)),
        connector_chain(*final(b)) == connector_chain(*old(b)),
        connector_cert(*final(b)) == connector_cert(*old(b)),
        r is Ok ==> connector_key(*final(b)) == Some(*key),
{
    b.set_private_key(key)
}

/// Relies on `SslContextBuilder::check_private_key`: it mutates nothing and
/// succeeds exactly when the engine's key check accepts the bound key as
/// belonging to the bound certificate.
#[verifier::external_body]
pub(crate) fn connector_check_private_key(b: &SslConnectorBuilder) -> (r: Result<(), ErrorStack>)
    ensures
        connector_cert(*b) matches Some(c) && connector_key(*b) matches Some(k) ==> (r is Ok
            <==> key_matches(c, k)),
{
    b.check_private_key()
}

/// Relies on `SslContextBuilder::add_extra_chain_cert`: on success it appends
/// the certificate to the context's chain; it never touches the option flags,
/// the certificate or the key.
#[verifier::external_body]
pub(crate) fn connector_add_chain_cert(
    b: &mut SslConnectorBuilder,
    cert: X509,
) -> (r: Result<(), ErrorStack>)
    ensures
        connector_disabled(*final(b)) == connector_disabled(*old(b)),
        connector_cert(*final(b)) == connector_cert(*old(b)),
        connector_key(*final(b)) == connector_key(*old(b)),
        r is Ok ==> connector_chain(*final(b)) == connector_chain(*old(b)).push(cert),
        r is Err ==> connector_chain(*final(b)) == connector_chain(*old(b)),
{
    b.add_extra_chain_cert(cert)
}

/// Relies on `SslContextBuilder::set_options`: setting every version-disabling
/// flag (the modelled four, and SSL 2.0 and TLS 1.3 besides) flags every
/// version off; the chain is untouched.
#[verifier::external_body]
pub(crate) fn connector_disable_all_versions(b: &mut SslConnectorBuilder)
    ensures
        connector_disabled(*final(b)) == crate::all_protocols(),
        connector_chain(*final(b)) == connector_chain(*old(b)),
        connector_cert(*final(b)) == connector_cert(*old(b)),
        connector_key(*final(b)) == connector_key(*old(b)),
{
    b.set_options(
        SslOptions::NO_SSLV2 | SslOptions::NO_SSLV3 | SslOptions::NO_TLSV1
            | SslOptions::NO_TLSV1_1 | SslOptions::NO_TLSV1_2 | SslOptions::NO_TLSV1_3,
    );
}

/// Relies on `SslContextBuilder::clear_options`: clearing `NO_SSLV3` leaves
/// every other flag and the chain as they were.
#[verifier::external_body]
pub(crate) fn connector_allow_sslv3(b: &mut SslConnectorBuilder)
    ensures
        connector_disabled(*final(b)) == connector_disabled(*old(b)).remove(Protocol::Sslv3),
        connector_chain(*final(b)) == connector_chain(*old(b)),
        connector_cert(*final(b)) == connector_cert(*old(b)),
        connector_key(*final(b)) == connector_key(*old(b)),
{
    b.clear_options(SslOptions::NO_SSLV3);
}

/// Relies on `SslContextBuilder::clear_options`: clearing `NO_TLSV1` leaves
/// every other flag and the chain as they were.
#[verifier::external_body]
pub(crate) fn connector_allow_tlsv10(b: &mut SslConnectorBuilder)
    ensures
        connector_disabled(*final(b)) == connector_disabled(*old(b)).remove(Protocol::Tlsv10),
        connector_chain(*final(b)) == connector_chain(*old(b)),
        connector_cert(*final(b)) == connector_cert(*old(b)),
        connector_key(*final(b)) == connector_key(*old(b)),
{
    b.clear_options(SslOptions::NO_TLSV1);
}

/// Relies on `SslContextBuilder::clear_options`: clearing `NO_TLSV1_1` leaves
/// every other flag and the chain as they were.
#[verifier::external_body]
pub(crate) fn connector_allow_tlsv11(b: &mut SslConnectorBuilder)
    ensures
        connector_disabled(*final(b)) == connector_disabled(*old(b)).remove(Protocol::Tlsv11),
        connector_chain(*final(b)) == connector_chain(*old(b)),
        connector_cert(*final(b)) == connector_cert(*old(b)),
        connector_key(*final(b)) == connector_key(*old(b)),
{
    b.clear_options(SslOptions::NO_TLSV1_1);
}

/// Relies on `SslContextBuilder::clear_options`: clearing `NO_TLSV1_2` leaves
/// every other flag and the chain as they were.
#[verifier::external_body]
pub(crate) fn connector_allow_tlsv12(b: &mut SslConnectorBuilder)
    ensures
        connector_disabled(*final(b)) == connector_disabled(*old(b)).remove(Protocol::Tlsv12),
        connector_chain(*final(b)) == connector_chain(*old(b)),
        connector_cert(*final(b)) == connector_cert(*old(b)),
        connector_key(*final(b)) == connector_key(*old(b)),
{
    b.clear_options(SslOptions::NO_TLSV1_2);
}

/// Relies on `SslConnectorBuilder::build`: it freezes the context as
/// configured, version flags included.
#[verifier::external_body]
pub(crate) fn connector_build(b: SslConnectorBuilder) -> (r: SslConnector)
    ensures
        connector_context_disabled(r) == connector_disabled(b),
{
    b.build()
}

/// Relies on `SslConnector::connect`: it drives a client-role handshake over
/// the transport, verifying the peer against `domain`, and reports completion,
/// a setup fault, a terminal failure, or a suspension on would-block. The
/// engine turns `domain` into a C string and panics on a NUL byte in it, so
/// that input is excluded.
#[verifier::external_body]
pub(crate) fn connector_connect<S: Read + Write>(
    c: &SslConnector,
    domain: &str,
    stream: S,
) -> (r: RawHandshake<S>)
    requires
        !domain@.contains('\0'),
{
    match c.connect(domain, stream) {
        Ok(s) => RawHandshake::Done(s),
        Err(openssl::ssl::HandshakeError::SetupFailure(e)) => RawHandshake::Setup(e),
        Err(openssl::ssl::HandshakeError::Failure(m)) => RawHandshake::Fatal(m),
        Err(openssl::ssl::HandshakeError::WouldBlock(m)) => RawHandshake::Blocked(m),
    }
}

/// Relies on `SslAcceptor::mozilla_intermediate` with `SslMethod::tls`: the
/// baseline context carries no extra chain certificates, no certificate and
/// no key, and its option flags disable exactly SSL 3.0 of the modelled
/// versions (SSL 2.0 and TLS 1.3 besides).
#[verifier::external_body]
pub(crate) fn acceptor_builder_new() -> (r: Result<SslAcceptorBuilder, ErrorStack>)
    ensures
        r matches Ok(b) ==> acceptor_disabled(b) == set![Protocol::Sslv3]
            && acceptor_chain(b) == Seq::<X509>::empty() && acceptor_cert(b) is None
            && acceptor_key(b) is None,
{
    SslAcceptor::mozilla_intermediate(SslMethod::tls())
}

/// Relies on `SslContextBuilder::set_certificate`; as for the connector.
#[verifier::external_body]
pub(crate) fn acceptor_set_certificate(
    b: &mut SslAcceptorBuilder,
    cert: &X509,
) -> (r: Result<(), ErrorStack>)
    ensures
        acceptor_disabled(*final(b)) == acceptor_disabled(*old(b)),
        acceptor_chain(*final(b)) == acceptor_chain(*old(b)),
        acceptor_key(*final(b)) == acceptor_key(*old(b)),
        r is Ok ==> acceptor_cert(*final(b)) == Some(*cert),
{
    b.set_certificate(cert)
}

/// Relies on `SslContextBuilder::set_private_key`; as for the connector.
#[verifier::external_body]
pub(crate) fn acceptor_set_private_key(
    b: &mut SslAcceptorBuilder,
    key: &PKey<Private>,
) -> (r: Result<(), ErrorStack>)
    ensures
        acceptor_disabled(*final(b)) == acceptor_disabled(*old(b)),
        acceptor_chain(*final(b)) == acceptor_chain(*old(b)),
        acceptor_cert(*final(b)) == acceptor_cert(*old(b)),
        r is Ok ==> acceptor_key(*final(b)) == Some(*key),
{
    b.set_private_key(key)
}

/// Relies on `SslContextBuilder::check_private_key`; as for the connector.
#[verifier::external_body]
pub(crate) fn acceptor_check_private_key(b: &SslAcceptorBuilder) -> (r: Result<(), ErrorStack>)
    ensures
        acceptor_cert(*b) matches Some(c) && acceptor_key(*b) matches Some(k) ==> (r is Ok
            <==> key_matches(c, k)),
{
    b.check_private_key()
}

/// Relies on `SslContextBuilder::add_extra_chain_cert`; as for the connector.
#[verifier::external_body]
pub(crate) fn acceptor_add_chain_cert(
    b: &mut SslAcceptorBuilder,
    cert: X509,
) -> (r: Result<(), ErrorStack>)
    ensures
        acceptor_disabled(*final(b)) == acceptor_disabled(*old(b)),
        acceptor_cert(*final(b)) == acceptor_cert(*old(b)),
        acceptor_key(*final(b)) == acceptor_key(*old(b)),
        r is Ok ==> acceptor_chain(*final(b)) == acceptor_chain(*old(b)).push(cert),
        r is Err ==> acceptor_chain(*final(b)) == acceptor_chain(*old(b)),
{
    b.add_extra_chain_cert(cert)
}

/// Relies on `SslContextBuilder::set_options`; as for the connector.
#[verifier::external_body]
pub(crate) fn acceptor_disable_all_versions(b: &mut SslAcceptorBuilder)
    ensures
        acceptor_disabled(*final(b)) == crate::all_protocols(),
        acceptor_chain(*final(b)) == acceptor_chain(*old(b)),
        acceptor_cert(*final(b)) == acceptor_cert(*old(b)),
        acceptor_key(*final(b)) == acceptor_key(*old(b)),
{
    b.set_options(
        SslOptions::NO_SSLV2 | SslOptions::NO_SSLV3 | SslOptions::NO_TLSV1
            | SslOptions::NO_TLSV1_1 | SslOptions::NO_TLSV1_2 | SslOptions::NO_TLSV1_3,
    );
}

/// Relies on `SslContextBuilder::clear_options`; as for the connector.
#[verifier::external_body]
pub(crate) fn acceptor_allow_sslv3(b: &mut SslAcceptorBuilder)
    ensures
        acceptor_disabled(*final(b)) == acceptor_disabled(*old(b)).remove(Protocol::Sslv3),
        acceptor_chain(*final(b)) == acceptor_chain(*old(b)),
        acceptor_cert(*final(b)) == acceptor_cert(*old(b)),
        acceptor_key(*final(b)) == acceptor_key(*old(b)),
{
    b.clear_options(SslOptions::NO_SSLV3);
}

/// Relies on `SslContextBuilder::clear_options`; as for the connector.
#[verifier::external_body]
pub(crate) fn acceptor_allow_tlsv10(b: &mut SslAcceptorBuilder)
    ensures
        acceptor_disabled(*final(b)) == acceptor_disabled(*old(b)).remove(Protocol::Tlsv10),
        acceptor_chain(*final(b)) == acceptor_chain(*old(b)),
        acceptor_cert(*final(b)) == acceptor_cert(*old(b)),
        acceptor_key(*final(b)) == acceptor_key(*old(b)),
{
    b.clear_options(SslOptions::NO_TLSV1);
}

/// Relies on `SslContextBuilder::clear_options`; as for the connector.
#[verifier::external_body]
pub(crate) fn acceptor_allow_tlsv11(b: &mut SslAcceptorBuilder)
    ensures
        acceptor_disabled(*final(b)) == acceptor_disabled(*old(b)).remove(Protocol::Tlsv11),
        acceptor_chain(*final(b)) == acceptor_chain(*old(b)),
        acceptor_cert(*final(b)) == acceptor_cert(*old(b)),
        acceptor_key(*final(b)) == acceptor_key(*old(b)),
{
    b.clear_options(SslOptions::NO_TLSV1_1);
}

/// Relies on `SslContextBuilder::clear_options`; as for the connector.
#[verifier::external_body]
pub(crate) fn acceptor_allow_tlsv12(b: &mut SslAcceptorBuilder)
    ensures
        acceptor_disabled(*final(b)) == acceptor_disabled(*old(b)).remove(Protocol::Tlsv12),
        acceptor_chain(*final(b)) == acceptor_chain(*old(b)),
        acceptor_cert(*final(b)) == acceptor_cert(*old(b)),
        acceptor_key(*final(b)) == acceptor_key(*old(b)),
{
    b.clear_options(SslOptions::NO_TLSV1_2);
}

/// Relies on `SslAcceptorBuilder::build`: it freezes the context as
/// configured, version flags included.
#[verifier::external_body]
pub(crate) fn acceptor_build(b: SslAcceptorBuilder) -> (r: SslAcceptor)
    ensures
        acceptor_context_disabled(r) == acceptor_disabled(b),
{
    b.build()
}

/// Relies on `SslAcceptor::accept`: it drives a server-role handshake over the
/// transport, presenting the context's identity, with the same four outcomes
/// as the connector's handshake.
#[verifier::external_body]
pub(crate) fn acceptor_accept<S: Read + Write>(a: &SslAcceptor, stream: S) -> (r: RawHandshake<S>)
{
    match a.accept(stream) {
        Ok(s) => RawHandshake::Done(s),
        Err(openssl::ssl::HandshakeError::SetupFailure(e)) => RawHandshake::Setup(e),
        Err(openssl::ssl::HandshakeError::Failure(m)) => RawHandshake::Fatal(m),
        Err(openssl::ssl::HandshakeError::WouldBlock(m)) => RawHandshake::Blocked(m),
    }
}

/// Relies on `MidHandshakeSslStream::handshake`: it resumes the suspended
/// negotiation exactly where it stopped, with the same four outcomes.
#[verifier::external_body]
pub(crate) fn mid_handshake<S: Read + Write>(m: MidHandshakeSslStream<S>) -> (r: RawHandshake<S>)
{
    match m.handshake() {
        Ok(s) => RawHandshake::Done(s),
        Err(openssl::ssl::HandshakeError::SetupFailure(e)) => RawHandshake::Setup(e),
        Err(openssl::ssl::HandshakeError::Failure(m)) => RawHandshake::Fatal(m),
        Err(openssl::ssl::HandshakeError::WouldBlock(m)) => RawHandshake::Blocked(m),
    }
}

/// Relies on `MidHandshakeSslStream::into_error`: it hands out the fault that
/// stopped the negotiation.
#[verifier::external_body]
pub(crate) fn mid_into_error<S>(m: MidHandshakeSslStream<S>) -> (r: openssl::ssl::Error)
{
    m.into_error()
}

/// Relies on `MidHandshakeSslStream::get_ref`: it hands out the suspended
/// transport.
#[verifier::external_body]
pub(crate) fn mid_get_ref<S>(m: &MidHandshakeSslStream<S>) -> (r: &S)
{
    m.get_ref()
}

/// Relies on `MidHandshakeSslStream::get_mut`: it hands out the suspended
/// transport.
#[verifier::external_body]
pub(crate) fn mid_get_mut<S>(m: &mut MidHandshakeSslStream<S>) -> (r: &mut S)
{
    m.get_mut()
}

/// Relies on `SslRef::pending`: it reports how many decrypted plaintext bytes
/// wait in the engine's buffer.
#[verifier::external_body]
pub(crate) fn stream_pending<S>(s: &SslStream<S>) -> (r: usize)
{
    s.ssl().pending()
}

/// Relies on the engine's `Read` impl for `SslStream`: it decrypts into the
/// buffer and reports how many bytes it placed there, never more than the
/// buffer holds; the buffer keeps its length.
#[verifier::external_body]
pub(crate) fn stream_read<S: Read + Write>(
    s: &mut SslStream<S>,
    buf: &mut [u8],
) -> (r: Result<usize, std::io::Error>)
    ensures
        final(buf)@.len() == old(buf)@.len(),
        r matches Ok(n) ==> n <= old(buf)@.len(),
{
    s.read(buf)
}

/// Relies on the engine's `Write` impl for `SslStream`: it encrypts a prefix
/// of the buffer onto the transport and reports that prefix's length, never
/// more than the buffer holds.
#[verifier::external_body]
pub(crate) fn stream_write<S: Read + Write>(
    s: &mut SslStream<S>,
    buf: &[u8],
) -> (r: Result<usize, std::io::Error>)
    ensures
        r matches Ok(n) ==> n <= buf@.len(),
{
    s.write(buf)
}

/// Relies on the engine's `Write` impl for `SslStream`: flush reaches through
/// to the transport.
#[verifier::external_body]
pub(crate) fn stream_flush<S: Read + Write>(s: &mut SslStream<S>) -> (r: Result<(), std::io::Error>)
{
    s.flush()
}

/// Relies on `SslStream::shutdown` and `ssl::Error::{code, into_io_error}`:
/// one call of the engine's shutdown primitive, its outcome told apart as the
/// engine reports it.
#[verifier::external_body]
pub(crate) fn stream_shutdown_once<S: Read + Write>(s: &mut SslStream<S>) -> (r: ShutdownStep)
{
    match s.shutdown() {
        Ok(openssl::ssl::ShutdownResult::Sent) => ShutdownStep::Sent,
        Ok(openssl::ssl::ShutdownResult::Received) => ShutdownStep::Received,
        Err(e) if e.code() == openssl::ssl::ErrorCode::ZERO_RETURN => ShutdownStep::PeerClosed,
        Err(e) => match e.into_io_error() {
            Ok(io) => ShutdownStep::Transport(io),
            Err(e) => ShutdownStep::Fatal(e),
        },
    }
}

/// Relies on `std::io::Error::new`: the result has kind `Other` and carries
/// `e`, unaltered, as its cause.
#[verifier::external_body]
pub(crate) fn io_error_other(e: openssl::ssl::Error) -> (r: std::io::Error)
{
    std::io::Error::new(std::io::ErrorKind::Other, e)
}

/// Relies on `std::io::Error::new`: it carries the given description.
#[verifier::external_body]
pub(crate) fn io_error_msg(msg: &str) -> (r: std::io::Error)
{
    std::io::Error::new(std::io::ErrorKind::Other, msg.to_string())
}

/// Relies on `SslStream::get_ref`: it hands out the wrapped transport.
#[verifier::external_body]
pub(crate) fn stream_get_ref<S>(s: &SslStream<S>) -> (r: &S)
{
    s.get_ref()
}

/// Relies on `SslStream::get_mut`: it hands out the wrapped transport.
#[verifier::external_body]
pub(crate) fn stream_get_mut<S>(s: &mut SslStream<S>) -> (r: &mut S)
{
    s.get_mut()
}

/// Relies on `ErrorStack`'s `Display` impl.
#[verifier::external_body]
pub(crate) fn errorstack_message(e: &ErrorStack) -> (r: String)
{
    format!("{}", e)
}

/// Relies on `ssl::Error`'s `Display` impl.
#[verifier::external_body]
pub(crate) fn ssl_error_message(e: &openssl::ssl::Error) -> (r: String)
{
    format!("{}", e)
}

} // verus!
