//! Server-side configuration and handshake driving.
use vstd::prelude::*;

use crate::engine;
use crate::engine::{
    acceptor_cert, acceptor_chain, acceptor_context_disabled, acceptor_disabled, acceptor_key,
    key_matches,
};
use crate::error::{Error, ErrorKind};
use crate::handshake::{finish_attempt, HandshakeError};
use crate::identity::Pkcs12;
use crate::stream::TlsStream;
use crate::{all_protocols, disabled_for, lemma_allowed_set_take_step, Protocol};

verus! {

/// Mutable server-side configuration: the engine's secure-by-default server
/// context with an identity bound at construction, and a protocol version
/// allow-list layered on top. Consumed by [`Self::build`], which freezes it
/// into an immutable [`TlsAcceptor`].
pub struct TlsAcceptorBuilder {
    pub(crate) inner: openssl::ssl::SslAcceptorBuilder,
}

impl TlsAcceptorBuilder {
    /// The protocol versions the context's option flags disable.
    pub closed spec fn spec_disabled(&self) -> Set<Protocol> {
        acceptor_disabled(self.inner)
    }

    /// The extra chain certificates bound so far, in order.
    pub closed spec fn spec_chain(&self) -> Seq<openssl::x509::X509> {
        acceptor_chain(self.inner)
    }

    /// The leaf certificate bound so far, if any.
    pub closed spec fn spec_cert(&self) -> Option<openssl::x509::X509> {
        acceptor_cert(self.inner)
    }

    /// The private key bound so far, if any.
    pub closed spec fn spec_key(&self) -> Option<openssl::pkey::PKey<openssl::pkey::Private>> {
        acceptor_key(self.inner)
    }

    /// Replaces the protocol version allow-list: every version of the
    /// enumeration not named in `protocols` is disabled, and versions outside
    /// the enumeration stay disabled always. The last call wins; an empty
    /// allow-list disables everything, which only surfaces later, as a
    /// handshake failure.
    pub fn supported_protocols(&mut self, protocols: &[Protocol]) -> (r: Result<(), Error>)
        ensures
            r is Ok,
            final(self).spec_disabled() == disabled_for(protocols@),
            final(self).spec_chain() == old(self).spec_chain(),
            final(self).spec_cert() == old(self).spec_cert(),
            final(self).spec_key() == old(self).spec_key(),
    {
        engine::acceptor_disable_all_versions(&mut self.inner);
        let ghost chain0 = self.spec_chain();
        proof {
            assert(all_protocols().difference(crate::allowed_set(protocols@.take(0)))
                =~= all_protocols());
        }
        let n = protocols.len();
        let mut i: usize = 0;
        while i < n
            invariant
                n == protocols@.len(),
                i <= n,
                self.spec_chain() == chain0,
                self.spec_cert() == old(self).spec_cert(),
                self.spec_key() == old(self).spec_key(),
                acceptor_disabled(self.inner) == all_protocols().difference(
                    crate::allowed_set(protocols@.take(i as int)),
                ),
            decreases n - i,
        {
            proof {
                lemma_allowed_set_take_step(protocols@, i as int);
            }
            match protocols[i] {
                Protocol::Sslv3 => engine::acceptor_allow_sslv3(&mut self.inner),
                Protocol::Tlsv10 => engine::acceptor_allow_tlsv10(&mut self.inner),
                Protocol::Tlsv11 => engine::acceptor_allow_tlsv11(&mut self.inner),
                Protocol::Tlsv12 => engine::acceptor_allow_tlsv12(&mut self.inner),
            }
            proof {
                assert(acceptor_disabled(self.inner) =~= all_protocols().difference(
                    crate::allowed_set(protocols@.take(i as int + 1)),
                ));
            }
            i += 1;
        }
        proof {
            assert(protocols@.take(n as int) =~= protocols@);
        }
        Ok(())
    }

    /// Freezes the configuration into an immutable, reusable acceptor. The
    /// finalized context keeps the version restrictions as configured.
    pub fn build(self) -> (r: Result<TlsAcceptor, Error>)
        ensures
            r is Ok,
            r matches Ok(a) ==> a.spec_disabled() == self.spec_disabled(),
    {
        Ok(TlsAcceptor { inner: engine::acceptor_build(self.inner) })
    }
}

/// An immutable factory for server-role handshakes. Created once, then safely
/// shared read-only across any number of handshakes, each over its own
/// transport.
pub struct TlsAcceptor {
    pub(crate) inner: openssl::ssl::SslAcceptor,
}

impl TlsAcceptor {
    /// The protocol versions the finalized context disables.
    pub closed spec fn spec_disabled(&self) -> Set<Protocol> {
        acceptor_context_disabled(self.inner)
    }

    /// A fresh server-side builder with the mandatory identity bound: an
    /// acceptor must present a certificate. The engine's intermediate-
    /// compatibility baseline is the starting point; of the enumeration it
    /// disables SSL 3.0 (and versions outside the enumeration besides). The
    /// bundle's leaf certificate, private key and chain, in order, are bound
    /// before the builder is handed back; a component the engine rejects —
    /// the key not matching the certificate included — is a configuration
    /// error.
    pub fn builder(pkcs12: Pkcs12) -> (r: Result<TlsAcceptorBuilder, Error>)
        ensures
            r matches Ok(b) ==> b.spec_disabled() == set![Protocol::Sslv3] && b.spec_cert()
                == Some(pkcs12.spec_cert()) && b.spec_key() == Some(pkcs12.spec_key())
                && key_matches(pkcs12.spec_cert(), pkcs12.spec_key()) && b.spec_chain()
                == pkcs12.spec_chain(),
            !key_matches(pkcs12.spec_cert(), pkcs12.spec_key()) ==> r is Err,
            r matches Err(e) ==> e.spec_kind() == ErrorKind::Configuration
                && e.spec_engine_fault(),
    {
        let mut b = match engine::acceptor_builder_new() {
            Ok(b) => TlsAcceptorBuilder { inner: b },
            Err(e) => {
                return Err(Error::configuration(e));
            },
        };
        match engine::acceptor_set_certificate(&mut b.inner, &pkcs12.cert) {
            Err(e) => {
                return Err(Error::configuration(e));
            },
            Ok(_) => {},
        }
        match engine::acceptor_set_private_key(&mut b.inner, &pkcs12.key) {
            Err(e) => {
                return Err(Error::configuration(e));
            },
            Ok(_) => {},
        }
        match engine::acceptor_check_private_key(&b.inner) {
            Err(e) => {
                return Err(Error::configuration(e));
            },
            Ok(_) => {},
        }
        proof {
            assert(pkcs12.spec_chain().take(0) =~= Seq::<openssl::x509::X509>::empty());
        }
        let n = pkcs12.chain.len();
        let mut i: usize = 0;
        while i < n
            invariant
                n == pkcs12.spec_chain().len(),
                i <= n,
                acceptor_disabled(b.inner) == set![Protocol::Sslv3],
                acceptor_cert(b.inner) == Some(pkcs12.spec_cert()),
                acceptor_key(b.inner) == Some(pkcs12.spec_key()),
                key_matches(pkcs12.spec_cert(), pkcs12.spec_key()),
                b.spec_chain() == pkcs12.spec_chain().take(i as int),
            decreases n - i,
        {
            let cert = engine::x509_clone(&pkcs12.chain[i]);
            match engine::acceptor_add_chain_cert(&mut b.inner, cert) {
                Err(e) => {
                    return Err(Error::configuration(e));
                },
                Ok(_) => {},
            }
            proof {
                assert(b.spec_chain() =~= pkcs12.spec_chain().take(i + 1));
            }
            i += 1;
        }
        proof {
            assert(pkcs12.spec_chain().take(n as int) =~= pkcs12.spec_chain());
        }
        Ok(b)
    }

    /// Initiates a server-role handshake over `stream`, presenting the bound
    /// identity. No peer certificate is demanded of the client.
    ///
    /// Completion yields the established stream; a would-block transport
    /// suspends the attempt resumably; anything else is a terminal handshake
    /// failure.
    pub fn accept<S: std::io::Read + std::io::Write>(&self, stream: S) -> (r: Result<
        TlsStream<S>,
        HandshakeError<S>,
    >)
        ensures
            r matches Err(HandshakeError::Failure(e)) ==> e.spec_kind() == ErrorKind::Handshake
                && e.spec_engine_fault(),
    {
        finish_attempt(engine::acceptor_accept(&self.inner, stream))
    }
}

/// Access to the engine's own server context builder, for callers that need
/// to reach past the backend-independent surface.
pub trait TlsAcceptorBuilderExt {
    /// A shared reference to the engine's builder.
    fn builder(&self) -> &openssl::ssl::SslAcceptorBuilder;

    /// A mutable reference to the engine's builder.
    fn builder_mut(&mut self) -> &mut openssl::ssl::SslAcceptorBuilder;
}

impl TlsAcceptorBuilderExt for TlsAcceptorBuilder {
    fn builder(&self) -> &openssl::ssl::SslAcceptorBuilder {
        &self.inner
    }

    fn builder_mut(&mut self) -> &mut openssl::ssl::SslAcceptorBuilder {
        &mut self.inner
    }
}

} // verus!
