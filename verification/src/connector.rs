//! Client-side configuration and handshake driving.
use vstd::prelude::*;

use crate::engine;
use crate::engine::{
    connector_cert, connector_chain, connector_context_disabled, connector_disabled,
    connector_key, key_matches,
};
use crate::error::{Error, ErrorKind};
use crate::handshake::{finish_attempt, HandshakeError};
use crate::identity::Pkcs12;
use crate::stream::TlsStream;
use crate::{all_protocols, disabled_for, lemma_allowed_set_take_step, Protocol};

verus! {

/// Holds when `post` extends `pre` by some prefix of `added`: what a
/// partially failed identity binding leaves behind.
pub open spec fn chain_extended_by_prefix(
    pre: Seq<openssl::x509::X509>,
    post: Seq<openssl::x509::X509>,
    added: Seq<openssl::x509::X509>,
) -> bool {
    exists|k: int| 0 <= k <= added.len() && post == pre + added.take(k)
}

/// Mutable client-side configuration: an optional identity and a protocol
/// version allow-list, layered onto the engine's client context. Consumed by
/// [`Self::build`], which freezes it into an immutable [`TlsConnector`].
pub struct TlsConnectorBuilder {
    pub(crate) inner: openssl::ssl::SslConnectorBuilder,
}

impl TlsConnectorBuilder {
    /// The protocol versions the context's option flags disable.
    pub closed spec fn spec_disabled(&self) -> Set<Protocol> {
        connector_disabled(self.inner)
    }

    /// The extra chain certificates bound so far, in order.
    pub closed spec fn spec_chain(&self) -> Seq<openssl::x509::X509> {
        connector_chain(self.inner)
    }

    /// The leaf certificate bound so far, if any.
    pub closed spec fn spec_cert(&self) -> Option<openssl::x509::X509> {
        connector_cert(self.inner)
    }

    /// The private key bound so far, if any.
    pub closed spec fn spec_key(&self) -> Option<openssl::pkey::PKey<openssl::pkey::Private>> {
        connector_key(self.inner)
    }

    /// Binds the identity the connector will present: its leaf certificate,
    /// its private key, and its chain certificates in order.
    ///
    /// Fails with a configuration error if the engine rejects a component,
    /// the key not matching the certificate included; an earlier component
    /// may already be bound then. Chain certificates accumulate over repeated
    /// calls rather than replace one another, as the contract states.
    pub fn identity(&mut self, pkcs12: Pkcs12) -> (r: Result<(), Error>)
        ensures
            final(self).spec_disabled() == old(self).spec_disabled(),
            r is Ok ==> final(self).spec_cert() == Some(pkcs12.spec_cert())
                && final(self).spec_key() == Some(pkcs12.spec_key())
                && key_matches(pkcs12.spec_cert(), pkcs12.spec_key())
                && final(self).spec_chain() == old(self).spec_chain() + pkcs12.spec_chain(),
            !key_matches(pkcs12.spec_cert(), pkcs12.spec_key()) ==> r is Err,
            r matches Err(e) ==> e.spec_kind() == ErrorKind::Configuration
                && e.spec_engine_fault() && chain_extended_by_prefix(
                old(self).spec_chain(),
                final(self).spec_chain(),
                pkcs12.spec_chain(),
            ),
    {
        let ghost chain0 = self.spec_chain();
        proof {
            assert(chain0 + pkcs12.spec_chain().take(0) =~= chain0);
            assert(chain_extended_by_prefix(chain0, chain0, pkcs12.spec_chain()));
        }
        match engine::connector_set_certificate(&mut self.inner, &pkcs12.cert) {
            Err(e) => {
                return Err(Error::configuration(e));
            },
            Ok(_) => {},
        }
        match engine::connector_set_private_key(&mut self.inner, &pkcs12.key) {
            Err(e) => {
                return Err(Error::configuration(e));
            },
            Ok(_) => {},
        }
        match engine::connector_check_private_key(&self.inner) {
            Err(e) => {
                return Err(Error::configuration(e));
            },
            Ok(_) => {},
        }
        let n = pkcs12.chain.len();
        let mut i: usize = 0;
        while i < n
            invariant
                n == pkcs12.spec_chain().len(),
                i <= n,
                chain0 == old(self).spec_chain(),
                connector_disabled(self.inner) == old(self).spec_disabled(),
                connector_cert(self.inner) == Some(pkcs12.spec_cert()),
                connector_key(self.inner) == Some(pkcs12.spec_key()),
                key_matches(pkcs12.spec_cert(), pkcs12.spec_key()),
                self.spec_chain() == chain0 + pkcs12.spec_chain().take(i as int),
            decreases n - i,
        {
            let cert = engine::x509_clone(&pkcs12.chain[i]);
            match engine::connector_add_chain_cert(&mut self.inner, cert) {
                Err(e) => {
                    proof {
                        assert(chain_extended_by_prefix(
                            chain0,
                            self.spec_chain(),
                            pkcs12.spec_chain(),
                        )) by {
                            assert(self.spec_chain() == chain0 + pkcs12.spec_chain().take(
                                i as int,
                            ));
                        }
                    }
                    return Err(Error::configuration(e));
                },
                Ok(_) => {},
            }
            proof {
                assert(self.spec_chain() =~= chain0 + pkcs12.spec_chain().take(i + 1));
            }
            i += 1;
        }
        proof {
            assert(pkcs12.spec_chain().take(n as int) =~= pkcs12.spec_chain());
        }
        Ok(())
    }

    /// Replaces the protocol version allow-list: every version of the
    /// enumeration not named in `protocols` is disabled, and versions outside
    /// the enumeration stay disabled always. The last call wins; an empty
    /// allow-list disables everything, which only surfaces later, as a
    /// handshake failure.
    pub fn supported_protocols(&mut self, protocols: &[Protocol]) -> (r: Result<(), Error>)
        ensures
            r is Ok,
            final(self).spec_disabled() == disabled_for(protocols@),
            final(self).spec_chain() == old(self).spec_chain(),
            final(self).spec_cert() == old(self).spec_cert(),
            final(self).spec_key() == old(self).spec_key(),
    {
        engine::connector_disable_all_versions(&mut self.inner);
        let ghost chain0 = self.spec_chain();
        proof {
            assert(all_protocols().difference(crate::allowed_set(protocols@.take(0))) =~= all_protocols());
        }
        let n = protocols.len();
        let mut i: usize = 0;
        while i < n
            invariant
                n == protocols@.len(),
                i <= n,
                self.spec_chain() == chain0,
                self.spec_cert() == old(self).spec_cert(),
                self.spec_key() == old(self).spec_key(),
                connector_disabled(self.inner) == all_protocols().difference(
                    crate::allowed_set(protocols@.take(i as int)),
                ),
            decreases n - i,
        {
            proof {
                lemma_allowed_set_take_step(protocols@, i as int);
            }
            match protocols[i] {
                Protocol::Sslv3 => engine::connector_allow_sslv3(&mut self.inner),
                Protocol::Tlsv10 => engine::connector_allow_tlsv10(&mut self.inner),
                Protocol::Tlsv11 => engine::connector_allow_tlsv11(&mut self.inner),
                Protocol::Tlsv12 => engine::connector_allow_tlsv12(&mut self.inner),
            }
            proof {
                assert(connector_disabled(self.inner) =~= all_protocols().difference(
                    crate::allowed_set(protocols@.take(i as int + 1)),
                ));
            }
            i += 1;
        }
        proof {
            assert(protocols@.take(n as int) =~= protocols@);
        }
        Ok(())
    }

    /// Freezes the configuration into an immutable, reusable connector. The
    /// finalized context keeps the version restrictions as configured.
    pub fn build(self) -> (r: Result<TlsConnector, Error>)
        ensures
            r is Ok,
            r matches Ok(c) ==> c.spec_disabled() == self.spec_disabled(),
    {
        Ok(TlsConnector { inner: engine::connector_build(self.inner) })
    }
}

/// An immutable factory for client-role handshakes. Created once, then safely
/// shared read-only across any number of handshakes, each over its own
/// transport.
pub struct TlsConnector {
    pub(crate) inner: openssl::ssl::SslConnector,
}

impl TlsConnector {
    /// The protocol versions the finalized context disables.
    pub closed spec fn spec_disabled(&self) -> Set<Protocol> {
        connector_context_disabled(self.inner)
    }

    /// A fresh client-side builder. Its baseline disables SSL 3.0 (and
    /// legacy versions outside the enumeration) and carries no identity.
    pub fn builder() -> (r: Result<TlsConnectorBuilder, Error>)
        ensures
            r matches Ok(b) ==> b.spec_disabled() == set![Protocol::Sslv3] && b.spec_chain()
                == Seq::<openssl::x509::X509>::empty() && b.spec_cert() is None && b.spec_key()
                is None,
            r matches Err(e) ==> e.spec_kind() == ErrorKind::Configuration,
    {
        match engine::connector_builder_new() {
            Ok(b) => Ok(TlsConnectorBuilder { inner: b }),
            Err(e) => Err(Error::configuration(e)),
        }
    }

    /// Initiates a client-role handshake over `stream`, verifying the peer's
    /// certificate chain and its identity against `domain`.
    ///
    /// Completion yields the established stream, with the peer validated; a
    /// would-block transport suspends the attempt resumably; anything else is
    /// a terminal handshake failure. The engine hands `domain` to a C
    /// routine, so it may not contain a NUL byte.
    pub fn connect<S: std::io::Read + std::io::Write>(&self, domain: &str, stream: S) -> (r: Result<
        TlsStream<S>,
        HandshakeError<S>,
    >)
        requires
            !domain@.contains('\0'),
        ensures
            r matches Err(HandshakeError::Failure(e)) ==> e.spec_kind() == ErrorKind::Handshake
                && e.spec_engine_fault(),
    {
        finish_attempt(engine::connector_connect(&self.inner, domain, stream))
    }
}

/// Access to the engine's own client context builder, for callers that need
/// to reach past the backend-independent surface.
pub trait TlsConnectorBuilderExt {
    /// A shared reference to the engine's builder.
    fn builder(&self) -> &openssl::ssl::SslConnectorBuilder;

    /// A mutable reference to the engine's builder.
    fn builder_mut(&mut self) -> &mut openssl::ssl::SslConnectorBuilder;
}

impl TlsConnectorBuilderExt for TlsConnectorBuilder {
    fn builder(&self) -> &openssl::ssl::SslConnectorBuilder {
        &self.inner
    }

    fn builder_mut(&mut self) -> &mut openssl::ssl::SslConnectorBuilder {
        &mut self.inner
    }
}

} // verus!
