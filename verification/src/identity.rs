//! Identity material: a PKCS#12 bundle parsed into certificate, key and chain.
use vstd::prelude::*;

use crate::engine;
use crate::engine::pkcs12_identity;
use crate::error::{Error, ErrorKind};

verus! {

/// An identity parsed from a PKCS#12 bundle: a leaf certificate, the private
/// key that belongs to it, and the chain certificates in the order the bundle
/// supplied them. Immutable after creation; consumed by whichever builder it
/// is bound to. Whether the key really matches the certificate is checked at
/// configuration time, not here.
pub struct Pkcs12 {
    pub(crate) cert: openssl::x509::X509,
    pub(crate) key: openssl::pkey::PKey<openssl::pkey::Private>,
    pub(crate) chain: Vec<openssl::x509::X509>,
}

impl Pkcs12 {
    /// The chain certificates, in the order the bundle supplied them.
    pub open(crate) spec fn spec_chain(&self) -> Seq<openssl::x509::X509> {
        self.chain@
    }

    /// The bundle's leaf certificate.
    pub open(crate) spec fn spec_cert(&self) -> openssl::x509::X509 {
        self.cert
    }

    /// The bundle's private key.
    pub open(crate) spec fn spec_key(&self) -> openssl::pkey::PKey<openssl::pkey::Private> {
        self.key
    }

    /// Parses a DER-encoded PKCS#12 bundle under `pass`.
    ///
    /// Succeeds exactly when the engine parses the buffer under the
    /// passphrase into a bundle that carries both a leaf certificate and a
    /// private key; a malformed buffer or a wrong passphrase is a
    /// configuration error. The engine hands the passphrase to a C routine,
    /// so it may not contain a NUL byte.
    pub fn from_der(buf: &[u8], pass: &str) -> (r: Result<Pkcs12, Error>)
        requires
            !pass@.contains('\0'),
        ensures
            r is Ok <==> pkcs12_identity(buf@, pass@),
            r matches Err(e) ==> e.spec_kind() == ErrorKind::Configuration,
    {
        match engine::pkcs12_parse(buf, pass) {
            Err(stack) => Err(Error::configuration(stack)),
            Ok(parsed) => match (parsed.cert, parsed.key) {
                (Some(cert), Some(key)) => Ok(Pkcs12 { cert, key, chain: parsed.chain }),
                _ => Err(Error::incomplete_identity()),
            },
        }
    }
}

} // verus!
