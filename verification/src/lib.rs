//! A transport-agnostic TLS layer over the OpenSSL engine.
//!
//! The library wraps the engine's certificate handling, handshake driving and
//! encrypted streams behind a small backend-independent surface, usable over
//! any bidirectional byte stream. Identity material is parsed from PKCS#12
//! bundles; connectors and acceptors are configured through builders, frozen,
//! and then drive client- or server-role handshakes that either complete,
//! suspend on a would-block transport, or fail for good.
use vstd::prelude::*;

mod acceptor;
mod connector;
pub mod engine;
mod error;
mod handshake;
mod identity;
mod stream;

verus! {

/// A TLS protocol version that may be placed on an allow-list.
#[derive(Clone, Copy, Debug, PartialEq, Eq, Structural)]
pub enum Protocol {
    /// SSL 3.0
    Sslv3,
    /// TLS 1.0
    Tlsv10,
    /// TLS 1.1
    Tlsv11,
    /// TLS 1.2
    Tlsv12,
}

/// Every protocol version of the enumeration.
pub open spec fn all_protocols() -> Set<Protocol> {
    set![Protocol::Sslv3, Protocol::Tlsv10, Protocol::Tlsv11, Protocol::Tlsv12]
}

/// The versions an allow-list names, as a set: duplicates and order drop out.
pub open spec fn allowed_set(list: Seq<Protocol>) -> Set<Protocol> {
    Set::new(|p: Protocol| list.contains(p))
}

/// The versions a context restricted to the allow-list `list` must disable:
/// every one not explicitly allowed.
pub open spec fn disabled_for(list: Seq<Protocol>) -> Set<Protocol> {
    all_protocols().difference(allowed_set(list))
}

/// Restricting to an empty allow-list disables every version, so a handshake
/// can never negotiate one.
pub proof fn lemma_empty_allow_list_disables_all()
    ensures
        disabled_for(Seq::<Protocol>::empty()) == all_protocols(),
{
    assert(disabled_for(Seq::<Protocol>::empty()) =~= all_protocols());
}

/// A version survives the restriction to `list` exactly when `list` names it:
/// a context restricted to `list` can negotiate only versions in `list`.
pub proof fn lemma_disabled_for_complement(list: Seq<Protocol>, v: Protocol)
    ensures
        disabled_for(list).contains(v) <==> all_protocols().contains(v) && !list.contains(v),
{
}

/// Naming one more version in a prefix of an allow-list adds exactly that
/// version to the set the prefix allows.
pub(crate) proof fn lemma_allowed_set_take_step(list: Seq<Protocol>, i: int)
    requires
        0 <= i < list.len(),
    ensures
        allowed_set(list.take(i + 1)) == allowed_set(list.take(i)).insert(list[i]),
{
    assert forall|p: Protocol| #[trigger] allowed_set(list.take(i + 1)).contains(p) implies allowed_set(
        list.take(i),
    ).insert(list[i]).contains(p) by {
        let j = choose|j: int| 0 <= j < list.take(i + 1).len() && (#[trigger] list.take(i + 1)[j]) == p;
        if j < i {
            assert(list.take(i)[j] == p);
        }
    };
    assert forall|p: Protocol| allowed_set(list.take(i)).insert(list[i]).contains(p) implies #[trigger] allowed_set(
        list.take(i + 1),
    ).contains(p) by {
        if p == list[i] {
            assert(list.take(i + 1)[i] == p);
        } else {
            let j = choose|j: int| 0 <= j < list.take(i).len() && (#[trigger] list.take(i)[j]) == p;
            assert(list.take(i + 1)[j] == p);
        }
    };
    assert(allowed_set(list.take(i + 1)) =~= allowed_set(list.take(i)).insert(list[i]));
}

} // verus!

pub use acceptor::{TlsAcceptor, TlsAcceptorBuilder, TlsAcceptorBuilderExt};
pub use connector::{TlsConnector, TlsConnectorBuilder, TlsConnectorBuilderExt};
pub use error::{Error, ErrorKind};
pub use handshake::{HandshakeError, MidHandshakeTlsStream};
pub use identity::Pkcs12;
pub use stream::{TlsStream, TlsStreamExt};
