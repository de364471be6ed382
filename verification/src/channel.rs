//! Secure channel factory: the immutable TLS server policy every accepted
//! connection is built from. The policy pins the protocol to one TLS
//! version and to four pre-shared-key cipher suites of the SM4/SM3 national
//! algorithm family, and carries the derived pre-shared key.

use vstd::prelude::*;
use vstd::string::StringExecFns;

use crate::psk::{generate_psk, get_psk_identity, sm3_of, spec_psk_identity, spec_psk_seed};

verus! {

/// A TLS protocol version the channel policy can name. Only one version is
/// ever enabled: negotiation across versions is deliberately impossible.
#[derive(Debug, Clone, Copy, PartialEq, Eq, Structural)]
pub enum TlsVersion {
    Tls1_2,
}

/// The pre-shared-key cipher suites the channel may offer, all using the
/// 128-bit SM4 cipher in authenticated (GCM) mode with the SM3 hash.
#[derive(Debug, Clone, Copy, PartialEq, Eq, Structural)]
pub enum PskCipherSuite {
    PskWithSm4128GcmSm3,
    DhePskWithSm4128GcmSm3,
    RsaPskWithSm4128GcmSm3,
    EcdhePskWithSm4128GcmSm3,
}

/// The pre-shared key: the 32-byte derived secret and the public identity
/// string announced with it. Derived once at startup and shared read-only
/// by every connection.
pub struct PreSharedKey {
    pub secret: Vec<u8>,
    pub identity: String,
}

impl PreSharedKey {
    /// A well-formed key holds the derived 32-byte secret and the fixed
    /// identity string.
    pub open spec fn wf(&self) -> bool {
        &&& self.secret@ == sm3_of(spec_psk_seed())
        &&& self.secret@.len() == 32
        &&& self.identity@ == spec_psk_identity()
    }

    /// Derives the process-wide pre-shared key from the fixed identity
    /// constants.
    pub fn derive() -> (r: PreSharedKey)
        ensures
            r.wf(),
    {
        PreSharedKey { secret: generate_psk(), identity: String::from_str(get_psk_identity()) }
    }
}

/// The exact cipher-suite allow-list the channel offers, in order.
pub open spec fn spec_allowed_suites() -> Seq<PskCipherSuite> {
    seq![
        PskCipherSuite::PskWithSm4128GcmSm3,
        PskCipherSuite::DhePskWithSm4128GcmSm3,
        PskCipherSuite::RsaPskWithSm4128GcmSm3,
        PskCipherSuite::EcdhePskWithSm4128GcmSm3,
    ]
}

/// Immutable TLS server policy shared by all accepted connections: protocol
/// version pinned for both minimum and maximum, the four-suite allow-list,
/// and the pre-shared key. Built once at startup and never mutated.
pub struct ChannelConfig {
    pub min_version: TlsVersion,
    pub max_version: TlsVersion,
    pub cipher_suites: Vec<PskCipherSuite>,
    pub psk: PreSharedKey,
}

impl ChannelConfig {
    /// A well-formed policy pins both version bounds to TLS 1.2, offers
    /// exactly the four allowed suites in their fixed order, and carries a
    /// well-formed pre-shared key.
    pub open spec fn wf(&self) -> bool {
        &&& self.min_version == TlsVersion::Tls1_2
        &&& self.max_version == TlsVersion::Tls1_2
        &&& self.cipher_suites@ == spec_allowed_suites()
        &&& self.psk.wf()
    }

    /// Builds the channel policy around a derived pre-shared key.
    pub fn build(psk: PreSharedKey) -> (r: ChannelConfig)
        requires
            psk.wf(),
        ensures
            r.wf(),
            r.psk.secret@ == psk.secret@,
            r.psk.identity@ == psk.identity@,
    {
        let cipher_suites: Vec<PskCipherSuite> = vec![
            PskCipherSuite::PskWithSm4128GcmSm3,
            PskCipherSuite::DhePskWithSm4128GcmSm3,
            PskCipherSuite::RsaPskWithSm4128GcmSm3,
            PskCipherSuite::EcdhePskWithSm4128GcmSm3,
        ];
        proof {
            assert(cipher_suites@ =~= spec_allowed_suites());
        }
        ChannelConfig {
            min_version: TlsVersion::Tls1_2,
            max_version: TlsVersion::Tls1_2,
            cipher_suites,
            psk,
        }
    }
}

} // verus!
