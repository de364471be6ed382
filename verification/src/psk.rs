//! Key material provider: deterministic derivation of the pre-shared secret
//! and its public identity string from fixed identity constants.

use vstd::prelude::*;
use vstd::string::StrSliceExecFns;
use vstd::string::StringSliceAdditionalSpecFns;
use sm3::Digest;

verus! {

/// Vendor domain: the first of the three fixed identity constants that seed
/// the pre-shared key. Both peers of the trust relationship must derive the
/// key from these exact strings; changing any of them invalidates every
/// existing deployment.
pub const VENDOR_DOMAIN: &'static str = "www.kylinos.cn";

/// Package name: the second identity constant, also used verbatim as the
/// public PSK identity announced during the handshake.
pub const PACKAGE_NAME: &'static str = "cc-utils";

/// Binding-target name: the third identity constant.
pub const BINDING_TARGET: &'static str = "libteec";

/// The byte sequence hashed to obtain the pre-shared secret: the UTF-8 bytes
/// of the three identity constants, concatenated in a fixed order.
pub open spec fn spec_psk_seed() -> Seq<u8> {
    VENDOR_DOMAIN.spec_bytes() + PACKAGE_NAME.spec_bytes() + BINDING_TARGET.spec_bytes()
}

/// The SM3 digest of a byte sequence, as computed by the outside hash
/// implementation. Left without a definition here: the trusted wrapper below
/// is the only place that speaks for it.
pub uninterp spec fn sm3_of(data: Seq<u8>) -> Seq<u8>;

/// Relies on `sm3::Sm3` through the RustCrypto `Digest` trait: the SM3
/// digest of the input bytes, a 256-bit (32-byte) value that depends on the
/// input bytes alone.
#[verifier::external_body]
fn sm3_digest(data: &[u8]) -> (r: Vec<u8>)
    ensures
        r@ == sm3_of(data@),
        r@.len() == 32,
{
    sm3::Sm3::digest(data).to_vec()
}

/// Builds the exact byte sequence that seeds the key derivation.
fn psk_seed() -> (r: Vec<u8>)
    ensures
        r@ == spec_psk_seed(),
{
    let mut seed = VENDOR_DOMAIN.as_bytes_vec();
    let mut pkg = PACKAGE_NAME.as_bytes_vec();
    let mut target = BINDING_TARGET.as_bytes_vec();
    seed.append(&mut pkg);
    seed.append(&mut target);
    seed
}

/// Derives the 32-byte pre-shared secret: the SM3 digest of the three
/// identity constants, concatenated. Pure and deterministic; no entropy
/// enters the derivation.
pub fn generate_psk() -> (r: Vec<u8>)
    ensures
        r@ == sm3_of(spec_psk_seed()),
        r@.len() == 32,
{
    let seed = psk_seed();
    sm3_digest(seed.as_slice())
}

/// The public identity string announced together with the pre-shared key.
pub open spec fn spec_psk_identity() -> Seq<char> {
    PACKAGE_NAME@
}

/// Returns the fixed PSK identity string.
pub fn get_psk_identity() -> (r: &'static str)
    ensures
        r@ == spec_psk_identity(),
{
    PACKAGE_NAME
}

/// Key derivation is deterministic: any two secrets that `generate_psk` may
/// return are byte-identical, and any two identity strings that
/// `get_psk_identity` may return are equal, since both are pinned to the
/// same functions of the same fixed constants.
pub proof fn lemma_psk_deterministic(
    secret1: Seq<u8>,
    secret2: Seq<u8>,
    identity1: Seq<char>,
    identity2: Seq<char>,
)
    requires
        secret1 == sm3_of(spec_psk_seed()),
        secret2 == sm3_of(spec_psk_seed()),
        identity1 == spec_psk_identity(),
        identity2 == spec_psk_identity(),
    ensures
        secret1 == secret2,
        identity1 == identity2,
{
}

} // verus!
