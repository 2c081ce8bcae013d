//! A narrow DER encoder for one shape only: the Ed25519 `SubjectPublicKeyInfo`.

use vstd::prelude::*;

verus! {

/// Length in bytes of a raw Ed25519 public key.
pub const ED25519_KEY_LEN: usize = 32;

/// Everything that precedes the raw key bytes in an Ed25519 `SubjectPublicKeyInfo`:
/// the outer SEQUENCE header (length 42), the algorithm-identifier SEQUENCE holding
/// OID 1.3.101.112, and the BIT STRING header (length 33, zero unused bits).
pub open spec fn spki_prefix() -> Seq<u8> {
    seq![0x30u8, 0x2a, 0x30, 0x05, 0x06, 0x03, 0x2b, 0x65, 0x70, 0x03, 0x21, 0x00]
}

/// The DER `SubjectPublicKeyInfo` wrapping the 32-byte key `key`.
pub open spec fn spki_of(key: Seq<u8>) -> Seq<u8> {
    spki_prefix() + key
}

/// Wraps a raw 32-byte Ed25519 public key into its DER `SubjectPublicKeyInfo`.
pub fn ed25519_spki_der(pubkey32: &[u8]) -> (out: Vec<u8>)
    requires
        pubkey32@.len() == 32,
    ensures
        out@ == spki_of(pubkey32@),
        out@.len() == 44,
{
    let alg_id: Vec<u8> = vec![0x30, 0x05, 0x06, 0x03, 0x2B, 0x65, 0x70];
    let bit_string_header: Vec<u8> = vec![0x03, 0x21, 0x00];
    let len: usize = alg_id.len() + bit_string_header.len() + ED25519_KEY_LEN;
    let mut out: Vec<u8> = vec![0x30, len as u8];
    let mut i: usize = 0;
    while i < alg_id.len()
        invariant
            i <= alg_id@.len(),
            alg_id@ == seq![0x30u8, 0x05, 0x06, 0x03, 0x2B, 0x65, 0x70],
            out@ == seq![0x30u8, 0x2a] + alg_id@.subrange(0, i as int),
        decreases alg_id@.len() - i,
    {
        out.push(alg_id[i]);
        i = i + 1;
        assert(out@ == seq![0x30u8, 0x2a] + alg_id@.subrange(0, i as int));
    }
    let mut j: usize = 0;
    while j < bit_string_header.len()
        invariant
            j <= bit_string_header@.len(),
            bit_string_header@ == seq![0x03u8, 0x21, 0x00],
            out@ == seq![0x30u8, 0x2a] + alg_id@ + bit_string_header@.subrange(0, j as int),
        decreases bit_string_header@.len() - j,
    {
        out.push(bit_string_header[j]);
        j = j + 1;
        assert(out@ == seq![0x30u8, 0x2a] + alg_id@ + bit_string_header@.subrange(0, j as int));
    }
    assert(out@ =~= spki_prefix());
    let mut k: usize = 0;
    while k < ED25519_KEY_LEN
        invariant
            k <= 32,
            pubkey32@.len() == 32,
            out@ == spki_prefix() + pubkey32@.subrange(0, k as int),
        decreases 32 - k,
    {
        out.push(pubkey32[k]);
        k = k + 1;
        assert(out@ =~= spki_prefix() + pubkey32@.subrange(0, k as int));
    }
    assert(pubkey32@.subrange(0, 32) == pubkey32@);
    out
}

} // verus!
