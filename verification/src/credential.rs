//! Credential provisioning: parsing the plaintext form
//! `<prefix>.<id>.<random>` of an API key, and deriving the storable,
//! non-reversible digest from its parts. The raw random component is never
//! part of any record — only the digest over the full tuple is.

use vstd::prelude::*;
use crate::text::{split_on, split_char, chars_vec, eq_str};
use crate::ids::{be_val, lemma_be_val_bound, pow256, lemma_pow256_pos};
use crate::outside::{b64url_decoded, b64url_decode, sha256, sha256_of};

verus! {

/// The fixed, globally-known prefix carried by every issued credential.
pub open spec fn spec_api_key_prefix() -> Seq<char> {
    "ps1"@
}

pub fn api_key_prefix() -> (r: &'static str)
    ensures
        r@ == spec_api_key_prefix(),
{
    "ps1"
}

#[derive(Clone, Copy, PartialEq, Eq, Structural, Debug)]
pub enum CredentialError {
    /// Not three dot-separated parts, or a part that is not 16 bytes of
    /// URL-safe unpadded base64.
    Malformed,
    /// The first part is not the fixed prefix.
    PrefixMismatch,
}

/// What parsing a plaintext credential yields: the 128-bit identifier and
/// random component, or the first failure.
pub open spec fn spec_parse_key(key: Seq<char>) -> Result<(u128, u128), CredentialError> {
    let parts = split_on(key, '.');
    if parts.len() != 3 {
        Err(CredentialError::Malformed)
    } else if parts[0] != spec_api_key_prefix() {
        Err(CredentialError::PrefixMismatch)
    } else {
        match b64url_decoded(parts[1]) {
            None => Err(CredentialError::Malformed),
            Some(idb) => if idb.len() != 16 {
                Err(CredentialError::Malformed)
            } else {
                match b64url_decoded(parts[2]) {
                    None => Err(CredentialError::Malformed),
                    Some(rb) => if rb.len() != 16 {
                        Err(CredentialError::Malformed)
                    } else {
                        Ok((be_val(idb) as u128, be_val(rb) as u128))
                    },
                }
            },
        }
    }
}

/// Splits a plaintext credential into its identifier and random component.
pub fn parse_key(key: &str) -> (r: Result<(u128, u128), CredentialError>)
    ensures
        r == spec_parse_key(key@),
{
    let chars = chars_vec(key);
    let parts = split_char(&chars, '.');
    if parts.len() != 3 {
        return Err(CredentialError::Malformed);
    }
    if !eq_str(&parts[0], api_key_prefix()) {
        proof {
            assert(parts@.map_values(|p: Vec<char>| p@)[0] == parts@[0]@);
        }
        return Err(CredentialError::PrefixMismatch);
    }
    proof {
        assert(parts@.map_values(|p: Vec<char>| p@)[1] == parts@[1]@);
        assert(parts@.map_values(|p: Vec<char>| p@)[2] == parts@[2]@);
    }
    let idb = match b64url_decode(&parts[1]) {
        Some(b) => b,
        None => return Err(CredentialError::Malformed),
    };
    if idb.len() != 16 {
        return Err(CredentialError::Malformed);
    }
    let rb = match b64url_decode(&parts[2]) {
        Some(b) => b,
        None => return Err(CredentialError::Malformed),
    };
    if rb.len() != 16 {
        return Err(CredentialError::Malformed);
    }
    let id = crate::ids::u128_from_be(&idb);
    let random = crate::ids::u128_from_be(&rb);
    proof {
        lemma_be_val_bound(idb@);
        lemma_be_val_bound(rb@);
        lemma_pow256_pos(16);
        assert(pow256(16) == 0x100000000000000000000000000000000) by {
            reveal_with_fuel(pow256, 17);
        }
    }
    Ok((id, random))
}

/// The 16 bytes of a 128-bit value, most significant first.
pub open spec fn be16_of(x: u128) -> Seq<u8> {
    seq![
        (x >> 120) as u8,
        (x >> 112) as u8,
        (x >> 104) as u8,
        (x >> 96) as u8,
        (x >> 88) as u8,
        (x >> 80) as u8,
        (x >> 72) as u8,
        (x >> 64) as u8,
        (x >> 56) as u8,
        (x >> 48) as u8,
        (x >> 40) as u8,
        (x >> 32) as u8,
        (x >> 24) as u8,
        (x >> 16) as u8,
        (x >> 8) as u8,
        x as u8,
    ]
}

/// The 8 bytes of a 64-bit value, most significant first.
pub open spec fn be8_of(x: u64) -> Seq<u8> {
    seq![
        (x >> 56) as u8,
        (x >> 48) as u8,
        (x >> 40) as u8,
        (x >> 32) as u8,
        (x >> 24) as u8,
        (x >> 16) as u8,
        (x >> 8) as u8,
        x as u8,
    ]
}

/// The byte message whose digest a credential record stores: identifier,
/// random component and expiry at fixed offsets, the prefix bytes after
/// them.
pub open spec fn key_message(prefix: Seq<char>, id: u128, random: u128, expires: i64) -> Seq<
    u8,
> {
    be16_of(id) + be16_of(random) + be8_of(expires as u64) + prefix.map_values(
        |c: char| c as u8,
    )
}

/// Builds the digest message for a credential.
#[verifier::rlimit(100)]
pub fn build_key_message(prefix: &str, id: u128, random: u128, expires: i64) -> (m: Vec<u8>)
    ensures
        m@ == key_message(prefix@, id, random, expires),
{
    let mut m: Vec<u8> = Vec::new();
    m.push((id >> 120) as u8);
    m.push((id >> 112) as u8);
    m.push((id >> 104) as u8);
    m.push((id >> 96) as u8);
    m.push((id >> 88) as u8);
    m.push((id >> 80) as u8);
    m.push((id >> 72) as u8);
    m.push((id >> 64) as u8);
    m.push((id >> 56) as u8);
    m.push((id >> 48) as u8);
    m.push((id >> 40) as u8);
    m.push((id >> 32) as u8);
    m.push((id >> 24) as u8);
    m.push((id >> 16) as u8);
    m.push((id >> 8) as u8);
    m.push(id as u8);
    m.push((random >> 120) as u8);
    m.push((random >> 112) as u8);
    m.push((random >> 104) as u8);
    m.push((random >> 96) as u8);
    m.push((random >> 88) as u8);
    m.push((random >> 80) as u8);
    m.push((random >> 72) as u8);
    m.push((random >> 64) as u8);
    m.push((random >> 56) as u8);
    m.push((random >> 48) as u8);
    m.push((random >> 40) as u8);
    m.push((random >> 32) as u8);
    m.push((random >> 24) as u8);
    m.push((random >> 16) as u8);
    m.push((random >> 8) as u8);
    m.push(random as u8);
    let e = expires as u64;
    m.push((e >> 56) as u8);
    m.push((e >> 48) as u8);
    m.push((e >> 40) as u8);
    m.push((e >> 32) as u8);
    m.push((e >> 24) as u8);
    m.push((e >> 16) as u8);
    m.push((e >> 8) as u8);
    m.push(e as u8);
    proof {
        assert(m@ =~= be16_of(id) + be16_of(random) + be8_of(expires as u64));
    }
    let ghost fixed = be16_of(id) + be16_of(random) + be8_of(expires as u64);
    let pc = chars_vec(prefix);
    let mut i: usize = 0;
    while i < pc.len()
        invariant
            i <= pc@.len(),
            pc@ == prefix@,
            m@ == fixed + prefix@.take(i as int).map_values(|c: char| c as u8),
            fixed == be16_of(id) + be16_of(random) + be8_of(expires as u64),
        decreases pc@.len() - i,
    {
        let c = pc[i];
        m.push(c as u8);
        i += 1;
        proof {
            assert(m@ =~= fixed + prefix@.take(i as int).map_values(|c: char| c as u8));
        }
    }
    proof {
        assert(prefix@.take(prefix@.len() as int) =~= prefix@);
        assert(m@ =~= key_message(prefix@, id, random, expires));
    }
    m
}

/// Derives the storable digest of a credential from its parts. The random
/// component goes into the digest and nowhere else.
pub fn derive_api_key_hash(prefix: &str, id: u128, random: u128, expires: i64) -> (h: Vec<u8>)
    ensures
        h@ == sha256_of(key_message(prefix@, id, random, expires)),
        h@.len() == 32,
{
    let m = build_key_message(prefix, id, random, expires);
    sha256(&m)
}

/// Law: the derivation is deterministic — a verifier that recomputes the
/// digest from the same prefix, identifier, random component and expiry
/// obtains the stored hash bit for bit.
pub proof fn lemma_derivation_deterministic(
    prefix: Seq<char>,
    id: u128,
    random: u128,
    expires: i64,
    h1: Seq<u8>,
    h2: Seq<u8>,
)
    requires
        h1 == sha256_of(key_message(prefix, id, random, expires)),
        h2 == sha256_of(key_message(prefix, id, random, expires)),
    ensures
        h1 == h2,
{
}

/// Law: the digest messages of two credentials coincide only when the
/// identifier, random component, expiry and prefix bytes all coincide — so
/// changing any one of them changes the message the digest is computed
/// over.
#[verifier::rlimit(100)]
pub proof fn lemma_key_message_injective(
    p1: Seq<char>,
    i1: u128,
    r1: u128,
    e1: i64,
    p2: Seq<char>,
    i2: u128,
    r2: u128,
    e2: i64,
)
    requires
        key_message(p1, i1, r1, e1) == key_message(p2, i2, r2, e2),
    ensures
        i1 == i2,
        r1 == r2,
        e1 == e2,
        p1.map_values(|c: char| c as u8) == p2.map_values(|c: char| c as u8),
{
    let m1 = key_message(p1, i1, r1, e1);
    let m2 = key_message(p2, i2, r2, e2);
    assert(be16_of(i1).len() == 16);
    assert(be16_of(i2).len() == 16);
    assert(be16_of(r1).len() == 16);
    assert(be16_of(r2).len() == 16);
    assert(be8_of(e1 as u64).len() == 8);
    assert(be8_of(e2 as u64).len() == 8);
    assert(m1[0] == be16_of(i1)[0]);
    assert(m2[0] == be16_of(i2)[0]);
    assert(be16_of(i1)[0] == be16_of(i2)[0]);
    assert(m1[1] == be16_of(i1)[1]);
    assert(m2[1] == be16_of(i2)[1]);
    assert(be16_of(i1)[1] == be16_of(i2)[1]);
    assert(m1[2] == be16_of(i1)[2]);
    assert(m2[2] == be16_of(i2)[2]);
    assert(be16_of(i1)[2] == be16_of(i2)[2]);
    assert(m1[3] == be16_of(i1)[3]);
    assert(m2[3] == be16_of(i2)[3]);
    assert(be16_of(i1)[3] == be16_of(i2)[3]);
    assert(m1[4] == be16_of(i1)[4]);
    assert(m2[4] == be16_of(i2)[4]);
    assert(be16_of(i1)[4] == be16_of(i2)[4]);
    assert(m1[5] == be16_of(i1)[5]);
    assert(m2[5] == be16_of(i2)[5]);
    assert(be16_of(i1)[5] == be16_of(i2)[5]);
    assert(m1[6] == be16_of(i1)[6]);
    assert(m2[6] == be16_of(i2)[6]);
    assert(be16_of(i1)[6] == be16_of(i2)[6]);
    assert(m1[7] == be16_of(i1)[7]);
    assert(m2[7] == be16_of(i2)[7]);
    assert(be16_of(i1)[7] == be16_of(i2)[7]);
    assert(m1[8] == be16_of(i1)[8]);
    assert(m2[8] == be16_of(i2)[8]);
    assert(be16_of(i1)[8] == be16_of(i2)[8]);
    assert(m1[9] == be16_of(i1)[9]);
    assert(m2[9] == be16_of(i2)[9]);
    assert(be16_of(i1)[9] == be16_of(i2)[9]);
    assert(m1[10] == be16_of(i1)[10]);
    assert(m2[10] == be16_of(i2)[10]);
    assert(be16_of(i1)[10] == be16_of(i2)[10]);
    assert(m1[11] == be16_of(i1)[11]);
    assert(m2[11] == be16_of(i2)[11]);
    assert(be16_of(i1)[11] == be16_of(i2)[11]);
    assert(m1[12] == be16_of(i1)[12]);
    assert(m2[12] == be16_of(i2)[12]);
    assert(be16_of(i1)[12] == be16_of(i2)[12]);
    assert(m1[13] == be16_of(i1)[13]);
    assert(m2[13] == be16_of(i2)[13]);
    assert(be16_of(i1)[13] == be16_of(i2)[13]);
    assert(m1[14] == be16_of(i1)[14]);
    assert(m2[14] == be16_of(i2)[14]);
    assert(be16_of(i1)[14] == be16_of(i2)[14]);
    assert(m1[15] == be16_of(i1)[15]);
    assert(m2[15] == be16_of(i2)[15]);
    assert(be16_of(i1)[15] == be16_of(i2)[15]);
    assert(m1[16] == be16_of(r1)[0]);
    assert(m2[16] == be16_of(r2)[0]);
    assert(be16_of(r1)[0] == be16_of(r2)[0]);
    assert(m1[17] == be16_of(r1)[1]);
    assert(m2[17] == be16_of(r2)[1]);
    assert(be16_of(r1)[1] == be16_of(r2)[1]);
    assert(m1[18] == be16_of(r1)[2]);
    assert(m2[18] == be16_of(r2)[2]);
    assert(be16_of(r1)[2] == be16_of(r2)[2]);
    assert(m1[19] == be16_of(r1)[3]);
    assert(m2[19] == be16_of(r2)[3]);
    assert(be16_of(r1)[3] == be16_of(r2)[3]);
    assert(m1[20] == be16_of(r1)[4]);
    assert(m2[20] == be16_of(r2)[4]);
    assert(be16_of(r1)[4] == be16_of(r2)[4]);
    assert(m1[21] == be16_of(r1)[5]);
    assert(m2[21] == be16_of(r2)[5]);
    assert(be16_of(r1)[5] == be16_of(r2)[5]);
    assert(m1[22] == be16_of(r1)[6]);
    assert(m2[22] == be16_of(r2)[6]);
    assert(be16_of(r1)[6] == be16_of(r2)[6]);
    assert(m1[23] == be16_of(r1)[7]);
    assert(m2[23] == be16_of(r2)[7]);
    assert(be16_of(r1)[7] == be16_of(r2)[7]);
    assert(m1[24] == be16_of(r1)[8]);
    assert(m2[24] == be16_of(r2)[8]);
    assert(be16_of(r1)[8] == be16_of(r2)[8]);
    assert(m1[25] == be16_of(r1)[9]);
    assert(m2[25] == be16_of(r2)[9]);
    assert(be16_of(r1)[9] == be16_of(r2)[9]);
    assert(m1[26] == be16_of(r1)[10]);
    assert(m2[26] == be16_of(r2)[10]);
    assert(be16_of(r1)[10] == be16_of(r2)[10]);
    assert(m1[27] == be16_of(r1)[11]);
    assert(m2[27] == be16_of(r2)[11]);
    assert(be16_of(r1)[11] == be16_of(r2)[11]);
    assert(m1[28] == be16_of(r1)[12]);
    assert(m2[28] == be16_of(r2)[12]);
    assert(be16_of(r1)[12] == be16_of(r2)[12]);
    assert(m1[29] == be16_of(r1)[13]);
    assert(m2[29] == be16_of(r2)[13]);
    assert(be16_of(r1)[13] == be16_of(r2)[13]);
    assert(m1[30] == be16_of(r1)[14]);
    assert(m2[30] == be16_of(r2)[14]);
    assert(be16_of(r1)[14] == be16_of(r2)[14]);
    assert(m1[31] == be16_of(r1)[15]);
    assert(m2[31] == be16_of(r2)[15]);
    assert(be16_of(r1)[15] == be16_of(r2)[15]);
    assert(m1[32] == be8_of(e1 as u64)[0]);
    assert(m2[32] == be8_of(e2 as u64)[0]);
    assert(be8_of(e1 as u64)[0] == be8_of(e2 as u64)[0]);
    assert(m1[33] == be8_of(e1 as u64)[1]);
    assert(m2[33] == be8_of(e2 as u64)[1]);
    assert(be8_of(e1 as u64)[1] == be8_of(e2 as u64)[1]);
    assert(m1[34] == be8_of(e1 as u64)[2]);
    assert(m2[34] == be8_of(e2 as u64)[2]);
    assert(be8_of(e1 as u64)[2] == be8_of(e2 as u64)[2]);
    assert(m1[35] == be8_of(e1 as u64)[3]);
    assert(m2[35] == be8_of(e2 as u64)[3]);
    assert(be8_of(e1 as u64)[3] == be8_of(e2 as u64)[3]);
    assert(m1[36] == be8_of(e1 as u64)[4]);
    assert(m2[36] == be8_of(e2 as u64)[4]);
    assert(be8_of(e1 as u64)[4] == be8_of(e2 as u64)[4]);
    assert(m1[37] == be8_of(e1 as u64)[5]);
    assert(m2[37] == be8_of(e2 as u64)[5]);
    assert(be8_of(e1 as u64)[5] == be8_of(e2 as u64)[5]);
    assert(m1[38] == be8_of(e1 as u64)[6]);
    assert(m2[38] == be8_of(e2 as u64)[6]);
    assert(be8_of(e1 as u64)[6] == be8_of(e2 as u64)[6]);
    assert(m1[39] == be8_of(e1 as u64)[7]);
    assert(m2[39] == be8_of(e2 as u64)[7]);
    assert(be8_of(e1 as u64)[7] == be8_of(e2 as u64)[7]);
    assert(i1 == i2) by (bit_vector)
        requires
            (i1 >> 120) as u8 == (i2 >> 120) as u8,
            (i1 >> 112) as u8 == (i2 >> 112) as u8,
            (i1 >> 104) as u8 == (i2 >> 104) as u8,
            (i1 >> 96) as u8 == (i2 >> 96) as u8,
            (i1 >> 88) as u8 == (i2 >> 88) as u8,
            (i1 >> 80) as u8 == (i2 >> 80) as u8,
            (i1 >> 72) as u8 == (i2 >> 72) as u8,
            (i1 >> 64) as u8 == (i2 >> 64) as u8,
            (i1 >> 56) as u8 == (i2 >> 56) as u8,
            (i1 >> 48) as u8 == (i2 >> 48) as u8,
            (i1 >> 40) as u8 == (i2 >> 40) as u8,
            (i1 >> 32) as u8 == (i2 >> 32) as u8,
            (i1 >> 24) as u8 == (i2 >> 24) as u8,
            (i1 >> 16) as u8 == (i2 >> 16) as u8,
            (i1 >> 8) as u8 == (i2 >> 8) as u8,
            i1 as u8 == i2 as u8,
    ;
    assert(r1 == r2) by (bit_vector)
        requires
            (r1 >> 120) as u8 == (r2 >> 120) as u8,
            (r1 >> 112) as u8 == (r2 >> 112) as u8,
            (r1 >> 104) as u8 == (r2 >> 104) as u8,
            (r1 >> 96) as u8 == (r2 >> 96) as u8,
            (r1 >> 88) as u8 == (r2 >> 88) as u8,
            (r1 >> 80) as u8 == (r2 >> 80) as u8,
            (r1 >> 72) as u8 == (r2 >> 72) as u8,
            (r1 >> 64) as u8 == (r2 >> 64) as u8,
            (r1 >> 56) as u8 == (r2 >> 56) as u8,
            (r1 >> 48) as u8 == (r2 >> 48) as u8,
            (r1 >> 40) as u8 == (r2 >> 40) as u8,
            (r1 >> 32) as u8 == (r2 >> 32) as u8,
            (r1 >> 24) as u8 == (r2 >> 24) as u8,
            (r1 >> 16) as u8 == (r2 >> 16) as u8,
            (r1 >> 8) as u8 == (r2 >> 8) as u8,
            r1 as u8 == r2 as u8,
    ;
    let u1 = e1 as u64;
    let u2 = e2 as u64;
    assert(u1 == u2) by (bit_vector)
        requires
            (u1 >> 56) as u8 == (u2 >> 56) as u8,
            (u1 >> 48) as u8 == (u2 >> 48) as u8,
            (u1 >> 40) as u8 == (u2 >> 40) as u8,
            (u1 >> 32) as u8 == (u2 >> 32) as u8,
            (u1 >> 24) as u8 == (u2 >> 24) as u8,
            (u1 >> 16) as u8 == (u2 >> 16) as u8,
            (u1 >> 8) as u8 == (u2 >> 8) as u8,
            u1 as u8 == u2 as u8,
    ;
    assert(e1 == e2) by (bit_vector)
        requires
            e1 as u64 == e2 as u64,
    ;
    let b1 = p1.map_values(|c: char| c as u8);
    let b2 = p2.map_values(|c: char| c as u8);
    assert(b1.len() == p1.len());
    assert(b2.len() == p2.len());
    assert(m1.len() == 40 + p1.len());
    assert(m2.len() == 40 + p2.len());
    assert(m1.len() == m2.len());
    assert(b1.len() == b2.len());
    assert forall|k: int| 0 <= k < b1.len() implies #[trigger] b1[k] == b2[k] by {
        assert(m1[40 + k] == m2[40 + k]);
        assert(m1[40 + k] == b1[k]);
        assert(m2[40 + k] == b2[k]);
    }
    assert(b1 =~= b2);
}

} // verus!
