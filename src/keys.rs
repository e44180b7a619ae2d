use vstd::arithmetic::power2::pow2;
use vstd::prelude::*;

verus! {

/// The prime order of the ed25519 base point's subgroup.
pub open spec fn group_order() -> nat {
    pow2(252) + 27742317777372353535851937790883648493
}

/// The number that a byte string denotes read as a little-endian integer.
pub open spec fn le_nat(b: Seq<u8>) -> nat
    decreases b.len(),
{
    if b.len() == 0 {
        0
    } else {
        b[0] as nat + 256 * le_nat(b.drop_first())
    }
}

/// The compressed public key (scalar times the base point) of a canonical scalar.
pub uninterp spec fn public_key_of(scalar: Seq<u8>) -> Seq<u8>;

/// Whether 32 bytes are the canonical compressed encoding of a curve point.
pub uninterp spec fn is_point_encoding(b: Seq<u8>) -> bool;

/// Relies on `curve25519_dalek::Scalar::from_bytes_mod_order_wide`, which reduces a
/// 512-bit little-endian integer modulo the group order, and on `Scalar::to_bytes`,
/// which gives its canonical little-endian encoding.
#[verifier::external_body]
fn reduce_wide(digest: &[u8; 64]) -> (r: [u8; 32])
    ensures
        le_nat(r@) == le_nat(digest@) % group_order(),
{
    curve25519_dalek::scalar::Scalar::from_bytes_mod_order_wide(digest).to_bytes()
}

/// Relies on `monero::PrivateKey::from_slice`, which accepts exactly the canonical
/// scalars, and on `monero::PublicKey::from_private_key`, which multiplies the base
/// point by the scalar and compresses the result.
#[verifier::external_body]
fn public_key_from_private(scalar: &[u8; 32]) -> (r: Option<[u8; 32]>)
    ensures
        r is Some <==> le_nat(scalar@) < group_order(),
        r matches Some(p) ==> p@ == public_key_of(scalar@) && is_point_encoding(p@),
{
    match monero::PrivateKey::from_slice(scalar) {
        Ok(k) => Some(monero::PublicKey::from_private_key(&k).to_bytes()),
        Err(_) => None,
    }
}

/// A private view key and its public key.
#[derive(Clone, Copy, Debug, PartialEq, Eq)]
pub struct ViewKeys {
    pub private_view: [u8; 32],
    pub public_view: [u8; 32],
}

/// Why no keys could be derived.
#[derive(Clone, Copy, Debug, PartialEq, Eq, Structural)]
pub enum KeyError {
    /// The digest is not 64 bytes long.
    InvalidDigestLength,
}

/// The private view key of a digest: the 32-byte little-endian encoding of the
/// digest, read as a little-endian integer, reduced modulo the group order.
pub open spec fn derived_private_key(digest: Seq<u8>) -> Seq<u8> {
    choose|s: Seq<u8>| s.len() == 32 && le_nat(s) == le_nat(digest) % group_order()
}

/// The public view key of a digest.
pub open spec fn derived_public_key(digest: Seq<u8>) -> Seq<u8> {
    public_key_of(derived_private_key(digest))
}

/// The key pair that a digest determines: the private key is the digest reduced
/// modulo the group order, the public key that scalar times the base point.
pub open spec fn keys_derived_from(digest: Seq<u8>, keys: ViewKeys) -> bool {
    &&& le_nat(keys.private_view@) == le_nat(digest) % group_order()
    &&& keys.private_view@ == derived_private_key(digest)
    &&& keys.public_view@ == derived_public_key(digest)
    &&& is_point_encoding(keys.public_view@)
}

/// Any 32 bytes that encode the reduced digest are the derived private key.
proof fn lemma_derived_private_key(digest: Seq<u8>, s: Seq<u8>)
    requires
        s.len() == 32,
        le_nat(s) == le_nat(digest) % group_order(),
    ensures
        s == derived_private_key(digest),
{
    let c = derived_private_key(digest);
    assert(c.len() == 32 && le_nat(c) == le_nat(digest) % group_order());
    lemma_le_nat_injective(s, c);
}

/// Derives the view key pair of a digest.
pub fn derive_keys(digest: &[u8]) -> (r: Result<ViewKeys, KeyError>)
    ensures
        r is Err <==> digest@.len() != 64,
        r matches Ok(keys) ==> keys_derived_from(digest@, keys),
{
    if digest.len() != 64 {
        return Err(KeyError::InvalidDigestLength);
    }
    let mut wide = [0u8; 64];
    let mut i: usize = 0;
    while i < 64
        invariant
            digest@.len() == 64,
            0 <= i <= 64,
            forall|j: int| 0 <= j < i ==> wide@[j] == digest@[j],
        decreases 64 - i,
    {
        wide[i] = digest[i];
        i = i + 1;
    }
    assert(wide@ =~= digest@);
    let private_view = reduce_wide(&wide);
    proof {
        lemma_derived_private_key(digest@, private_view@);
    }
    match public_key_from_private(&private_view) {
        Some(public_view) => Ok(ViewKeys { private_view, public_view }),
        None => {
            // the reduced scalar is below the group order, so this cannot happen
            assert(false);
            Err(KeyError::InvalidDigestLength)
        },
    }
}

/// Two byte strings of one length that denote the same integer are equal.
pub proof fn lemma_le_nat_injective(a: Seq<u8>, b: Seq<u8>)
    requires
        a.len() == b.len(),
        le_nat(a) == le_nat(b),
    ensures
        a == b,
    decreases a.len(),
{
    if a.len() > 0 {
        let (p, q) = (a[0] as int, b[0] as int);
        let (x, y) = (le_nat(a.drop_first()) as int, le_nat(b.drop_first()) as int);
        assert(p == q && x == y) by (nonlinear_arith)
            requires
                0 <= p < 256,
                0 <= q < 256,
                0 <= x,
                0 <= y,
                p + 256 * x == q + 256 * y,
        ;
        lemma_le_nat_injective(a.drop_first(), b.drop_first());
        assert(a =~= seq![a[0]].add(a.drop_first()));
        assert(b =~= seq![b[0]].add(b.drop_first()));
    }
}

/// A byte string denotes zero exactly when all its bytes are zero.
pub proof fn lemma_le_nat_zero(b: Seq<u8>)
    ensures
        le_nat(b) == 0 <==> (forall|i: int| 0 <= i < b.len() ==> b[i] == 0),
    decreases b.len(),
{
    if b.len() > 0 {
        lemma_le_nat_zero(b.drop_first());
        if le_nat(b) == 0 {
            assert forall|i: int| 0 <= i < b.len() implies b[i] == 0 by {
                if i > 0 {
                    assert(b[i] == b.drop_first()[i - 1]);
                }
            }
        }
        if forall|i: int| 0 <= i < b.len() ==> b[i] == 0 {
            assert forall|i: int| 0 <= i < b.drop_first().len() implies b.drop_first()[i] == 0 by {
                assert(b.drop_first()[i] == b[i + 1]);
            }
        }
    }
}

/// Deriving keys is deterministic: one digest always gives one key pair.
pub proof fn lemma_derivation_deterministic(digest: Seq<u8>, first: ViewKeys, second: ViewKeys)
    requires
        keys_derived_from(digest, first),
        keys_derived_from(digest, second),
    ensures
        first == second,
{
    assert(first.private_view == second.private_view);
    assert(first.public_view@ == second.public_view@);
    assert(first.public_view == second.public_view);
}

/// The derived private key is a scalar below the group order.
pub proof fn lemma_private_key_below_order(digest: Seq<u8>, keys: ViewKeys)
    requires
        keys_derived_from(digest, keys),
    ensures
        0 <= le_nat(keys.private_view@) < group_order(),
{
    assert(group_order() > 0) by {
        vstd::arithmetic::power2::lemma_pow2_pos(252);
    }
}

/// The all-zero digest gives the zero scalar, encoded as 32 zero bytes.
pub proof fn lemma_zero_digest_zero_scalar(digest: Seq<u8>, keys: ViewKeys)
    requires
        keys_derived_from(digest, keys),
        forall|i: int| 0 <= i < digest.len() ==> digest[i] == 0,
    ensures
        le_nat(keys.private_view@) == 0,
        forall|i: int| 0 <= i < 32 ==> keys.private_view[i] == 0,
{
    lemma_le_nat_zero(digest);
    lemma_private_key_below_order(digest, keys);
    assert(0nat % group_order() == 0);
    lemma_le_nat_zero(keys.private_view@);
}

} // verus!
