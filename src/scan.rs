use vstd::prelude::*;

use crate::address::{spend_key, spend_key_of, SpendKey};
use crate::keys::{
    derive_keys, derived_private_key, derived_public_key, group_order, is_point_encoding, le_nat,
    ViewKeys,
};

verus! {

/// Why scanning transaction bytes for a key pair gave no list of outputs.
#[derive(Clone, Copy, Debug, PartialEq, Eq, Structural)]
pub enum ScanFault {
    /// The bytes are not exactly one transaction.
    Malformed,
    /// The private view key is not canonical or the spend key is not a point.
    InvalidKeys,
    /// The transaction's extra field holds no transaction public key.
    NoTxPublicKey,
    /// The scan failed on the transaction's amounts or commitments.
    Failed,
}

/// Whether bytes are exactly one transaction in the ledger's binary format.
pub uninterp spec fn transaction_decodes(bytes: Seq<u8>) -> bool;

/// What scanning the transaction that bytes hold gives for a private view key
/// and a public spend key, over the given subaddress account and index counts:
/// the indices of the outputs addressed to them, or why there are none.
pub uninterp spec fn scanned_outputs(
    tx_bytes: Seq<u8>,
    private_view: Seq<u8>,
    public_spend: Seq<u8>,
    accounts: u32,
    indices: u32,
) -> Result<Seq<usize>, ScanFault>;

/// Whether a sequence of indices is strictly increasing.
pub open spec fn strictly_increasing(s: Seq<usize>) -> bool {
    forall|i: int, j: int| 0 <= i < j < s.len() ==> s[i] < s[j]
}

/// Relies on `monero::consensus::deserialize`, which fails unless the bytes hold
/// exactly one transaction; on `PrivateKey::from_slice` and `PublicKey::from_slice`
/// to read the keys; and on `Transaction::check_outputs`, which lists in order the
/// outputs whose one-time key belongs to a subaddress within the given ranges.
#[verifier::external_body]
fn scan_outputs(
    tx_bytes: &[u8],
    private_view: &[u8; 32],
    public_spend: &[u8; 32],
    accounts: u32,
    indices: u32,
) -> (r: Result<Vec<usize>, ScanFault>)
    ensures
        (r == Err::<Vec<usize>, ScanFault>(ScanFault::Malformed)) <==> !transaction_decodes(
            tx_bytes@,
        ),
        (r == Err::<Vec<usize>, ScanFault>(ScanFault::InvalidKeys)) <==> (transaction_decodes(
            tx_bytes@,
        ) && !(le_nat(private_view@) < group_order() && is_point_encoding(public_spend@))),
        (match r {
            Ok(v) => scanned_outputs(tx_bytes@, private_view@, public_spend@, accounts, indices)
                == Ok::<Seq<usize>, ScanFault>(v@) && strictly_increasing(v@),
            Err(e) => scanned_outputs(tx_bytes@, private_view@, public_spend@, accounts, indices)
                == Err::<Seq<usize>, ScanFault>(e),
        }),
{
    let tx: monero::Transaction = monero::consensus::deserialize(tx_bytes).map_err(|_| ScanFault::Malformed)?;
    let view = monero::PrivateKey::from_slice(private_view).map_err(|_| ScanFault::InvalidKeys)?;
    let spend = monero::PublicKey::from_slice(public_spend).map_err(|_| ScanFault::InvalidKeys)?;
    match tx.check_outputs(&monero::ViewPair { view, spend }, 0..accounts, 0..indices) {
        Ok(outs) => Ok(outs.iter().map(|o| o.index()).collect()),
        Err(monero::blockdata::transaction::Error::NoTxPublicKey) => Err(ScanFault::NoTxPublicKey),
        Err(_) => Err(ScanFault::Failed),
    }
}

/// The entries of `s` that lie in `[lo, hi)`, in their order.
pub open spec fn indices_in_range(s: Seq<usize>, lo: int, hi: int) -> Seq<usize>
    decreases s.len(),
{
    if s.len() == 0 {
        Seq::empty()
    } else {
        let rest = indices_in_range(s.drop_last(), lo, hi);
        if lo <= s.last() < hi {
            rest.push(s.last())
        } else {
            rest
        }
    }
}

/// Keeps the indices that lie in `[lo, hi)`.
pub fn select_in_range(indices: &Vec<usize>, lo: usize, hi: usize) -> (r: Vec<usize>)
    ensures
        r@ == indices_in_range(indices@, lo as int, hi as int),
{
    let mut r: Vec<usize> = Vec::new();
    let mut k: usize = 0;
    while k < indices.len()
        invariant
            0 <= k <= indices@.len(),
            r@ == indices_in_range(indices@.subrange(0, k as int), lo as int, hi as int),
        decreases indices@.len() - k,
    {
        let i = indices[k];
        assert(indices@.subrange(0, k + 1).drop_last() =~= indices@.subrange(0, k as int));
        if lo <= i && i < hi {
            r.push(i);
        }
        k = k + 1;
    }
    assert(indices@.subrange(0, indices@.len() as int) =~= indices@);
    r
}

/// An index scan keeps only indices in range: none outside `[lo, hi)` is reported.
pub proof fn lemma_selected_in_range(s: Seq<usize>, lo: int, hi: int)
    ensures
        forall|k: int|
            0 <= k < indices_in_range(s, lo, hi).len() ==> lo <= #[trigger] indices_in_range(
                s,
                lo,
                hi,
            )[k] < hi,
    decreases s.len(),
{
    if s.len() > 0 {
        lemma_selected_in_range(s.drop_last(), lo, hi);
        let rest = indices_in_range(s.drop_last(), lo, hi);
        assert forall|k: int| 0 <= k < indices_in_range(s, lo, hi).len() implies lo
            <= #[trigger] indices_in_range(s, lo, hi)[k] < hi by {
            if k < rest.len() {
                assert(rest[k] == indices_in_range(s, lo, hi)[k]);
            }
        }
    }
}

/// Keeping the indices in a range keeps a strictly increasing sequence so.
pub proof fn lemma_selection_increasing(s: Seq<usize>, lo: int, hi: int)
    requires
        strictly_increasing(s),
    ensures
        strictly_increasing(indices_in_range(s, lo, hi)),
        forall|k: int|
            0 <= k < indices_in_range(s, lo, hi).len() ==> s.contains(
                #[trigger] indices_in_range(s, lo, hi)[k],
            ),
    decreases s.len(),
{
    if s.len() > 0 {
        let init = s.drop_last();
        assert(strictly_increasing(init));
        lemma_selection_increasing(init, lo, hi);
        let rest = indices_in_range(init, lo, hi);
        assert forall|k: int| 0 <= k < rest.len() implies #[trigger] rest[k] < s.last() by {
            let j = choose|j: int| 0 <= j < init.len() && init[j] == rest[k];
            assert(s[j] == init[j]);
        }
        assert forall|k: int| 0 <= k < indices_in_range(s, lo, hi).len() implies s.contains(
            #[trigger] indices_in_range(s, lo, hi)[k],
        ) by {
            if k < rest.len() {
                assert(indices_in_range(s, lo, hi)[k] == rest[k]);
                let j = choose|j: int| 0 <= j < init.len() && init[j] == rest[k];
                assert(s[j] == init[j]);
            } else {
                assert(s[s.len() - 1] == s.last());
            }
        }
    }
}

/// Matches that lie only at indices at or above `hi` are not reported by a scan
/// restricted to `[lo, hi)`.
pub proof fn lemma_matches_beyond_range_ignored(s: Seq<usize>, lo: int, hi: int)
    requires
        forall|k: int| 0 <= k < s.len() ==> s[k] >= hi,
    ensures
        indices_in_range(s, lo, hi).len() == 0,
    decreases s.len(),
{
    if s.len() > 0 {
        lemma_matches_beyond_range_ignored(s.drop_last(), lo, hi);
    }
}

/// A scan whose range holds every match reports every match.
pub proof fn lemma_wide_range_keeps_all(s: Seq<usize>, lo: int, hi: int)
    requires
        forall|k: int| 0 <= k < s.len() ==> lo <= #[trigger] s[k] < hi,
    ensures
        indices_in_range(s, lo, hi) == s,
    decreases s.len(),
{
    if s.len() > 0 {
        lemma_wide_range_keeps_all(s.drop_last(), lo, hi);
        assert(s.drop_last().push(s.last()) =~= s);
    }
}

/// Why a transaction could not be checked against a digest.
#[derive(Clone, Copy, Debug, PartialEq, Eq, Structural)]
pub enum VerifyError {
    /// The digest is not 64 bytes long.
    InvalidDigestLength,
    /// The chosen spend key is not the encoding of a curve point.
    InvalidSpendKey,
    /// The bytes are not one transaction.
    MalformedTransaction,
    /// The scan failed on the transaction's amounts or commitments.
    ScanFailed,
}

/// The matched output indices within `[lo, hi)` that a scan result gives; a
/// transaction without a transaction public key matches nothing.
pub open spec fn matches_of(scan: Result<Seq<usize>, ScanFault>, lo: int, hi: int) -> Result<
    Seq<usize>,
    VerifyError,
> {
    match scan {
        Ok(v) => Ok(indices_in_range(v, lo, hi)),
        Err(ScanFault::NoTxPublicKey) => Ok(Seq::empty()),
        Err(ScanFault::Malformed) => Err(VerifyError::MalformedTransaction),
        Err(ScanFault::InvalidKeys) => Err(VerifyError::InvalidSpendKey),
        Err(ScanFault::Failed) => Err(VerifyError::ScanFailed),
    }
}

/// The plain values of a list of indices or an error.
pub open spec fn indices_view<E>(r: Result<Vec<usize>, E>) -> Result<Seq<usize>, E> {
    match r {
        Ok(v) => Ok(v@),
        Err(e) => Err(e),
    }
}

/// The matched output indices within `[lo, hi)` that a scan result gives.
pub fn matched_outputs(scan: &Result<Vec<usize>, ScanFault>, lo: usize, hi: usize) -> (r: Result<
    Vec<usize>,
    VerifyError,
>)
    ensures
        indices_view(r) == matches_of(indices_view(*scan), lo as int, hi as int),
{
    match scan {
        Ok(v) => Ok(select_in_range(v, lo, hi)),
        Err(ScanFault::NoTxPublicKey) => {
            let r: Vec<usize> = Vec::new();
            assert(r@ =~= Seq::<usize>::empty());
            Ok(r)
        },
        Err(ScanFault::Malformed) => Err(VerifyError::MalformedTransaction),
        Err(ScanFault::InvalidKeys) => Err(VerifyError::InvalidSpendKey),
        Err(ScanFault::Failed) => Err(VerifyError::ScanFailed),
    }
}

/// The outputs of a transaction within `[lo, hi)` addressed to a private view key
/// and a public spend key, on the main address (account 0, index 0).
pub open spec fn scan_matches(
    tx_bytes: Seq<u8>,
    private_view: Seq<u8>,
    public_spend: Seq<u8>,
    lo: int,
    hi: int,
) -> Result<Seq<usize>, VerifyError> {
    matches_of(scanned_outputs(tx_bytes, private_view, public_spend, 1, 1), lo, hi)
}

/// The indices in `[lo, hi)` of the outputs of a transaction that are addressed
/// to a private view key and public spend key. The scan covers the main address
/// (account 0, index 0) only. It tries the first transaction public key, and for
/// an output that has one, the additional key at its index. A transaction without
/// a transaction public key matches nothing.
pub fn scan_transaction(
    keys: &ViewKeys,
    public_spend: &[u8; 32],
    tx_bytes: &[u8],
    lo: usize,
    hi: usize,
) -> (r: Result<Vec<usize>, VerifyError>)
    requires
        le_nat(keys.private_view@) < group_order(),
    ensures
        indices_view(r) == scan_matches(
            tx_bytes@,
            keys.private_view@,
            public_spend@,
            lo as int,
            hi as int,
        ),
        !transaction_decodes(tx_bytes@) ==> r == Err::<Vec<usize>, VerifyError>(
            VerifyError::MalformedTransaction,
        ),
        transaction_decodes(tx_bytes@) && !is_point_encoding(public_spend@) ==> r == Err::<
            Vec<usize>,
            VerifyError,
        >(VerifyError::InvalidSpendKey),
        r matches Ok(v) ==> strictly_increasing(v@) && forall|k: int|
            0 <= k < v@.len() ==> lo <= #[trigger] v@[k] < hi,
{
    let scan = scan_outputs(tx_bytes, &keys.private_view, public_spend, 1, 1);
    let r = matched_outputs(&scan, lo, hi);
    proof {
        if let Ok(v) = scan {
            lemma_selected_in_range(v@, lo as int, hi as int);
            lemma_selection_increasing(v@, lo as int, hi as int);
        }
    }
    r
}

/// The error, if any, that checking a transaction against a digest must give
/// before the scan: digest length, then decoding, then the spend key.
pub open spec fn verify_error(digest: Seq<u8>, choice: SpendKey, tx_bytes: Seq<u8>) -> Option<
    VerifyError,
> {
    if digest.len() != 64 {
        Some(VerifyError::InvalidDigestLength)
    } else if !transaction_decodes(tx_bytes) {
        Some(VerifyError::MalformedTransaction)
    } else if !is_point_encoding(spend_key_of(choice, derived_public_key(digest))) {
        Some(VerifyError::InvalidSpendKey)
    } else {
        None
    }
}

/// Whether output 0 of a transaction is addressed to the keys that a digest
/// determines, beside the chosen spend key, or why that cannot be told.
pub open spec fn verify_outcome(digest: Seq<u8>, choice: SpendKey, tx_bytes: Seq<u8>) -> Result<
    bool,
    VerifyError,
> {
    if digest.len() != 64 {
        Err(VerifyError::InvalidDigestLength)
    } else {
        match scan_matches(
            tx_bytes,
            derived_private_key(digest),
            spend_key_of(choice, derived_public_key(digest)),
            0,
            1,
        ) {
            Ok(v) => Ok(v.len() > 0),
            Err(e) => Err(e),
        }
    }
}

/// Whether a transaction's first output is addressed to the keys that a digest
/// determines, beside the chosen spend key.
pub fn verify_transaction(digest: &[u8], choice: SpendKey, tx_bytes: &[u8]) -> (r: Result<
    bool,
    VerifyError,
>)
    ensures
        r == verify_outcome(digest@, choice, tx_bytes@),
        verify_error(digest@, choice, tx_bytes@) matches Some(e) ==> r == Err::<bool, VerifyError>(
            e,
        ),
{
    let keys = match derive_keys(digest) {
        Ok(keys) => keys,
        Err(_) => return Err(VerifyError::InvalidDigestLength),
    };
    let spend = spend_key(choice, &keys);
    match scan_transaction(&keys, &spend, tx_bytes, 0, 1) {
        Ok(found) => Ok(found.len() > 0),
        Err(e) => Err(e),
    }
}

/// The message that `verify` gives for a failed check.
pub open spec fn verify_message(outcome: Result<bool, VerifyError>) -> Seq<char> {
    match outcome {
        Ok(_) => "transaction is not a timestamp for the data"@,
        Err(VerifyError::InvalidDigestLength) => "invalid digest length"@,
        Err(VerifyError::MalformedTransaction) => "failed to decode transaction"@,
        Err(_) => "failed to check transaction for outputs"@,
    }
}

/// Checks that a transaction is a timestamp of a digest, pairing the derived
/// public view key with itself as spend key.
pub fn verify(hash: &[u8], tx_bytes: &[u8]) -> (r: Result<(), String>)
    ensures
        r is Ok <==> verify_outcome(hash@, SpendKey::PublicView, tx_bytes@) == Ok::<
            bool,
            VerifyError,
        >(true),
        r matches Err(m) ==> m@ == verify_message(
            verify_outcome(hash@, SpendKey::PublicView, tx_bytes@),
        ),
{
    match verify_transaction(hash, SpendKey::PublicView, tx_bytes) {
        Ok(true) => Ok(()),
        Ok(false) => Err("transaction is not a timestamp for the data".to_owned()),
        Err(VerifyError::InvalidDigestLength) => Err("invalid digest length".to_owned()),
        Err(VerifyError::MalformedTransaction) => Err("failed to decode transaction".to_owned()),
        Err(_) => Err("failed to check transaction for outputs".to_owned()),
    }
}

} // verus!
