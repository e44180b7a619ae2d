use vstd::prelude::*;

use crate::address::SpendKey;
use crate::scan::{verify_outcome, verify_transaction, VerifyError};

verus! {

/// The value of a hexadecimal digit of either case.
pub open spec fn hex_digit_value(c: char) -> Option<u8> {
    if '0' <= c && c <= '9' {
        Some((c as u32 - '0' as u32) as u8)
    } else if 'a' <= c && c <= 'f' {
        Some((c as u32 - 'a' as u32 + 10) as u8)
    } else if 'A' <= c && c <= 'F' {
        Some((c as u32 - 'A' as u32 + 10) as u8)
    } else {
        None
    }
}

/// Whether text is an even number of hexadecimal digits.
pub open spec fn is_hex_text(s: Seq<char>) -> bool {
    s.len() % 2 == 0 && forall|i: int| 0 <= i < s.len() ==> #[trigger] hex_digit_value(s[i]) is Some
}

/// The bytes that hexadecimal text spells, two digits each, high digit first.
pub open spec fn hex_bytes(s: Seq<char>) -> Seq<u8> {
    Seq::new(
        s.len() / 2,
        |i: int|
            (16 * hex_digit_value(s[2 * i])->Some_0 + hex_digit_value(s[2 * i + 1])->Some_0) as u8,
    )
}

/// Relies on `hex::decode`, which reads pairs of hexadecimal digits of either case
/// and fails on odd length or any other character.
#[verifier::external_body]
fn decode_hex(text: &str) -> (r: Option<Vec<u8>>)
    ensures
        r is Some <==> is_hex_text(text@),
        r matches Some(b) ==> b@ == hex_bytes(text@),
{
    hex::decode(text).ok()
}

/// A transaction as a node returned it: hexadecimal bytes, and the height of the
/// block holding it unless it is still pending.
pub struct FetchedTransaction {
    pub block_height: Option<u64>,
    pub tx_hex: String,
}

/// Why a looked-up transaction gives no timestamp.
#[derive(Clone, Copy, Debug, PartialEq, Eq, Structural)]
pub enum LookupError {
    /// The node knows no such transaction.
    NotFound,
    /// The transaction is in no block yet.
    Pending,
    /// The node's transaction data is not hexadecimal.
    InvalidHex,
    /// The node's transaction data is empty.
    EmptyTransaction,
    /// The transaction could not be checked.
    Verify(VerifyError),
    /// The transaction is not a timestamp of the digest.
    NoMatch,
}

/// What a lookup gives: the block height when the transaction's first output is
/// addressed to the digest's keys, else why not. The digest is checked first, then
/// that the transaction was found, then that it is in a block, then its bytes.
pub open spec fn lookup_outcome(
    digest: Seq<u8>,
    choice: SpendKey,
    lookup: Option<(Option<u64>, Seq<char>)>,
) -> Result<u64, LookupError> {
    if digest.len() != 64 {
        Err(LookupError::Verify(VerifyError::InvalidDigestLength))
    } else if lookup is None {
        Err(LookupError::NotFound)
    } else if lookup->Some_0.0 is None {
        Err(LookupError::Pending)
    } else if !is_hex_text(lookup->Some_0.1) {
        Err(LookupError::InvalidHex)
    } else if hex_bytes(lookup->Some_0.1).len() == 0 {
        Err(LookupError::EmptyTransaction)
    } else {
        match verify_outcome(digest, choice, hex_bytes(lookup->Some_0.1)) {
            Ok(true) => Ok(lookup->Some_0.0->Some_0),
            Ok(false) => Err(LookupError::NoMatch),
            Err(e) => Err(LookupError::Verify(e)),
        }
    }
}

/// The plain values of a lookup.
pub open spec fn lookup_view(lookup: Option<FetchedTransaction>) -> Option<(Option<u64>, Seq<char>)> {
    match lookup {
        Some(t) => Some((t.block_height, t.tx_hex@)),
        None => None,
    }
}

/// The height of the block that timestamps a digest, from a looked-up transaction.
/// A transaction in no block yet is pending, whatever its contents.
pub fn timestamp_of_lookup(
    digest: &[u8],
    choice: SpendKey,
    lookup: &Option<FetchedTransaction>,
) -> (r: Result<u64, LookupError>)
    ensures
        r == lookup_outcome(digest@, choice, lookup_view(*lookup)),
{
    if digest.len() != 64 {
        return Err(LookupError::Verify(VerifyError::InvalidDigestLength));
    }
    let fetched = match lookup {
        Some(t) => t,
        None => return Err(LookupError::NotFound),
    };
    let height = match fetched.block_height {
        Some(h) => h,
        None => return Err(LookupError::Pending),
    };
    let tx_bytes = match decode_hex(fetched.tx_hex.as_str()) {
        Some(b) => b,
        None => return Err(LookupError::InvalidHex),
    };
    if tx_bytes.len() == 0 {
        return Err(LookupError::EmptyTransaction);
    }
    match verify_transaction(digest, choice, tx_bytes.as_slice()) {
        Ok(true) => Ok(height),
        Ok(false) => Err(LookupError::NoMatch),
        Err(e) => Err(LookupError::Verify(e)),
    }
}

/// A transaction in no block yet is reported as pending, whatever its bytes: not
/// as a failed match and not as a malformed transaction.
pub proof fn lemma_pending_is_distinct(digest: Seq<u8>, choice: SpendKey, tx_hex: Seq<char>)
    requires
        digest.len() == 64,
    ensures
        lookup_outcome(digest, choice, Some((None, tx_hex))) == Err::<u64, LookupError>(
            LookupError::Pending,
        ),
        lookup_outcome(digest, choice, Some((None, tx_hex))) != Err::<u64, LookupError>(
            LookupError::NoMatch,
        ),
        lookup_outcome(digest, choice, Some((None, tx_hex))) != Err::<u64, LookupError>(
            LookupError::Verify(VerifyError::MalformedTransaction),
        ),
{
}

} // verus!
