use monero::blockdata::transaction::{
    ExtraField, RawExtraField, SubField, TransactionPrefix, TxOut, TxOutTarget,
};
use monero::cryptonote::onetime_key::KeyGenerator;
use monero::util::ringct::RctSig;
use monero::{PrivateKey, PublicKey, Transaction, VarInt, ViewPair};
use std::str::FromStr;
use xmr_ts::address::{
    commit, decode_address, derive_address, AddressError, CommitError, SpendKey, StandardAddress,
};
use xmr_ts::digest::hash_data;
use xmr_ts::keys::{derive_keys, KeyError, ViewKeys};
use xmr_ts::lookup::{timestamp_of_lookup, FetchedTransaction, LookupError};
use xmr_ts::network::Network;
use xmr_ts::scan::{
    matched_outputs, scan_transaction, select_in_range, verify_transaction, ScanFault, VerifyError,
};
use xmr_ts::{timestamp, verify};

const IDENTITY_MAINNET: &str = "41fJjQDhryD111111111111111111111111111111111113CUsUpv9u11111111111111111111111111111111117KTBwG";
const IDENTITY_STAGENET_ZERO_SPEND: &str = "51q9LNeqbRR111111111111111111111111111111111113CUsUpv9u11111111111111111111111111111111111KTmCP";

fn identity() -> [u8; 32] {
    let mut p = [0u8; 32];
    p[0] = 1;
    p
}

fn sample_digest() -> [u8; 64] {
    hash_data(b"hello world")
}

fn public_key(bytes: &[u8; 32]) -> PublicKey {
    PublicKey::from_slice(bytes).unwrap()
}

/// A transaction with no inputs whose outputs carry the given one-time keys and
/// whose extra field holds the given transaction public key.
fn transaction(tx_pubkey: PublicKey, output_keys: &[[u8; 32]]) -> Vec<u8> {
    let extra = ExtraField(vec![SubField::TxPublicKey(tx_pubkey)]);
    let tx = Transaction {
        prefix: TransactionPrefix {
            version: VarInt(2),
            unlock_time: VarInt(0),
            inputs: vec![],
            outputs: output_keys
                .iter()
                .map(|k| TxOut { amount: VarInt(0), target: TxOutTarget::ToKey { key: *k } })
                .collect(),
            extra: RawExtraField::from(extra),
        },
        signatures: vec![],
        rct_signatures: RctSig { sig: None, p: None },
    };
    monero::consensus::serialize(&tx)
}

fn tx_random() -> PublicKey {
    let mut r = [0u8; 32];
    r[0] = 7;
    PublicKey::from_private_key(&PrivateKey::from_slice(&r).unwrap())
}

/// The one-time key of output `index` addressed to the keys of a digest.
fn one_time_key(keys: &ViewKeys, spend: &[u8; 32], index: usize) -> [u8; 32] {
    let pair = ViewPair {
        view: PrivateKey::from_slice(&keys.private_view).unwrap(),
        spend: public_key(spend),
    };
    KeyGenerator::from_key(&pair, tx_random()).one_time_key(index).to_bytes()
}

fn unrelated_key() -> [u8; 32] {
    let mut r = [0u8; 32];
    r[0] = 99;
    PublicKey::from_private_key(&PrivateKey::from_slice(&r).unwrap()).to_bytes()
}

#[test]
fn digest_of_abc_is_sha512() {
    let d = hash_data(b"abc");
    let expected = "ddaf35a193617abacc417349ae20413112e6fa4e89a97ea20a9eeee64b55d39a2192992a274fc1a836ba3c23a3feebbd454d4423643ce80e2a9ac94fa54ca49f";
    assert_eq!(hex::encode(d), expected);
}

#[test]
fn wrong_digest_length_is_rejected() {
    assert_eq!(derive_keys(&[0u8; 63]), Err(KeyError::InvalidDigestLength));
    assert_eq!(derive_keys(&[0u8; 32]), Err(KeyError::InvalidDigestLength));
    assert_eq!(derive_keys(&[]), Err(KeyError::InvalidDigestLength));
    assert_eq!(timestamp(0, &[0u8; 65]), Err("invalid digest length".to_string()));
    assert_eq!(timestamp(7, &[0u8; 65]), Err("invalid digest length".to_string()));
    assert_eq!(verify(&[0u8; 3], &[1, 2, 3]), Err("invalid digest length".to_string()));
    assert_eq!(commit(Network::Mainnet, SpendKey::PublicView, &[1u8; 10]), Err(CommitError::InvalidDigestLength));
}

#[test]
fn zero_digest_gives_zero_scalar_and_identity() {
    let keys = derive_keys(&[0u8; 64]).unwrap();
    assert_eq!(keys.private_view, [0u8; 32]);
    assert_eq!(keys.public_view, identity());
    assert_eq!(timestamp(0, &[0u8; 64]).unwrap(), IDENTITY_MAINNET);
}

#[test]
fn zero_digest_stagenet_address_with_zero_spend_key() {
    let (text, keys) = derive_address(Network::Stagenet, SpendKey::Zero, &[0u8; 64]).unwrap();
    assert_eq!(text, IDENTITY_STAGENET_ZERO_SPEND);
    assert_eq!(keys.public_view, identity());
}

#[test]
fn derivation_is_deterministic() {
    let d = sample_digest();
    assert_eq!(derive_keys(&d).unwrap(), derive_keys(&d).unwrap());
    assert_eq!(
        commit(Network::Stagenet, SpendKey::Zero, &d).unwrap(),
        commit(Network::Stagenet, SpendKey::Zero, &d).unwrap()
    );
    assert_eq!(timestamp(1, &d).unwrap(), timestamp(1, &d).unwrap());
}

#[test]
fn derived_scalar_is_below_group_order() {
    let keys = derive_keys(&[0xffu8; 64]).unwrap();
    assert!(PrivateKey::from_slice(&keys.private_view).is_ok());
    assert!(keys.private_view[31] <= 0x10);
    // 2^512 - 1 reduced modulo the group order is not 2^256 - 1 truncated.
    assert_ne!(keys.private_view, [0xffu8; 32]);
}

#[test]
fn small_digest_reduces_to_itself() {
    let mut d = [0u8; 64];
    d[0] = 5;
    let keys = derive_keys(&d).unwrap();
    let mut s = [0u8; 32];
    s[0] = 5;
    assert_eq!(keys.private_view, s);
}

#[test]
fn network_selector_is_checked() {
    let d = sample_digest();
    assert_eq!(timestamp(3, &d), Err("invalid network".to_string()));
    assert!(timestamp(255, &d).is_err());
    assert!(timestamp(0, &d).unwrap().starts_with('4'));
    assert!(timestamp(1, &d).unwrap().starts_with('5'));
    assert!(timestamp(2, &d).unwrap().starts_with('9') || timestamp(2, &d).unwrap().starts_with('A'));
    assert_eq!(Network::from_index(1), Some(Network::Stagenet));
    assert_eq!(Network::from_index(3), None);
    assert_eq!(Network::Testnet.standard_prefix(), 53);
}

#[test]
fn address_round_trips_through_monero() {
    let d = sample_digest();
    let keys = derive_keys(&d).unwrap();
    for (n, net) in [(0u8, monero::Network::Mainnet), (1, monero::Network::Stagenet), (2, monero::Network::Testnet)] {
        let text = timestamp(n, &d).unwrap();
        assert_eq!(text.len(), 95);
        let parsed = monero::Address::from_str(&text).unwrap();
        assert_eq!(parsed.network, net);
        assert_eq!(parsed.public_spend.to_bytes(), keys.public_view);
        assert_eq!(parsed.public_view.to_bytes(), keys.public_view);
    }
}

#[test]
fn altered_address_fails_its_checksum() {
    let text = commit(Network::Stagenet, SpendKey::Zero, &sample_digest()).unwrap();
    let bytes: Vec<char> = text.chars().collect();
    for i in [0usize, 10, 40, 80, 94] {
        let mut altered = bytes.clone();
        altered[i] = if altered[i] == '2' { '3' } else { '2' };
        let altered: String = altered.into_iter().collect();
        assert!(monero::Address::from_str(&altered).is_err());
    }
}

#[test]
fn scan_finds_output_zero() {
    let d = sample_digest();
    let keys = derive_keys(&d).unwrap();
    let tx = transaction(tx_random(), &[one_time_key(&keys, &keys.public_view, 0)]);
    assert_eq!(verify_transaction(&d, SpendKey::PublicView, &tx), Ok(true));
    assert_eq!(verify(&d, &tx), Ok(()));
}

#[test]
fn scan_with_zero_spend_key_finds_output_zero() {
    let d = sample_digest();
    let keys = derive_keys(&d).unwrap();
    let tx = transaction(tx_random(), &[one_time_key(&keys, &[0u8; 32], 0)]);
    assert_eq!(verify_transaction(&d, SpendKey::Zero, &tx), Ok(true));
    assert_eq!(verify_transaction(&d, SpendKey::PublicView, &tx), Ok(false));
}

#[test]
fn scan_ignores_unrelated_output() {
    let d = sample_digest();
    let tx = transaction(tx_random(), &[unrelated_key()]);
    assert_eq!(verify_transaction(&d, SpendKey::PublicView, &tx), Ok(false));
    assert_eq!(verify(&d, &tx), Err("transaction is not a timestamp for the data".to_string()));
}

#[test]
fn scan_ignores_match_beyond_first_output() {
    let d = sample_digest();
    let keys = derive_keys(&d).unwrap();
    let tx = transaction(
        tx_random(),
        &[unrelated_key(), one_time_key(&keys, &keys.public_view, 1)],
    );
    assert_eq!(verify_transaction(&d, SpendKey::PublicView, &tx), Ok(false));
    let both = transaction(
        tx_random(),
        &[one_time_key(&keys, &keys.public_view, 0), one_time_key(&keys, &keys.public_view, 1)],
    );
    assert_eq!(verify_transaction(&d, SpendKey::PublicView, &both), Ok(true));
}

#[test]
fn range_selection_keeps_indices_in_range() {
    assert_eq!(select_in_range(&vec![1, 2, 5], 0, 1), Vec::<usize>::new());
    assert_eq!(select_in_range(&vec![0, 1, 2, 5], 0, 1), vec![0]);
    assert_eq!(select_in_range(&vec![0, 1, 2, 5], 1, 6), vec![1, 2, 5]);
    assert_eq!(select_in_range(&vec![1, 2, 5], 0, usize::MAX), vec![1, 2, 5]);
}

#[test]
fn scan_outcomes_map_to_matches_and_errors() {
    assert_eq!(matched_outputs(&Ok(vec![0, 3]), 0, 1), Ok(vec![0]));
    assert_eq!(matched_outputs(&Ok(vec![3]), 0, 1), Ok(vec![]));
    assert_eq!(matched_outputs(&Err(ScanFault::NoTxPublicKey), 0, 1), Ok(vec![]));
    assert_eq!(matched_outputs(&Err(ScanFault::Malformed), 0, 1), Err(VerifyError::MalformedTransaction));
    assert_eq!(matched_outputs(&Err(ScanFault::InvalidKeys), 0, 1), Err(VerifyError::InvalidSpendKey));
    assert_eq!(matched_outputs(&Err(ScanFault::Failed), 0, 1), Err(VerifyError::ScanFailed));
}

#[test]
fn truncated_transaction_is_malformed() {
    let d = sample_digest();
    let keys = derive_keys(&d).unwrap();
    let tx = transaction(tx_random(), &[one_time_key(&keys, &keys.public_view, 0)]);
    for len in 0..tx.len() {
        assert_eq!(
            verify_transaction(&d, SpendKey::PublicView, &tx[..len]),
            Err(VerifyError::MalformedTransaction)
        );
    }
    let mut longer = tx.clone();
    longer.push(0);
    assert_eq!(verify_transaction(&d, SpendKey::PublicView, &longer), Err(VerifyError::MalformedTransaction));
    assert_eq!(verify(&d, &[]), Err("failed to decode transaction".to_string()));
}

#[test]
fn digest_length_is_checked_before_decoding() {
    assert_eq!(verify_transaction(&[0u8; 3], SpendKey::PublicView, &[]), Err(VerifyError::InvalidDigestLength));
}

fn fetched(height: Option<u64>, tx: &[u8]) -> Option<FetchedTransaction> {
    Some(FetchedTransaction { block_height: height, tx_hex: hex::encode(tx) })
}

#[test]
fn pending_transaction_is_reported_as_pending() {
    let d = sample_digest();
    let keys = derive_keys(&d).unwrap();
    let tx = transaction(tx_random(), &[one_time_key(&keys, &keys.public_view, 0)]);
    assert_eq!(timestamp_of_lookup(&d, SpendKey::PublicView, &fetched(None, &tx)), Err(LookupError::Pending));
    assert_eq!(timestamp_of_lookup(&d, SpendKey::PublicView, &fetched(None, &[1, 2])), Err(LookupError::Pending));
    assert_eq!(timestamp_of_lookup(&d, SpendKey::PublicView, &fetched(None, &[])), Err(LookupError::Pending));
}

#[test]
fn confirmed_transaction_gives_its_block_height() {
    let d = sample_digest();
    let keys = derive_keys(&d).unwrap();
    let tx = transaction(tx_random(), &[one_time_key(&keys, &keys.public_view, 0)]);
    assert_eq!(timestamp_of_lookup(&d, SpendKey::PublicView, &fetched(Some(3_000_123), &tx)), Ok(3_000_123));
    let other = transaction(tx_random(), &[unrelated_key()]);
    assert_eq!(timestamp_of_lookup(&d, SpendKey::PublicView, &fetched(Some(5), &other)), Err(LookupError::NoMatch));
}

#[test]
fn lookup_failures_are_distinct() {
    let d = sample_digest();
    assert_eq!(timestamp_of_lookup(&d, SpendKey::PublicView, &None), Err(LookupError::NotFound));
    assert_eq!(timestamp_of_lookup(&d, SpendKey::PublicView, &fetched(Some(1), &[])), Err(LookupError::EmptyTransaction));
    assert_eq!(timestamp_of_lookup(&d, SpendKey::PublicView, &fetched(Some(1), &[1, 2, 3])), Err(LookupError::Verify(VerifyError::MalformedTransaction)));
    let bad_hex = Some(FetchedTransaction { block_height: Some(1), tx_hex: "0g".to_string() });
    assert_eq!(timestamp_of_lookup(&d, SpendKey::PublicView, &bad_hex), Err(LookupError::InvalidHex));
    let odd_hex = Some(FetchedTransaction { block_height: Some(1), tx_hex: "abc".to_string() });
    assert_eq!(timestamp_of_lookup(&d, SpendKey::PublicView, &odd_hex), Err(LookupError::InvalidHex));
    assert_eq!(timestamp_of_lookup(&[0u8; 2], SpendKey::PublicView, &None), Err(LookupError::Verify(VerifyError::InvalidDigestLength)));
}

#[test]
fn uppercase_hex_is_accepted() {
    let d = sample_digest();
    let keys = derive_keys(&d).unwrap();
    let tx = transaction(tx_random(), &[one_time_key(&keys, &keys.public_view, 0)]);
    let upper = Some(FetchedTransaction { block_height: Some(9), tx_hex: hex::encode_upper(&tx) });
    assert_eq!(timestamp_of_lookup(&d, SpendKey::PublicView, &upper), Ok(9));
}

#[test]
fn decode_reads_back_encoded_address() {
    let d = sample_digest();
    let keys = derive_keys(&d).unwrap();
    for (n, net) in [(0u8, Network::Mainnet), (1, Network::Stagenet), (2, Network::Testnet)] {
        let text = timestamp(n, &d).unwrap();
        assert_eq!(
            decode_address(&text),
            Ok(StandardAddress { network: net, public_spend: keys.public_view, public_view: keys.public_view })
        );
    }
    assert_eq!(
        decode_address(IDENTITY_STAGENET_ZERO_SPEND),
        Ok(StandardAddress { network: Network::Stagenet, public_spend: [0u8; 32], public_view: identity() })
    );
}

#[test]
fn decode_rejects_every_altered_character() {
    let text = commit(Network::Mainnet, SpendKey::PublicView, &sample_digest()).unwrap();
    let chars: Vec<char> = text.chars().collect();
    for i in 0..chars.len() {
        let mut altered = chars.clone();
        altered[i] = if altered[i] == '2' { '3' } else { '2' };
        let altered: String = altered.into_iter().collect();
        assert!(decode_address(&altered).is_err(), "position {}", i);
    }
    let mut last = chars.clone();
    last[94] = if last[94] == 'a' { 'b' } else { 'a' };
    let last: String = last.into_iter().collect();
    assert_eq!(decode_address(&last), Err(AddressError::ChecksumMismatch));
}

#[test]
fn decode_error_kinds_are_distinct() {
    let text = timestamp(0, &sample_digest()).unwrap();
    assert_eq!(decode_address(&text[..94]), Err(AddressError::WrongLength));
    assert_eq!(decode_address(&format!("{}11", text)), Err(AddressError::WrongLength));
    assert_eq!(decode_address(""), Err(AddressError::WrongLength));
    let bad_symbol = format!("0{}", &text[1..]);
    assert_eq!(decode_address(&bad_symbol), Err(AddressError::InvalidBase58));
    let sub = monero::Address::subaddress(
        monero::Network::Mainnet,
        public_key(&identity()),
        public_key(&identity()),
    )
    .to_string();
    assert_eq!(decode_address(&sub), Err(AddressError::UnknownTag));
}


#[test]
fn wider_output_range_finds_later_match() {
    let d = sample_digest();
    let keys = derive_keys(&d).unwrap();
    let tx = transaction(
        tx_random(),
        &[unrelated_key(), one_time_key(&keys, &keys.public_view, 1)],
    );
    assert_eq!(scan_transaction(&keys, &keys.public_view, &tx, 0, 1), Ok(vec![]));
    assert_eq!(scan_transaction(&keys, &keys.public_view, &tx, 0, usize::MAX), Ok(vec![1]));
    assert_eq!(scan_transaction(&keys, &keys.public_view, &tx, 1, 2), Ok(vec![1]));
}

#[test]
fn scan_rejects_invalid_spend_key_and_bytes() {
    let keys = derive_keys(&sample_digest()).unwrap();
    let mut not_a_point = [0u8; 32];
    not_a_point[0] = 2;
    let tx = transaction(tx_random(), &[unrelated_key()]);
    assert_eq!(scan_transaction(&keys, &not_a_point, &tx, 0, 1), Err(VerifyError::InvalidSpendKey));
    assert_eq!(scan_transaction(&keys, &keys.public_view, &[0xff], 0, 1), Err(VerifyError::MalformedTransaction));
}

#[test]
fn transaction_without_public_key_matches_nothing() {
    let d = sample_digest();
    let tx = Transaction {
        prefix: TransactionPrefix {
            version: VarInt(2),
            unlock_time: VarInt(0),
            inputs: vec![],
            outputs: vec![TxOut { amount: VarInt(0), target: TxOutTarget::ToKey { key: unrelated_key() } }],
            extra: RawExtraField(vec![]),
        },
        signatures: vec![],
        rct_signatures: RctSig { sig: None, p: None },
    };
    let bytes = monero::consensus::serialize(&tx);
    assert_eq!(verify_transaction(&d, SpendKey::PublicView, &bytes), Ok(false));
}
