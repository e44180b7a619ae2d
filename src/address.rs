use vstd::prelude::*;
use vstd::string::StrSliceExecFns;

use monero::util::address::Error as AddrError;

use crate::keys::{derive_keys, derived_public_key, is_point_encoding, KeyError, ViewKeys};
use crate::network::{network_of_index, standard_prefix, Network};

verus! {

/// The base-58 text of the standard address with the given leading byte, public
/// spend key and public view key (the keys followed by a four-byte checksum).
pub uninterp spec fn standard_address_text(prefix: u8, spend: Seq<u8>, view: Seq<u8>) -> Seq<char>;

/// Relies on `monero::PublicKey::from_slice`, which accepts the canonical encodings
/// of curve points, and on `monero::Address::standard` and its `Display`, which
/// write the address text of a network and two keys: 69 bytes (leading byte, two
/// keys, checksum) in eight 11-character base-58 blocks and one of 7.
#[verifier::external_body]
fn encode_standard_address(network: Network, spend: &[u8; 32], view: &[u8; 32]) -> (r: Option<String>)
    ensures
        r is Some <==> (is_point_encoding(spend@) && is_point_encoding(view@)),
        r matches Some(t) ==> t@ == standard_address_text(standard_prefix(network), spend@, view@)
            && t@.len() == STANDARD_ADDRESS_CHARS,
{
    let network = match network {
        Network::Mainnet => monero::Network::Mainnet,
        Network::Stagenet => monero::Network::Stagenet,
        Network::Testnet => monero::Network::Testnet,
    };
    let spend = monero::PublicKey::from_slice(spend).ok()?;
    let view = monero::PublicKey::from_slice(view).ok()?;
    Some(monero::Address::standard(network, spend, view).to_string())
}

/// Which public spend key is paired with the derived view key.
#[derive(Clone, Copy, Debug, PartialEq, Eq, Structural)]
pub enum SpendKey {
    /// The all-zero encoding.
    Zero,
    /// The derived public view key itself.
    PublicView,
}

/// The 32 zero bytes.
pub open spec fn zero_key() -> Seq<u8> {
    Seq::new(32, |i: int| 0u8)
}

/// The public spend key that a choice gives beside a public view key.
pub open spec fn spend_key_of(choice: SpendKey, public_view: Seq<u8>) -> Seq<u8> {
    match choice {
        SpendKey::Zero => zero_key(),
        SpendKey::PublicView => public_view,
    }
}

/// Why no address could be made.
#[derive(Clone, Copy, Debug, PartialEq, Eq, Structural)]
pub enum CommitError {
    /// The digest is not 64 bytes long.
    InvalidDigestLength,
    /// The chosen spend key is not the encoding of a curve point.
    InvalidSpendKey,
}

/// The spend key that a choice gives beside derived keys.
pub fn spend_key(choice: SpendKey, keys: &ViewKeys) -> (r: [u8; 32])
    ensures
        r@ == spend_key_of(choice, keys.public_view@),
{
    match choice {
        SpendKey::Zero => {
            let r = [0u8; 32];
            assert(r@ =~= zero_key());
            r
        },
        SpendKey::PublicView => keys.public_view,
    }
}

/// The address that commits to a digest: the derived public view key beside the
/// chosen spend key, on the given network.
pub open spec fn commitment_address(network: Network, choice: SpendKey, digest: Seq<u8>) -> Seq<
    char,
> {
    standard_address_text(
        standard_prefix(network),
        spend_key_of(choice, derived_public_key(digest)),
        derived_public_key(digest),
    )
}

/// Whether a digest and a spend key choice can make an address at all.
pub open spec fn commit_error(choice: SpendKey, digest: Seq<u8>) -> Option<CommitError> {
    if digest.len() != 64 {
        Some(CommitError::InvalidDigestLength)
    } else if !is_point_encoding(spend_key_of(choice, derived_public_key(digest))) {
        Some(CommitError::InvalidSpendKey)
    } else {
        None
    }
}

/// Derives the keys of a digest and the address that commits to it.
pub fn derive_address(network: Network, choice: SpendKey, digest: &[u8]) -> (r: Result<
    (String, ViewKeys),
    CommitError,
>)
    ensures
        match r {
            Ok((text, keys)) => commit_error(choice, digest@) is None && text@ == commitment_address(
                network,
                choice,
                digest@,
            ) && text@.len() == STANDARD_ADDRESS_CHARS && crate::keys::keys_derived_from(
                digest@,
                keys,
            ),
            Err(e) => commit_error(choice, digest@) == Some(e),
        },
{
    let keys = match derive_keys(digest) {
        Ok(keys) => keys,
        Err(KeyError::InvalidDigestLength) => return Err(CommitError::InvalidDigestLength),
    };
    let spend = spend_key(choice, &keys);
    match encode_standard_address(network, &spend, &keys.public_view) {
        Some(text) => Ok((text, keys)),
        None => Err(CommitError::InvalidSpendKey),
    }
}

/// The address text that commits to a digest.
pub fn commit(network: Network, choice: SpendKey, digest: &[u8]) -> (r: Result<String, CommitError>)
    ensures
        match r {
            Ok(text) => commit_error(choice, digest@) is None && text@ == commitment_address(
                network,
                choice,
                digest@,
            ) && text@.len() == STANDARD_ADDRESS_CHARS,
            Err(e) => commit_error(choice, digest@) == Some(e),
        },
{
    match derive_address(network, choice, digest) {
        Ok((text, _)) => Ok(text),
        Err(e) => Err(e),
    }
}

/// What `timestamp` gives: the address text, or the message of the first check
/// that fails (the digest length, then the network selector).
pub open spec fn timestamp_outcome(network: u8, hash: Seq<u8>) -> Result<Seq<char>, Seq<char>> {
    if hash.len() != 64 {
        Err("invalid digest length"@)
    } else if network_of_index(network) is None {
        Err("invalid network"@)
    } else {
        Ok(commitment_address(network_of_index(network)->Some_0, SpendKey::PublicView, hash))
    }
}

/// The plain values of a text or a message.
pub open spec fn text_view(r: Result<String, String>) -> Result<Seq<char>, Seq<char>> {
    match r {
        Ok(t) => Ok(t@),
        Err(m) => Err(m@),
    }
}

/// The address that commits to a digest on the network with the given selector
/// (0 mainnet, 1 stagenet, 2 testnet), with the public view key as spend key too.
pub fn timestamp(network: u8, hash: &[u8]) -> (r: Result<String, String>)
    ensures
        text_view(r) == timestamp_outcome(network, hash@),
        r matches Ok(t) ==> t@.len() == STANDARD_ADDRESS_CHARS,
{
    let keys = match derive_keys(hash) {
        Ok(keys) => keys,
        Err(_) => return Err("invalid digest length".to_owned()),
    };
    let network = match Network::from_index(network) {
        Some(n) => n,
        None => return Err("invalid network".to_owned()),
    };
    match encode_standard_address(network, &keys.public_view, &keys.public_view) {
        Some(text) => Ok(text),
        None => Err("invalid public view key".to_owned()),
    }
}

/// Why text is not a standard address.
#[derive(Clone, Copy, Debug, PartialEq, Eq, Structural)]
pub enum AddressError {
    /// The text has not the length of a standard address.
    WrongLength,
    /// The text is not in the block-wise base-58 alphabet and layout.
    InvalidBase58,
    /// The four checksum bytes do not match the rest.
    ChecksumMismatch,
    /// The leading byte names no network, or no standard address.
    UnknownTag,
    /// A key is not the encoding of a curve point.
    InvalidKey,
}

/// A standard address read back from its text.
#[derive(Clone, Copy, Debug, PartialEq, Eq)]
pub struct StandardAddress {
    pub network: Network,
    pub public_spend: [u8; 32],
    pub public_view: [u8; 32],
}

/// The number of characters in a standard address: 69 bytes, in eight blocks
/// of eight bytes (11 characters each) and one of five (7 characters).
pub const STANDARD_ADDRESS_CHARS: usize = 95;

/// What address text reads as: its leading byte and keys, or why it is no address.
pub uninterp spec fn parsed_address(text: Seq<char>) -> Result<(u8, Seq<u8>, Seq<u8>), AddressError>;

/// Relies on `monero::Address::from_str`, which decodes base-58 text, checks the
/// checksum, the leading byte and the keys, and reports which check failed. It
/// inverts `Address`'s `Display`: the 69 bytes of a standard address (leading byte,
/// two keys, checksum) are written as eight 11-character blocks and one of 7, and
/// `from_bytes` reads back the leading byte and keys that `as_bytes` wrote.
#[verifier::external_body]
fn parse_address(text: &str) -> (r: Result<(u8, [u8; 32], [u8; 32]), AddressError>)
    ensures
        (match r {
            Ok((prefix, spend, view)) => parsed_address(text@) == Ok::<
                (u8, Seq<u8>, Seq<u8>),
                AddressError,
            >((prefix, spend@, view@)),
            Err(e) => parsed_address(text@) == Err::<(u8, Seq<u8>, Seq<u8>), AddressError>(e),
        }),
        (forall|prefix: u8, spend: Seq<u8>, view: Seq<u8>|
            text@ == #[trigger] standard_address_text(prefix, spend, view) && network_of_prefix(
                prefix,
            ) is Some && spend.len() == 32 && view.len() == 32 && is_point_encoding(spend)
                && is_point_encoding(view) ==> r is Ok && r->Ok_0.0 == prefix && r->Ok_0.1@ == spend && r->Ok_0.2@ == view),
{
    match <monero::Address as std::str::FromStr>::from_str(text) {
        Ok(a) => Ok((a.network.as_u8(&a.addr_type), a.public_spend.to_bytes(), a.public_view.to_bytes())),
        Err(AddrError::Encoding(_)) => Err(AddressError::WrongLength),
        Err(AddrError::Base58(_)) => Err(AddressError::InvalidBase58),
        Err(AddrError::InvalidChecksum) => Err(AddressError::ChecksumMismatch),
        Err(AddrError::InvalidMagicByte) => Err(AddressError::UnknownTag),
        Err(AddrError::Network(_)) => Err(AddressError::UnknownTag),
        Err(AddrError::InvalidPaymentId) => Err(AddressError::UnknownTag),
        Err(AddrError::InvalidFormat) => Err(AddressError::InvalidKey),
    }
}

/// The network whose standard addresses begin with a byte.
pub open spec fn network_of_prefix(prefix: u8) -> Option<Network> {
    if prefix == 18 {
        Some(Network::Mainnet)
    } else if prefix == 24 {
        Some(Network::Stagenet)
    } else if prefix == 53 {
        Some(Network::Testnet)
    } else {
        None
    }
}

/// The network whose standard addresses begin with a byte, if any.
pub fn network_from_prefix(prefix: u8) -> (r: Option<Network>)
    ensures
        r == network_of_prefix(prefix),
{
    if prefix == 18 {
        Some(Network::Mainnet)
    } else if prefix == 24 {
        Some(Network::Stagenet)
    } else if prefix == 53 {
        Some(Network::Testnet)
    } else {
        None
    }
}

/// The leading byte of a standard address reads back as its network.
pub proof fn lemma_prefix_names_network(network: Network)
    ensures
        network_of_prefix(standard_prefix(network)) == Some(network),
{
}

/// Reads a standard address: its network and its two public keys.
pub fn decode_address(text: &str) -> (r: Result<StandardAddress, AddressError>)
    ensures
        text@.len() != STANDARD_ADDRESS_CHARS ==> r == Err::<StandardAddress, AddressError>(
            AddressError::WrongLength,
        ),
        text@.len() == STANDARD_ADDRESS_CHARS ==> match parsed_address(text@) {
            Err(e) => r == Err::<StandardAddress, AddressError>(e),
            Ok((prefix, spend, view)) => match network_of_prefix(prefix) {
                None => r == Err::<StandardAddress, AddressError>(AddressError::UnknownTag),
                Some(network) => r is Ok && r->Ok_0.network == network && r->Ok_0.public_spend@
                    == spend && r->Ok_0.public_view@ == view,
            },
        },
        forall|network: Network, spend: Seq<u8>, view: Seq<u8>|
            text@ == #[trigger] standard_address_text(standard_prefix(network), spend, view)
                && text@.len() == STANDARD_ADDRESS_CHARS && spend.len() == 32 && view.len() == 32 && is_point_encoding(spend)
                && is_point_encoding(view) ==> r is Ok && r->Ok_0.network == network
                && r->Ok_0.public_spend@ == spend && r->Ok_0.public_view@ == view,
{
    if text.unicode_len() != STANDARD_ADDRESS_CHARS {
        return Err(AddressError::WrongLength);
    }
    match parse_address(text) {
        Ok((prefix, public_spend, public_view)) => match network_from_prefix(prefix) {
            Some(network) => Ok(StandardAddress { network, public_spend, public_view }),
            None => Err(AddressError::UnknownTag),
        },
        Err(e) => Err(e),
    }
}

} // verus!
