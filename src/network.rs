use vstd::prelude::*;

verus! {

/// The Monero network an address is valid on.
#[derive(Clone, Copy, Debug, PartialEq, Eq, Structural)]
pub enum Network {
    Mainnet,
    Stagenet,
    Testnet,
}

/// The network that a numeric selector names: 0, 1 and 2 stand for mainnet,
/// stagenet and testnet.
pub open spec fn network_of_index(index: u8) -> Option<Network> {
    if index == 0 {
        Some(Network::Mainnet)
    } else if index == 1 {
        Some(Network::Stagenet)
    } else if index == 2 {
        Some(Network::Testnet)
    } else {
        None
    }
}

/// The leading byte of a standard address on a network.
pub open spec fn standard_prefix(network: Network) -> u8 {
    match network {
        Network::Mainnet => 18,
        Network::Stagenet => 24,
        Network::Testnet => 53,
    }
}

impl Network {
    /// The network that a numeric selector names, if any.
    pub fn from_index(index: u8) -> (r: Option<Network>)
        ensures
            r == network_of_index(index),
    {
        if index == 0 {
            Some(Network::Mainnet)
        } else if index == 1 {
            Some(Network::Stagenet)
        } else if index == 2 {
            Some(Network::Testnet)
        } else {
            None
        }
    }

    /// The leading byte of a standard address on this network.
    pub fn standard_prefix(&self) -> (r: u8)
        ensures
            r == standard_prefix(*self),
    {
        match self {
            Network::Mainnet => 18,
            Network::Stagenet => 24,
            Network::Testnet => 53,
        }
    }
}

} // verus!
