use vstd::prelude::*;
use bitcoin::address::NetworkUnchecked;
use bitcoin::{Address, Network};

verus! {

/// The chain that a node runs, and that its addresses must belong to.
#[derive(Debug, Clone, Copy, PartialEq, Eq, Structural)]
pub enum Chain {
    Bitcoin,
    Testnet,
    Testnet4,
    Signet,
    Regtest,
}

/// The output script that the address text `s` stands for, where `s` parses
/// as an address that is valid on `chain`; `None` otherwise.
pub uninterp spec fn address_script(s: Seq<char>, chain: Chain) -> Option<Seq<u8>>;

/// Relies on bitcoin's `Address::<NetworkUnchecked>::from_str`,
/// `Address::require_network` and `Address::script_pubkey`: parses the text,
/// keeps it only when it is valid for the chain, and gives its output script.
#[verifier::external_body]
fn checked_address_script(s: &str, chain: Chain) -> (r: Option<Vec<u8>>)
    ensures
        match r {
            Some(v) => address_script(s@, chain) == Some(v@),
            None => address_script(s@, chain) is None,
        },
{
    let network = match chain {
        Chain::Bitcoin => Network::Bitcoin,
        Chain::Testnet => Network::Testnet,
        Chain::Testnet4 => Network::Testnet4,
        Chain::Signet => Network::Signet,
        Chain::Regtest => Network::Regtest,
    };
    match s.parse::<Address<NetworkUnchecked>>() {
        Ok(a) => a.require_network(network).ok().map(|c| c.script_pubkey().into_bytes()),
        Err(_) => None,
    }
}

/// Why an address was turned down.
#[derive(Debug, Clone, Copy, PartialEq, Eq, Structural)]
pub enum AddressError {
    /// The text is not an address of the expected chain.
    NetworkMismatch,
}

/// Checks that `s` is an address of `chain` and gives the output script that pays to it.
pub fn check_address(s: &str, chain: Chain) -> (r: Result<Vec<u8>, AddressError>)
    ensures
        match r {
            Ok(v) => address_script(s@, chain) == Some(v@),
            Err(e) => e == AddressError::NetworkMismatch && address_script(s@, chain) is None,
        },
{
    match checked_address_script(s, chain) {
        Some(v) => Ok(v),
        None => Err(AddressError::NetworkMismatch),
    }
}

} // verus!
