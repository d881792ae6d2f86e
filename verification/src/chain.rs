//! Chains that jobs can originate from, and addresses on them.

use vstd::prelude::*;

verus! {

/// A blockchain a job request can originate from. Only EVM chains are
/// supported at the moment.
#[derive(Debug, Clone, Copy, PartialEq, Eq, Structural)]
pub enum Chain {
    Evm(EvmChain),
}

impl Chain {
    /// Whether the chain is a test network.
    pub fn is_testnet(&self) -> (r: bool)
        ensures
            r == self.spec_is_testnet(),
    {
        match self {
            Chain::Evm(evm_chain) => evm_chain.is_testnet(),
        }
    }

    pub open spec fn spec_is_testnet(&self) -> bool {
        match self {
            Chain::Evm(evm_chain) => evm_chain.spec_is_testnet(),
        }
    }
}

/// The supported EVM chains.
#[derive(Debug, Clone, Copy, PartialEq, Eq, Structural)]
pub enum EvmChain {
    ArbitrumOne,
    ArbitrumSepolia,
    Localhost,
}

impl EvmChain {
    /// Whether the chain is a test network.
    pub fn is_testnet(&self) -> (r: bool)
        ensures
            r == self.spec_is_testnet(),
    {
        match self {
            EvmChain::ArbitrumSepolia => true,
            EvmChain::ArbitrumOne => false,
            EvmChain::Localhost => true,
        }
    }

    pub open spec fn spec_is_testnet(&self) -> bool {
        match self {
            EvmChain::ArbitrumSepolia => true,
            EvmChain::ArbitrumOne => false,
            EvmChain::Localhost => true,
        }
    }
}

/// The canonical numeric chain identifier of an EVM chain.
pub fn evm_chain_id(chain: EvmChain) -> (r: u64)
    ensures
        r == spec_evm_chain_id(chain),
{
    match chain {
        EvmChain::ArbitrumOne => 42161,
        EvmChain::ArbitrumSepolia => 421614,
        EvmChain::Localhost => 31337,
    }
}

pub open spec fn spec_evm_chain_id(chain: EvmChain) -> u64 {
    match chain {
        EvmChain::ArbitrumOne => 42161,
        EvmChain::ArbitrumSepolia => 421614,
        EvmChain::Localhost => 31337,
    }
}

/// An address on some chain. EVM addresses are 20 raw bytes.
#[derive(Debug, Clone)]
pub enum Address {
    EvmAddress(Vec<u8>),
}

impl Address {
    /// Addresses carry exactly the byte length their chain prescribes.
    pub open spec fn wf(&self) -> bool {
        match self {
            Address::EvmAddress(bytes) => bytes@.len() == 20,
        }
    }

    /// The raw bytes of the address.
    pub fn bytes(&self) -> (r: &Vec<u8>)
        ensures
            r@ == self.spec_bytes(),
    {
        match self {
            Address::EvmAddress(bytes) => bytes,
        }
    }

    pub open spec fn spec_bytes(&self) -> Seq<u8> {
        match self {
            Address::EvmAddress(bytes) => bytes@,
        }
    }
}

} // verus!
