//! Hardfork identifiers and per-chain activation tables for Optimism-family
//! networks.

use vstd::prelude::*;

verus! {

/// Chain id of the Base Sepolia testnet.
pub const BASE_SEPOLIA_CHAIN_ID: u64 = 84532;

/// Chain id of the Base mainnet.
pub const BASE_MAINNET_CHAIN_ID: u64 = 8453;

/// Chain id of the opBNB mainnet.
pub const OPBNB_MAINNET_CHAIN_ID: u64 = 204;

/// Chain id of the opBNB testnet.
pub const OPBNB_TESTNET_CHAIN_ID: u64 = 5611;

/// The name of an Ethereum hardfork.
#[derive(Clone, Copy, Debug, PartialEq, Eq, Structural)]
pub enum EthereumHardfork {
    /// Frontier.
    Frontier,
    /// Homestead.
    Homestead,
    /// The DAO fork.
    Dao,
    /// Tangerine Whistle.
    Tangerine,
    /// Spurious Dragon.
    SpuriousDragon,
    /// Byzantium.
    Byzantium,
    /// Constantinople.
    Constantinople,
    /// Petersburg.
    Petersburg,
    /// Istanbul.
    Istanbul,
    /// Muir Glacier.
    MuirGlacier,
    /// Berlin.
    Berlin,
    /// London.
    London,
    /// Arrow Glacier.
    ArrowGlacier,
    /// Gray Glacier.
    GrayGlacier,
    /// Paris (the merge).
    Paris,
    /// Shanghai.
    Shanghai,
    /// Cancun.
    Cancun,
    /// Prague.
    Prague,
}

/// The name of an optimism hardfork.
///
/// When building a list of hardforks for a chain, it is still expected to mix
/// with [`EthereumHardfork`].
#[derive(Clone, Copy, Debug, PartialEq, Eq, Structural)]
pub enum OptimismHardfork {
    /// Bedrock.
    Bedrock,
    /// Regolith.
    Regolith,
    /// Fermat.
    Fermat,
    /// Canyon.
    Canyon,
    /// Ecotone.
    Ecotone,
    /// PreContractForkBlock.
    PreContractForkBlock,
    /// Haber.
    Haber,
    /// Wright.
    Wright,
    /// Fjord.
    Fjord,
}

/// The condition at which a hardfork activates.
#[derive(Clone, Copy, Debug, PartialEq, Eq, Structural)]
pub enum ForkCondition {
    /// The fork activates at the given block number.
    Block(u64),
    /// The fork activates at the given timestamp.
    Timestamp(u64),
    /// The fork activates when the total difficulty is reached, optionally
    /// pinned to a known fork block.
    Ttd {
        /// The fork block, when known ahead of time.
        fork_block: Option<u64>,
        /// The total difficulty that triggers the fork.
        total_difficulty: u128,
    },
}

/// An ordered list of a chain's hardforks with their activation conditions.
#[derive(Clone, Debug, PartialEq, Eq)]
pub struct ChainHardforks {
    /// The forks, in activation order.
    pub forks: Vec<(Hardfork, ForkCondition)>,
}

impl ChainHardforks {
    /// Creates a list from the given forks.
    pub fn new(forks: Vec<(Hardfork, ForkCondition)>) -> (r: ChainHardforks)
        ensures
            r.forks == forks,
    {
        ChainHardforks { forks }
    }

    /// Number of forks in the list.
    pub fn len(&self) -> (r: usize)
        ensures
            r == self.forks@.len(),
    {
        self.forks.len()
    }
}

/// A hardfork of either family, used where a table accepts both.
#[derive(Clone, Copy, Debug, PartialEq, Eq, Structural)]
pub enum Hardfork {
    /// An Ethereum hardfork.
    Ethereum(EthereumHardfork),
    /// An optimism hardfork.
    Optimism(OptimismHardfork),
}

impl OptimismHardfork {
    /// Activation block of `fork` on the Base Sepolia testnet.
    pub open spec fn base_sepolia_activation_block_spec(fork: Hardfork) -> Option<u64> {
        match fork {
            Hardfork::Ethereum(f) => match f {
                EthereumHardfork::Frontier
                | EthereumHardfork::Homestead
                | EthereumHardfork::Dao
                | EthereumHardfork::Tangerine
                | EthereumHardfork::SpuriousDragon
                | EthereumHardfork::Byzantium
                | EthereumHardfork::Constantinople
                | EthereumHardfork::Petersburg
                | EthereumHardfork::Istanbul
                | EthereumHardfork::MuirGlacier
                | EthereumHardfork::Berlin
                | EthereumHardfork::London
                | EthereumHardfork::ArrowGlacier
                | EthereumHardfork::GrayGlacier
                | EthereumHardfork::Paris
                | EthereumHardfork::Shanghai => Some(2106456u64),
                EthereumHardfork::Cancun => Some(6383256u64),
                _ => None,
            },
            Hardfork::Optimism(f) => match f {
                OptimismHardfork::Bedrock | OptimismHardfork::Regolith => Some(0u64),
                OptimismHardfork::Canyon => Some(2106456u64),
                OptimismHardfork::Ecotone => Some(6383256u64),
                OptimismHardfork::Fjord => Some(10615056u64),
                _ => None,
            },
        }
    }

    /// Retrieves the activation block for the specified hardfork on the Base
    /// Sepolia testnet.
    pub fn base_sepolia_activation_block(fork: Hardfork) -> (r: Option<u64>)
        ensures
            r == Self::base_sepolia_activation_block_spec(fork),
    {
        match fork {
            Hardfork::Ethereum(f) => match f {
                EthereumHardfork::Frontier
                | EthereumHardfork::Homestead
                | EthereumHardfork::Dao
                | EthereumHardfork::Tangerine
                | EthereumHardfork::SpuriousDragon
                | EthereumHardfork::Byzantium
                | EthereumHardfork::Constantinople
                | EthereumHardfork::Petersburg
                | EthereumHardfork::Istanbul
                | EthereumHardfork::MuirGlacier
                | EthereumHardfork::Berlin
                | EthereumHardfork::London
                | EthereumHardfork::ArrowGlacier
                | EthereumHardfork::GrayGlacier
                | EthereumHardfork::Paris
                | EthereumHardfork::Shanghai => Some(2106456),
                EthereumHardfork::Cancun => Some(6383256),
                _ => None,
            },
            Hardfork::Optimism(f) => match f {
                OptimismHardfork::Bedrock | OptimismHardfork::Regolith => Some(0),
                OptimismHardfork::Canyon => Some(2106456),
                OptimismHardfork::Ecotone => Some(6383256),
                OptimismHardfork::Fjord => Some(10615056),
                _ => None,
            },
        }
    }

    /// Activation block of `fork` on the Base mainnet.
    pub open spec fn base_mainnet_activation_block_spec(fork: Hardfork) -> Option<u64> {
        match fork {
            Hardfork::Ethereum(f) => match f {
                EthereumHardfork::Frontier
                | EthereumHardfork::Homestead
                | EthereumHardfork::Dao
                | EthereumHardfork::Tangerine
                | EthereumHardfork::SpuriousDragon
                | EthereumHardfork::Byzantium
                | EthereumHardfork::Constantinople
                | EthereumHardfork::Petersburg
                | EthereumHardfork::Istanbul
                | EthereumHardfork::MuirGlacier
                | EthereumHardfork::Berlin
                | EthereumHardfork::London
                | EthereumHardfork::ArrowGlacier
                | EthereumHardfork::GrayGlacier
                | EthereumHardfork::Paris
                | EthereumHardfork::Shanghai => Some(9101527u64),
                EthereumHardfork::Cancun => Some(11188936u64),
                _ => None,
            },
            Hardfork::Optimism(f) => match f {
                OptimismHardfork::Bedrock | OptimismHardfork::Regolith => Some(0u64),
                OptimismHardfork::Canyon => Some(9101527u64),
                OptimismHardfork::Ecotone => Some(11188936u64),
                _ => None,
            },
        }
    }

    /// Retrieves the activation block for the specified hardfork on the Base
    /// mainnet.
    pub fn base_mainnet_activation_block(fork: Hardfork) -> (r: Option<u64>)
        ensures
            r == Self::base_mainnet_activation_block_spec(fork),
    {
        match fork {
            Hardfork::Ethereum(f) => match f {
                EthereumHardfork::Frontier
                | EthereumHardfork::Homestead
                | EthereumHardfork::Dao
                | EthereumHardfork::Tangerine
                | EthereumHardfork::SpuriousDragon
                | EthereumHardfork::Byzantium
                | EthereumHardfork::Constantinople
                | EthereumHardfork::Petersburg
                | EthereumHardfork::Istanbul
                | EthereumHardfork::MuirGlacier
                | EthereumHardfork::Berlin
                | EthereumHardfork::London
                | EthereumHardfork::ArrowGlacier
                | EthereumHardfork::GrayGlacier
                | EthereumHardfork::Paris
                | EthereumHardfork::Shanghai => Some(9101527),
                EthereumHardfork::Cancun => Some(11188936),
                _ => None,
            },
            Hardfork::Optimism(f) => match f {
                OptimismHardfork::Bedrock | OptimismHardfork::Regolith => Some(0),
                OptimismHardfork::Canyon => Some(9101527),
                OptimismHardfork::Ecotone => Some(11188936),
                _ => None,
            },
        }
    }

    /// Activation block of `fork` on the opBNB mainnet.
    pub open spec fn opbnb_mainnet_activation_block_spec(fork: Hardfork) -> Option<u64> {
        match fork {
            Hardfork::Ethereum(f) => match f {
                EthereumHardfork::Frontier
                | EthereumHardfork::Homestead
                | EthereumHardfork::Tangerine
                | EthereumHardfork::SpuriousDragon
                | EthereumHardfork::Byzantium
                | EthereumHardfork::Constantinople
                | EthereumHardfork::Petersburg
                | EthereumHardfork::Istanbul
                | EthereumHardfork::MuirGlacier
                | EthereumHardfork::Berlin
                | EthereumHardfork::London
                | EthereumHardfork::ArrowGlacier
                | EthereumHardfork::GrayGlacier
                | EthereumHardfork::Paris => Some(0u64),
                _ => None,
            },
            Hardfork::Optimism(f) => match f {
                OptimismHardfork::Bedrock => Some(0u64),
                _ => None,
            },
        }
    }

    /// Retrieves the activation block for the specified hardfork on the opBNB
    /// mainnet.
    pub fn opbnb_mainnet_activation_block(fork: Hardfork) -> (r: Option<u64>)
        ensures
            r == Self::opbnb_mainnet_activation_block_spec(fork),
    {
        match fork {
            Hardfork::Ethereum(f) => match f {
                EthereumHardfork::Frontier
                | EthereumHardfork::Homestead
                | EthereumHardfork::Tangerine
                | EthereumHardfork::SpuriousDragon
                | EthereumHardfork::Byzantium
                | EthereumHardfork::Constantinople
                | EthereumHardfork::Petersburg
                | EthereumHardfork::Istanbul
                | EthereumHardfork::MuirGlacier
                | EthereumHardfork::Berlin
                | EthereumHardfork::London
                | EthereumHardfork::ArrowGlacier
                | EthereumHardfork::GrayGlacier
                | EthereumHardfork::Paris => Some(0),
                _ => None,
            },
            Hardfork::Optimism(f) => match f {
                OptimismHardfork::Bedrock => Some(0),
                _ => None,
            },
        }
    }

    /// Activation block of `fork` on the opBNB testnet.
    pub open spec fn opbnb_testnet_activation_block_spec(fork: Hardfork) -> Option<u64> {
        match fork {
            Hardfork::Ethereum(f) => match f {
                EthereumHardfork::Frontier
                | EthereumHardfork::Homestead
                | EthereumHardfork::Tangerine
                | EthereumHardfork::SpuriousDragon
                | EthereumHardfork::Byzantium
                | EthereumHardfork::Constantinople
                | EthereumHardfork::Petersburg
                | EthereumHardfork::Istanbul
                | EthereumHardfork::MuirGlacier
                | EthereumHardfork::Berlin
                | EthereumHardfork::London
                | EthereumHardfork::ArrowGlacier
                | EthereumHardfork::GrayGlacier
                | EthereumHardfork::Paris => Some(0u64),
                _ => None,
            },
            Hardfork::Optimism(f) => match f {
                OptimismHardfork::Bedrock => Some(0u64),
                OptimismHardfork::PreContractForkBlock => Some(5805494u64),
                _ => None,
            },
        }
    }

    /// Retrieves the activation block for the specified hardfork on the opBNB
    /// testnet.
    pub fn opbnb_testnet_activation_block(fork: Hardfork) -> (r: Option<u64>)
        ensures
            r == Self::opbnb_testnet_activation_block_spec(fork),
    {
        match fork {
            Hardfork::Ethereum(f) => match f {
                EthereumHardfork::Frontier
                | EthereumHardfork::Homestead
                | EthereumHardfork::Tangerine
                | EthereumHardfork::SpuriousDragon
                | EthereumHardfork::Byzantium
                | EthereumHardfork::Constantinople
                | EthereumHardfork::Petersburg
                | EthereumHardfork::Istanbul
                | EthereumHardfork::MuirGlacier
                | EthereumHardfork::Berlin
                | EthereumHardfork::London
                | EthereumHardfork::ArrowGlacier
                | EthereumHardfork::GrayGlacier
                | EthereumHardfork::Paris => Some(0),
                _ => None,
            },
            Hardfork::Optimism(f) => match f {
                OptimismHardfork::Bedrock => Some(0),
                OptimismHardfork::PreContractForkBlock => Some(5805494),
                _ => None,
            },
        }
    }

    /// Activation timestamp of `fork` on the Base Sepolia testnet.
    pub open spec fn base_sepolia_activation_timestamp_spec(fork: Hardfork) -> Option<u64> {
        match fork {
            Hardfork::Ethereum(f) => match f {
                EthereumHardfork::Frontier
                | EthereumHardfork::Homestead
                | EthereumHardfork::Dao
                | EthereumHardfork::Tangerine
                | EthereumHardfork::SpuriousDragon
                | EthereumHardfork::Byzantium
                | EthereumHardfork::Constantinople
                | EthereumHardfork::Petersburg
                | EthereumHardfork::Istanbul
                | EthereumHardfork::MuirGlacier
                | EthereumHardfork::Berlin
                | EthereumHardfork::London
                | EthereumHardfork::ArrowGlacier
                | EthereumHardfork::GrayGlacier
                | EthereumHardfork::Paris
                | EthereumHardfork::Shanghai => Some(1699981200u64),
                EthereumHardfork::Cancun => Some(1708534800u64),
                _ => None,
            },
            Hardfork::Optimism(f) => match f {
                OptimismHardfork::Bedrock | OptimismHardfork::Regolith => Some(1695768288u64),
                OptimismHardfork::Canyon => Some(1699981200u64),
                OptimismHardfork::Ecotone => Some(1708534800u64),
                OptimismHardfork::Fjord => Some(1716998400u64),
                _ => None,
            },
        }
    }

    /// Retrieves the activation timestamp for the specified hardfork on the
    /// Base Sepolia testnet.
    pub fn base_sepolia_activation_timestamp(fork: Hardfork) -> (r: Option<u64>)
        ensures
            r == Self::base_sepolia_activation_timestamp_spec(fork),
    {
        match fork {
            Hardfork::Ethereum(f) => match f {
                EthereumHardfork::Frontier
                | EthereumHardfork::Homestead
                | EthereumHardfork::Dao
                | EthereumHardfork::Tangerine
                | EthereumHardfork::SpuriousDragon
                | EthereumHardfork::Byzantium
                | EthereumHardfork::Constantinople
                | EthereumHardfork::Petersburg
                | EthereumHardfork::Istanbul
                | EthereumHardfork::MuirGlacier
                | EthereumHardfork::Berlin
                | EthereumHardfork::London
                | EthereumHardfork::ArrowGlacier
                | EthereumHardfork::GrayGlacier
                | EthereumHardfork::Paris
                | EthereumHardfork::Shanghai => Some(1699981200),
                EthereumHardfork::Cancun => Some(1708534800),
                _ => None,
            },
            Hardfork::Optimism(f) => match f {
                OptimismHardfork::Bedrock | OptimismHardfork::Regolith => Some(1695768288),
                OptimismHardfork::Canyon => Some(1699981200),
                OptimismHardfork::Ecotone => Some(1708534800),
                OptimismHardfork::Fjord => Some(1716998400),
                _ => None,
            },
        }
    }

    /// Activation timestamp of `fork` on the Base mainnet.
    pub open spec fn base_mainnet_activation_timestamp_spec(fork: Hardfork) -> Option<u64> {
        match fork {
            Hardfork::Ethereum(f) => match f {
                EthereumHardfork::Frontier
                | EthereumHardfork::Homestead
                | EthereumHardfork::Dao
                | EthereumHardfork::Tangerine
                | EthereumHardfork::SpuriousDragon
                | EthereumHardfork::Byzantium
                | EthereumHardfork::Constantinople
                | EthereumHardfork::Petersburg
                | EthereumHardfork::Istanbul
                | EthereumHardfork::MuirGlacier
                | EthereumHardfork::Berlin
                | EthereumHardfork::London
                | EthereumHardfork::ArrowGlacier
                | EthereumHardfork::GrayGlacier
                | EthereumHardfork::Paris
                | EthereumHardfork::Shanghai => Some(1704992401u64),
                EthereumHardfork::Cancun => Some(1710374401u64),
                _ => None,
            },
            Hardfork::Optimism(f) => match f {
                OptimismHardfork::Bedrock | OptimismHardfork::Regolith => Some(1686789347u64),
                OptimismHardfork::Canyon => Some(1704992401u64),
                OptimismHardfork::Ecotone => Some(1710374401u64),
                OptimismHardfork::Fjord => Some(1720627201u64),
                _ => None,
            },
        }
    }

    /// Retrieves the activation timestamp for the specified hardfork on the
    /// Base mainnet.
    pub fn base_mainnet_activation_timestamp(fork: Hardfork) -> (r: Option<u64>)
        ensures
            r == Self::base_mainnet_activation_timestamp_spec(fork),
    {
        match fork {
            Hardfork::Ethereum(f) => match f {
                EthereumHardfork::Frontier
                | EthereumHardfork::Homestead
                | EthereumHardfork::Dao
                | EthereumHardfork::Tangerine
                | EthereumHardfork::SpuriousDragon
                | EthereumHardfork::Byzantium
                | EthereumHardfork::Constantinople
                | EthereumHardfork::Petersburg
                | EthereumHardfork::Istanbul
                | EthereumHardfork::MuirGlacier
                | EthereumHardfork::Berlin
                | EthereumHardfork::London
                | EthereumHardfork::ArrowGlacier
                | EthereumHardfork::GrayGlacier
                | EthereumHardfork::Paris
                | EthereumHardfork::Shanghai => Some(1704992401),
                EthereumHardfork::Cancun => Some(1710374401),
                _ => None,
            },
            Hardfork::Optimism(f) => match f {
                OptimismHardfork::Bedrock | OptimismHardfork::Regolith => Some(1686789347),
                OptimismHardfork::Canyon => Some(1704992401),
                OptimismHardfork::Ecotone => Some(1710374401),
                OptimismHardfork::Fjord => Some(1720627201),
                _ => None,
            },
        }
    }

    /// Activation timestamp of `fork` on the opBNB mainnet.
    pub open spec fn opbnb_mainnet_activation_timestamp_spec(fork: Hardfork) -> Option<u64> {
        match fork {
            Hardfork::Ethereum(f) => match f {
                EthereumHardfork::Shanghai => Some(1718870400u64),
                EthereumHardfork::Cancun => Some(1718871600u64),
                _ => None,
            },
            Hardfork::Optimism(f) => match f {
                OptimismHardfork::Regolith => Some(0u64),
                OptimismHardfork::Fermat => Some(1701151200u64),
                OptimismHardfork::Canyon => Some(1718870400u64),
                OptimismHardfork::Ecotone => Some(1718871600u64),
                OptimismHardfork::Haber => Some(1718872200u64),
                _ => None,
            },
        }
    }

    /// Retrieves the activation timestamp for the specified hardfork on the
    /// opBNB mainnet.
    pub fn opbnb_mainnet_activation_timestamp(fork: Hardfork) -> (r: Option<u64>)
        ensures
            r == Self::opbnb_mainnet_activation_timestamp_spec(fork),
    {
        match fork {
            Hardfork::Ethereum(f) => match f {
                EthereumHardfork::Shanghai => Some(1718870400),
                EthereumHardfork::Cancun => Some(1718871600),
                _ => None,
            },
            Hardfork::Optimism(f) => match f {
                OptimismHardfork::Regolith => Some(0),
                OptimismHardfork::Fermat => Some(1701151200),
                OptimismHardfork::Canyon => Some(1718870400),
                OptimismHardfork::Ecotone => Some(1718871600),
                OptimismHardfork::Haber => Some(1718872200),
                _ => None,
            },
        }
    }

    /// Activation timestamp of `fork` on the opBNB testnet.
    pub open spec fn opbnb_testnet_activation_timestamp_spec(fork: Hardfork) -> Option<u64> {
        match fork {
            Hardfork::Ethereum(f) => match f {
                EthereumHardfork::Shanghai => Some(1715753400u64),
                EthereumHardfork::Cancun => Some(1715754600u64),
                _ => None,
            },
            Hardfork::Optimism(f) => match f {
                OptimismHardfork::Regolith => Some(0u64),
                OptimismHardfork::Fermat => Some(1698991506u64),
                OptimismHardfork::Canyon => Some(1715753400u64),
                OptimismHardfork::Ecotone => Some(1715754600u64),
                OptimismHardfork::Haber => Some(1717048800u64),
                _ => None,
            },
        }
    }

    /// Retrieves the activation timestamp for the specified hardfork on the
    /// opBNB testnet.
    pub fn opbnb_testnet_activation_timestamp(fork: Hardfork) -> (r: Option<u64>)
        ensures
            r == Self::opbnb_testnet_activation_timestamp_spec(fork),
    {
        match fork {
            Hardfork::Ethereum(f) => match f {
                EthereumHardfork::Shanghai => Some(1715753400),
                EthereumHardfork::Cancun => Some(1715754600),
                _ => None,
            },
            Hardfork::Optimism(f) => match f {
                OptimismHardfork::Regolith => Some(0),
                OptimismHardfork::Fermat => Some(1698991506),
                OptimismHardfork::Canyon => Some(1715753400),
                OptimismHardfork::Ecotone => Some(1715754600),
                OptimismHardfork::Haber => Some(1717048800),
                _ => None,
            },
        }
    }

    /// Activation block of `fork` on the chain with id `chain_id`.
    pub open spec fn activation_block_spec(fork: Hardfork, chain_id: u64) -> Option<u64> {
        if chain_id == BASE_SEPOLIA_CHAIN_ID {
            Self::base_sepolia_activation_block_spec(fork)
        } else if chain_id == BASE_MAINNET_CHAIN_ID {
            Self::base_mainnet_activation_block_spec(fork)
        } else if chain_id == OPBNB_MAINNET_CHAIN_ID {
            Self::opbnb_mainnet_activation_block_spec(fork)
        } else if chain_id == OPBNB_TESTNET_CHAIN_ID {
            Self::opbnb_testnet_activation_block_spec(fork)
        } else {
            None
        }
    }

    /// Retrieves the activation block for the specified hardfork on the given
    /// chain.
    pub fn activation_block(self, fork: Hardfork, chain_id: u64) -> (r: Option<u64>)
        ensures
            r == Self::activation_block_spec(fork, chain_id),
    {
        if chain_id == BASE_SEPOLIA_CHAIN_ID {
            return Self::base_sepolia_activation_block(fork);
        }
        if chain_id == BASE_MAINNET_CHAIN_ID {
            return Self::base_mainnet_activation_block(fork);
        }
        if chain_id == OPBNB_MAINNET_CHAIN_ID {
            return Self::opbnb_mainnet_activation_block(fork);
        }
        if chain_id == OPBNB_TESTNET_CHAIN_ID {
            return Self::opbnb_testnet_activation_block(fork);
        }
        None
    }

    /// The forks of the optimism mainnet list of hardforks, in activation order.
    pub open spec fn op_mainnet_spec() -> Seq<(Hardfork, ForkCondition)> {
        seq![
            (Hardfork::Ethereum(EthereumHardfork::Frontier), ForkCondition::Block(0u64)),
            (Hardfork::Ethereum(EthereumHardfork::Homestead), ForkCondition::Block(0u64)),
            (Hardfork::Ethereum(EthereumHardfork::Tangerine), ForkCondition::Block(0u64)),
            (Hardfork::Ethereum(EthereumHardfork::SpuriousDragon), ForkCondition::Block(0u64)),
            (Hardfork::Ethereum(EthereumHardfork::Byzantium), ForkCondition::Block(0u64)),
            (Hardfork::Ethereum(EthereumHardfork::Constantinople), ForkCondition::Block(0u64)),
            (Hardfork::Ethereum(EthereumHardfork::Petersburg), ForkCondition::Block(0u64)),
            (Hardfork::Ethereum(EthereumHardfork::Istanbul), ForkCondition::Block(0u64)),
            (Hardfork::Ethereum(EthereumHardfork::MuirGlacier), ForkCondition::Block(0u64)),
            (Hardfork::Ethereum(EthereumHardfork::Berlin), ForkCondition::Block(3950000u64)),
            (Hardfork::Ethereum(EthereumHardfork::London), ForkCondition::Block(105235063u64)),
            (Hardfork::Ethereum(EthereumHardfork::ArrowGlacier), ForkCondition::Block(105235063u64)),
            (Hardfork::Ethereum(EthereumHardfork::GrayGlacier), ForkCondition::Block(105235063u64)),
            (Hardfork::Ethereum(EthereumHardfork::Paris), ForkCondition::Ttd { fork_block: Some(105235063u64), total_difficulty: 0u128 }),
            (Hardfork::Optimism(OptimismHardfork::Bedrock), ForkCondition::Block(105235063u64)),
            (Hardfork::Optimism(OptimismHardfork::Regolith), ForkCondition::Timestamp(0u64)),
            (Hardfork::Ethereum(EthereumHardfork::Shanghai), ForkCondition::Timestamp(1704992401u64)),
            (Hardfork::Optimism(OptimismHardfork::Canyon), ForkCondition::Timestamp(1704992401u64)),
            (Hardfork::Ethereum(EthereumHardfork::Cancun), ForkCondition::Timestamp(1710374401u64)),
            (Hardfork::Optimism(OptimismHardfork::Ecotone), ForkCondition::Timestamp(1710374401u64)),
            (Hardfork::Optimism(OptimismHardfork::Fjord), ForkCondition::Timestamp(1720627201u64)),
        ]
    }

    /// Optimism mainnet list of hardforks.
    pub fn op_mainnet() -> (r: ChainHardforks)
        ensures
            r.forks@ == Self::op_mainnet_spec(),
    {
        let mut forks: Vec<(Hardfork, ForkCondition)> = Vec::new();
        forks.push((Hardfork::Ethereum(EthereumHardfork::Frontier), ForkCondition::Block(0u64)));
        forks.push((Hardfork::Ethereum(EthereumHardfork::Homestead), ForkCondition::Block(0u64)));
        forks.push((Hardfork::Ethereum(EthereumHardfork::Tangerine), ForkCondition::Block(0u64)));
        forks.push((Hardfork::Ethereum(EthereumHardfork::SpuriousDragon), ForkCondition::Block(0u64)));
        forks.push((Hardfork::Ethereum(EthereumHardfork::Byzantium), ForkCondition::Block(0u64)));
        forks.push((Hardfork::Ethereum(EthereumHardfork::Constantinople), ForkCondition::Block(0u64)));
        forks.push((Hardfork::Ethereum(EthereumHardfork::Petersburg), ForkCondition::Block(0u64)));
        forks.push((Hardfork::Ethereum(EthereumHardfork::Istanbul), ForkCondition::Block(0u64)));
        forks.push((Hardfork::Ethereum(EthereumHardfork::MuirGlacier), ForkCondition::Block(0u64)));
        forks.push((Hardfork::Ethereum(EthereumHardfork::Berlin), ForkCondition::Block(3950000u64)));
        forks.push((Hardfork::Ethereum(EthereumHardfork::London), ForkCondition::Block(105235063u64)));
        forks.push((Hardfork::Ethereum(EthereumHardfork::ArrowGlacier), ForkCondition::Block(105235063u64)));
        forks.push((Hardfork::Ethereum(EthereumHardfork::GrayGlacier), ForkCondition::Block(105235063u64)));
        forks.push((Hardfork::Ethereum(EthereumHardfork::Paris), ForkCondition::Ttd { fork_block: Some(105235063u64), total_difficulty: 0u128 }));
        forks.push((Hardfork::Optimism(OptimismHardfork::Bedrock), ForkCondition::Block(105235063u64)));
        forks.push((Hardfork::Optimism(OptimismHardfork::Regolith), ForkCondition::Timestamp(0u64)));
        forks.push((Hardfork::Ethereum(EthereumHardfork::Shanghai), ForkCondition::Timestamp(1704992401u64)));
        forks.push((Hardfork::Optimism(OptimismHardfork::Canyon), ForkCondition::Timestamp(1704992401u64)));
        forks.push((Hardfork::Ethereum(EthereumHardfork::Cancun), ForkCondition::Timestamp(1710374401u64)));
        forks.push((Hardfork::Optimism(OptimismHardfork::Ecotone), ForkCondition::Timestamp(1710374401u64)));
        forks.push((Hardfork::Optimism(OptimismHardfork::Fjord), ForkCondition::Timestamp(1720627201u64)));
        proof {
            assert(forks@ =~= Self::op_mainnet_spec());
        }
        ChainHardforks::new(forks)
    }

    /// The forks of the optimism sepolia list of hardforks, in activation order.
    pub open spec fn op_sepolia_spec() -> Seq<(Hardfork, ForkCondition)> {
        seq![
            (Hardfork::Ethereum(EthereumHardfork::Frontier), ForkCondition::Block(0u64)),
            (Hardfork::Ethereum(EthereumHardfork::Homestead), ForkCondition::Block(0u64)),
            (Hardfork::Ethereum(EthereumHardfork::Tangerine), ForkCondition::Block(0u64)),
            (Hardfork::Ethereum(EthereumHardfork::SpuriousDragon), ForkCondition::Block(0u64)),
            (Hardfork::Ethereum(EthereumHardfork::Byzantium), ForkCondition::Block(0u64)),
            (Hardfork::Ethereum(EthereumHardfork::Constantinople), ForkCondition::Block(0u64)),
            (Hardfork::Ethereum(EthereumHardfork::Petersburg), ForkCondition::Block(0u64)),
            (Hardfork::Ethereum(EthereumHardfork::Istanbul), ForkCondition::Block(0u64)),
            (Hardfork::Ethereum(EthereumHardfork::MuirGlacier), ForkCondition::Block(0u64)),
            (Hardfork::Ethereum(EthereumHardfork::Berlin), ForkCondition::Block(0u64)),
            (Hardfork::Ethereum(EthereumHardfork::London), ForkCondition::Block(0u64)),
            (Hardfork::Ethereum(EthereumHardfork::ArrowGlacier), ForkCondition::Block(0u64)),
            (Hardfork::Ethereum(EthereumHardfork::GrayGlacier), ForkCondition::Block(0u64)),
            (Hardfork::Ethereum(EthereumHardfork::Paris), ForkCondition::Ttd { fork_block: Some(0u64), total_difficulty: 0u128 }),
            (Hardfork::Optimism(OptimismHardfork::Bedrock), ForkCondition::Block(0u64)),
            (Hardfork::Optimism(OptimismHardfork::Regolith), ForkCondition::Timestamp(0u64)),
            (Hardfork::Ethereum(EthereumHardfork::Shanghai), ForkCondition::Timestamp(1699981200u64)),
            (Hardfork::Optimism(OptimismHardfork::Canyon), ForkCondition::Timestamp(1699981200u64)),
            (Hardfork::Ethereum(EthereumHardfork::Cancun), ForkCondition::Timestamp(1708534800u64)),
            (Hardfork::Optimism(OptimismHardfork::Ecotone), ForkCondition::Timestamp(1708534800u64)),
            (Hardfork::Optimism(OptimismHardfork::Fjord), ForkCondition::Timestamp(1716998400u64)),
        ]
    }

    /// Optimism sepolia list of hardforks.
    pub fn op_sepolia() -> (r: ChainHardforks)
        ensures
            r.forks@ == Self::op_sepolia_spec(),
    {
        let mut forks: Vec<(Hardfork, ForkCondition)> = Vec::new();
        forks.push((Hardfork::Ethereum(EthereumHardfork::Frontier), ForkCondition::Block(0u64)));
        forks.push((Hardfork::Ethereum(EthereumHardfork::Homestead), ForkCondition::Block(0u64)));
        forks.push((Hardfork::Ethereum(EthereumHardfork::Tangerine), ForkCondition::Block(0u64)));
        forks.push((Hardfork::Ethereum(EthereumHardfork::SpuriousDragon), ForkCondition::Block(0u64)));
        forks.push((Hardfork::Ethereum(EthereumHardfork::Byzantium), ForkCondition::Block(0u64)));
        forks.push((Hardfork::Ethereum(EthereumHardfork::Constantinople), ForkCondition::Block(0u64)));
        forks.push((Hardfork::Ethereum(EthereumHardfork::Petersburg), ForkCondition::Block(0u64)));
        forks.push((Hardfork::Ethereum(EthereumHardfork::Istanbul), ForkCondition::Block(0u64)));
        forks.push((Hardfork::Ethereum(EthereumHardfork::MuirGlacier), ForkCondition::Block(0u64)));
        forks.push((Hardfork::Ethereum(EthereumHardfork::Berlin), ForkCondition::Block(0u64)));
        forks.push((Hardfork::Ethereum(EthereumHardfork::London), ForkCondition::Block(0u64)));
        forks.push((Hardfork::Ethereum(EthereumHardfork::ArrowGlacier), ForkCondition::Block(0u64)));
        forks.push((Hardfork::Ethereum(EthereumHardfork::GrayGlacier), ForkCondition::Block(0u64)));
        forks.push((Hardfork::Ethereum(EthereumHardfork::Paris), ForkCondition::Ttd { fork_block: Some(0u64), total_difficulty: 0u128 }));
        forks.push((Hardfork::Optimism(OptimismHardfork::Bedrock), ForkCondition::Block(0u64)));
        forks.push((Hardfork::Optimism(OptimismHardfork::Regolith), ForkCondition::Timestamp(0u64)));
        forks.push((Hardfork::Ethereum(EthereumHardfork::Shanghai), ForkCondition::Timestamp(1699981200u64)));
        forks.push((Hardfork::Optimism(OptimismHardfork::Canyon), ForkCondition::Timestamp(1699981200u64)));
        forks.push((Hardfork::Ethereum(EthereumHardfork::Cancun), ForkCondition::Timestamp(1708534800u64)));
        forks.push((Hardfork::Optimism(OptimismHardfork::Ecotone), ForkCondition::Timestamp(1708534800u64)));
        forks.push((Hardfork::Optimism(OptimismHardfork::Fjord), ForkCondition::Timestamp(1716998400u64)));
        proof {
            assert(forks@ =~= Self::op_sepolia_spec());
        }
        ChainHardforks::new(forks)
    }

    /// The forks of the base sepolia list of hardforks, in activation order.
    pub open spec fn base_sepolia_spec() -> Seq<(Hardfork, ForkCondition)> {
        seq![
            (Hardfork::Ethereum(EthereumHardfork::Frontier), ForkCondition::Block(0u64)),
            (Hardfork::Ethereum(EthereumHardfork::Homestead), ForkCondition::Block(0u64)),
            (Hardfork::Ethereum(EthereumHardfork::Tangerine), ForkCondition::Block(0u64)),
            (Hardfork::Ethereum(EthereumHardfork::SpuriousDragon), ForkCondition::Block(0u64)),
            (Hardfork::Ethereum(EthereumHardfork::Byzantium), ForkCondition::Block(0u64)),
            (Hardfork::Ethereum(EthereumHardfork::Constantinople), ForkCondition::Block(0u64)),
            (Hardfork::Ethereum(EthereumHardfork::Petersburg), ForkCondition::Block(0u64)),
            (Hardfork::Ethereum(EthereumHardfork::Istanbul), ForkCondition::Block(0u64)),
            (Hardfork::Ethereum(EthereumHardfork::MuirGlacier), ForkCondition::Block(0u64)),
            (Hardfork::Ethereum(EthereumHardfork::Berlin), ForkCondition::Block(0u64)),
            (Hardfork::Ethereum(EthereumHardfork::London), ForkCondition::Block(0u64)),
            (Hardfork::Ethereum(EthereumHardfork::ArrowGlacier), ForkCondition::Block(0u64)),
            (Hardfork::Ethereum(EthereumHardfork::GrayGlacier), ForkCondition::Block(0u64)),
            (Hardfork::Ethereum(EthereumHardfork::Paris), ForkCondition::Ttd { fork_block: Some(0u64), total_difficulty: 0u128 }),
            (Hardfork::Optimism(OptimismHardfork::Bedrock), ForkCondition::Block(0u64)),
            (Hardfork::Optimism(OptimismHardfork::Regolith), ForkCondition::Timestamp(0u64)),
            (Hardfork::Ethereum(EthereumHardfork::Shanghai), ForkCondition::Timestamp(1699981200u64)),
            (Hardfork::Optimism(OptimismHardfork::Canyon), ForkCondition::Timestamp(1699981200u64)),
            (Hardfork::Ethereum(EthereumHardfork::Cancun), ForkCondition::Timestamp(1708534800u64)),
            (Hardfork::Optimism(OptimismHardfork::Ecotone), ForkCondition::Timestamp(1708534800u64)),
            (Hardfork::Optimism(OptimismHardfork::Fjord), ForkCondition::Timestamp(1716998400u64)),
        ]
    }

    /// Base sepolia list of hardforks.
    pub fn base_sepolia() -> (r: ChainHardforks)
        ensures
            r.forks@ == Self::base_sepolia_spec(),
    {
        let mut forks: Vec<(Hardfork, ForkCondition)> = Vec::new();
        forks.push((Hardfork::Ethereum(EthereumHardfork::Frontier), ForkCondition::Block(0u64)));
        forks.push((Hardfork::Ethereum(EthereumHardfork::Homestead), ForkCondition::Block(0u64)));
        forks.push((Hardfork::Ethereum(EthereumHardfork::Tangerine), ForkCondition::Block(0u64)));
        forks.push((Hardfork::Ethereum(EthereumHardfork::SpuriousDragon), ForkCondition::Block(0u64)));
        forks.push((Hardfork::Ethereum(EthereumHardfork::Byzantium), ForkCondition::Block(0u64)));
        forks.push((Hardfork::Ethereum(EthereumHardfork::Constantinople), ForkCondition::Block(0u64)));
        forks.push((Hardfork::Ethereum(EthereumHardfork::Petersburg), ForkCondition::Block(0u64)));
        forks.push((Hardfork::Ethereum(EthereumHardfork::Istanbul), ForkCondition::Block(0u64)));
        forks.push((Hardfork::Ethereum(EthereumHardfork::MuirGlacier), ForkCondition::Block(0u64)));
        forks.push((Hardfork::Ethereum(EthereumHardfork::Berlin), ForkCondition::Block(0u64)));
        forks.push((Hardfork::Ethereum(EthereumHardfork::London), ForkCondition::Block(0u64)));
        forks.push((Hardfork::Ethereum(EthereumHardfork::ArrowGlacier), ForkCondition::Block(0u64)));
        forks.push((Hardfork::Ethereum(EthereumHardfork::GrayGlacier), ForkCondition::Block(0u64)));
        forks.push((Hardfork::Ethereum(EthereumHardfork::Paris), ForkCondition::Ttd { fork_block: Some(0u64), total_difficulty: 0u128 }));
        forks.push((Hardfork::Optimism(OptimismHardfork::Bedrock), ForkCondition::Block(0u64)));
        forks.push((Hardfork::Optimism(OptimismHardfork::Regolith), ForkCondition::Timestamp(0u64)));
        forks.push((Hardfork::Ethereum(EthereumHardfork::Shanghai), ForkCondition::Timestamp(1699981200u64)));
        forks.push((Hardfork::Optimism(OptimismHardfork::Canyon), ForkCondition::Timestamp(1699981200u64)));
        forks.push((Hardfork::Ethereum(EthereumHardfork::Cancun), ForkCondition::Timestamp(1708534800u64)));
        forks.push((Hardfork::Optimism(OptimismHardfork::Ecotone), ForkCondition::Timestamp(1708534800u64)));
        forks.push((Hardfork::Optimism(OptimismHardfork::Fjord), ForkCondition::Timestamp(1716998400u64)));
        proof {
            assert(forks@ =~= Self::base_sepolia_spec());
        }
        ChainHardforks::new(forks)
    }

    /// The forks of the base mainnet list of hardforks, in activation order.
    pub open spec fn base_mainnet_spec() -> Seq<(Hardfork, ForkCondition)> {
        seq![
            (Hardfork::Ethereum(EthereumHardfork::Frontier), ForkCondition::Block(0u64)),
            (Hardfork::Ethereum(EthereumHardfork::Homestead), ForkCondition::Block(0u64)),
            (Hardfork::Ethereum(EthereumHardfork::Tangerine), ForkCondition::Block(0u64)),
            (Hardfork::Ethereum(EthereumHardfork::SpuriousDragon), ForkCondition::Block(0u64)),
            (Hardfork::Ethereum(EthereumHardfork::Byzantium), ForkCondition::Block(0u64)),
            (Hardfork::Ethereum(EthereumHardfork::Constantinople), ForkCondition::Block(0u64)),
            (Hardfork::Ethereum(EthereumHardfork::Petersburg), ForkCondition::Block(0u64)),
            (Hardfork::Ethereum(EthereumHardfork::Istanbul), ForkCondition::Block(0u64)),
            (Hardfork::Ethereum(EthereumHardfork::MuirGlacier), ForkCondition::Block(0u64)),
            (Hardfork::Ethereum(EthereumHardfork::Berlin), ForkCondition::Block(0u64)),
            (Hardfork::Ethereum(EthereumHardfork::London), ForkCondition::Block(0u64)),
            (Hardfork::Ethereum(EthereumHardfork::ArrowGlacier), ForkCondition::Block(0u64)),
            (Hardfork::Ethereum(EthereumHardfork::GrayGlacier), ForkCondition::Block(0u64)),
            (Hardfork::Ethereum(EthereumHardfork::Paris), ForkCondition::Ttd { fork_block: Some(0u64), total_difficulty: 0u128 }),
            (Hardfork::Optimism(OptimismHardfork::Bedrock), ForkCondition::Block(0u64)),
            (Hardfork::Optimism(OptimismHardfork::Regolith), ForkCondition::Timestamp(0u64)),
            (Hardfork::Ethereum(EthereumHardfork::Shanghai), ForkCondition::Timestamp(1704992401u64)),
            (Hardfork::Optimism(OptimismHardfork::Canyon), ForkCondition::Timestamp(1704992401u64)),
            (Hardfork::Ethereum(EthereumHardfork::Cancun), ForkCondition::Timestamp(1710374401u64)),
            (Hardfork::Optimism(OptimismHardfork::Ecotone), ForkCondition::Timestamp(1710374401u64)),
            (Hardfork::Optimism(OptimismHardfork::Fjord), ForkCondition::Timestamp(1720627201u64)),
        ]
    }

    /// Base mainnet list of hardforks.
    pub fn base_mainnet() -> (r: ChainHardforks)
        ensures
            r.forks@ == Self::base_mainnet_spec(),
    {
        let mut forks: Vec<(Hardfork, ForkCondition)> = Vec::new();
        forks.push((Hardfork::Ethereum(EthereumHardfork::Frontier), ForkCondition::Block(0u64)));
        forks.push((Hardfork::Ethereum(EthereumHardfork::Homestead), ForkCondition::Block(0u64)));
        forks.push((Hardfork::Ethereum(EthereumHardfork::Tangerine), ForkCondition::Block(0u64)));
        forks.push((Hardfork::Ethereum(EthereumHardfork::SpuriousDragon), ForkCondition::Block(0u64)));
        forks.push((Hardfork::Ethereum(EthereumHardfork::Byzantium), ForkCondition::Block(0u64)));
        forks.push((Hardfork::Ethereum(EthereumHardfork::Constantinople), ForkCondition::Block(0u64)));
        forks.push((Hardfork::Ethereum(EthereumHardfork::Petersburg), ForkCondition::Block(0u64)));
        forks.push((Hardfork::Ethereum(EthereumHardfork::Istanbul), ForkCondition::Block(0u64)));
        forks.push((Hardfork::Ethereum(EthereumHardfork::MuirGlacier), ForkCondition::Block(0u64)));
        forks.push((Hardfork::Ethereum(EthereumHardfork::Berlin), ForkCondition::Block(0u64)));
        forks.push((Hardfork::Ethereum(EthereumHardfork::London), ForkCondition::Block(0u64)));
        forks.push((Hardfork::Ethereum(EthereumHardfork::ArrowGlacier), ForkCondition::Block(0u64)));
        forks.push((Hardfork::Ethereum(EthereumHardfork::GrayGlacier), ForkCondition::Block(0u64)));
        forks.push((Hardfork::Ethereum(EthereumHardfork::Paris), ForkCondition::Ttd { fork_block: Some(0u64), total_difficulty: 0u128 }));
        forks.push((Hardfork::Optimism(OptimismHardfork::Bedrock), ForkCondition::Block(0u64)));
        forks.push((Hardfork::Optimism(OptimismHardfork::Regolith), ForkCondition::Timestamp(0u64)));
        forks.push((Hardfork::Ethereum(EthereumHardfork::Shanghai), ForkCondition::Timestamp(1704992401u64)));
        forks.push((Hardfork::Optimism(OptimismHardfork::Canyon), ForkCondition::Timestamp(1704992401u64)));
        forks.push((Hardfork::Ethereum(EthereumHardfork::Cancun), ForkCondition::Timestamp(1710374401u64)));
        forks.push((Hardfork::Optimism(OptimismHardfork::Ecotone), ForkCondition::Timestamp(1710374401u64)));
        forks.push((Hardfork::Optimism(OptimismHardfork::Fjord), ForkCondition::Timestamp(1720627201u64)));
        proof {
            assert(forks@ =~= Self::base_mainnet_spec());
        }
        ChainHardforks::new(forks)
    }

    /// The forks of the opbnb mainnet list of hardforks, in activation order.
    pub open spec fn opbnb_mainnet_spec() -> Seq<(Hardfork, ForkCondition)> {
        seq![
            (Hardfork::Ethereum(EthereumHardfork::Frontier), ForkCondition::Block(0u64)),
            (Hardfork::Ethereum(EthereumHardfork::Homestead), ForkCondition::Block(0u64)),
            (Hardfork::Ethereum(EthereumHardfork::Tangerine), ForkCondition::Block(0u64)),
            (Hardfork::Ethereum(EthereumHardfork::SpuriousDragon), ForkCondition::Block(0u64)),
            (Hardfork::Ethereum(EthereumHardfork::Byzantium), ForkCondition::Block(0u64)),
            (Hardfork::Ethereum(EthereumHardfork::Constantinople), ForkCondition::Block(0u64)),
            (Hardfork::Ethereum(EthereumHardfork::Petersburg), ForkCondition::Block(0u64)),
            (Hardfork::Ethereum(EthereumHardfork::Istanbul), ForkCondition::Block(0u64)),
            (Hardfork::Ethereum(EthereumHardfork::MuirGlacier), ForkCondition::Block(0u64)),
            (Hardfork::Ethereum(EthereumHardfork::Berlin), ForkCondition::Block(0u64)),
            (Hardfork::Ethereum(EthereumHardfork::London), ForkCondition::Block(0u64)),
            (Hardfork::Ethereum(EthereumHardfork::ArrowGlacier), ForkCondition::Block(0u64)),
            (Hardfork::Ethereum(EthereumHardfork::GrayGlacier), ForkCondition::Block(0u64)),
            (Hardfork::Ethereum(EthereumHardfork::Paris), ForkCondition::Ttd { fork_block: Some(0u64), total_difficulty: 0u128 }),
            (Hardfork::Optimism(OptimismHardfork::Bedrock), ForkCondition::Block(0u64)),
            (Hardfork::Optimism(OptimismHardfork::Regolith), ForkCondition::Timestamp(0u64)),
            (Hardfork::Optimism(OptimismHardfork::Fermat), ForkCondition::Timestamp(1701151200u64)),
            (Hardfork::Ethereum(EthereumHardfork::Shanghai), ForkCondition::Timestamp(1718870400u64)),
            (Hardfork::Optimism(OptimismHardfork::Canyon), ForkCondition::Timestamp(1718870400u64)),
            (Hardfork::Ethereum(EthereumHardfork::Cancun), ForkCondition::Timestamp(1718871600u64)),
            (Hardfork::Optimism(OptimismHardfork::Ecotone), ForkCondition::Timestamp(1718871600u64)),
            (Hardfork::Optimism(OptimismHardfork::Haber), ForkCondition::Timestamp(1718872200u64)),
            (Hardfork::Optimism(OptimismHardfork::Wright), ForkCondition::Timestamp(1724738400u64)),
        ]
    }

    /// opBNB mainnet list of hardforks.
    pub fn opbnb_mainnet() -> (r: ChainHardforks)
        ensures
            r.forks@ == Self::opbnb_mainnet_spec(),
    {
        let mut forks: Vec<(Hardfork, ForkCondition)> = Vec::new();
        forks.push((Hardfork::Ethereum(EthereumHardfork::Frontier), ForkCondition::Block(0u64)));
        forks.push((Hardfork::Ethereum(EthereumHardfork::Homestead), ForkCondition::Block(0u64)));
        forks.push((Hardfork::Ethereum(EthereumHardfork::Tangerine), ForkCondition::Block(0u64)));
        forks.push((Hardfork::Ethereum(EthereumHardfork::SpuriousDragon), ForkCondition::Block(0u64)));
        forks.push((Hardfork::Ethereum(EthereumHardfork::Byzantium), ForkCondition::Block(0u64)));
        forks.push((Hardfork::Ethereum(EthereumHardfork::Constantinople), ForkCondition::Block(0u64)));
        forks.push((Hardfork::Ethereum(EthereumHardfork::Petersburg), ForkCondition::Block(0u64)));
        forks.push((Hardfork::Ethereum(EthereumHardfork::Istanbul), ForkCondition::Block(0u64)));
        forks.push((Hardfork::Ethereum(EthereumHardfork::MuirGlacier), ForkCondition::Block(0u64)));
        forks.push((Hardfork::Ethereum(EthereumHardfork::Berlin), ForkCondition::Block(0u64)));
        forks.push((Hardfork::Ethereum(EthereumHardfork::London), ForkCondition::Block(0u64)));
        forks.push((Hardfork::Ethereum(EthereumHardfork::ArrowGlacier), ForkCondition::Block(0u64)));
        forks.push((Hardfork::Ethereum(EthereumHardfork::GrayGlacier), ForkCondition::Block(0u64)));
        forks.push((Hardfork::Ethereum(EthereumHardfork::Paris), ForkCondition::Ttd { fork_block: Some(0u64), total_difficulty: 0u128 }));
        forks.push((Hardfork::Optimism(OptimismHardfork::Bedrock), ForkCondition::Block(0u64)));
        forks.push((Hardfork::Optimism(OptimismHardfork::Regolith), ForkCondition::Timestamp(0u64)));
        forks.push((Hardfork::Optimism(OptimismHardfork::Fermat), ForkCondition::Timestamp(1701151200u64)));
        forks.push((Hardfork::Ethereum(EthereumHardfork::Shanghai), ForkCondition::Timestamp(1718870400u64)));
        forks.push((Hardfork::Optimism(OptimismHardfork::Canyon), ForkCondition::Timestamp(1718870400u64)));
        forks.push((Hardfork::Ethereum(EthereumHardfork::Cancun), ForkCondition::Timestamp(1718871600u64)));
        forks.push((Hardfork::Optimism(OptimismHardfork::Ecotone), ForkCondition::Timestamp(1718871600u64)));
        forks.push((Hardfork::Optimism(OptimismHardfork::Haber), ForkCondition::Timestamp(1718872200u64)));
        forks.push((Hardfork::Optimism(OptimismHardfork::Wright), ForkCondition::Timestamp(1724738400u64)));
        proof {
            assert(forks@ =~= Self::opbnb_mainnet_spec());
        }
        ChainHardforks::new(forks)
    }

    /// The forks of the opbnb testnet list of hardforks, in activation order.
    pub open spec fn opbnb_testnet_spec() -> Seq<(Hardfork, ForkCondition)> {
        seq![
            (Hardfork::Ethereum(EthereumHardfork::Frontier), ForkCondition::Block(0u64)),
            (Hardfork::Ethereum(EthereumHardfork::Homestead), ForkCondition::Block(0u64)),
            (Hardfork::Ethereum(EthereumHardfork::Tangerine), ForkCondition::Block(0u64)),
            (Hardfork::Ethereum(EthereumHardfork::SpuriousDragon), ForkCondition::Block(0u64)),
            (Hardfork::Ethereum(EthereumHardfork::Byzantium), ForkCondition::Block(0u64)),
            (Hardfork::Ethereum(EthereumHardfork::Constantinople), ForkCondition::Block(0u64)),
            (Hardfork::Ethereum(EthereumHardfork::Petersburg), ForkCondition::Block(0u64)),
            (Hardfork::Ethereum(EthereumHardfork::Istanbul), ForkCondition::Block(0u64)),
            (Hardfork::Ethereum(EthereumHardfork::MuirGlacier), ForkCondition::Block(0u64)),
            (Hardfork::Ethereum(EthereumHardfork::Berlin), ForkCondition::Block(0u64)),
            (Hardfork::Ethereum(EthereumHardfork::London), ForkCondition::Block(0u64)),
            (Hardfork::Ethereum(EthereumHardfork::ArrowGlacier), ForkCondition::Block(0u64)),
            (Hardfork::Ethereum(EthereumHardfork::GrayGlacier), ForkCondition::Block(0u64)),
            (Hardfork::Ethereum(EthereumHardfork::Paris), ForkCondition::Ttd { fork_block: Some(0u64), total_difficulty: 0u128 }),
            (Hardfork::Optimism(OptimismHardfork::Bedrock), ForkCondition::Block(0u64)),
            (Hardfork::Optimism(OptimismHardfork::Regolith), ForkCondition::Timestamp(0u64)),
            (Hardfork::Optimism(OptimismHardfork::PreContractForkBlock), ForkCondition::Block(5805494u64)),
            (Hardfork::Optimism(OptimismHardfork::Fermat), ForkCondition::Timestamp(1698991506u64)),
            (Hardfork::Ethereum(EthereumHardfork::Shanghai), ForkCondition::Timestamp(1715753400u64)),
            (Hardfork::Optimism(OptimismHardfork::Canyon), ForkCondition::Timestamp(1715753400u64)),
            (Hardfork::Ethereum(EthereumHardfork::Cancun), ForkCondition::Timestamp(1715754600u64)),
            (Hardfork::Optimism(OptimismHardfork::Ecotone), ForkCondition::Timestamp(1715754600u64)),
            (Hardfork::Optimism(OptimismHardfork::Haber), ForkCondition::Timestamp(1717048800u64)),
            (Hardfork::Optimism(OptimismHardfork::Wright), ForkCondition::Timestamp(1723701600u64)),
        ]
    }

    /// opBNB testnet list of hardforks.
    pub fn opbnb_testnet() -> (r: ChainHardforks)
        ensures
            r.forks@ == Self::opbnb_testnet_spec(),
    {
        let mut forks: Vec<(Hardfork, ForkCondition)> = Vec::new();
        forks.push((Hardfork::Ethereum(EthereumHardfork::Frontier), ForkCondition::Block(0u64)));
        forks.push((Hardfork::Ethereum(EthereumHardfork::Homestead), ForkCondition::Block(0u64)));
        forks.push((Hardfork::Ethereum(EthereumHardfork::Tangerine), ForkCondition::Block(0u64)));
        forks.push((Hardfork::Ethereum(EthereumHardfork::SpuriousDragon), ForkCondition::Block(0u64)));
        forks.push((Hardfork::Ethereum(EthereumHardfork::Byzantium), ForkCondition::Block(0u64)));
        forks.push((Hardfork::Ethereum(EthereumHardfork::Constantinople), ForkCondition::Block(0u64)));
        forks.push((Hardfork::Ethereum(EthereumHardfork::Petersburg), ForkCondition::Block(0u64)));
        forks.push((Hardfork::Ethereum(EthereumHardfork::Istanbul), ForkCondition::Block(0u64)));
        forks.push((Hardfork::Ethereum(EthereumHardfork::MuirGlacier), ForkCondition::Block(0u64)));
        forks.push((Hardfork::Ethereum(EthereumHardfork::Berlin), ForkCondition::Block(0u64)));
        forks.push((Hardfork::Ethereum(EthereumHardfork::London), ForkCondition::Block(0u64)));
        forks.push((Hardfork::Ethereum(EthereumHardfork::ArrowGlacier), ForkCondition::Block(0u64)));
        forks.push((Hardfork::Ethereum(EthereumHardfork::GrayGlacier), ForkCondition::Block(0u64)));
        forks.push((Hardfork::Ethereum(EthereumHardfork::Paris), ForkCondition::Ttd { fork_block: Some(0u64), total_difficulty: 0u128 }));
        forks.push((Hardfork::Optimism(OptimismHardfork::Bedrock), ForkCondition::Block(0u64)));
        forks.push((Hardfork::Optimism(OptimismHardfork::Regolith), ForkCondition::Timestamp(0u64)));
        forks.push((Hardfork::Optimism(OptimismHardfork::PreContractForkBlock), ForkCondition::Block(5805494u64)));
        forks.push((Hardfork::Optimism(OptimismHardfork::Fermat), ForkCondition::Timestamp(1698991506u64)));
        forks.push((Hardfork::Ethereum(EthereumHardfork::Shanghai), ForkCondition::Timestamp(1715753400u64)));
        forks.push((Hardfork::Optimism(OptimismHardfork::Canyon), ForkCondition::Timestamp(1715753400u64)));
        forks.push((Hardfork::Ethereum(EthereumHardfork::Cancun), ForkCondition::Timestamp(1715754600u64)));
        forks.push((Hardfork::Optimism(OptimismHardfork::Ecotone), ForkCondition::Timestamp(1715754600u64)));
        forks.push((Hardfork::Optimism(OptimismHardfork::Haber), ForkCondition::Timestamp(1717048800u64)));
        forks.push((Hardfork::Optimism(OptimismHardfork::Wright), ForkCondition::Timestamp(1723701600u64)));
        proof {
            assert(forks@ =~= Self::opbnb_testnet_spec());
        }
        ChainHardforks::new(forks)
    }

    /// The forks of the opbnb qa network list of hardforks, in activation order.
    pub open spec fn opbnb_qa_spec() -> Seq<(Hardfork, ForkCondition)> {
        seq![
            (Hardfork::Ethereum(EthereumHardfork::Frontier), ForkCondition::Block(0u64)),
            (Hardfork::Ethereum(EthereumHardfork::Homestead), ForkCondition::Block(0u64)),
            (Hardfork::Ethereum(EthereumHardfork::Tangerine), ForkCondition::Block(0u64)),
            (Hardfork::Ethereum(EthereumHardfork::SpuriousDragon), ForkCondition::Block(0u64)),
            (Hardfork::Ethereum(EthereumHardfork::Byzantium), ForkCondition::Block(0u64)),
            (Hardfork::Ethereum(EthereumHardfork::Constantinople), ForkCondition::Block(0u64)),
            (Hardfork::Ethereum(EthereumHardfork::Petersburg), ForkCondition::Block(0u64)),
            (Hardfork::Ethereum(EthereumHardfork::Istanbul), ForkCondition::Block(0u64)),
            (Hardfork::Ethereum(EthereumHardfork::MuirGlacier), ForkCondition::Block(0u64)),
            (Hardfork::Ethereum(EthereumHardfork::Berlin), ForkCondition::Block(0u64)),
            (Hardfork::Ethereum(EthereumHardfork::London), ForkCondition::Block(0u64)),
            (Hardfork::Ethereum(EthereumHardfork::ArrowGlacier), ForkCondition::Block(0u64)),
            (Hardfork::Ethereum(EthereumHardfork::GrayGlacier), ForkCondition::Block(0u64)),
            (Hardfork::Ethereum(EthereumHardfork::Paris), ForkCondition::Ttd { fork_block: Some(0u64), total_difficulty: 0u128 }),
            (Hardfork::Optimism(OptimismHardfork::Bedrock), ForkCondition::Block(0u64)),
            (Hardfork::Optimism(OptimismHardfork::Regolith), ForkCondition::Timestamp(0u64)),
            (Hardfork::Optimism(OptimismHardfork::Fermat), ForkCondition::Timestamp(0u64)),
            (Hardfork::Ethereum(EthereumHardfork::Shanghai), ForkCondition::Timestamp(0u64)),
            (Hardfork::Optimism(OptimismHardfork::Canyon), ForkCondition::Timestamp(0u64)),
            (Hardfork::Ethereum(EthereumHardfork::Cancun), ForkCondition::Timestamp(0u64)),
            (Hardfork::Optimism(OptimismHardfork::Ecotone), ForkCondition::Timestamp(0u64)),
            (Hardfork::Optimism(OptimismHardfork::Wright), ForkCondition::Timestamp(0u64)),
        ]
    }

    /// opBNB qa network list of hardforks.
    pub fn opbnb_qa() -> (r: ChainHardforks)
        ensures
            r.forks@ == Self::opbnb_qa_spec(),
    {
        let mut forks: Vec<(Hardfork, ForkCondition)> = Vec::new();
        forks.push((Hardfork::Ethereum(EthereumHardfork::Frontier), ForkCondition::Block(0u64)));
        forks.push((Hardfork::Ethereum(EthereumHardfork::Homestead), ForkCondition::Block(0u64)));
        forks.push((Hardfork::Ethereum(EthereumHardfork::Tangerine), ForkCondition::Block(0u64)));
        forks.push((Hardfork::Ethereum(EthereumHardfork::SpuriousDragon), ForkCondition::Block(0u64)));
        forks.push((Hardfork::Ethereum(EthereumHardfork::Byzantium), ForkCondition::Block(0u64)));
        forks.push((Hardfork::Ethereum(EthereumHardfork::Constantinople), ForkCondition::Block(0u64)));
        forks.push((Hardfork::Ethereum(EthereumHardfork::Petersburg), ForkCondition::Block(0u64)));
        forks.push((Hardfork::Ethereum(EthereumHardfork::Istanbul), ForkCondition::Block(0u64)));
        forks.push((Hardfork::Ethereum(EthereumHardfork::MuirGlacier), ForkCondition::Block(0u64)));
        forks.push((Hardfork::Ethereum(EthereumHardfork::Berlin), ForkCondition::Block(0u64)));
        forks.push((Hardfork::Ethereum(EthereumHardfork::London), ForkCondition::Block(0u64)));
        forks.push((Hardfork::Ethereum(EthereumHardfork::ArrowGlacier), ForkCondition::Block(0u64)));
        forks.push((Hardfork::Ethereum(EthereumHardfork::GrayGlacier), ForkCondition::Block(0u64)));
        forks.push((Hardfork::Ethereum(EthereumHardfork::Paris), ForkCondition::Ttd { fork_block: Some(0u64), total_difficulty: 0u128 }));
        forks.push((Hardfork::Optimism(OptimismHardfork::Bedrock), ForkCondition::Block(0u64)));
        forks.push((Hardfork::Optimism(OptimismHardfork::Regolith), ForkCondition::Timestamp(0u64)));
        forks.push((Hardfork::Optimism(OptimismHardfork::Fermat), ForkCondition::Timestamp(0u64)));
        forks.push((Hardfork::Ethereum(EthereumHardfork::Shanghai), ForkCondition::Timestamp(0u64)));
        forks.push((Hardfork::Optimism(OptimismHardfork::Canyon), ForkCondition::Timestamp(0u64)));
        forks.push((Hardfork::Ethereum(EthereumHardfork::Cancun), ForkCondition::Timestamp(0u64)));
        forks.push((Hardfork::Optimism(OptimismHardfork::Ecotone), ForkCondition::Timestamp(0u64)));
        forks.push((Hardfork::Optimism(OptimismHardfork::Wright), ForkCondition::Timestamp(0u64)));
        proof {
            assert(forks@ =~= Self::opbnb_qa_spec());
        }
        ChainHardforks::new(forks)
    }

    /// Activation timestamp of `fork` on the chain with id `chain_id`.
    pub open spec fn activation_timestamp_spec(fork: Hardfork, chain_id: u64) -> Option<u64> {
        if chain_id == BASE_SEPOLIA_CHAIN_ID {
            Self::base_sepolia_activation_timestamp_spec(fork)
        } else if chain_id == BASE_MAINNET_CHAIN_ID {
            Self::base_mainnet_activation_timestamp_spec(fork)
        } else if chain_id == OPBNB_MAINNET_CHAIN_ID {
            Self::opbnb_mainnet_activation_timestamp_spec(fork)
        } else if chain_id == OPBNB_TESTNET_CHAIN_ID {
            Self::opbnb_testnet_activation_timestamp_spec(fork)
        } else {
            None
        }
    }

    /// Retrieves the activation timestamp for the specified hardfork on the
    /// given chain.
    pub fn activation_timestamp(self, fork: Hardfork, chain_id: u64) -> (r: Option<u64>)
        ensures
            r == Self::activation_timestamp_spec(fork, chain_id),
    {
        if chain_id == BASE_SEPOLIA_CHAIN_ID {
            return Self::base_sepolia_activation_timestamp(fork);
        }
        if chain_id == BASE_MAINNET_CHAIN_ID {
            return Self::base_mainnet_activation_timestamp(fork);
        }
        if chain_id == OPBNB_MAINNET_CHAIN_ID {
            return Self::opbnb_mainnet_activation_timestamp(fork);
        }
        if chain_id == OPBNB_TESTNET_CHAIN_ID {
            return Self::opbnb_testnet_activation_timestamp(fork);
        }
        None
    }
}

} // verus!
