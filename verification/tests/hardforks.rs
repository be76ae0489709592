use archive_pruner::hardfork::{
    EthereumHardfork, ForkCondition, Hardfork, OptimismHardfork, BASE_MAINNET_CHAIN_ID,
    BASE_SEPOLIA_CHAIN_ID, OPBNB_MAINNET_CHAIN_ID, OPBNB_TESTNET_CHAIN_ID,
};

#[test]
fn chain_hardfork_tables() {
    let forks = OptimismHardfork::op_mainnet();
    assert_eq!(forks.len(), 21);
    assert_eq!(
        forks.forks[9],
        (Hardfork::Ethereum(EthereumHardfork::Berlin), ForkCondition::Block(3950000))
    );
    assert_eq!(
        forks.forks[14],
        (Hardfork::Optimism(OptimismHardfork::Bedrock), ForkCondition::Block(105235063))
    );
    assert_eq!(
        forks.forks[20],
        (Hardfork::Optimism(OptimismHardfork::Fjord), ForkCondition::Timestamp(1720627201))
    );
    assert_eq!(OptimismHardfork::op_sepolia().len(), 21);
    assert_eq!(OptimismHardfork::base_sepolia().len(), 21);
    assert_eq!(OptimismHardfork::base_mainnet().len(), 21);
    let opbnb = OptimismHardfork::opbnb_mainnet();
    assert_eq!(opbnb.len(), 23);
    assert_eq!(
        opbnb.forks[13],
        (
            Hardfork::Ethereum(EthereumHardfork::Paris),
            ForkCondition::Ttd { fork_block: Some(0), total_difficulty: 0 }
        )
    );
    assert_eq!(
        opbnb.forks[22],
        (Hardfork::Optimism(OptimismHardfork::Wright), ForkCondition::Timestamp(1724738400))
    );
    assert_eq!(OptimismHardfork::opbnb_testnet().len(), 24);
    assert_eq!(OptimismHardfork::opbnb_qa().len(), 22);
}

#[test]
fn test_match_hardfork() {
    assert_eq!(
        OptimismHardfork::base_mainnet_activation_block(Hardfork::Ethereum(
            EthereumHardfork::Cancun
        )),
        Some(11188936)
    );
    assert_eq!(
        OptimismHardfork::base_mainnet_activation_block(Hardfork::Optimism(
            OptimismHardfork::Canyon
        )),
        Some(9101527)
    );
}

#[test]
fn base_sepolia_activation_values() {
    assert_eq!(
        OptimismHardfork::base_sepolia_activation_block(Hardfork::Ethereum(
            EthereumHardfork::Shanghai
        )),
        Some(2106456)
    );
    assert_eq!(
        OptimismHardfork::base_sepolia_activation_block(Hardfork::Optimism(
            OptimismHardfork::Fjord
        )),
        Some(10615056)
    );
    assert_eq!(
        OptimismHardfork::base_sepolia_activation_block(Hardfork::Optimism(
            OptimismHardfork::Haber
        )),
        None
    );
    assert_eq!(
        OptimismHardfork::base_sepolia_activation_timestamp(Hardfork::Ethereum(
            EthereumHardfork::Cancun
        )),
        Some(1708534800)
    );
    assert_eq!(
        OptimismHardfork::base_sepolia_activation_timestamp(Hardfork::Optimism(
            OptimismHardfork::Bedrock
        )),
        Some(1695768288)
    );
}

#[test]
fn opbnb_activation_values() {
    assert_eq!(
        OptimismHardfork::opbnb_mainnet_activation_block(Hardfork::Ethereum(
            EthereumHardfork::Paris
        )),
        Some(0)
    );
    assert_eq!(
        OptimismHardfork::opbnb_mainnet_activation_block(Hardfork::Ethereum(
            EthereumHardfork::Shanghai
        )),
        None
    );
    assert_eq!(
        OptimismHardfork::opbnb_testnet_activation_block(Hardfork::Optimism(
            OptimismHardfork::PreContractForkBlock
        )),
        Some(5805494)
    );
    assert_eq!(
        OptimismHardfork::opbnb_mainnet_activation_timestamp(Hardfork::Optimism(
            OptimismHardfork::Haber
        )),
        Some(1718872200)
    );
    assert_eq!(
        OptimismHardfork::opbnb_testnet_activation_timestamp(Hardfork::Optimism(
            OptimismHardfork::Fermat
        )),
        Some(1698991506)
    );
}

#[test]
fn activation_dispatches_on_chain_id() {
    let fork = Hardfork::Ethereum(EthereumHardfork::Cancun);
    assert_eq!(
        OptimismHardfork::Bedrock.activation_block(fork, BASE_MAINNET_CHAIN_ID),
        Some(11188936)
    );
    assert_eq!(
        OptimismHardfork::Bedrock.activation_block(fork, BASE_SEPOLIA_CHAIN_ID),
        Some(6383256)
    );
    assert_eq!(OptimismHardfork::Bedrock.activation_block(fork, OPBNB_MAINNET_CHAIN_ID), None);
    assert_eq!(OptimismHardfork::Bedrock.activation_block(fork, 1), None);
    assert_eq!(
        OptimismHardfork::Bedrock.activation_timestamp(fork, OPBNB_TESTNET_CHAIN_ID),
        Some(1715754600)
    );
    assert_eq!(
        OptimismHardfork::Bedrock
            .activation_timestamp(Hardfork::Optimism(OptimismHardfork::Wright), OPBNB_MAINNET_CHAIN_ID),
        None
    );
}

#[test]
fn chain_help_lists_builtin_chains() {
    let help = archive_pruner::args::chain_help();
    assert!(help.contains("mainnet, sepolia, holesky, dev"));
    assert!(help.contains("--chain") == false);
}
