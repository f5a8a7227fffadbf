use alloy_op_hardforks::{OpChainHardforks, OpHardfork, OpHardforks};
use fraxtal_evm::{
    u256_from_b256, BlobExcessGasAndPrice, CfgEnv, EvmEnv, ForkCondition, FraxtalEvmConfig, Header,
    OpChainSpec, OpExecData, OpExecutionData, OpExecutionPayload, OpExecutionPayloadSidecar,
    OpForkSchedule, OpNextBlockEnvAttributes, OpSpecId, SpecId,
};
use std::sync::Arc;

const FRAXTAL: u64 = 252;

/// Each fork ten seconds after the one before it, from Regolith at genesis on.
fn schedule() -> OpForkSchedule {
    OpForkSchedule {
        bedrock: ForkCondition::Block(0),
        regolith: ForkCondition::Timestamp(0),
        canyon: ForkCondition::Timestamp(10),
        ecotone: ForkCondition::Timestamp(20),
        fjord: ForkCondition::Timestamp(30),
        granite: ForkCondition::Timestamp(40),
        holocene: ForkCondition::Timestamp(50),
        isthmus: ForkCondition::Timestamp(60),
        jovian: ForkCondition::Timestamp(70),
        karst: ForkCondition::Timestamp(90),
        interop: ForkCondition::Timestamp(80),
    }
}

fn never() -> OpForkSchedule {
    OpForkSchedule {
        bedrock: ForkCondition::Never,
        regolith: ForkCondition::Never,
        canyon: ForkCondition::Never,
        ecotone: ForkCondition::Never,
        fjord: ForkCondition::Never,
        granite: ForkCondition::Never,
        holocene: ForkCondition::Never,
        isthmus: ForkCondition::Never,
        jovian: ForkCondition::Never,
        karst: ForkCondition::Never,
        interop: ForkCondition::Never,
    }
}

fn config() -> FraxtalEvmConfig {
    FraxtalEvmConfig::optimism(Arc::new(OpChainSpec { chain_id: FRAXTAL, forks: schedule() }))
}

fn header(timestamp: u64) -> Header {
    Header {
        parent_hash: [1; 32],
        ommers_hash: [11; 32],
        beneficiary: [2; 20],
        state_root: [12; 32],
        transactions_root: [13; 32],
        receipts_root: [14; 32],
        logs_bloom: [15; 256],
        difficulty: [5, 6, 7, 8],
        number: 41,
        gas_limit: 30_000_000,
        gas_used: 20_000_000,
        timestamp,
        extra_data: vec![9, 9],
        mix_hash: [3; 32],
        nonce: [0; 8],
        base_fee_per_gas: Some(1_000),
        withdrawals_root: Some([16; 32]),
        blob_gas_used: Some(17),
        excess_blob_gas: Some(18),
        parent_beacon_block_root: Some([4; 32]),
        requests_hash: Some([19; 32]),
        block_access_list_hash: None,
        slot_number: Some(21),
    }
}

fn execution_data(timestamp: u64) -> OpExecutionData {
    OpExecutionData {
        payload: OpExecutionPayload {
            parent_hash: [1; 32],
            fee_recipient: [2; 20],
            prev_randao: [3; 32],
            block_number: 41,
            gas_limit: 30_000_000,
            timestamp,
            extra_data: vec![9, 9],
            base_fee_per_gas: [1_000, 0, 0, 0],
            transactions: vec![],
        },
        sidecar: OpExecutionPayloadSidecar { parent_beacon_block_root: Some([4; 32]) },
    }
}

fn attributes(timestamp: u64) -> OpNextBlockEnvAttributes {
    OpNextBlockEnvAttributes {
        timestamp,
        suggested_fee_recipient: [2; 20],
        prev_randao: [3; 32],
        gas_limit: 30_000_000,
        parent_beacon_block_root: Some([4; 32]),
        extra_data: vec![9, 9],
    }
}

fn gas_table(spec: op_revm::OpSpecId) -> [u64; 256] {
    *revm::context_interface::cfg::GasParams::new_spec(spec.into_eth_spec()).table()
}

#[test]
fn spec_follows_schedule() {
    let forks = schedule();
    let expected = [
        (0, OpSpecId::Regolith),
        (9, OpSpecId::Regolith),
        (10, OpSpecId::Canyon),
        (20, OpSpecId::Ecotone),
        (30, OpSpecId::Fjord),
        (40, OpSpecId::Granite),
        (50, OpSpecId::Holocene),
        (60, OpSpecId::Isthmus),
        (70, OpSpecId::Jovian),
        (80, OpSpecId::Interop),
        (89, OpSpecId::Interop),
        (90, OpSpecId::Karst),
        (u64::MAX, OpSpecId::Karst),
    ];
    for (timestamp, spec) in expected {
        assert_eq!(forks.spec_by_timestamp(timestamp), spec);
    }
}

#[test]
fn only_timestamps_activate_by_time() {
    assert_eq!(never().spec_by_timestamp(u64::MAX), OpSpecId::Bedrock);
    let mut forks = never();
    forks.karst = ForkCondition::Block(0);
    forks.jovian = ForkCondition::TTD {
        activation_block_number: 0,
        fork_block: Some(0),
        total_difficulty: [0; 4],
    };
    assert_eq!(forks.spec_by_timestamp(u64::MAX), OpSpecId::Bedrock);
    forks.canyon = ForkCondition::Timestamp(7);
    assert_eq!(forks.spec_by_timestamp(6), OpSpecId::Bedrock);
    assert_eq!(forks.spec_by_timestamp(7), OpSpecId::Canyon);
}

#[test]
fn karst_takes_precedence_over_interop() {
    let mut forks = never();
    forks.interop = ForkCondition::Timestamp(0);
    assert_eq!(forks.spec_by_timestamp(5), OpSpecId::Interop);
    forks.karst = ForkCondition::Timestamp(5);
    assert_eq!(forks.spec_by_timestamp(5), OpSpecId::Karst);
}

#[test]
fn op_mainnet_schedule_is_read_alike() {
    let mainnet = OpChainHardforks::op_mainnet();
    let condition = |fork: OpHardfork| match mainnet.op_fork_activation(fork) {
        alloy_op_hardforks::ForkCondition::Block(number) => ForkCondition::Block(number),
        alloy_op_hardforks::ForkCondition::Timestamp(time) => ForkCondition::Timestamp(time),
        _ => ForkCondition::Never,
    };
    let forks = OpForkSchedule {
        bedrock: condition(OpHardfork::Bedrock),
        regolith: condition(OpHardfork::Regolith),
        canyon: condition(OpHardfork::Canyon),
        ecotone: condition(OpHardfork::Ecotone),
        fjord: condition(OpHardfork::Fjord),
        granite: condition(OpHardfork::Granite),
        holocene: condition(OpHardfork::Holocene),
        isthmus: condition(OpHardfork::Isthmus),
        jovian: condition(OpHardfork::Jovian),
        karst: condition(OpHardfork::Karst),
        interop: condition(OpHardfork::Interop),
    };
    assert_eq!(forks.spec_by_timestamp(1_704_992_400), OpSpecId::Regolith);
    assert_eq!(forks.spec_by_timestamp(1_704_992_401), OpSpecId::Canyon);
    assert_eq!(forks.spec_by_timestamp(1_710_374_401), OpSpecId::Ecotone);
    assert_eq!(forks.spec_by_timestamp(1_720_627_201), OpSpecId::Fjord);
}

#[test]
fn op_specs_extend_eth_specs() {
    let expected = [
        (OpSpecId::Bedrock, SpecId::Merge),
        (OpSpecId::Regolith, SpecId::Merge),
        (OpSpecId::Canyon, SpecId::Shanghai),
        (OpSpecId::Ecotone, SpecId::Cancun),
        (OpSpecId::Fjord, SpecId::Cancun),
        (OpSpecId::Granite, SpecId::Cancun),
        (OpSpecId::Holocene, SpecId::Cancun),
        (OpSpecId::Isthmus, SpecId::Prague),
        (OpSpecId::Jovian, SpecId::Prague),
        (OpSpecId::Karst, SpecId::Osaka),
        (OpSpecId::Interop, SpecId::Prague),
    ];
    for (op, eth) in expected {
        assert_eq!(op.into_eth_spec(), eth);
    }
}

#[test]
fn eth_specs_are_ordered() {
    assert!(SpecId::Cancun.is_enabled_in(SpecId::Merge));
    assert!(SpecId::Cancun.is_enabled_in(SpecId::Cancun));
    assert!(!SpecId::Cancun.is_enabled_in(SpecId::Prague));
    assert!(SpecId::Amsterdam.is_enabled_in(SpecId::Frontier));
    assert!(!SpecId::Frontier.is_enabled_in(SpecId::FrontierThawing));
}

#[test]
fn header_environment_has_every_field() {
    let env = config().evm_env(&header(25)).unwrap();
    assert_eq!(
        env.cfg_env,
        CfgEnv {
            spec: OpSpecId::Ecotone,
            gas_params: gas_table(op_revm::OpSpecId::ECOTONE),
            chain_id: FRAXTAL,
            tx_chain_id_check: true,
            limit_contract_code_size: None,
            limit_contract_initcode_size: None,
            disable_nonce_check: false,
            max_blobs_per_tx: None,
            blob_base_fee_update_fraction: None,
            tx_gas_limit_cap: None,
            enable_amsterdam_eip8037: false,
            amsterdam_eip7708_disabled: false,
            amsterdam_eip7708_delayed_burn_disabled: false,
        }
    );
    let block = env.block_env;
    assert_eq!(block.number, [41, 0, 0, 0]);
    assert_eq!(block.beneficiary, [2; 20]);
    assert_eq!(block.timestamp, [25, 0, 0, 0]);
    assert_eq!(block.gas_limit, 30_000_000);
    assert_eq!(block.basefee, 1_000);
    assert_eq!(block.difficulty, [0; 4]);
    assert_eq!(block.prevrandao, Some([3; 32]));
    assert_eq!(
        block.blob_excess_gas_and_price,
        Some(BlobExcessGasAndPrice { excess_blob_gas: 0, blob_gasprice: 1 })
    );
    assert_eq!(block.slot_num, 0);
}

#[test]
fn missing_base_fee_is_zero() {
    let mut early = header(5);
    early.base_fee_per_gas = None;
    assert_eq!(config().evm_env(&early).unwrap().block_env.basefee, 0);
    let next = config().next_evm_env(&header(5), &attributes(7), |_, _| None).unwrap();
    assert_eq!(next.block_env.basefee, 0);
}

#[test]
fn blob_price_comes_with_ecotone() {
    let price = Some(BlobExcessGasAndPrice { excess_blob_gas: 0, blob_gasprice: 1 });
    for timestamp in [0, 10, 19] {
        let env = config().evm_env(&header(timestamp)).unwrap();
        assert_eq!(env.block_env.blob_excess_gas_and_price, None);
        let env = config().evm_env_for_payload(&execution_data(timestamp)).unwrap();
        assert_eq!(env.block_env.blob_excess_gas_and_price, None);
    }
    for timestamp in [20, 30, 65, 75, 85, 95] {
        let env = config().evm_env(&header(timestamp)).unwrap();
        assert_eq!(env.block_env.blob_excess_gas_and_price, price);
        let env = config().evm_env_for_payload(&execution_data(timestamp)).unwrap();
        assert_eq!(env.block_env.blob_excess_gas_and_price, price);
    }
}

#[test]
fn payload_environment_has_every_field() {
    let env = config().evm_env_for_payload(&execution_data(75)).unwrap();
    assert_eq!(env.cfg_env.spec, OpSpecId::Jovian);
    assert_eq!(env.cfg_env.chain_id, FRAXTAL);
    assert_eq!(env.cfg_env.gas_params, gas_table(op_revm::OpSpecId::JOVIAN));
    assert!(env.cfg_env.tx_chain_id_check);
    assert!(!env.cfg_env.enable_amsterdam_eip8037);
    let block = env.block_env;
    assert_eq!(block.number, [41, 0, 0, 0]);
    assert_eq!(block.beneficiary, [2; 20]);
    assert_eq!(block.timestamp, [75, 0, 0, 0]);
    assert_eq!(block.gas_limit, 30_000_000);
    assert_eq!(block.basefee, 1_000);
    assert_eq!(block.difficulty, [0; 4]);
    assert_eq!(block.prevrandao, Some([3; 32]));
    assert_eq!(block.slot_num, 0);
}

#[test]
fn largest_base_fee_of_a_payload_is_kept() {
    let mut data = execution_data(75);
    data.payload.base_fee_per_gas = [u64::MAX, 0, 0, 0];
    let env = config().evm_env_for_payload(&data).unwrap();
    assert_eq!(env.block_env.basefee, u64::MAX);
}

#[test]
fn payload_and_header_agree_at_every_fork() {
    for timestamp in [0, 10, 20, 30, 40, 50, 60, 70, 80, 90] {
        let by_header = config().evm_env(&header(timestamp)).unwrap();
        let by_payload = config().evm_env_for_payload(&execution_data(timestamp)).unwrap();
        assert_eq!(by_header, by_payload);
        let wrapped = OpExecData(execution_data(timestamp));
        assert_eq!(config().evm_env_for_exec_data(&wrapped).unwrap(), by_payload);
    }
}

#[test]
fn next_environment_is_that_of_the_child() {
    for timestamp in [12, 22, 62, 82, 92] {
        let parent = header(timestamp - 2);
        let next = config().next_evm_env(&parent, &attributes(timestamp), |_, _| Some(777)).unwrap();
        let mut child = header(timestamp);
        child.number = 42;
        child.base_fee_per_gas = Some(777);
        assert_eq!(next, config().evm_env(&child).unwrap());
        assert_eq!(next.block_env.number, [42, 0, 0, 0]);
        assert_eq!(next.block_env.basefee, 777);
        assert_eq!(next.block_env.slot_num, 0);
    }
}

#[test]
fn settings_equal_those_of_revm() {
    let expected = [
        (5, op_revm::OpSpecId::REGOLITH),
        (15, op_revm::OpSpecId::CANYON),
        (25, op_revm::OpSpecId::ECOTONE),
        (35, op_revm::OpSpecId::FJORD),
        (45, op_revm::OpSpecId::GRANITE),
        (55, op_revm::OpSpecId::HOLOCENE),
        (65, op_revm::OpSpecId::ISTHMUS),
        (75, op_revm::OpSpecId::JOVIAN),
        (85, op_revm::OpSpecId::INTEROP),
        (95, op_revm::OpSpecId::KARST),
    ];
    for (timestamp, spec) in expected {
        let revm = revm::context::CfgEnv::new()
            .with_chain_id(FRAXTAL)
            .with_spec_and_mainnet_gas_params(spec);
        let EvmEnv { cfg_env, .. } =
            config().evm_env_for_payload(&execution_data(timestamp)).unwrap();
        assert_eq!(cfg_env.spec as u8 + 100, revm.spec as u8);
        assert_eq!(cfg_env.gas_params, *revm.gas_params.table());
        assert_eq!(cfg_env.chain_id, revm.chain_id);
        assert_eq!(cfg_env.tx_chain_id_check, revm.tx_chain_id_check);
        assert_eq!(cfg_env.limit_contract_code_size, revm.limit_contract_code_size);
        assert_eq!(cfg_env.limit_contract_initcode_size, revm.limit_contract_initcode_size);
        assert_eq!(cfg_env.disable_nonce_check, revm.disable_nonce_check);
        assert_eq!(cfg_env.max_blobs_per_tx, revm.max_blobs_per_tx);
        assert_eq!(cfg_env.blob_base_fee_update_fraction, revm.blob_base_fee_update_fraction);
        assert_eq!(cfg_env.tx_gas_limit_cap, revm.tx_gas_limit_cap);
        assert_eq!(cfg_env.enable_amsterdam_eip8037, revm.enable_amsterdam_eip8037);
        assert_eq!(cfg_env.amsterdam_eip7708_disabled, revm.amsterdam_eip7708_disabled);
        assert_eq!(
            cfg_env.amsterdam_eip7708_delayed_burn_disabled,
            revm.amsterdam_eip7708_delayed_burn_disabled
        );
    }
}

#[test]
fn rules_do_not_regress_over_time() {
    let forks = schedule();
    for later in 0..100u64 {
        for earlier in 0..later {
            let before = forks.spec_by_timestamp(earlier).into_eth_spec();
            let after = forks.spec_by_timestamp(later).into_eth_spec();
            assert!(after.is_enabled_in(before));
        }
    }
}

#[test]
fn hashes_are_read_as_big_endian_numbers() {
    let mut hash = [0u8; 32];
    hash[31] = 7;
    assert_eq!(u256_from_b256(&hash), [7, 0, 0, 0]);
    for (i, byte) in hash.iter_mut().enumerate() {
        *byte = i as u8;
    }
    assert_eq!(
        u256_from_b256(&hash),
        [
            0x18191a1b1c1d1e1f,
            0x1011121314151617,
            0x08090a0b0c0d0e0f,
            0x0001020304050607
        ]
    );
    let number: alloy_primitives::U256 = alloy_primitives::B256::from(hash).into();
    assert_eq!(u256_from_b256(&hash), *number.as_limbs());
    assert_eq!(u256_from_b256(&[0xff; 32]), [u64::MAX; 4]);
}

#[test]
fn bedrock_settings_equal_those_of_revm() {
    let chain = Arc::new(OpChainSpec { chain_id: FRAXTAL, forks: never() });
    let config = FraxtalEvmConfig::optimism(chain);
    let by_payload = config.evm_env_for_payload(&execution_data(75)).unwrap();
    assert_eq!(by_payload.cfg_env.spec, OpSpecId::Bedrock);
    assert_eq!(by_payload.cfg_env.gas_params, gas_table(op_revm::OpSpecId::BEDROCK));
    assert_eq!(by_payload.block_env.blob_excess_gas_and_price, None);
    assert_eq!(by_payload.block_env.prevrandao, Some([3; 32]));
    assert_eq!(by_payload, config.evm_env(&header(75)).unwrap());
}

#[test]
fn next_base_fee_is_asked_for_the_child() {
    let parent = header(80);
    let mut asked = None;
    let next = config()
        .next_evm_env(&parent, &attributes(82), |header: &Header, timestamp: u64| {
            asked = Some((header.clone(), timestamp));
            Some(header.gas_used + timestamp)
        })
        .unwrap();
    assert_eq!(asked, Some((parent.clone(), 82)));
    assert_eq!(next.block_env.basefee, 20_000_082);
    let given =
        config().next_evm_env_at_base_fee(&parent, &attributes(82), Some(20_000_082)).unwrap();
    assert_eq!(next, given);
}

#[test]
fn next_environment_leaves_the_rest_aside() {
    let mut parent = header(80);
    let mut attributes = attributes(82);
    let next = config().next_evm_env_at_base_fee(&parent, &attributes, Some(5)).unwrap();
    parent.parent_hash = [0x77; 32];
    parent.gas_limit = 1;
    parent.gas_used = 0;
    attributes.extra_data = vec![9, 9];
    attributes.parent_beacon_block_root = None;
    let again = config().next_evm_env_at_base_fee(&parent, &attributes, Some(5)).unwrap();
    assert_eq!(next, again);
}
