//! The environment that the transactions of a block are executed in.

use crate::block::{Header, NextEvmEnvAttributes, OpExecutionPayload, OpNextBlockEnvAttributes};
use crate::forks::{OpForkSchedule, OpSpecId, SpecId};
use crate::primitives::{big_endian_value, u256_value, Address, B256, U256};
use vstd::prelude::*;

verus! {

/// Settings of the EVM that hold for a whole block, under specifications named by `S`.
#[derive(Clone, Debug, PartialEq, Eq)]
pub struct CfgEnv<S> {
    /// The specification.
    pub spec: S,
    /// The table of gas costs.
    pub gas_params: [u64; 256],
    /// The chain id.
    pub chain_id: u64,
    /// Whether the chain id of a transaction is checked.
    pub tx_chain_id_check: bool,
    /// Override of the limit on the size of contract code.
    pub limit_contract_code_size: Option<usize>,
    /// Override of the limit on the size of init code.
    pub limit_contract_initcode_size: Option<usize>,
    /// Whether the nonce check is skipped.
    pub disable_nonce_check: bool,
    /// Limit on the blobs of a transaction.
    pub max_blobs_per_tx: Option<u64>,
    /// Override of the blob base fee update fraction.
    pub blob_base_fee_update_fraction: Option<u64>,
    /// Override of the cap on a transaction's gas limit.
    pub tx_gas_limit_cap: Option<u64>,
    /// Whether state creation is charged as of Amsterdam.
    pub enable_amsterdam_eip8037: bool,
    /// Whether transfers emit no logs.
    pub amsterdam_eip7708_disabled: bool,
    /// Whether delayed burns emit no logs.
    pub amsterdam_eip7708_delayed_burn_disabled: bool,
}

/// The mathematical content of a [`CfgEnv`].
pub struct CfgEnvView<S> {
    pub spec: S,
    pub gas_params: Seq<u64>,
    pub chain_id: u64,
    pub tx_chain_id_check: bool,
    pub limit_contract_code_size: Option<usize>,
    pub limit_contract_initcode_size: Option<usize>,
    pub disable_nonce_check: bool,
    pub max_blobs_per_tx: Option<u64>,
    pub blob_base_fee_update_fraction: Option<u64>,
    pub tx_gas_limit_cap: Option<u64>,
    pub enable_amsterdam_eip8037: bool,
    pub amsterdam_eip7708_disabled: bool,
    pub amsterdam_eip7708_delayed_burn_disabled: bool,
}

impl<S> View for CfgEnv<S> {
    type V = CfgEnvView<S>;

    open spec fn view(&self) -> CfgEnvView<S> {
        CfgEnvView {
            spec: self.spec,
            gas_params: self.gas_params@,
            chain_id: self.chain_id,
            tx_chain_id_check: self.tx_chain_id_check,
            limit_contract_code_size: self.limit_contract_code_size,
            limit_contract_initcode_size: self.limit_contract_initcode_size,
            disable_nonce_check: self.disable_nonce_check,
            max_blobs_per_tx: self.max_blobs_per_tx,
            blob_base_fee_update_fraction: self.blob_base_fee_update_fraction,
            tx_gas_limit_cap: self.tx_gas_limit_cap,
            enable_amsterdam_eip8037: self.enable_amsterdam_eip8037,
            amsterdam_eip7708_disabled: self.amsterdam_eip7708_disabled,
            amsterdam_eip7708_delayed_burn_disabled: self.amsterdam_eip7708_delayed_burn_disabled,
        }
    }
}

/// The settings for the chain `chain_id`: no limit is overridden, no check is switched off, and
/// the gas costs are those of Ethereum's mainnet under `eth_spec`.
pub open spec fn mainnet_cfg<S>(chain_id: u64, spec: S, eth_spec: SpecId) -> CfgEnvView<S> {
    CfgEnvView {
        spec,
        gas_params: mainnet_gas_params(eth_spec.number()),
        chain_id,
        tx_chain_id_check: true,
        limit_contract_code_size: None,
        limit_contract_initcode_size: None,
        disable_nonce_check: false,
        max_blobs_per_tx: None,
        blob_base_fee_update_fraction: None,
        tx_gas_limit_cap: None,
        enable_amsterdam_eip8037: eth_spec.includes(SpecId::Amsterdam),
        amsterdam_eip7708_disabled: false,
        amsterdam_eip7708_delayed_burn_disabled: false,
    }
}

/// The settings of the chain `chain_id` under `spec`, with the number of the specification for the
/// specification.
pub open spec fn numbered_cfg(chain_id: u64, spec: OpSpecId) -> CfgEnvView<u8> {
    mainnet_cfg(chain_id, spec.number(), spec.eth_spec())
}

/// Excess blob gas and the price that follows from it.
#[derive(Clone, Copy, Debug, PartialEq, Eq, Structural)]
pub struct BlobExcessGasAndPrice {
    /// The excess blob gas of the block.
    pub excess_blob_gas: u64,
    /// The price of blob gas.
    pub blob_gasprice: u128,
}

/// What the EVM can read of the block that it executes.
#[derive(Clone, Debug, PartialEq, Eq)]
pub struct BlockEnv {
    /// Height of the block.
    pub number: U256,
    /// Receiver of the block's fees.
    pub beneficiary: Address,
    /// Seconds since the Unix epoch.
    pub timestamp: U256,
    /// Gas limit of the block.
    pub gas_limit: u64,
    /// Base fee per gas.
    pub basefee: u64,
    /// Difficulty of the block.
    pub difficulty: U256,
    /// Randomness of the beacon chain.
    pub prevrandao: Option<B256>,
    /// Excess blob gas and blob gas price.
    pub blob_excess_gas_and_price: Option<BlobExcessGasAndPrice>,
    /// Slot number of the block.
    pub slot_num: u64,
}

/// The mathematical content of a [`BlockEnv`].
pub struct BlockEnvView {
    pub number: nat,
    pub beneficiary: Address,
    pub timestamp: nat,
    pub gas_limit: u64,
    pub basefee: u64,
    pub difficulty: nat,
    pub prevrandao: Option<B256>,
    pub blob_excess_gas_and_price: Option<BlobExcessGasAndPrice>,
    pub slot_num: u64,
}

impl View for BlockEnv {
    type V = BlockEnvView;

    open spec fn view(&self) -> BlockEnvView {
        BlockEnvView {
            number: u256_value(self.number),
            beneficiary: self.beneficiary,
            timestamp: u256_value(self.timestamp),
            gas_limit: self.gas_limit,
            basefee: self.basefee,
            difficulty: u256_value(self.difficulty),
            prevrandao: self.prevrandao,
            blob_excess_gas_and_price: self.blob_excess_gas_and_price,
            slot_num: self.slot_num,
        }
    }
}

/// Settings and block environment together.
#[derive(Clone, Debug, PartialEq, Eq)]
pub struct EvmEnv {
    /// The settings.
    pub cfg_env: CfgEnv<OpSpecId>,
    /// The block environment.
    pub block_env: BlockEnv,
}

/// The mathematical content of an [`EvmEnv`].
pub struct EvmEnvView {
    pub cfg_env: CfgEnvView<OpSpecId>,
    pub block_env: BlockEnvView,
}

impl View for EvmEnv {
    type V = EvmEnvView;

    open spec fn view(&self) -> EvmEnvView {
        EvmEnvView { cfg_env: self.cfg_env@, block_env: self.block_env@ }
    }
}

/// The facts about a block that its environment is made from.
pub struct BlockFacts {
    pub number: u64,
    pub timestamp: u64,
    pub beneficiary: Address,
    pub mix_hash: B256,
    pub difficulty: nat,
    pub gas_limit: u64,
    pub base_fee: u64,
}

impl BlockFacts {
    /// The facts that a header states. A missing base fee counts as zero.
    pub open spec fn of_header(header: Header) -> BlockFacts {
        BlockFacts {
            number: header.number,
            timestamp: header.timestamp,
            beneficiary: header.beneficiary,
            mix_hash: header.mix_hash,
            difficulty: u256_value(header.difficulty),
            gas_limit: header.gas_limit,
            base_fee: match header.base_fee_per_gas {
                Some(fee) => fee,
                None => 0,
            },
        }
    }

    /// The facts about the child of block `parent_number` that is built with `attributes`.
    pub open spec fn of_child(
        parent_number: u64,
        attributes: NextEvmEnvAttributes,
        base_fee: u64,
    ) -> BlockFacts {
        BlockFacts {
            number: (parent_number + 1) as u64,
            timestamp: attributes.timestamp,
            beneficiary: attributes.suggested_fee_recipient,
            mix_hash: attributes.prev_randao,
            difficulty: 0,
            gas_limit: attributes.gas_limit,
            base_fee,
        }
    }

    /// The facts about the block to build on `parent` with `attributes`, where `base_fee` is the
    /// base fee that the chain sets for it. A missing one counts as zero.
    pub open spec fn of_next_block(
        parent: Header,
        attributes: OpNextBlockEnvAttributes,
        base_fee: Option<u64>,
    ) -> BlockFacts {
        Self::of_child(
            parent.number,
            NextEvmEnvAttributes {
                timestamp: attributes.timestamp,
                suggested_fee_recipient: attributes.suggested_fee_recipient,
                prev_randao: attributes.prev_randao,
                gas_limit: attributes.gas_limit,
                slot_number: None,
            },
            match base_fee {
                Some(fee) => fee,
                None => 0,
            },
        )
    }

    /// The facts that a payload states. It has no difficulty of its own: its randomness stands
    /// in for it.
    pub open spec fn of_payload(payload: OpExecutionPayload) -> BlockFacts {
        BlockFacts {
            number: payload.block_number,
            timestamp: payload.timestamp,
            beneficiary: payload.fee_recipient,
            mix_hash: payload.prev_randao,
            difficulty: big_endian_value(payload.prev_randao@),
            gas_limit: payload.gas_limit,
            base_fee: u256_value(payload.base_fee_per_gas) as u64,
        }
    }
}

/// The environment of a block under the specification `spec`. From the merge on randomness takes
/// the place of difficulty; from Cancun on there is a blob gas price, which is always the least.
pub open spec fn block_env_under(spec: OpSpecId, block: BlockFacts) -> BlockEnvView {
    let merged = spec.eth_spec().includes(SpecId::Merge);
    BlockEnvView {
        number: block.number as nat,
        beneficiary: block.beneficiary,
        timestamp: block.timestamp as nat,
        gas_limit: block.gas_limit,
        basefee: block.base_fee,
        difficulty: if merged {
            0
        } else {
            block.difficulty
        },
        prevrandao: if merged {
            Some(block.mix_hash)
        } else {
            None
        },
        blob_excess_gas_and_price: if spec.eth_spec().includes(SpecId::Cancun) {
            Some(BlobExcessGasAndPrice { excess_blob_gas: 0, blob_gasprice: 1 })
        } else {
            None
        },
        slot_num: 0,
    }
}

/// The environment of a block of the chain `chain_id`, whose forks are scheduled by `forks`.
pub open spec fn evm_env_of(chain_id: u64, forks: OpForkSchedule, block: BlockFacts) -> EvmEnvView {
    let spec = forks.spec_at(block.timestamp);
    EvmEnvView {
        cfg_env: mainnet_cfg(chain_id, spec, spec.eth_spec()),
        block_env: block_env_under(spec, block),
    }
}

/// The gas costs on Ethereum's mainnet under the specification of the given number.
pub uninterp spec fn mainnet_gas_params(number: u8) -> Seq<u64>;

} // verus!
