//! Environments as `revm` and `alloy_op_evm` build them.

use crate::block::{Header, NextEvmEnvAttributes};
use crate::env::{
    block_env_under, evm_env_of, mainnet_cfg, mainnet_gas_params, numbered_cfg,
    BlobExcessGasAndPrice, BlockEnv, BlockFacts, CfgEnv, EvmEnv,
};
use crate::forks::{holds_every_fork, schedule_of, OpForkSchedule, OpSpecId};
use alloy_consensus::Header as AlloyHeader;
use alloy_evm::eth::NextEvmEnvAttributes as AlloyAttributes;
use alloy_op_evm::{evm_env_for_op_block, evm_env_for_op_next_block};
use alloy_op_hardforks::OpChainHardforks;
use alloy_primitives::U256 as AlloyU256;
use op_revm::OpSpecId::{
    BEDROCK, CANYON, ECOTONE, FJORD, GRANITE, HOLOCENE, INTEROP, ISTHMUS, JOVIAN, KARST, REGOLITH,
};
use vstd::prelude::*;

verus! {

/// `CfgEnv::new`, `with_chain_id` and `with_spec_and_mainnet_gas_params` of `revm`, one after the
/// other, with the number of the specification for the specification: the settings of the chain
/// `chain_id` under `spec`, at the gas costs of Ethereum's mainnet, which depend on the
/// specification alone.
#[verifier::external_body]
fn cfg_env_new(chain_id: u64, spec: OpSpecId) -> (cfg: CfgEnv<u8>)
    ensures
        cfg.gas_params@ == mainnet_gas_params(spec.eth_spec().number()),
        cfg@ == numbered_cfg(chain_id, spec),
{
    let spec = [BEDROCK, REGOLITH, CANYON, ECOTONE, FJORD, GRANITE, HOLOCENE, ISTHMUS, JOVIAN,
        KARST, INTEROP][spec as usize];
    let new = revm::context::CfgEnv::new().with_chain_id(chain_id);
    let c = new.with_spec_and_mainnet_gas_params(spec);
    CfgEnv {
        spec: c.spec as u8, gas_params: *c.gas_params.table(), chain_id: c.chain_id,
        tx_chain_id_check: c.tx_chain_id_check, disable_nonce_check: c.disable_nonce_check,
        limit_contract_code_size: c.limit_contract_code_size, max_blobs_per_tx: c.max_blobs_per_tx,
        limit_contract_initcode_size: c.limit_contract_initcode_size,
        blob_base_fee_update_fraction: c.blob_base_fee_update_fraction,
        tx_gas_limit_cap: c.tx_gas_limit_cap, enable_amsterdam_eip8037: c.enable_amsterdam_eip8037,
        amsterdam_eip7708_disabled: c.amsterdam_eip7708_disabled,
        amsterdam_eip7708_delayed_burn_disabled: c.amsterdam_eip7708_delayed_burn_disabled,
    }
}

/// The block environment of `evm_env_for_op_block` of `alloy_op_evm`: that of the block under
/// the specification that the hardfork list selects at its timestamp. The call reads no more of
/// the header than is handed to it here.
#[verifier::external_body]
fn block_env_for_op_block(header: &Header, forks: &OpChainHardforks, chain_id: u64) -> (env:
    BlockEnv)
    requires
        holds_every_fork(*forks),
    ensures
        env@ == block_env_under(
            schedule_of(*forks).spec_at(header.timestamp),
            BlockFacts::of_header(*header),
        ),
{
    let block = AlloyHeader { number: header.number, timestamp: header.timestamp,
        gas_limit: header.gas_limit, base_fee_per_gas: header.base_fee_per_gas,
        beneficiary: header.beneficiary.into(), mix_hash: header.mix_hash.into(),
        difficulty: AlloyU256::from_limbs(header.difficulty), ..Default::default() };
    let env = evm_env_for_op_block(&block, forks, chain_id).block_env;
    BlockEnv {
        number: *env.number.as_limbs(), beneficiary: env.beneficiary.into_array(),
        timestamp: *env.timestamp.as_limbs(), gas_limit: env.gas_limit, basefee: env.basefee,
        difficulty: *env.difficulty.as_limbs(), prevrandao: env.prevrandao.map(|hash| hash.0),
        slot_num: env.slot_num,
        blob_excess_gas_and_price: env.blob_excess_gas_and_price.map(|blob| BlobExcessGasAndPrice {
            excess_blob_gas: blob.excess_blob_gas, blob_gasprice: blob.blob_gasprice,
        }),
    }
}

/// The settings of `evm_env_for_op_block` of `alloy_op_evm`, with the number of the specification
/// for the specification: those of the chain under the specification that the hardfork list
/// selects at the block's timestamp. The call reads no more of the header than is handed to it
/// here.
#[verifier::external_body]
fn cfg_env_for_op_block(header: &Header, forks: &OpChainHardforks, chain_id: u64) -> (cfg: CfgEnv<
    u8,
>)
    requires
        holds_every_fork(*forks),
    ensures
        cfg@ == numbered_cfg(chain_id, schedule_of(*forks).spec_at(header.timestamp)),
{
    let block = AlloyHeader { number: header.number, timestamp: header.timestamp,
        gas_limit: header.gas_limit, base_fee_per_gas: header.base_fee_per_gas,
        beneficiary: header.beneficiary.into(), mix_hash: header.mix_hash.into(),
        difficulty: AlloyU256::from_limbs(header.difficulty), ..Default::default() };
    let c = evm_env_for_op_block(&block, forks, chain_id).cfg_env;
    CfgEnv {
        spec: c.spec as u8, gas_params: *c.gas_params.table(), chain_id: c.chain_id,
        tx_chain_id_check: c.tx_chain_id_check, disable_nonce_check: c.disable_nonce_check,
        limit_contract_code_size: c.limit_contract_code_size, max_blobs_per_tx: c.max_blobs_per_tx,
        limit_contract_initcode_size: c.limit_contract_initcode_size,
        blob_base_fee_update_fraction: c.blob_base_fee_update_fraction,
        tx_gas_limit_cap: c.tx_gas_limit_cap, enable_amsterdam_eip8037: c.enable_amsterdam_eip8037,
        amsterdam_eip7708_disabled: c.amsterdam_eip7708_disabled,
        amsterdam_eip7708_delayed_burn_disabled: c.amsterdam_eip7708_delayed_burn_disabled,
    }
}

/// The block environment of `evm_env_for_op_next_block` of `alloy_op_evm`: that of the child of a
/// block of the given number, under the specification that the hardfork list selects at the
/// child's timestamp. Of the parent the call reads the number alone, which must have a successor.
#[verifier::external_body]
fn block_env_for_op_next_block(
    parent_number: u64,
    next: &NextEvmEnvAttributes,
    base_fee: u64,
    forks: &OpChainHardforks,
    chain_id: u64,
) -> (env: BlockEnv)
    requires
        parent_number < u64::MAX,
        holds_every_fork(*forks),
    ensures
        env@ == block_env_under(
            schedule_of(*forks).spec_at(next.timestamp),
            BlockFacts::of_child(parent_number, *next, base_fee),
        ),
{
    let parent = AlloyHeader { number: parent_number, ..Default::default() };
    let next = AlloyAttributes { timestamp: next.timestamp, gas_limit: next.gas_limit,
        suggested_fee_recipient: next.suggested_fee_recipient.into(),
        prev_randao: next.prev_randao.into(), slot_number: next.slot_number };
    let env = evm_env_for_op_next_block(&parent, next, base_fee, forks, chain_id).block_env;
    BlockEnv {
        number: *env.number.as_limbs(), beneficiary: env.beneficiary.into_array(),
        timestamp: *env.timestamp.as_limbs(), gas_limit: env.gas_limit, basefee: env.basefee,
        difficulty: *env.difficulty.as_limbs(), prevrandao: env.prevrandao.map(|hash| hash.0),
        slot_num: env.slot_num,
        blob_excess_gas_and_price: env.blob_excess_gas_and_price.map(|blob| BlobExcessGasAndPrice {
            excess_blob_gas: blob.excess_blob_gas, blob_gasprice: blob.blob_gasprice,
        }),
    }
}

/// The settings of `evm_env_for_op_next_block` of `alloy_op_evm`, with the number of the
/// specification for the specification: those of the chain under the specification that the
/// hardfork list selects at the child's timestamp. Of the parent the call reads the number alone,
/// which must have a successor.
#[verifier::external_body]
fn cfg_env_for_op_next_block(
    parent_number: u64,
    next: &NextEvmEnvAttributes,
    base_fee: u64,
    forks: &OpChainHardforks,
    chain_id: u64,
) -> (cfg: CfgEnv<u8>)
    requires
        parent_number < u64::MAX,
        holds_every_fork(*forks),
    ensures
        cfg@ == numbered_cfg(chain_id, schedule_of(*forks).spec_at(next.timestamp)),
{
    let parent = AlloyHeader { number: parent_number, ..Default::default() };
    let next = AlloyAttributes { timestamp: next.timestamp, gas_limit: next.gas_limit,
        suggested_fee_recipient: next.suggested_fee_recipient.into(),
        prev_randao: next.prev_randao.into(), slot_number: next.slot_number };
    let c = evm_env_for_op_next_block(&parent, next, base_fee, forks, chain_id).cfg_env;
    CfgEnv {
        spec: c.spec as u8, gas_params: *c.gas_params.table(), chain_id: c.chain_id,
        tx_chain_id_check: c.tx_chain_id_check, disable_nonce_check: c.disable_nonce_check,
        limit_contract_code_size: c.limit_contract_code_size, max_blobs_per_tx: c.max_blobs_per_tx,
        limit_contract_initcode_size: c.limit_contract_initcode_size,
        blob_base_fee_update_fraction: c.blob_base_fee_update_fraction,
        tx_gas_limit_cap: c.tx_gas_limit_cap, enable_amsterdam_eip8037: c.enable_amsterdam_eip8037,
        amsterdam_eip7708_disabled: c.amsterdam_eip7708_disabled,
        amsterdam_eip7708_delayed_burn_disabled: c.amsterdam_eip7708_delayed_burn_disabled,
    }
}

impl CfgEnv<u8> {
    /// The same settings, with the specification itself for its number.
    fn with_named_spec(self) -> (cfg: CfgEnv<OpSpecId>)
        requires
            exists|spec: OpSpecId| spec.number() == self.spec,
        ensures
            forall|chain_id: u64, spec: OpSpecId|
                self@ == numbered_cfg(chain_id, spec) ==> cfg@ == mainnet_cfg(
                    chain_id,
                    spec,
                    spec.eth_spec(),
                ),
    {
        CfgEnv {
            spec: OpSpecId::of_number(self.spec),
            gas_params: self.gas_params,
            chain_id: self.chain_id,
            tx_chain_id_check: self.tx_chain_id_check,
            limit_contract_code_size: self.limit_contract_code_size,
            limit_contract_initcode_size: self.limit_contract_initcode_size,
            disable_nonce_check: self.disable_nonce_check,
            max_blobs_per_tx: self.max_blobs_per_tx,
            blob_base_fee_update_fraction: self.blob_base_fee_update_fraction,
            tx_gas_limit_cap: self.tx_gas_limit_cap,
            enable_amsterdam_eip8037: self.enable_amsterdam_eip8037,
            amsterdam_eip7708_disabled: self.amsterdam_eip7708_disabled,
            amsterdam_eip7708_delayed_burn_disabled: self.amsterdam_eip7708_delayed_burn_disabled,
        }
    }
}

/// The environment of the block under `header`.
pub(crate) fn block_evm_env(header: &Header, schedule: &OpForkSchedule, chain_id: u64) -> (env:
    EvmEnv)
    ensures
        env@ == evm_env_of(chain_id, *schedule, BlockFacts::of_header(*header)),
{
    let forks = schedule.hardforks();
    EvmEnv {
        cfg_env: cfg_env_for_op_block(header, &forks, chain_id).with_named_spec(),
        block_env: block_env_for_op_block(header, &forks, chain_id),
    }
}

/// The environment of the child of `parent` that is built with `attributes`.
pub(crate) fn next_block_evm_env(
    parent: &Header,
    attributes: NextEvmEnvAttributes,
    base_fee: u64,
    schedule: &OpForkSchedule,
    chain_id: u64,
) -> (env: EvmEnv)
    requires
        parent.number < u64::MAX,
    ensures
        env@ == evm_env_of(
            chain_id,
            *schedule,
            BlockFacts::of_child(parent.number, attributes, base_fee),
        ),
{
    let forks = schedule.hardforks();
    let number: u64 = parent.number;
    EvmEnv {
        cfg_env: cfg_env_for_op_next_block(
            number,
            &attributes,
            base_fee,
            &forks,
            chain_id,
        ).with_named_spec(),
        block_env: block_env_for_op_next_block(number, &attributes, base_fee, &forks, chain_id),
    }
}

/// The settings of the chain `chain_id` under `spec`.
pub(crate) fn op_cfg_env(chain_id: u64, spec: OpSpecId) -> (cfg: CfgEnv<OpSpecId>)
    ensures
        cfg@ == mainnet_cfg(chain_id, spec, spec.eth_spec()),
{
    cfg_env_new(chain_id, spec).with_named_spec()
}

} // verus!
