//! The EVM configuration of a node.

use crate::block::{
    Header, NextEvmEnvAttributes, OpExecData, OpExecutionData, OpNextBlockEnvAttributes,
    SealedBlock, SealedHeader,
};
use crate::env::{evm_env_of, BlobExcessGasAndPrice, BlockEnv, BlockFacts, EvmEnv};
use crate::executor::{
    default_evm_factory, FraxtalBlockExecutorFactory, OpBlockAssembler, OpChainSpec,
    OpRethReceiptBuilder,
};
use crate::forks::SpecId;
use crate::op_env::{block_evm_env, next_block_evm_env, op_cfg_env};
use crate::post_exec::{
    mode_after_search, post_exec_mode, EIP1559ParamError, OpBlockExecutionCtx,
    OpBlockExecutionCtxView, ParsedPostExecPayload, PostExecMode,
};
use crate::primitives::{u256_from_b256, u256_from_u64, u256_to_u64, u256_value};
use crate::tx::{
    all_op_transactions, copy_encoded, decode_transactions, decoded_from, OpTransactionSigned,
};
use alloy_op_evm::{OpEvmFactory, OpTx};
use std::sync::Arc;
use vstd::prelude::*;

verus! {

/// The EVM configuration of a node: what executes and assembles its blocks, and how their
/// environments and contexts are derived.
#[derive(Debug)]
pub struct FraxtalEvmConfig<R = OpRethReceiptBuilder, EvmFactory = OpEvmFactory<OpTx>> {
    /// Makes block executors.
    pub executor_factory: FraxtalBlockExecutorFactory<R, Arc<OpChainSpec>, EvmFactory>,
    /// Assembles blocks.
    pub block_assembler: OpBlockAssembler,
    /// Whether post-execution transactions are enabled for this node. They are not scheduled by
    /// any fork: outside of integration tests this stays off.
    pub sdm_enabled: bool,
}

impl<R, EvmFactory> FraxtalEvmConfig<R, EvmFactory> {
    /// The chain that blocks are executed for.
    pub open spec fn chain(&self) -> OpChainSpec {
        *self.executor_factory.spec
    }

    /// Whether blocks are executed and assembled for the same chain.
    pub open spec fn wf(&self) -> bool {
        self.block_assembler.chain_spec == self.executor_factory.spec
    }

    /// Whether post-execution transactions are part of consensus at `timestamp`.
    pub open spec fn sdm_active(&self, timestamp: u64) -> bool {
        self.sdm_enabled
    }
}

/// The execution context of the block under `header`.
pub open spec fn block_ctx(header: Header, mode: PostExecMode) -> OpBlockExecutionCtxView {
    OpBlockExecutionCtxView {
        parent_hash: header.parent_hash,
        parent_beacon_block_root: header.parent_beacon_block_root,
        extra_data: header.extra_data@,
        post_exec_mode: mode,
    }
}

/// The execution context of the block to build on `parent` with `attributes`.
pub open spec fn next_block_ctx(
    parent: SealedHeader,
    attributes: OpNextBlockEnvAttributes,
    mode: PostExecMode,
) -> OpBlockExecutionCtxView {
    OpBlockExecutionCtxView {
        parent_hash: parent.hash,
        parent_beacon_block_root: attributes.parent_beacon_block_root,
        extra_data: attributes.extra_data@,
        post_exec_mode: mode,
    }
}

/// The execution context of the block that `data` describes.
pub open spec fn payload_ctx(data: OpExecutionData, mode: PostExecMode) -> OpBlockExecutionCtxView {
    OpBlockExecutionCtxView {
        parent_hash: data.payload.parent_hash,
        parent_beacon_block_root: data.sidecar.parent_beacon_block_root,
        extra_data: data.payload.extra_data@,
        post_exec_mode: mode,
    }
}

impl<R: Clone, EvmFactory: Clone> Clone for FraxtalEvmConfig<R, EvmFactory> {
    fn clone(&self) -> (copy: Self)
        ensures
            copy.block_assembler == self.block_assembler,
            copy.sdm_enabled == self.sdm_enabled,
            copy.executor_factory.spec == self.executor_factory.spec,
            cloned(self.executor_factory.receipt_builder, copy.executor_factory.receipt_builder),
            cloned(self.executor_factory.evm_factory, copy.executor_factory.evm_factory),
            self.wf() ==> copy.wf(),
    {
        FraxtalEvmConfig {
            executor_factory: self.executor_factory.clone(),
            block_assembler: self.block_assembler.clone(),
            sdm_enabled: self.sdm_enabled,
        }
    }
}

impl FraxtalEvmConfig {
    /// The configuration for an OP chain, with the node's own receipts.
    pub fn optimism(chain_spec: Arc<OpChainSpec>) -> (config: Self)
        ensures
            config.wf(),
            config.chain() == *chain_spec,
            config.executor_factory.receipt_builder == OpRethReceiptBuilder,
            forall|timestamp: u64| !config.sdm_active(timestamp),
    {
        Self::new(chain_spec, OpRethReceiptBuilder::default())
    }
}

impl<R> FraxtalEvmConfig<R> {
    /// The configuration for a chain, with receipts by `receipt_builder`. Post-execution
    /// transactions are disabled.
    pub fn new(chain_spec: Arc<OpChainSpec>, receipt_builder: R) -> (config: Self)
        ensures
            config.wf(),
            config.chain() == *chain_spec,
            config.executor_factory.receipt_builder == receipt_builder,
            forall|timestamp: u64| !config.sdm_active(timestamp),
    {
        FraxtalEvmConfig {
            block_assembler: OpBlockAssembler::new(chain_spec.clone()),
            executor_factory: FraxtalBlockExecutorFactory::new(
                receipt_builder,
                chain_spec,
                default_evm_factory(),
            ),
            sdm_enabled: false,
        }
    }

    /// The same configuration with post-execution transactions enabled or disabled.
    #[must_use]
    pub fn with_sdm_enabled(self, sdm_enabled: bool) -> (config: Self)
        ensures
            config == (FraxtalEvmConfig { sdm_enabled, ..self }),
            forall|timestamp: u64| config.sdm_active(timestamp) == sdm_enabled,
            self.wf() ==> config.wf(),
    {
        FraxtalEvmConfig { sdm_enabled, ..self }
    }
}

impl<R, EvmFactory> FraxtalEvmConfig<R, EvmFactory> {
    /// The chain specification of this configuration.
    pub fn chain_spec(&self) -> (spec: &Arc<OpChainSpec>)
        ensures
            *spec == self.executor_factory.spec,
    {
        self.executor_factory.spec()
    }

    /// Whether post-execution transactions are part of consensus at the given timestamp. No fork
    /// schedules them, so it is the switch of this node alone that decides.
    pub fn is_sdm_active_at_timestamp(&self, timestamp: u64) -> (active: bool)
        ensures
            active == self.sdm_active(timestamp),
    {
        self.sdm_enabled
    }

    /// What makes block executors.
    pub fn block_executor_factory(&self) -> (factory: &FraxtalBlockExecutorFactory<
        R,
        Arc<OpChainSpec>,
        EvmFactory,
    >)
        ensures
            *factory == self.executor_factory,
    {
        &self.executor_factory
    }

    /// What assembles blocks.
    pub fn block_assembler(&self) -> (assembler: &OpBlockAssembler)
        ensures
            *assembler == self.block_assembler,
    {
        &self.block_assembler
    }

    /// The environment of an existing block.
    pub fn evm_env(&self, header: &Header) -> (env: Result<EvmEnv, EIP1559ParamError>)
        ensures
            env matches Ok(e) && e@ == evm_env_of(
                self.chain().chain_id,
                self.chain().forks,
                BlockFacts::of_header(*header),
            ),
    {
        Ok(block_evm_env(header, &self.chain_spec().forks, self.chain_spec().chain_id))
    }

    /// The environment of the block to build on `parent`. `next_block_base_fee` gives the base fee
    /// that the chain sets for a child of the given block at the given timestamp. It is asked for
    /// a child of `parent` at the timestamp of `attributes`.
    pub fn next_evm_env<F>(
        &self,
        parent: &Header,
        attributes: &OpNextBlockEnvAttributes,
        next_block_base_fee: F,
    ) -> (env: Result<EvmEnv, EIP1559ParamError>) where F: FnOnce(&Header, u64) -> Option<u64>
        requires
            parent.number < u64::MAX,
            next_block_base_fee.requires((parent, attributes.timestamp)),
        ensures
            exists|base_fee: Option<u64>| #[trigger]
                next_block_base_fee.ensures((parent, attributes.timestamp), base_fee) && (
                env matches Ok(e) && e@ == evm_env_of(
                    self.chain().chain_id,
                    self.chain().forks,
                    BlockFacts::of_next_block(*parent, *attributes, base_fee),
                )),
    {
        let base_fee = next_block_base_fee(parent, attributes.timestamp);
        self.next_evm_env_at_base_fee(parent, attributes, base_fee)
    }

    /// The environment of the block to build on `parent`, given the base fee that the chain sets
    /// for it. Where the chain sets none, the fee is zero.
    pub fn next_evm_env_at_base_fee(
        &self,
        parent: &Header,
        attributes: &OpNextBlockEnvAttributes,
        base_fee: Option<u64>,
    ) -> (env: Result<EvmEnv, EIP1559ParamError>)
        requires
            parent.number < u64::MAX,
        ensures
            env matches Ok(e) && e@ == evm_env_of(
                self.chain().chain_id,
                self.chain().forks,
                BlockFacts::of_next_block(*parent, *attributes, base_fee),
            ),
    {
        Ok(
            next_block_evm_env(
                parent,
                NextEvmEnvAttributes {
                    timestamp: attributes.timestamp,
                    suggested_fee_recipient: attributes.suggested_fee_recipient,
                    prev_randao: attributes.prev_randao,
                    gas_limit: attributes.gas_limit,
                    slot_number: None,
                },
                base_fee.unwrap_or(0),
                &self.chain_spec().forks,
                self.chain_spec().chain_id,
            ),
        )
    }

    /// The environment of the block that a payload describes. Its base fee must fit in 64 bits.
    pub fn evm_env_for_payload(&self, payload: &OpExecutionData) -> (env: Result<
        EvmEnv,
        EIP1559ParamError,
    >)
        requires
            u256_value(payload.payload.base_fee_per_gas) <= u64::MAX,
        ensures
            env matches Ok(e) && e@ == evm_env_of(
                self.chain().chain_id,
                self.chain().forks,
                BlockFacts::of_payload(payload.payload),
            ),
    {
        let timestamp: u64 = payload.payload.timestamp;
        let block_number: u64 = payload.payload.block_number;

        let spec = self.chain_spec().forks.spec_by_timestamp(timestamp);

        let cfg_env = op_cfg_env(self.chain_spec().chain_id, spec);

        let blob_excess_gas_and_price = if spec.into_eth_spec().is_enabled_in(SpecId::Cancun) {
            Some(BlobExcessGasAndPrice { excess_blob_gas: 0, blob_gasprice: 1 })
        } else {
            None
        };

        let merged = spec.into_eth_spec().is_enabled_in(SpecId::Merge);

        let block_env = BlockEnv {
            number: u256_from_u64(block_number),
            beneficiary: payload.payload.fee_recipient,
            timestamp: u256_from_u64(timestamp),
            difficulty: if merged {
                u256_from_u64(0)
            } else {
                u256_from_b256(&payload.payload.prev_randao)
            },
            prevrandao: if merged {
                Some(payload.payload.prev_randao)
            } else {
                None
            },
            gas_limit: payload.payload.gas_limit,
            basefee: u256_to_u64(&payload.payload.base_fee_per_gas),
            blob_excess_gas_and_price,
            slot_num: 0,
        };

        Ok(EvmEnv { cfg_env, block_env })
    }

    /// The execution context of an existing block, with the given treatment of post-execution
    /// refunds, or the default treatment.
    pub fn context_for_block_with_post_exec_mode<T>(
        &self,
        block: &SealedBlock<T>,
        post_exec_mode: Option<PostExecMode>,
    ) -> (ctx: OpBlockExecutionCtx)
        ensures
            ctx@ == block_ctx(
                block.header.header,
                match post_exec_mode {
                    Some(mode) => mode,
                    None => PostExecMode::Disabled,
                },
            ),
    {
        OpBlockExecutionCtx {
            parent_hash: block.header.header.parent_hash,
            parent_beacon_block_root: block.header.header.parent_beacon_block_root,
            extra_data: block.header.header.extra_data.clone(),
            post_exec_mode: match post_exec_mode {
                Some(mode) => mode,
                None => PostExecMode::default(),
            },
        }
    }

    /// The execution context of the block to build on `parent`, with the given treatment of
    /// post-execution refunds.
    pub fn context_for_next_block_with_post_exec_mode(
        &self,
        parent: &SealedHeader,
        attributes: OpNextBlockEnvAttributes,
        post_exec_mode: PostExecMode,
    ) -> (ctx: OpBlockExecutionCtx)
        ensures
            ctx@ == next_block_ctx(*parent, attributes, post_exec_mode),
    {
        OpBlockExecutionCtx {
            parent_hash: parent.hash,
            parent_beacon_block_root: attributes.parent_beacon_block_root,
            extra_data: attributes.extra_data,
            post_exec_mode,
        }
    }

    /// The execution context of an existing block. `search` looks for a post-execution payload in
    /// transactions, given the number of their block and whether post-execution transactions are
    /// part of consensus. A payload that it finds is verified; if it fails, so does the context.
    pub fn context_for_block<T, E, F>(&self, block: &SealedBlock<T>, search: F) -> (ctx: Result<
        OpBlockExecutionCtx,
        EIP1559ParamError,
    >) where F: FnOnce(&Vec<T>, u64, bool) -> Result<Option<ParsedPostExecPayload>, E>
        requires
            search.requires(
                (
                    &block.transactions,
                    block.header.header.number,
                    self.sdm_active(block.header.header.timestamp),
                ),
            ),
        ensures
            exists|found: Result<Option<ParsedPostExecPayload>, E>| #[trigger]
                search.ensures(
                    (
                        &block.transactions,
                        block.header.header.number,
                        self.sdm_active(block.header.header.timestamp),
                    ),
                    found,
                ) && match mode_after_search(found) {
                    Ok(mode) => ctx matches Ok(c) && c@ == block_ctx(block.header.header, mode),
                    Err(error) => ctx matches Err(e) && e == error,
                },
    {
        let header = &block.header.header;
        let active = self.is_sdm_active_at_timestamp(header.timestamp);
        let found = search(&block.transactions, header.number, active);
        self.context_for_searched_block(header, found)
    }

    /// The execution context of the block under `header`, given what the search for a
    /// post-execution payload in its transactions found.
    pub fn context_for_searched_block<E>(
        &self,
        header: &Header,
        found: Result<Option<ParsedPostExecPayload>, E>,
    ) -> (ctx: Result<OpBlockExecutionCtx, EIP1559ParamError>)
        ensures
            match mode_after_search(found) {
                Ok(mode) => ctx matches Ok(c) && c@ == block_ctx(*header, mode),
                Err(error) => ctx matches Err(e) && e == error,
            },
    {
        match post_exec_mode(found) {
            Err(error) => Err(error),
            Ok(mode) => Ok(
                OpBlockExecutionCtx {
                    parent_hash: header.parent_hash,
                    parent_beacon_block_root: header.parent_beacon_block_root,
                    extra_data: header.extra_data.clone(),
                    post_exec_mode: mode,
                },
            ),
        }
    }

    /// The execution context of the block to build on `parent`, with the default treatment of
    /// post-execution refunds.
    pub fn context_for_next_block(
        &self,
        parent: &SealedHeader,
        attributes: OpNextBlockEnvAttributes,
    ) -> (ctx: Result<OpBlockExecutionCtx, EIP1559ParamError>)
        ensures
            ctx matches Ok(c) && c@ == next_block_ctx(*parent, attributes, PostExecMode::Disabled),
    {
        Ok(
            OpBlockExecutionCtx {
                parent_hash: parent.hash,
                parent_beacon_block_root: attributes.parent_beacon_block_root,
                extra_data: attributes.extra_data,
                post_exec_mode: PostExecMode::default(),
            },
        )
    }

    /// The execution context of the block that a payload describes. `search` is as in
    /// [`context_for_block`](Self::context_for_block). The context fails if a transaction of the
    /// payload does not decode, without a search, or if the search fails.
    pub fn context_for_payload<E, F>(&self, payload: &OpExecutionData, search: F) -> (ctx: Result<
        OpBlockExecutionCtx,
        EIP1559ParamError,
    >) where
        F: FnOnce(&Vec<OpTransactionSigned>, u64, bool) -> Result<Option<ParsedPostExecPayload>, E>,

        requires
            forall|txs: Vec<OpTransactionSigned>|
                decoded_from(txs@, payload.payload.transactions@) ==> #[trigger] search.requires(
                    (
                        &txs,
                        payload.payload.block_number,
                        self.sdm_active(payload.payload.timestamp),
                    ),
                ),
        ensures
            !all_op_transactions(payload.payload.transactions@) ==> ctx == Err::<
                OpBlockExecutionCtx,
                EIP1559ParamError,
            >(EIP1559ParamError::InvalidPostExecPayload),
            all_op_transactions(payload.payload.transactions@) ==> exists|
                txs: Vec<OpTransactionSigned>,
                found: Result<Option<ParsedPostExecPayload>, E>,
            |
                decoded_from(txs@, payload.payload.transactions@) && #[trigger] search.ensures(
                    (
                        &txs,
                        payload.payload.block_number,
                        self.sdm_active(payload.payload.timestamp),
                    ),
                    found,
                ) && match mode_after_search(found) {
                    Ok(mode) => ctx matches Ok(c) && c@ == payload_ctx(*payload, mode),
                    Err(error) => ctx matches Err(e) && e == error,
                },
    {
        let transactions = match decode_transactions(&payload.payload.transactions) {
            Err(_) => {
                return Err(EIP1559ParamError::InvalidPostExecPayload);
            },
            Ok(transactions) => transactions,
        };
        let active = self.is_sdm_active_at_timestamp(payload.payload.timestamp);
        let found = search(&transactions, payload.payload.block_number, active);
        self.context_for_searched_payload(payload, found)
    }

    /// The execution context of the block that a payload describes, given what the search for a
    /// post-execution payload in its transactions found.
    pub fn context_for_searched_payload<E>(
        &self,
        payload: &OpExecutionData,
        found: Result<Option<ParsedPostExecPayload>, E>,
    ) -> (ctx: Result<OpBlockExecutionCtx, EIP1559ParamError>)
        ensures
            match mode_after_search(found) {
                Ok(mode) => ctx matches Ok(c) && c@ == payload_ctx(*payload, mode),
                Err(error) => ctx matches Err(e) && e == error,
            },
    {
        match post_exec_mode(found) {
            Err(error) => Err(error),
            Ok(mode) => Ok(
                OpBlockExecutionCtx {
                    parent_hash: payload.payload.parent_hash,
                    parent_beacon_block_root: payload.sidecar.parent_beacon_block_root,
                    extra_data: payload.payload.extra_data.clone(),
                    post_exec_mode: mode,
                },
            ),
        }
    }

    /// The transactions of a payload, in order and still encoded. Each is to be converted with
    /// [`convert_transaction`](crate::convert_transaction), in whatever order suits.
    pub fn tx_iterator_for_payload(&self, payload: &OpExecutionData) -> (encoded: Result<
        Vec<Vec<u8>>,
        EIP1559ParamError,
    >)
        ensures
            encoded matches Ok(txs) && {
                &&& txs.len() == payload.payload.transactions.len()
                &&& forall|i: int|
                    0 <= i < txs.len() ==> (#[trigger] txs[i])@
                        == payload.payload.transactions[i]@
            },
    {
        Ok(copy_encoded(&payload.payload.transactions))
    }

    /// [`evm_env_for_payload`](Self::evm_env_for_payload) of what the payload builder hands over.
    pub fn evm_env_for_exec_data(&self, payload: &OpExecData) -> (env: Result<
        EvmEnv,
        EIP1559ParamError,
    >)
        requires
            u256_value(payload.0.payload.base_fee_per_gas) <= u64::MAX,
        ensures
            env matches Ok(e) && e@ == evm_env_of(
                self.chain().chain_id,
                self.chain().forks,
                BlockFacts::of_payload(payload.0.payload),
            ),
    {
        self.evm_env_for_payload(&payload.0)
    }

    /// [`context_for_payload`](Self::context_for_payload) of what the payload builder hands over.
    pub fn context_for_exec_data<E, F>(&self, payload: &OpExecData, search: F) -> (ctx: Result<
        OpBlockExecutionCtx,
        EIP1559ParamError,
    >) where
        F: FnOnce(&Vec<OpTransactionSigned>, u64, bool) -> Result<Option<ParsedPostExecPayload>, E>,

        requires
            forall|txs: Vec<OpTransactionSigned>|
                decoded_from(txs@, payload.0.payload.transactions@) ==> #[trigger] search.requires(
                    (
                        &txs,
                        payload.0.payload.block_number,
                        self.sdm_active(payload.0.payload.timestamp),
                    ),
                ),
        ensures
            !all_op_transactions(payload.0.payload.transactions@) ==> ctx == Err::<
                OpBlockExecutionCtx,
                EIP1559ParamError,
            >(EIP1559ParamError::InvalidPostExecPayload),
            all_op_transactions(payload.0.payload.transactions@) ==> exists|
                txs: Vec<OpTransactionSigned>,
                found: Result<Option<ParsedPostExecPayload>, E>,
            |
                decoded_from(txs@, payload.0.payload.transactions@) && #[trigger] search.ensures(
                    (
                        &txs,
                        payload.0.payload.block_number,
                        self.sdm_active(payload.0.payload.timestamp),
                    ),
                    found,
                ) && match mode_after_search(found) {
                    Ok(mode) => ctx matches Ok(c) && c@ == payload_ctx(payload.0, mode),
                    Err(error) => ctx matches Err(e) && e == error,
                },
    {
        self.context_for_payload(&payload.0, search)
    }

    /// [`tx_iterator_for_payload`](Self::tx_iterator_for_payload) of what the payload builder
    /// hands over.
    pub fn tx_iterator_for_exec_data(&self, payload: &OpExecData) -> (encoded: Result<
        Vec<Vec<u8>>,
        EIP1559ParamError,
    >)
        ensures
            encoded matches Ok(txs) && {
                &&& txs.len() == payload.0.payload.transactions.len()
                &&& forall|i: int|
                    0 <= i < txs.len() ==> (#[trigger] txs[i])@
                        == payload.0.payload.transactions[i]@
            },
    {
        self.tx_iterator_for_payload(&payload.0)
    }
}

} // verus!
