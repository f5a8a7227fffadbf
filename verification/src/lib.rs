//! EVM configuration of Fraxtal nodes: the environments and contexts that blocks of an OP chain
//! are executed in, derived from headers, payloads and attributes.

pub mod block;
pub mod config;
pub mod env;
pub mod executor;
pub mod forks;
pub mod laws;
mod op_env;
pub mod post_exec;
pub mod primitives;
pub mod tx;

pub use alloy_op_evm::{OpEvm as FraxtalEvm, OpEvmFactory as FraxtalEvmFactory};
pub use block::{
    Header, NextEvmEnvAttributes, OpExecData, OpExecutionData, OpExecutionPayload,
    OpExecutionPayloadSidecar, OpNextBlockEnvAttributes, SealedBlock, SealedHeader,
};
pub use config::FraxtalEvmConfig;
pub use env::{BlobExcessGasAndPrice, BlockEnv, CfgEnv, EvmEnv};
pub use executor::{
    FraxtalBlockExecutorFactory, OpBlockAssembler, OpChainSpec, OpRethReceiptBuilder,
};
pub use forks::{ForkCondition, OpForkSchedule, OpSpecId, SpecId};
pub use post_exec::{
    post_exec_mode, EIP1559ParamError, OpBlockExecutionCtx, ParsedPostExecPayload, PostExecMode,
    PostExecPayload, SDMGasEntry,
};
pub use primitives::{u256_from_b256, Address, Bloom, B256, U256};
pub use tx::{
    attach_signer, convert_transaction, decode_transactions, OpTransactionSigned, Recovered,
    TransactionError, WithEncoded,
};
