//! Headers, blocks, payloads and the attributes of a block to build.

use crate::primitives::{Address, Bloom, B256, U256};
use vstd::prelude::*;

verus! {

/// A block header.
#[derive(Clone, Debug, PartialEq, Eq)]
pub struct Header {
    /// Hash of the parent block.
    pub parent_hash: B256,
    /// Hash of the list of ommers.
    pub ommers_hash: B256,
    /// Receiver of the block's fees.
    pub beneficiary: Address,
    /// Root of the state after the block.
    pub state_root: B256,
    /// Root of the block's transactions.
    pub transactions_root: B256,
    /// Root of the receipts of the block's transactions.
    pub receipts_root: B256,
    /// Bloom filter over the logs of the block.
    pub logs_bloom: Bloom,
    /// Difficulty of the block.
    pub difficulty: U256,
    /// Height of the block.
    pub number: u64,
    /// Gas limit of the block.
    pub gas_limit: u64,
    /// Gas that the block's transactions used.
    pub gas_used: u64,
    /// Seconds since the Unix epoch.
    pub timestamp: u64,
    /// Arbitrary data.
    pub extra_data: Vec<u8>,
    /// Randomness of the beacon chain.
    pub mix_hash: B256,
    /// Nonce of a mined block.
    pub nonce: [u8; 8],
    /// Base fee per gas, absent before London.
    pub base_fee_per_gas: Option<u64>,
    /// Root of the block's withdrawals, absent before Canyon.
    pub withdrawals_root: Option<B256>,
    /// Blob gas that the block used, absent before Ecotone.
    pub blob_gas_used: Option<u64>,
    /// Excess blob gas of the block, absent before Ecotone.
    pub excess_blob_gas: Option<u64>,
    /// Root of the parent beacon block, absent before Ecotone.
    pub parent_beacon_block_root: Option<B256>,
    /// Hash of the block's requests, absent before Isthmus.
    pub requests_hash: Option<B256>,
    /// Hash of the block's access list, where it has one.
    pub block_access_list_hash: Option<B256>,
    /// Slot number of the block, where it has one.
    pub slot_number: Option<u64>,
}

/// A header together with its hash.
#[derive(Clone, Debug, PartialEq, Eq)]
pub struct SealedHeader {
    /// The header.
    pub header: Header,
    /// The hash of the header.
    pub hash: B256,
}

/// A block of transactions of type `T`, under a sealed header.
#[derive(Clone, Debug, PartialEq, Eq)]
pub struct SealedBlock<T> {
    /// The header and its hash.
    pub header: SealedHeader,
    /// The transactions of the body.
    pub transactions: Vec<T>,
}

/// What is known of the next block before it is built.
#[derive(Clone, Debug, PartialEq, Eq)]
pub struct OpNextBlockEnvAttributes {
    /// The timestamp of the next block.
    pub timestamp: u64,
    /// The receiver of the next block's fees.
    pub suggested_fee_recipient: Address,
    /// The randomness of the next block.
    pub prev_randao: B256,
    /// The gas limit of the next block.
    pub gas_limit: u64,
    /// The root of the parent beacon block.
    pub parent_beacon_block_root: Option<B256>,
    /// The extra data of the next block.
    pub extra_data: Vec<u8>,
}

/// The part of the attributes that the environment of the next block is made from.
#[derive(Clone, Debug, PartialEq, Eq)]
pub struct NextEvmEnvAttributes {
    /// The timestamp of the next block.
    pub timestamp: u64,
    /// The receiver of the next block's fees.
    pub suggested_fee_recipient: Address,
    /// The randomness of the next block.
    pub prev_randao: B256,
    /// The gas limit of the next block.
    pub gas_limit: u64,
    /// The slot number of the next block.
    pub slot_number: Option<u64>,
}

/// The fields of an engine payload that execution reads. Every payload version has them.
#[derive(Clone, Debug, PartialEq, Eq)]
pub struct OpExecutionPayload {
    /// Hash of the parent block.
    pub parent_hash: B256,
    /// Receiver of the block's fees.
    pub fee_recipient: Address,
    /// Randomness of the beacon chain.
    pub prev_randao: B256,
    /// Height of the block.
    pub block_number: u64,
    /// Gas limit of the block.
    pub gas_limit: u64,
    /// Seconds since the Unix epoch.
    pub timestamp: u64,
    /// Arbitrary data.
    pub extra_data: Vec<u8>,
    /// Base fee per gas.
    pub base_fee_per_gas: U256,
    /// The transactions in their EIP-2718 encoding.
    pub transactions: Vec<Vec<u8>>,
}

/// The parameters that accompany a payload.
#[derive(Clone, Debug, PartialEq, Eq)]
pub struct OpExecutionPayloadSidecar {
    /// The root of the parent beacon block, absent before Ecotone.
    pub parent_beacon_block_root: Option<B256>,
}

/// A payload with its sidecar, as the engine API delivers it.
#[derive(Clone, Debug, PartialEq, Eq)]
pub struct OpExecutionData {
    /// The payload.
    pub payload: OpExecutionPayload,
    /// The sidecar.
    pub sidecar: OpExecutionPayloadSidecar,
}

/// The execution data that the payload builder hands over.
#[derive(Clone, Debug, PartialEq, Eq)]
pub struct OpExecData(pub OpExecutionData);

} // verus!
