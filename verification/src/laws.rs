//! What holds of environments and contexts as a whole, and of what the operations return.

pub mod configuration;
pub mod contexts;
pub mod environments;
pub mod transactions;

use crate::block::{
    Header, OpExecutionData, OpExecutionPayload, OpNextBlockEnvAttributes, SealedHeader,
};
use crate::config::{block_ctx, next_block_ctx, payload_ctx, FraxtalEvmConfig};
use crate::env::{evm_env_of, BlockFacts};
use crate::forks::{OpForkSchedule, OpSpecId};
use crate::post_exec::{mode_after_search, EIP1559ParamError, ParsedPostExecPayload, PostExecMode};
use crate::primitives::u256_value;
use crate::tx::all_op_transactions;
use vstd::prelude::*;

verus! {

/// No passage of time switches post-execution transactions on or off.
pub proof fn sdm_is_not_scheduled<R, EvmFactory>(
    config: FraxtalEvmConfig<R, EvmFactory>,
    earlier: u64,
    later: u64,
)
    ensures
        config.sdm_active(earlier) == config.sdm_active(later),
{
}

/// Every block is executed by the rules after the merge: its difficulty is zero and its
/// randomness can be read.
pub proof fn every_block_is_after_the_merge(chain_id: u64, forks: OpForkSchedule, block: BlockFacts)
    ensures
        evm_env_of(chain_id, forks, block).block_env.difficulty == 0,
        evm_env_of(chain_id, forks, block).block_env.prevrandao == Some(block.mix_hash),
{
}

/// There is a blob gas price exactly where Ecotone or a later fork is active.
pub proof fn blob_price_since_ecotone(chain_id: u64, forks: OpForkSchedule, block: BlockFacts)
    ensures
        evm_env_of(chain_id, forks, block).block_env.blob_excess_gas_and_price is Some <==> {
            ||| forks.ecotone.active_at_timestamp(block.timestamp)
            ||| forks.fjord.active_at_timestamp(block.timestamp)
            ||| forks.granite.active_at_timestamp(block.timestamp)
            ||| forks.holocene.active_at_timestamp(block.timestamp)
            ||| forks.isthmus.active_at_timestamp(block.timestamp)
            ||| forks.jovian.active_at_timestamp(block.timestamp)
            ||| forks.karst.active_at_timestamp(block.timestamp)
            ||| forks.interop.active_at_timestamp(block.timestamp)
        },
{
}

/// What is in force under the Ethereum rules of a block stays in force in every later block.
pub proof fn rules_never_regress(forks: OpForkSchedule, earlier: u64, later: u64)
    requires
        earlier <= later,
    ensures
        forks.spec_at(later).eth_spec().includes(forks.spec_at(earlier).eth_spec()),
{
}

/// Whether a header and a payload describe the same block, as far as its environment goes. The
/// difficulty is not compared: a payload states none.
pub open spec fn same_block(header: Header, payload: OpExecutionPayload) -> bool {
    &&& header.number == payload.block_number
    &&& header.timestamp == payload.timestamp
    &&& header.beneficiary == payload.fee_recipient
    &&& header.mix_hash == payload.prev_randao
    &&& header.gas_limit == payload.gas_limit
    &&& header.base_fee_per_gas matches Some(fee) && fee == u256_value(payload.base_fee_per_gas)
}

/// A block has one environment, whether it is taken from its header or from its payload.
pub proof fn payload_and_header_give_one_env(
    chain_id: u64,
    forks: OpForkSchedule,
    header: Header,
    payload: OpExecutionPayload,
)
    requires
        same_block(header, payload),
    ensures
        evm_env_of(chain_id, forks, BlockFacts::of_header(header)) == evm_env_of(
            chain_id,
            forks,
            BlockFacts::of_payload(payload),
        ),
{
}

/// Whether `child` is the header of the block built on `parent` with `attributes` and the base
/// fee `base_fee`.
pub open spec fn built_on(
    child: Header,
    parent: SealedHeader,
    attributes: OpNextBlockEnvAttributes,
    base_fee: Option<u64>,
) -> bool {
    &&& child.number == parent.header.number + 1
    &&& child.parent_hash == parent.hash
    &&& child.timestamp == attributes.timestamp
    &&& child.beneficiary == attributes.suggested_fee_recipient
    &&& child.mix_hash == attributes.prev_randao
    &&& child.gas_limit == attributes.gas_limit
    &&& child.base_fee_per_gas == base_fee
    &&& child.parent_beacon_block_root == attributes.parent_beacon_block_root
    &&& child.extra_data@ == attributes.extra_data@
}

/// A block is built in the environment and context that it is later executed in.
pub proof fn built_as_executed(
    chain_id: u64,
    forks: OpForkSchedule,
    child: Header,
    parent: SealedHeader,
    attributes: OpNextBlockEnvAttributes,
    base_fee: Option<u64>,
    mode: PostExecMode,
)
    requires
        built_on(child, parent, attributes, base_fee),
    ensures
        evm_env_of(
            chain_id,
            forks,
            BlockFacts::of_next_block(parent.header, attributes, base_fee),
        ) == evm_env_of(chain_id, forks, BlockFacts::of_header(child)),
        next_block_ctx(parent, attributes, mode) == block_ctx(child, mode),
{
}

/// The environment of a block to build depends on its height, timestamp, fee recipient,
/// randomness, gas limit and base fee alone.
pub proof fn equal_attributes_give_one_env(
    chain_id: u64,
    forks: OpForkSchedule,
    parents: (Header, Header),
    attributes: (OpNextBlockEnvAttributes, OpNextBlockEnvAttributes),
    base_fee: Option<u64>,
)
    requires
        parents.0.number == parents.1.number,
        attributes.0.timestamp == attributes.1.timestamp,
        attributes.0.suggested_fee_recipient == attributes.1.suggested_fee_recipient,
        attributes.0.prev_randao == attributes.1.prev_randao,
        attributes.0.gas_limit == attributes.1.gas_limit,
    ensures
        evm_env_of(
            chain_id,
            forks,
            BlockFacts::of_next_block(parents.0, attributes.0, base_fee),
        ) == evm_env_of(
            chain_id,
            forks,
            BlockFacts::of_next_block(parents.1, attributes.1, base_fee),
        ),
{
}

/// A block has one execution context for each treatment of refunds, whether it is taken from its
/// header or from its payload.
pub proof fn payload_and_header_give_one_context(
    header: Header,
    data: OpExecutionData,
    mode: PostExecMode,
)
    requires
        header.parent_hash == data.payload.parent_hash,
        header.parent_beacon_block_root == data.sidecar.parent_beacon_block_root,
        header.extra_data@ == data.payload.extra_data@,
    ensures
        block_ctx(header, mode) == payload_ctx(data, mode),
{
}

/// A search for a post-execution payload leaves a block without a context exactly if it fails.
/// Otherwise refunds are verified exactly if there is a payload, and against that payload.
pub proof fn search_decides_mode<E>(found: Result<Option<ParsedPostExecPayload>, E>)
    ensures
        mode_after_search(found) is Err <==> found is Err,
        mode_after_search(found) matches Err(error) ==> error
            == EIP1559ParamError::InvalidPostExecPayload,
        found matches Ok(None) ==> mode_after_search(found) == Ok::<
            PostExecMode,
            EIP1559ParamError,
        >(PostExecMode::Disabled),
        forall|payload|
            mode_after_search(found) == Ok::<PostExecMode, EIP1559ParamError>(
                PostExecMode::Verify(payload),
            ) <==> (found matches Ok(Some(parsed)) && parsed.payload == payload),
{
}

/// Copies of encoded transactions decode exactly where the originals do, so the transactions of a
/// payload that has a context all decode when they are converted for execution.
pub proof fn copies_decode_alike(originals: Seq<Vec<u8>>, copies: Seq<Vec<u8>>)
    requires
        copies.len() == originals.len(),
        forall|i: int| 0 <= i < copies.len() ==> (#[trigger] copies[i])@ == originals[i]@,
    ensures
        all_op_transactions(originals) <==> all_op_transactions(copies),
{
    if all_op_transactions(copies) {
        assert forall|i: int| 0 <= i < originals.len() implies crate::tx::is_op_transaction(
            #[trigger] originals[i]@,
        ) by {
            assert(copies[i]@ == originals[i]@);
        }
    }
}

} // verus!
