//! What the operations that derive execution contexts return.

use crate::block::{
    Header, OpExecData, OpExecutionData, OpNextBlockEnvAttributes, SealedBlock, SealedHeader,
};
use crate::config::FraxtalEvmConfig;
use crate::post_exec::{
    post_exec_mode, EIP1559ParamError, OpBlockExecutionCtx, ParsedPostExecPayload, PostExecMode,
};
use crate::tx::{op_transaction, OpTransactionSigned};
use vstd::prelude::*;

verus! {

/// The context of an existing block has the parent hash, beacon root and extra data of its header,
/// whatever they are, and the given mode, or no refunds without one.
pub proof fn given_mode_is_kept<R, EvmFactory, T>(
    config: FraxtalEvmConfig<R, EvmFactory>,
    block: SealedBlock<T>,
    given: Option<PostExecMode>,
    ctx: OpBlockExecutionCtx,
)
    requires
        call_ensures(
            FraxtalEvmConfig::<R, EvmFactory>::context_for_block_with_post_exec_mode::<T>,
            (&config, &block, given),
            ctx,
        ),
    ensures
        ctx.parent_hash == block.header.header.parent_hash,
        ctx.parent_beacon_block_root == block.header.header.parent_beacon_block_root,
        ctx.extra_data@ == block.header.header.extra_data@,
        given matches Some(mode) ==> ctx.post_exec_mode == mode,
        given is None ==> ctx.post_exec_mode is Disabled,
{
}

/// Whenever an existing block has a context, the parent hash, beacon root and extra data are those
/// of its header, whatever they are. The search is handed the block's transactions, its number and
/// the switch of this node. It decides the rest: a payload that it finds is verified, without one
/// there are no refunds, and a failed search is the one reason for which there is no context.
pub proof fn block_context_shows_the_header<R, EvmFactory, T, E, F>(
    config: FraxtalEvmConfig<R, EvmFactory>,
    block: SealedBlock<T>,
    search: F,
    ctx: Result<OpBlockExecutionCtx, EIP1559ParamError>,
) where F: FnOnce(&Vec<T>, u64, bool) -> Result<Option<ParsedPostExecPayload>, E>
    requires
        call_ensures(
            FraxtalEvmConfig::<R, EvmFactory>::context_for_block::<T, E, F>,
            (&config, &block, search),
            ctx,
        ),
    ensures
        ctx matches Ok(c) ==> {
            &&& c.parent_hash == block.header.header.parent_hash
            &&& c.parent_beacon_block_root == block.header.header.parent_beacon_block_root
            &&& c.extra_data@ == block.header.header.extra_data@
        },
        exists|found: Result<Option<ParsedPostExecPayload>, E>| #[trigger]
            call_ensures(
                search,
                (&block.transactions, block.header.header.number, config.sdm_enabled),
                found,
            ) && match found {
                Ok(Some(parsed)) => ctx matches Ok(c) && c.post_exec_mode == PostExecMode::Verify(
                    parsed.payload,
                ),
                Ok(None) => ctx matches Ok(c) && c.post_exec_mode is Disabled,
                Err(_) => ctx matches Err(e) && e is InvalidPostExecPayload,
            },
{
}

/// As [`block_context_shows_the_header`], given what the search found.
pub proof fn searched_block_context_shows_the_header<R, EvmFactory, E>(
    config: FraxtalEvmConfig<R, EvmFactory>,
    header: Header,
    found: Result<Option<ParsedPostExecPayload>, E>,
    ctx: Result<OpBlockExecutionCtx, EIP1559ParamError>,
)
    requires
        call_ensures(
            FraxtalEvmConfig::<R, EvmFactory>::context_for_searched_block::<E>,
            (&config, &header, found),
            ctx,
        ),
    ensures
        ctx matches Ok(c) ==> {
            &&& c.parent_hash == header.parent_hash
            &&& c.parent_beacon_block_root == header.parent_beacon_block_root
            &&& c.extra_data@ == header.extra_data@
        },
        match found {
            Ok(Some(parsed)) => ctx matches Ok(c) && c.post_exec_mode == PostExecMode::Verify(
                parsed.payload,
            ),
            Ok(None) => ctx matches Ok(c) && c.post_exec_mode is Disabled,
            Err(_) => ctx matches Err(e) && e is InvalidPostExecPayload,
        },
{
}

/// The context of a block to build has the hash of the parent, and the beacon root and extra data
/// of the attributes, whatever they are. Its mode is the given one.
pub proof fn next_context_with_mode_shows_the_attributes<R, EvmFactory>(
    config: FraxtalEvmConfig<R, EvmFactory>,
    parent: SealedHeader,
    attributes: OpNextBlockEnvAttributes,
    mode: PostExecMode,
    ctx: OpBlockExecutionCtx,
)
    requires
        call_ensures(
            FraxtalEvmConfig::<R, EvmFactory>::context_for_next_block_with_post_exec_mode,
            (&config, &parent, attributes, mode),
            ctx,
        ),
    ensures
        ctx.parent_hash == parent.hash,
        ctx.parent_beacon_block_root == attributes.parent_beacon_block_root,
        ctx.extra_data@ == attributes.extra_data@,
        ctx.post_exec_mode == mode,
{
}

/// Every block to build has a context, with the hash of the parent, and the beacon root and extra
/// data of the attributes, whatever they are. There are no refunds.
pub proof fn next_context_shows_the_attributes<R, EvmFactory>(
    config: FraxtalEvmConfig<R, EvmFactory>,
    parent: SealedHeader,
    attributes: OpNextBlockEnvAttributes,
    ctx: Result<OpBlockExecutionCtx, EIP1559ParamError>,
)
    requires
        call_ensures(
            FraxtalEvmConfig::<R, EvmFactory>::context_for_next_block,
            (&config, &parent, attributes),
            ctx,
        ),
    ensures
        ctx matches Ok(c) && {
            &&& c.parent_hash == parent.hash
            &&& c.parent_beacon_block_root == attributes.parent_beacon_block_root
            &&& c.extra_data@ == attributes.extra_data@
            &&& c.post_exec_mode is Disabled
        },
{
}

/// Whenever a payload has a context, the parent hash, beacon root and extra data are the
/// payload's and its sidecar's, whatever they are. A transaction that does not decode leaves it
/// without one. Otherwise the search is handed the transactions, one for each encoding and in
/// order, the block's number and the switch of this node, and decides the rest as it does for a
/// block. Wrapped data make no difference.
pub proof fn payload_context_shows_the_payload<R, EvmFactory, E, F>(
    config: FraxtalEvmConfig<R, EvmFactory>,
    data: OpExecutionData,
    search: F,
    ctx: Result<OpBlockExecutionCtx, EIP1559ParamError>,
) where F: FnOnce(&Vec<OpTransactionSigned>, u64, bool) -> Result<Option<ParsedPostExecPayload>, E>
    requires
        ({
            ||| call_ensures(
                FraxtalEvmConfig::<R, EvmFactory>::context_for_payload::<E, F>,
                (&config, &data, search),
                ctx,
            )
            ||| call_ensures(
                FraxtalEvmConfig::<R, EvmFactory>::context_for_exec_data::<E, F>,
                (&config, &OpExecData(data), search),
                ctx,
            )
        }),
    ensures
        ctx matches Ok(c) ==> {
            &&& c.parent_hash == data.payload.parent_hash
            &&& c.parent_beacon_block_root == data.sidecar.parent_beacon_block_root
            &&& c.extra_data@ == data.payload.extra_data@
        },
        forall|i: int|
            0 <= i < data.payload.transactions.len() && op_transaction(
                #[trigger] data.payload.transactions[i]@,
            ) is Err ==> (ctx matches Err(e) && e is InvalidPostExecPayload),
        (forall|i: int|
            0 <= i < data.payload.transactions.len() ==> op_transaction(
                #[trigger] data.payload.transactions[i]@,
            ) is Ok) ==> exists|
            txs: Vec<OpTransactionSigned>,
            found: Result<Option<ParsedPostExecPayload>, E>,
        | #[trigger]
            call_ensures(search, (&txs, data.payload.block_number, config.sdm_enabled), found)
                && txs.len() == data.payload.transactions.len() && (forall|i: int|
                0 <= i < txs.len() ==> (#[trigger] txs[i])@ == data.payload.transactions[i]@)
                && match found {
                Ok(Some(parsed)) => ctx matches Ok(c) && c.post_exec_mode == PostExecMode::Verify(
                    parsed.payload,
                ),
                Ok(None) => ctx matches Ok(c) && c.post_exec_mode is Disabled,
                Err(_) => ctx matches Err(e) && e is InvalidPostExecPayload,
            },
{
}

/// As [`payload_context_shows_the_payload`], given what the search found.
pub proof fn searched_payload_context_shows_the_payload<R, EvmFactory, E>(
    config: FraxtalEvmConfig<R, EvmFactory>,
    data: OpExecutionData,
    found: Result<Option<ParsedPostExecPayload>, E>,
    ctx: Result<OpBlockExecutionCtx, EIP1559ParamError>,
)
    requires
        call_ensures(
            FraxtalEvmConfig::<R, EvmFactory>::context_for_searched_payload::<E>,
            (&config, &data, found),
            ctx,
        ),
    ensures
        ctx matches Ok(c) ==> {
            &&& c.parent_hash == data.payload.parent_hash
            &&& c.parent_beacon_block_root == data.sidecar.parent_beacon_block_root
            &&& c.extra_data@ == data.payload.extra_data@
        },
        match found {
            Ok(Some(parsed)) => ctx matches Ok(c) && c.post_exec_mode == PostExecMode::Verify(
                parsed.payload,
            ),
            Ok(None) => ctx matches Ok(c) && c.post_exec_mode is Disabled,
            Err(_) => ctx matches Err(e) && e is InvalidPostExecPayload,
        },
{
}

/// A payload that was found is verified as it is, without one there are no refunds, and only a
/// failed search gives an error.
pub proof fn found_payload_is_verified<E>(
    found: Result<Option<ParsedPostExecPayload>, E>,
    mode: Result<PostExecMode, EIP1559ParamError>,
)
    requires
        call_ensures(post_exec_mode::<E>, (found,), mode),
    ensures
        match found {
            Ok(Some(parsed)) => mode matches Ok(m) && m == PostExecMode::Verify(parsed.payload),
            Ok(None) => mode matches Ok(m) && m is Disabled,
            Err(_) => mode matches Err(e) && e is InvalidPostExecPayload,
        },
{
}

/// A context can be asked for whenever the search can be called on what it is handed.
pub proof fn contexts_are_owed<R, EvmFactory, T, E, F, G>(
    config: FraxtalEvmConfig<R, EvmFactory>,
    block: SealedBlock<T>,
    block_search: F,
    data: OpExecutionData,
    payload_search: G,
) where
    F: FnOnce(&Vec<T>, u64, bool) -> Result<Option<ParsedPostExecPayload>, E>,
    G: FnOnce(&Vec<OpTransactionSigned>, u64, bool) -> Result<Option<ParsedPostExecPayload>, E>,

    requires
        call_requires(
            block_search,
            (&block.transactions, block.header.header.number, config.sdm_enabled),
        ),
        forall|txs: Vec<OpTransactionSigned>| #[trigger]
            call_requires(
                payload_search,
                (&txs, data.payload.block_number, config.sdm_enabled),
            ),
    ensures
        call_requires(
            FraxtalEvmConfig::<R, EvmFactory>::context_for_block::<T, E, F>,
            (&config, &block, block_search),
        ),
        call_requires(
            FraxtalEvmConfig::<R, EvmFactory>::context_for_payload::<E, G>,
            (&config, &data, payload_search),
        ),
        call_requires(
            FraxtalEvmConfig::<R, EvmFactory>::context_for_exec_data::<E, G>,
            (&config, &OpExecData(data), payload_search),
        ),
{
}

} // verus!
