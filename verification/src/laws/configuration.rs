//! What the operations that make and read a configuration return.

use crate::config::FraxtalEvmConfig;
use crate::executor::{FraxtalBlockExecutorFactory, OpBlockAssembler, OpChainSpec};
use std::sync::Arc;
use vstd::prelude::*;

verus! {

/// A new configuration executes and assembles blocks for the given chain, builds receipts with the
/// given builder, and has post-execution transactions switched off.
pub proof fn new_config_is_for_the_chain<R>(
    chain_spec: Arc<OpChainSpec>,
    receipt_builder: R,
    config: FraxtalEvmConfig<R>,
)
    requires
        call_ensures(FraxtalEvmConfig::<R>::new, (chain_spec, receipt_builder), config),
    ensures
        config.executor_factory.spec == chain_spec,
        config.block_assembler.chain_spec == chain_spec,
        config.executor_factory.receipt_builder == receipt_builder,
        !config.sdm_enabled,
{
    assert(!config.sdm_active(0));
}

/// The configuration for an OP chain is one for that chain, with post-execution transactions
/// switched off.
pub proof fn optimism_config_is_for_the_chain(
    chain_spec: Arc<OpChainSpec>,
    config: FraxtalEvmConfig,
)
    requires
        call_ensures(FraxtalEvmConfig::optimism, (chain_spec,), config),
    ensures
        config.executor_factory.spec == chain_spec,
        config.block_assembler.chain_spec == chain_spec,
        !config.sdm_enabled,
{
    assert(!config.sdm_active(0));
}

/// The switch for post-execution transactions is what was last set, at every timestamp, and
/// setting it changes nothing else.
pub proof fn switch_is_what_was_set<R>(
    before: FraxtalEvmConfig<R>,
    switch: bool,
    after: FraxtalEvmConfig<R>,
    timestamp: u64,
    active: bool,
)
    requires
        call_ensures(FraxtalEvmConfig::<R>::with_sdm_enabled, (before, switch), after),
        call_ensures(
            FraxtalEvmConfig::<R>::is_sdm_active_at_timestamp,
            (&after, timestamp),
            active,
        ),
    ensures
        active == switch,
        after.sdm_enabled == switch,
        after.executor_factory == before.executor_factory,
        after.block_assembler == before.block_assembler,
{
}

/// Post-execution transactions are part of consensus exactly if the switch of the node is on,
/// whatever the timestamp.
pub proof fn switch_alone_decides<R, EvmFactory>(
    config: FraxtalEvmConfig<R, EvmFactory>,
    timestamp: u64,
    active: bool,
)
    requires
        call_ensures(
            FraxtalEvmConfig::<R, EvmFactory>::is_sdm_active_at_timestamp,
            (&config, timestamp),
            active,
        ),
    ensures
        active == config.sdm_enabled,
{
}

/// A configuration hands out its own parts, and the chain specification is that of its executor
/// factory.
pub proof fn config_hands_out_its_parts<R, EvmFactory>(
    config: FraxtalEvmConfig<R, EvmFactory>,
    spec: Arc<OpChainSpec>,
    factory: FraxtalBlockExecutorFactory<R, Arc<OpChainSpec>, EvmFactory>,
    assembler: OpBlockAssembler,
)
    requires
        call_ensures(FraxtalEvmConfig::<R, EvmFactory>::chain_spec, (&config,), &spec),
        call_ensures(
            FraxtalEvmConfig::<R, EvmFactory>::block_executor_factory,
            (&config,),
            &factory,
        ),
        call_ensures(FraxtalEvmConfig::<R, EvmFactory>::block_assembler, (&config,), &assembler),
    ensures
        spec == config.executor_factory.spec,
        factory == config.executor_factory,
        assembler == config.block_assembler,
{
}

} // verus!
