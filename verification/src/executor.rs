//! What the configuration hands to block execution and block assembly.

use crate::forks::OpForkSchedule;
use alloy_op_evm::{OpEvmFactory, OpTx};
use std::sync::Arc;
use vstd::prelude::*;

verus! {

#[verifier::external_type_specification]
#[verifier::external_body]
#[verifier::reject_recursive_types(Tx)]
pub struct ExOpEvmFactory<Tx>(OpEvmFactory<Tx>);

#[verifier::external_type_specification]
#[verifier::external_body]
pub struct ExOpTx(OpTx);

/// `OpEvmFactory::default` of `alloy_op_evm`, for transactions of type `OpTx`. The factory is a
/// marker without content.
#[verifier::external_body]
pub(crate) fn default_evm_factory() -> OpEvmFactory<OpTx> {
    OpEvmFactory::<OpTx>::default()
}

/// The chain that a node runs.
#[derive(Clone, Copy, Debug, PartialEq, Eq)]
pub struct OpChainSpec {
    /// The chain id.
    pub chain_id: u64,
    /// The activation of the chain's forks.
    pub forks: OpForkSchedule,
}

/// Builds the receipts of a node's own receipt type.
#[derive(Clone, Copy, Debug, PartialEq, Eq)]
pub struct OpRethReceiptBuilder;

impl Default for OpRethReceiptBuilder {
    fn default() -> (builder: OpRethReceiptBuilder)
        ensures
            builder == OpRethReceiptBuilder,
    {
        OpRethReceiptBuilder
    }
}

/// Makes block executors.
#[derive(Debug)]
pub struct FraxtalBlockExecutorFactory<R, Spec, EvmFactory> {
    /// Builds receipts.
    pub receipt_builder: R,
    /// The chain specification.
    pub spec: Spec,
    /// Makes EVMs.
    pub evm_factory: EvmFactory,
}

impl<R, Spec, EvmFactory> FraxtalBlockExecutorFactory<R, Spec, EvmFactory> {
    /// A factory of the given parts.
    pub fn new(receipt_builder: R, spec: Spec, evm_factory: EvmFactory) -> (factory: Self)
        ensures
            factory.receipt_builder == receipt_builder,
            factory.spec == spec,
            factory.evm_factory == evm_factory,
    {
        FraxtalBlockExecutorFactory { receipt_builder, spec, evm_factory }
    }

    /// The chain specification.
    pub fn spec(&self) -> (spec: &Spec)
        ensures
            *spec == self.spec,
    {
        &self.spec
    }
}

impl<R: Clone, Spec, EvmFactory: Clone> Clone for FraxtalBlockExecutorFactory<
    R,
    Arc<Spec>,
    EvmFactory,
> {
    fn clone(&self) -> (copy: Self)
        ensures
            cloned(self.receipt_builder, copy.receipt_builder),
            copy.spec == self.spec,
            cloned(self.evm_factory, copy.evm_factory),
    {
        FraxtalBlockExecutorFactory {
            receipt_builder: self.receipt_builder.clone(),
            spec: self.spec.clone(),
            evm_factory: self.evm_factory.clone(),
        }
    }
}

/// Assembles the blocks of a chain.
#[derive(Debug)]
pub struct OpBlockAssembler {
    /// The chain specification.
    pub chain_spec: Arc<OpChainSpec>,
}

impl OpBlockAssembler {
    /// An assembler for the given chain.
    pub fn new(chain_spec: Arc<OpChainSpec>) -> (assembler: OpBlockAssembler)
        ensures
            assembler.chain_spec == chain_spec,
    {
        OpBlockAssembler { chain_spec }
    }
}

impl Clone for OpBlockAssembler {
    fn clone(&self) -> (copy: OpBlockAssembler)
        ensures
            copy == *self,
    {
        OpBlockAssembler { chain_spec: self.chain_spec.clone() }
    }
}

} // verus!
