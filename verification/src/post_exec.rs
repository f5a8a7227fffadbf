//! Post-execution payloads and the context that a block is executed in.

use crate::primitives::B256;
use vstd::prelude::*;

verus! {

/// The gas refund of one transaction.
#[derive(Clone, Copy, Debug, PartialEq, Eq, Structural)]
pub struct SDMGasEntry {
    /// Index of the transaction in its block.
    pub index: u64,
    /// Gas refunded after execution.
    pub gas_refund: u64,
}

/// What a post-execution transaction carries.
#[derive(Clone, Debug, PartialEq, Eq)]
pub struct PostExecPayload {
    /// Format version.
    pub version: u8,
    /// Number of the block that the payload belongs to.
    pub block_number: u64,
    /// The refunds, by transaction.
    pub gas_refund_entries: Vec<SDMGasEntry>,
}

/// What was found when the transactions of a block were searched for a post-execution payload.
#[derive(Clone, Debug, PartialEq, Eq)]
pub struct ParsedPostExecPayload {
    /// The payload.
    pub payload: PostExecPayload,
}

/// How post-execution refunds are treated when a block is executed.
#[derive(Clone, Debug, PartialEq, Eq)]
pub enum PostExecMode {
    /// There are none.
    Disabled,
    /// They are computed for a new post-execution transaction.
    Produce,
    /// They are checked against the payload of the block's post-execution transaction.
    Verify(PostExecPayload),
}

impl Default for PostExecMode {
    fn default() -> (mode: PostExecMode)
        ensures
            mode == PostExecMode::Disabled,
    {
        PostExecMode::Disabled
    }
}

/// Why a block or payload has no environment or execution context.
#[derive(Clone, Copy, Debug, PartialEq, Eq, Structural)]
pub enum EIP1559ParamError {
    /// The transactions hold no valid post-execution payload where there must be one, or hold one
    /// where there must be none.
    InvalidPostExecPayload,
}

/// The context that a block is executed in, besides its environment.
#[derive(Clone, Debug, PartialEq, Eq)]
pub struct OpBlockExecutionCtx {
    /// Hash of the parent block.
    pub parent_hash: B256,
    /// Root of the parent beacon block.
    pub parent_beacon_block_root: Option<B256>,
    /// Extra data of the block.
    pub extra_data: Vec<u8>,
    /// Treatment of post-execution refunds.
    pub post_exec_mode: PostExecMode,
}

/// The mathematical content of an [`OpBlockExecutionCtx`].
pub struct OpBlockExecutionCtxView {
    pub parent_hash: B256,
    pub parent_beacon_block_root: Option<B256>,
    pub extra_data: Seq<u8>,
    pub post_exec_mode: PostExecMode,
}

impl View for OpBlockExecutionCtx {
    type V = OpBlockExecutionCtxView;

    open spec fn view(&self) -> OpBlockExecutionCtxView {
        OpBlockExecutionCtxView {
            parent_hash: self.parent_hash,
            parent_beacon_block_root: self.parent_beacon_block_root,
            extra_data: self.extra_data@,
            post_exec_mode: self.post_exec_mode,
        }
    }
}

/// The mode that follows from a search for a post-execution payload: a payload that was found is
/// verified, without one the mode is the default, and a failed search is an error.
pub open spec fn mode_after_search<E>(found: Result<Option<ParsedPostExecPayload>, E>) -> Result<
    PostExecMode,
    EIP1559ParamError,
> {
    match found {
        Ok(Some(parsed)) => Ok(PostExecMode::Verify(parsed.payload)),
        Ok(None) => Ok(PostExecMode::Disabled),
        Err(_) => Err(EIP1559ParamError::InvalidPostExecPayload),
    }
}

/// The mode that follows from a search for a post-execution payload.
pub fn post_exec_mode<E>(found: Result<Option<ParsedPostExecPayload>, E>) -> (mode: Result<
    PostExecMode,
    EIP1559ParamError,
>)
    ensures
        mode == mode_after_search(found),
{
    match found {
        Ok(Some(parsed)) => Ok(PostExecMode::Verify(parsed.payload)),
        Ok(None) => Ok(PostExecMode::default()),
        Err(_) => Err(EIP1559ParamError::InvalidPostExecPayload),
    }
}

} // verus!
