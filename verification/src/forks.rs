//! Hardforks of an OP chain and the EVM specifications that they select.

use crate::primitives::U256;
use alloy_op_hardforks::{OpChainHardforks, OpHardfork};
use op_revm::OpSpecId as RevmOpSpecId;
use vstd::prelude::*;

verus! {

/// The condition at which a fork is activated.
#[derive(Clone, Copy, Debug, PartialEq, Eq)]
pub enum ForkCondition {
    /// Active from a block number on.
    Block(u64),
    /// Active once a total difficulty has been reached.
    TTD {
        /// The first block after the merge.
        activation_block_number: u64,
        /// The block at which the difficulty is reached, if it is known.
        fork_block: Option<u64>,
        /// The total difficulty that activates the fork.
        total_difficulty: U256,
    },
    /// Active from a timestamp on.
    Timestamp(u64),
    /// Never active.
    Never,
}

impl ForkCondition {
    /// Whether the condition is met at `timestamp`. Only a timestamp condition ever is.
    pub open spec fn active_at_timestamp(self, timestamp: u64) -> bool {
        self matches ForkCondition::Timestamp(start) && start <= timestamp
    }
}

/// When each fork of an OP chain is activated.
#[derive(Clone, Copy, Debug, PartialEq, Eq)]
pub struct OpForkSchedule {
    pub bedrock: ForkCondition,
    pub regolith: ForkCondition,
    pub canyon: ForkCondition,
    pub ecotone: ForkCondition,
    pub fjord: ForkCondition,
    pub granite: ForkCondition,
    pub holocene: ForkCondition,
    pub isthmus: ForkCondition,
    pub jovian: ForkCondition,
    pub karst: ForkCondition,
    pub interop: ForkCondition,
}

impl OpForkSchedule {
    /// The schedule whose conditions, from the oldest fork to the newest, are `conditions`.
    pub open spec fn from_order(conditions: Seq<ForkCondition>) -> OpForkSchedule {
        OpForkSchedule {
            bedrock: conditions[0],
            regolith: conditions[1],
            canyon: conditions[2],
            ecotone: conditions[3],
            fjord: conditions[4],
            granite: conditions[5],
            holocene: conditions[6],
            isthmus: conditions[7],
            jovian: conditions[8],
            karst: conditions[9],
            interop: conditions[10],
        }
    }

    /// The specification that a block of the given timestamp is executed under: that of the most
    /// advanced fork that is active, where Karst takes precedence over Interop.
    pub open spec fn spec_at(self, timestamp: u64) -> OpSpecId {
        if self.karst.active_at_timestamp(timestamp) {
            OpSpecId::Karst
        } else if self.interop.active_at_timestamp(timestamp) {
            OpSpecId::Interop
        } else if self.jovian.active_at_timestamp(timestamp) {
            OpSpecId::Jovian
        } else if self.isthmus.active_at_timestamp(timestamp) {
            OpSpecId::Isthmus
        } else if self.holocene.active_at_timestamp(timestamp) {
            OpSpecId::Holocene
        } else if self.granite.active_at_timestamp(timestamp) {
            OpSpecId::Granite
        } else if self.fjord.active_at_timestamp(timestamp) {
            OpSpecId::Fjord
        } else if self.ecotone.active_at_timestamp(timestamp) {
            OpSpecId::Ecotone
        } else if self.canyon.active_at_timestamp(timestamp) {
            OpSpecId::Canyon
        } else if self.regolith.active_at_timestamp(timestamp) {
            OpSpecId::Regolith
        } else {
            OpSpecId::Bedrock
        }
    }

    /// The schedule as the hardfork list that `alloy_op_evm` reads.
    pub(crate) fn hardforks(&self) -> (forks: OpChainHardforks)
        ensures
            holds_every_fork(forks),
            schedule_of(forks) == *self,
    {
        op_chain_hardforks(
            vec![
                self.bedrock,
                self.regolith,
                self.canyon,
                self.ecotone,
                self.fjord,
                self.granite,
                self.holocene,
                self.isthmus,
                self.jovian,
                self.karst,
                self.interop,
            ],
        )
    }

    /// The specification that a block of the given timestamp is executed under.
    pub fn spec_by_timestamp(&self, timestamp: u64) -> (spec: OpSpecId)
        ensures
            spec == self.spec_at(timestamp),
    {
        let number: u8 = spec_by_timestamp_after_bedrock(&self.hardforks(), timestamp);
        OpSpecId::of_number(number)
    }
}

/// A specification of the EVM on an OP chain.
#[derive(Clone, Copy, Debug, PartialEq, Eq, Structural)]
pub enum OpSpecId {
    Bedrock,
    Regolith,
    Canyon,
    Ecotone,
    Fjord,
    Granite,
    Holocene,
    Isthmus,
    Jovian,
    Karst,
    Interop,
}

impl OpSpecId {
    /// The number that `op_revm` gives to the specification.
    pub open spec fn number(self) -> u8 {
        match self {
            OpSpecId::Bedrock => 100,
            OpSpecId::Regolith => 101,
            OpSpecId::Canyon => 102,
            OpSpecId::Ecotone => 103,
            OpSpecId::Fjord => 104,
            OpSpecId::Granite => 105,
            OpSpecId::Holocene => 106,
            OpSpecId::Isthmus => 107,
            OpSpecId::Jovian => 108,
            OpSpecId::Karst => 109,
            OpSpecId::Interop => 110,
        }
    }

    /// The Ethereum specification that the OP specification extends.
    pub open spec fn eth_spec(self) -> SpecId {
        match self {
            OpSpecId::Bedrock | OpSpecId::Regolith => SpecId::Merge,
            OpSpecId::Canyon => SpecId::Shanghai,
            OpSpecId::Ecotone | OpSpecId::Fjord | OpSpecId::Granite
            | OpSpecId::Holocene => SpecId::Cancun,
            OpSpecId::Isthmus | OpSpecId::Jovian | OpSpecId::Interop => SpecId::Prague,
            OpSpecId::Karst => SpecId::Osaka,
        }
    }

    /// The specification of the given number.
    pub(crate) fn of_number(number: u8) -> (spec: OpSpecId)
        requires
            100 <= number <= 110,
        ensures
            spec.number() == number,
    {
        match number {
            100 => OpSpecId::Bedrock,
            101 => OpSpecId::Regolith,
            102 => OpSpecId::Canyon,
            103 => OpSpecId::Ecotone,
            104 => OpSpecId::Fjord,
            105 => OpSpecId::Granite,
            106 => OpSpecId::Holocene,
            107 => OpSpecId::Isthmus,
            108 => OpSpecId::Jovian,
            109 => OpSpecId::Karst,
            _ => OpSpecId::Interop,
        }
    }

    /// The Ethereum specification that the OP specification extends.
    pub fn into_eth_spec(self) -> (spec: SpecId)
        ensures
            spec == self.eth_spec(),
    {
        let number: u8 = eth_spec_number(self);
        SpecId::of_number(number)
    }
}

/// A specification of the EVM on Ethereum.
#[derive(Clone, Copy, Debug, PartialEq, Eq, Structural)]
pub enum SpecId {
    Frontier,
    FrontierThawing,
    Homestead,
    DaoFork,
    Tangerine,
    SpuriousDragon,
    Byzantium,
    Constantinople,
    Petersburg,
    Istanbul,
    MuirGlacier,
    Berlin,
    London,
    ArrowGlacier,
    GrayGlacier,
    Merge,
    Shanghai,
    Cancun,
    Prague,
    Osaka,
    Amsterdam,
}

impl SpecId {
    /// The number that `revm` gives to the specification. Later specifications have larger ones.
    pub open spec fn number(self) -> u8 {
        match self {
            SpecId::Frontier => 0,
            SpecId::FrontierThawing => 1,
            SpecId::Homestead => 2,
            SpecId::DaoFork => 3,
            SpecId::Tangerine => 4,
            SpecId::SpuriousDragon => 5,
            SpecId::Byzantium => 6,
            SpecId::Constantinople => 7,
            SpecId::Petersburg => 8,
            SpecId::Istanbul => 9,
            SpecId::MuirGlacier => 10,
            SpecId::Berlin => 11,
            SpecId::London => 12,
            SpecId::ArrowGlacier => 13,
            SpecId::GrayGlacier => 14,
            SpecId::Merge => 15,
            SpecId::Shanghai => 16,
            SpecId::Cancun => 17,
            SpecId::Prague => 18,
            SpecId::Osaka => 19,
            SpecId::Amsterdam => 20,
        }
    }

    /// The specification of the given number.
    pub(crate) fn of_number(number: u8) -> (spec: SpecId)
        requires
            number <= 20,
        ensures
            spec.number() == number,
    {
        match number {
            0 => SpecId::Frontier,
            1 => SpecId::FrontierThawing,
            2 => SpecId::Homestead,
            3 => SpecId::DaoFork,
            4 => SpecId::Tangerine,
            5 => SpecId::SpuriousDragon,
            6 => SpecId::Byzantium,
            7 => SpecId::Constantinople,
            8 => SpecId::Petersburg,
            9 => SpecId::Istanbul,
            10 => SpecId::MuirGlacier,
            11 => SpecId::Berlin,
            12 => SpecId::London,
            13 => SpecId::ArrowGlacier,
            14 => SpecId::GrayGlacier,
            15 => SpecId::Merge,
            16 => SpecId::Shanghai,
            17 => SpecId::Cancun,
            18 => SpecId::Prague,
            19 => SpecId::Osaka,
            _ => SpecId::Amsterdam,
        }
    }

    /// The number of the specification.
    pub(crate) fn to_number(self) -> (number: u8)
        ensures
            number == self.number(),
    {
        match self {
            SpecId::Frontier => 0,
            SpecId::FrontierThawing => 1,
            SpecId::Homestead => 2,
            SpecId::DaoFork => 3,
            SpecId::Tangerine => 4,
            SpecId::SpuriousDragon => 5,
            SpecId::Byzantium => 6,
            SpecId::Constantinople => 7,
            SpecId::Petersburg => 8,
            SpecId::Istanbul => 9,
            SpecId::MuirGlacier => 10,
            SpecId::Berlin => 11,
            SpecId::London => 12,
            SpecId::ArrowGlacier => 13,
            SpecId::GrayGlacier => 14,
            SpecId::Merge => 15,
            SpecId::Shanghai => 16,
            SpecId::Cancun => 17,
            SpecId::Prague => 18,
            SpecId::Osaka => 19,
            SpecId::Amsterdam => 20,
        }
    }

    /// Whether what `other` introduces is in force under this specification.
    pub open spec fn includes(self, other: SpecId) -> bool {
        other.number() <= self.number()
    }

    /// Whether what `other` introduces is in force under this specification.
    pub fn is_enabled_in(self, other: SpecId) -> (enabled: bool)
        ensures
            enabled == self.includes(other),
    {
        other.to_number() <= self.to_number()
    }
}

#[verifier::external_type_specification]
#[verifier::external_body]
pub struct ExOpChainHardforks(OpChainHardforks);

/// The conditions that a hardfork list holds, from the oldest fork to the newest.
pub uninterp spec fn fork_conditions(forks: OpChainHardforks) -> Seq<ForkCondition>;

/// Whether a hardfork list holds a condition for each fork.
pub open spec fn holds_every_fork(forks: OpChainHardforks) -> bool {
    fork_conditions(forks).len() == 11
}

/// The schedule that a hardfork list holds.
pub open spec fn schedule_of(forks: OpChainHardforks) -> OpForkSchedule {
    OpForkSchedule::from_order(fork_conditions(forks))
}

/// `OpChainHardforks::new` of `alloy_op_hardforks`, given each fork once, in the order of its
/// `OpHardfork::VARIANTS`: the list holds for each fork the condition given for it.
#[verifier::external_body]
fn op_chain_hardforks(conditions: Vec<ForkCondition>) -> (forks: OpChainHardforks)
    requires
        conditions@.len() == 11,
    ensures
        fork_conditions(forks) == conditions@,
{
    let conditions = conditions.into_iter().map(|condition| match condition {
        ForkCondition::Block(number) => alloy_op_hardforks::ForkCondition::Block(number),
        ForkCondition::TTD { activation_block_number, fork_block, total_difficulty } =>
            alloy_op_hardforks::ForkCondition::TTD {
                activation_block_number,
                fork_block,
                total_difficulty: alloy_primitives::U256::from_limbs(total_difficulty),
            },
        ForkCondition::Timestamp(time) => alloy_op_hardforks::ForkCondition::Timestamp(time),
        ForkCondition::Never => alloy_op_hardforks::ForkCondition::Never,
    });
    OpChainHardforks::new(OpHardfork::VARIANTS.iter().copied().zip(conditions))
}

/// `spec_by_timestamp_after_bedrock` of `alloy_op_evm`, with the number of the specification for
/// the specification: the forks are tried from Karst and Interop down to Regolith, the first that
/// is active at `timestamp` gives the specification, and Bedrock's is left if none is.
#[verifier::external_body]
fn spec_by_timestamp_after_bedrock(forks: &OpChainHardforks, timestamp: u64) -> (number: u8)
    requires
        holds_every_fork(*forks),
    ensures
        number == schedule_of(*forks).spec_at(timestamp).number(),
{
    alloy_op_evm::spec_by_timestamp_after_bedrock(forks, timestamp) as u8
}

/// `OpSpecId::into_eth_spec` of `op_revm`, with the number of the Ethereum specification for the
/// specification.
#[verifier::external_body]
fn eth_spec_number(spec: OpSpecId) -> (number: u8)
    ensures
        number == spec.eth_spec().number(),
{
    let spec = match spec {
        OpSpecId::Bedrock => RevmOpSpecId::BEDROCK,
        OpSpecId::Regolith => RevmOpSpecId::REGOLITH,
        OpSpecId::Canyon => RevmOpSpecId::CANYON,
        OpSpecId::Ecotone => RevmOpSpecId::ECOTONE,
        OpSpecId::Fjord => RevmOpSpecId::FJORD,
        OpSpecId::Granite => RevmOpSpecId::GRANITE,
        OpSpecId::Holocene => RevmOpSpecId::HOLOCENE,
        OpSpecId::Isthmus => RevmOpSpecId::ISTHMUS,
        OpSpecId::Jovian => RevmOpSpecId::JOVIAN,
        OpSpecId::Karst => RevmOpSpecId::KARST,
        OpSpecId::Interop => RevmOpSpecId::INTEROP,
    };
    spec.into_eth_spec() as u8
}

} // verus!
