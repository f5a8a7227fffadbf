//! What the operations that derive environments return.

use crate::block::{Header, OpExecData, OpExecutionData, OpNextBlockEnvAttributes};
use crate::config::FraxtalEvmConfig;
use crate::env::{mainnet_gas_params, BlobExcessGasAndPrice, EvmEnv};
use crate::forks::{ForkCondition, OpForkSchedule, OpSpecId, SpecId};
use crate::post_exec::EIP1559ParamError;
use crate::primitives::{
    append_byte, big_endian_value, u256_from_b256, u256_value, B256, U256,
};
use vstd::prelude::*;

verus! {

/// The environment of an existing block is that of the configured chain, and shows the block as
/// its header describes it. There always is one.
pub proof fn env_shows_the_header<R, EvmFactory>(
    config: FraxtalEvmConfig<R, EvmFactory>,
    header: Header,
    env: Result<EvmEnv, EIP1559ParamError>,
)
    requires
        call_ensures(FraxtalEvmConfig::<R, EvmFactory>::evm_env, (&config, &header), env),
    ensures
        env matches Ok(e) && {
            &&& e.cfg_env.chain_id == config.executor_factory.spec.chain_id
            &&& e.block_env.number@ =~= seq![header.number, 0, 0, 0]
            &&& e.block_env.timestamp@ =~= seq![header.timestamp, 0, 0, 0]
            &&& e.block_env.beneficiary == header.beneficiary
            &&& e.block_env.gas_limit == header.gas_limit
            &&& header.base_fee_per_gas matches Some(fee) ==> e.block_env.basefee == fee
            &&& header.base_fee_per_gas is None ==> e.block_env.basefee == 0
            &&& e.block_env.prevrandao == Some(header.mix_hash)
            &&& e.block_env.difficulty@ =~= seq![0, 0, 0, 0]
            &&& e.block_env.slot_num == 0
        },
{
}

/// The environment of a block to build is that of the configured chain. It shows the attributes,
/// the successor of the parent's number, and the base fee of the chain, or zero without one.
pub proof fn next_env_shows_the_attributes<R, EvmFactory>(
    config: FraxtalEvmConfig<R, EvmFactory>,
    parent: Header,
    attributes: OpNextBlockEnvAttributes,
    base_fee: Option<u64>,
    env: Result<EvmEnv, EIP1559ParamError>,
)
    requires
        parent.number < u64::MAX,
        call_ensures(
            FraxtalEvmConfig::<R, EvmFactory>::next_evm_env_at_base_fee,
            (&config, &parent, &attributes, base_fee),
            env,
        ),
    ensures
        env matches Ok(e) && {
            &&& e.cfg_env.chain_id == config.executor_factory.spec.chain_id
            &&& e.block_env.number[0] == parent.number + 1
            &&& e.block_env.number@.skip(1) =~= seq![0, 0, 0]
            &&& e.block_env.timestamp@ =~= seq![attributes.timestamp, 0, 0, 0]
            &&& e.block_env.beneficiary == attributes.suggested_fee_recipient
            &&& e.block_env.gas_limit == attributes.gas_limit
            &&& base_fee matches Some(fee) ==> e.block_env.basefee == fee
            &&& base_fee is None ==> e.block_env.basefee == 0
            &&& e.block_env.prevrandao == Some(attributes.prev_randao)
            &&& e.block_env.difficulty@ =~= seq![0, 0, 0, 0]
            &&& e.block_env.slot_num == 0
        },
{
}

/// The base fee of a block to build is what the chain answers when it is asked for a child of the
/// parent at the timestamp of the attributes, or zero if it answers with none. The rest is as in
/// [`next_env_shows_the_attributes`].
pub proof fn next_base_fee_is_the_answer<R, EvmFactory, F>(
    config: FraxtalEvmConfig<R, EvmFactory>,
    parent: Header,
    attributes: OpNextBlockEnvAttributes,
    ask: F,
    env: Result<EvmEnv, EIP1559ParamError>,
) where F: FnOnce(&Header, u64) -> Option<u64>
    requires
        parent.number < u64::MAX,
        call_ensures(
            FraxtalEvmConfig::<R, EvmFactory>::next_evm_env::<F>,
            (&config, &parent, &attributes, ask),
            env,
        ),
    ensures
        exists|answer: Option<u64>| #[trigger]
            call_ensures(ask, (&parent, attributes.timestamp), answer) && (env matches Ok(e) && {
                &&& answer matches Some(fee) ==> e.block_env.basefee == fee
                &&& answer is None ==> e.block_env.basefee == 0
            }),
        env matches Ok(e) && {
            &&& e.cfg_env.chain_id == config.executor_factory.spec.chain_id
            &&& e.block_env.number[0] == parent.number + 1
            &&& e.block_env.number@.skip(1) =~= seq![0, 0, 0]
            &&& e.block_env.timestamp@ =~= seq![attributes.timestamp, 0, 0, 0]
            &&& e.block_env.beneficiary == attributes.suggested_fee_recipient
            &&& e.block_env.gas_limit == attributes.gas_limit
            &&& e.block_env.prevrandao == Some(attributes.prev_randao)
            &&& e.block_env.difficulty@ =~= seq![0, 0, 0, 0]
            &&& e.block_env.slot_num == 0
        },
{
}

/// The environment of the block that a payload describes is that of the configured chain, and
/// shows the block as the payload describes it. Wrapped data make no difference.
pub proof fn env_shows_the_payload<R, EvmFactory>(
    config: FraxtalEvmConfig<R, EvmFactory>,
    data: OpExecutionData,
    env: Result<EvmEnv, EIP1559ParamError>,
)
    requires
        data.payload.base_fee_per_gas@.skip(1) =~= seq![0, 0, 0],
        ({
            ||| call_ensures(
                FraxtalEvmConfig::<R, EvmFactory>::evm_env_for_payload,
                (&config, &data),
                env,
            )
            ||| call_ensures(
                FraxtalEvmConfig::<R, EvmFactory>::evm_env_for_exec_data,
                (&config, &OpExecData(data)),
                env,
            )
        }),
    ensures
        env matches Ok(e) && {
            &&& e.cfg_env.chain_id == config.executor_factory.spec.chain_id
            &&& e.block_env.number@ =~= seq![data.payload.block_number, 0, 0, 0]
            &&& e.block_env.timestamp@ =~= seq![data.payload.timestamp, 0, 0, 0]
            &&& e.block_env.beneficiary == data.payload.fee_recipient
            &&& e.block_env.gas_limit == data.payload.gas_limit
            &&& e.block_env.basefee == data.payload.base_fee_per_gas[0]
            &&& e.block_env.prevrandao == Some(data.payload.prev_randao)
            &&& e.block_env.difficulty@ =~= seq![0, 0, 0, 0]
            &&& e.block_env.slot_num == 0
        },
{
    limbs_above_the_first(data.payload.base_fee_per_gas);
}

/// The number of an integer whose upper limbs are zero is its lowest limb.
proof fn limbs_above_the_first(x: U256)
    requires
        x@.skip(1) =~= seq![0, 0, 0],
    ensures
        u256_value(x) == x[0],
{
    assert(x@.skip(1)[0] == 0 && x@.skip(1)[1] == 0 && x@.skip(1)[2] == 0);
}

/// Every header has an environment, every block with a successor can be built on, and every
/// payload whose base fee fits in 64 bits has an environment.
pub proof fn envs_are_owed<R, EvmFactory>(
    config: FraxtalEvmConfig<R, EvmFactory>,
    header: Header,
    attributes: OpNextBlockEnvAttributes,
    base_fee: Option<u64>,
    data: OpExecutionData,
)
    ensures
        call_requires(FraxtalEvmConfig::<R, EvmFactory>::evm_env, (&config, &header)),
        header.number < u64::MAX ==> call_requires(
            FraxtalEvmConfig::<R, EvmFactory>::next_evm_env_at_base_fee,
            (&config, &header, &attributes, base_fee),
        ),
        data.payload.base_fee_per_gas@.skip(1) =~= seq![0, 0, 0] ==> call_requires(
            FraxtalEvmConfig::<R, EvmFactory>::evm_env_for_payload,
            (&config, &data),
        ),
        data.payload.base_fee_per_gas@.skip(1) =~= seq![0, 0, 0] ==> call_requires(
            FraxtalEvmConfig::<R, EvmFactory>::evm_env_for_exec_data,
            (&config, &OpExecData(data)),
        ),
{
    if data.payload.base_fee_per_gas@.skip(1) =~= seq![0, 0, 0] {
        limbs_above_the_first(data.payload.base_fee_per_gas);
    }
}

/// The specification of an environment is that of the newest fork whose activation time is at or
/// before the timestamp of the block itself, where Karst is newer than Interop, and Bedrock's
/// where there is no such fork. So is the specification that the schedule gives for a timestamp.
pub proof fn newest_active_fork_rules<R, EvmFactory, F>(
    config: FraxtalEvmConfig<R, EvmFactory>,
    forks: OpForkSchedule,
    timestamp: u64,
    spec: OpSpecId,
    header: Header,
    attributes: OpNextBlockEnvAttributes,
    base_fee: Option<u64>,
    ask: F,
    data: OpExecutionData,
    env: EvmEnv,
) where F: FnOnce(&Header, u64) -> Option<u64>
    requires
        ({
            ||| call_ensures(OpForkSchedule::spec_by_timestamp, (&forks, timestamp), spec)
            ||| {
                &&& forks == config.executor_factory.spec.forks
                &&& spec == env.cfg_env.spec
                &&& {
                    ||| timestamp == header.timestamp && call_ensures(
                        FraxtalEvmConfig::<R, EvmFactory>::evm_env,
                        (&config, &header),
                        Ok::<EvmEnv, EIP1559ParamError>(env),
                    )
                    ||| timestamp == attributes.timestamp && call_ensures(
                        FraxtalEvmConfig::<R, EvmFactory>::next_evm_env_at_base_fee,
                        (&config, &header, &attributes, base_fee),
                        Ok::<EvmEnv, EIP1559ParamError>(env),
                    )
                    ||| timestamp == attributes.timestamp && call_ensures(
                        FraxtalEvmConfig::<R, EvmFactory>::next_evm_env::<F>,
                        (&config, &header, &attributes, ask),
                        Ok::<EvmEnv, EIP1559ParamError>(env),
                    )
                    ||| timestamp == data.payload.timestamp && call_ensures(
                        FraxtalEvmConfig::<R, EvmFactory>::evm_env_for_payload,
                        (&config, &data),
                        Ok::<EvmEnv, EIP1559ParamError>(env),
                    )
                    ||| timestamp == data.payload.timestamp && call_ensures(
                        FraxtalEvmConfig::<R, EvmFactory>::evm_env_for_exec_data,
                        (&config, &OpExecData(data)),
                        Ok::<EvmEnv, EIP1559ParamError>(env),
                    )
                }
            }
        }),
    ensures
        ({
            let active = |condition: ForkCondition|
                condition matches ForkCondition::Timestamp(start) && start <= timestamp;
            let age = |of: OpSpecId|
                match of {
                    OpSpecId::Karst => 0int,
                    OpSpecId::Interop => 1int,
                    OpSpecId::Jovian => 2int,
                    OpSpecId::Isthmus => 3int,
                    OpSpecId::Holocene => 4int,
                    OpSpecId::Granite => 5int,
                    OpSpecId::Fjord => 6int,
                    OpSpecId::Ecotone => 7int,
                    OpSpecId::Canyon => 8int,
                    OpSpecId::Regolith => 9int,
                    OpSpecId::Bedrock => 10int,
                };
            // No active fork is newer.
            &&& active(forks.karst) ==> age(spec) <= 0
            &&& active(forks.interop) ==> age(spec) <= 1
            &&& active(forks.jovian) ==> age(spec) <= 2
            &&& active(forks.isthmus) ==> age(spec) <= 3
            &&& active(forks.holocene) ==> age(spec) <= 4
            &&& active(forks.granite) ==> age(spec) <= 5
            &&& active(forks.fjord) ==> age(spec) <= 6
            &&& active(forks.ecotone) ==> age(spec) <= 7
            &&& active(forks.canyon) ==> age(spec) <= 8
            &&& active(forks.regolith) ==> age(spec) <= 9
            // The fork itself is active.
            &&& spec is Karst ==> active(forks.karst)
            &&& spec is Interop ==> active(forks.interop)
            &&& spec is Jovian ==> active(forks.jovian)
            &&& spec is Isthmus ==> active(forks.isthmus)
            &&& spec is Holocene ==> active(forks.holocene)
            &&& spec is Granite ==> active(forks.granite)
            &&& spec is Fjord ==> active(forks.fjord)
            &&& spec is Ecotone ==> active(forks.ecotone)
            &&& spec is Canyon ==> active(forks.canyon)
            &&& spec is Regolith ==> active(forks.regolith)
        }),
{
}

/// The settings of an environment follow from its specification: the gas costs are those of
/// Ethereum's mainnet under the specification that it extends (by number, the Merge is 15 and
/// Osaka is 19), there is a blob gas price, the least, exactly from Ecotone on, no limit is
/// overridden and no check is switched off.
pub proof fn spec_decides_the_settings<R, EvmFactory, F>(
    config: FraxtalEvmConfig<R, EvmFactory>,
    header: Header,
    attributes: OpNextBlockEnvAttributes,
    base_fee: Option<u64>,
    ask: F,
    data: OpExecutionData,
    env: EvmEnv,
) where F: FnOnce(&Header, u64) -> Option<u64>
    requires
        ({
            ||| call_ensures(
                FraxtalEvmConfig::<R, EvmFactory>::evm_env,
                (&config, &header),
                Ok::<EvmEnv, EIP1559ParamError>(env),
            )
            ||| call_ensures(
                FraxtalEvmConfig::<R, EvmFactory>::next_evm_env_at_base_fee,
                (&config, &header, &attributes, base_fee),
                Ok::<EvmEnv, EIP1559ParamError>(env),
            )
            ||| call_ensures(
                FraxtalEvmConfig::<R, EvmFactory>::next_evm_env::<F>,
                (&config, &header, &attributes, ask),
                Ok::<EvmEnv, EIP1559ParamError>(env),
            )
            ||| call_ensures(
                FraxtalEvmConfig::<R, EvmFactory>::evm_env_for_payload,
                (&config, &data),
                Ok::<EvmEnv, EIP1559ParamError>(env),
            )
            ||| call_ensures(
                FraxtalEvmConfig::<R, EvmFactory>::evm_env_for_exec_data,
                (&config, &OpExecData(data)),
                Ok::<EvmEnv, EIP1559ParamError>(env),
            )
        }),
    ensures
        env.cfg_env.gas_params@ == mainnet_gas_params(
            match env.cfg_env.spec {
                OpSpecId::Bedrock | OpSpecId::Regolith => 15,
                OpSpecId::Canyon => 16,
                OpSpecId::Ecotone | OpSpecId::Fjord | OpSpecId::Granite | OpSpecId::Holocene => 17,
                OpSpecId::Isthmus | OpSpecId::Jovian | OpSpecId::Interop => 18,
                OpSpecId::Karst => 19,
            },
        ),
        env.block_env.blob_excess_gas_and_price == match env.cfg_env.spec {
            OpSpecId::Bedrock | OpSpecId::Regolith | OpSpecId::Canyon => None,
            _ => Some(BlobExcessGasAndPrice { excess_blob_gas: 0, blob_gasprice: 1 }),
        },
        env.cfg_env.tx_chain_id_check,
        !env.cfg_env.disable_nonce_check,
        env.cfg_env.limit_contract_code_size is None,
        env.cfg_env.limit_contract_initcode_size is None,
        env.cfg_env.max_blobs_per_tx is None,
        env.cfg_env.blob_base_fee_update_fraction is None,
        env.cfg_env.tx_gas_limit_cap is None,
        !env.cfg_env.enable_amsterdam_eip8037,
        !env.cfg_env.amsterdam_eip7708_disabled,
        !env.cfg_env.amsterdam_eip7708_delayed_burn_disabled,
{
}

/// Of two specifications of Ethereum the later enables what the earlier introduces, and each
/// enables itself.
pub proof fn later_specs_enable_earlier(one: int, other: int, enabled: bool)
    requires
        0 <= one < 21,
        0 <= other < 21,
        ({
            let by_age = seq![
                SpecId::Frontier,
                SpecId::FrontierThawing,
                SpecId::Homestead,
                SpecId::DaoFork,
                SpecId::Tangerine,
                SpecId::SpuriousDragon,
                SpecId::Byzantium,
                SpecId::Constantinople,
                SpecId::Petersburg,
                SpecId::Istanbul,
                SpecId::MuirGlacier,
                SpecId::Berlin,
                SpecId::London,
                SpecId::ArrowGlacier,
                SpecId::GrayGlacier,
                SpecId::Merge,
                SpecId::Shanghai,
                SpecId::Cancun,
                SpecId::Prague,
                SpecId::Osaka,
                SpecId::Amsterdam,
            ];
            call_ensures(SpecId::is_enabled_in, (by_age[one], by_age[other]), enabled)
        }),
    ensures
        enabled <==> other <= one,
{
}

/// Each OP specification extends the Ethereum specification that its fork brings in: the Merge
/// at first, Shanghai with Canyon, Cancun with Ecotone, Prague with Isthmus, Osaka with Karst.
pub proof fn op_specs_extend_eth_specs(op: OpSpecId, eth: SpecId)
    requires
        call_ensures(OpSpecId::into_eth_spec, (op,), eth),
    ensures
        eth is Merge <==> op is Bedrock || op is Regolith,
        eth is Shanghai <==> op is Canyon,
        eth is Cancun <==> op is Ecotone || op is Fjord || op is Granite || op is Holocene,
        eth is Prague <==> op is Isthmus || op is Jovian || op is Interop,
        eth is Osaka <==> op is Karst,
{
}

/// A schedule is recovered from the list of its conditions, from the oldest fork to the newest.
pub proof fn schedule_is_its_conditions(forks: OpForkSchedule)
    ensures
        OpForkSchedule::from_order(
            seq![
                forks.bedrock,
                forks.regolith,
                forks.canyon,
                forks.ecotone,
                forks.fjord,
                forks.granite,
                forks.holocene,
                forks.isthmus,
                forks.jovian,
                forks.karst,
                forks.interop,
            ],
        ) == forks,
{
}

/// Each byte of a hash is a digit to base 256 of the number that the hash is read as, the first
/// byte being the most significant digit.
pub proof fn bytes_are_digits(hash: B256, number: U256, limb: int)
    requires
        0 <= limb < 4,
        call_ensures(u256_from_b256, (&hash,), number),
    ensures
        number[3 - limb] / 0x100_0000_0000_0000 == hash[8 * limb],
        number[3 - limb] / 0x1_0000_0000_0000 % 256 == hash[8 * limb + 1],
        number[3 - limb] / 0x100_0000_0000 % 256 == hash[8 * limb + 2],
        number[3 - limb] / 0x1_0000_0000 % 256 == hash[8 * limb + 3],
        number[3 - limb] / 0x100_0000 % 256 == hash[8 * limb + 4],
        number[3 - limb] / 0x1_0000 % 256 == hash[8 * limb + 5],
        number[3 - limb] / 0x100 % 256 == hash[8 * limb + 6],
        number[3 - limb] % 256 == hash[8 * limb + 7],
{
    let bytes = hash@.subrange(8 * limb, 8 * limb + 8);
    let number_here = number[3 - limb];
    assert(number_here == big_endian_value(bytes));
    let empty = Seq::<u8>::empty();
    append_byte(empty, bytes, 0);
    append_byte(empty, bytes, 1);
    append_byte(empty, bytes, 2);
    append_byte(empty, bytes, 3);
    append_byte(empty, bytes, 4);
    append_byte(empty, bytes, 5);
    append_byte(empty, bytes, 6);
    append_byte(empty, bytes, 7);
    assert(bytes.take(8) =~= bytes);
    let prefix = |k: int| big_endian_value(bytes.take(k));
    assert(prefix(1) == hash[8 * limb]);
    assert(number_here / 0x100 == prefix(7));
    assert(number_here / 0x1_0000 == prefix(6));
    assert(number_here / 0x100_0000 == prefix(5));
    assert(number_here / 0x1_0000_0000 == prefix(4));
    assert(number_here / 0x100_0000_0000 == prefix(3));
    assert(number_here / 0x1_0000_0000_0000 == prefix(2));
}

} // verus!
