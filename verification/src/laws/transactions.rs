//! What the operations on encoded transactions return.

use crate::block::{OpExecData, OpExecutionData};
use crate::config::FraxtalEvmConfig;
use crate::post_exec::EIP1559ParamError;
use crate::tx::{
    all_op_transactions, convert_transaction, decode_transactions, op_transaction,
    op_transaction_signer, OpTransactionSigned, TransactionError, WithEncoded,
};
use alloy_eips::eip2718::Eip2718Error;
use op_alloy_consensus::OpTxEnvelope;
use vstd::prelude::*;

verus! {

/// A transaction is converted exactly if its bytes decode and its signature is valid. The result
/// then has those bytes, the transaction that they decode to, and the address that signed it.
/// Otherwise the error is that of the step which failed first.
pub proof fn conversion_decodes_and_recovers(
    encoded: Vec<u8>,
    converted: Result<WithEncoded, TransactionError>,
)
    requires
        call_ensures(convert_transaction, (encoded,), converted),
    ensures
        match (op_transaction(encoded@), op_transaction_signer(encoded@)) {
            (Err(decoding), _) => converted matches Err(TransactionError::Decode(e)) && e
                == decoding,
            (Ok(_), Err(recovery)) => converted matches Err(TransactionError::Recover(e)) && e
                == recovery,
            (Ok(_), Ok(signer)) => converted matches Ok(tx) && tx.encoded@ == encoded@
                && tx.value.signer == signer,
        },
{
}

/// What can be read of a converted transaction is what went in: its bytes, and the transaction
/// that they decode to.
pub proof fn converted_transaction_is_the_decoded_one(
    encoded: Vec<u8>,
    converted: WithEncoded,
    bytes: Vec<u8>,
    envelope: OpTxEnvelope,
)
    requires
        call_ensures(
            convert_transaction,
            (encoded,),
            Ok::<WithEncoded, TransactionError>(converted),
        ),
        call_ensures(OpTransactionSigned::encoded, (&converted.value.tx,), &bytes),
        call_ensures(OpTransactionSigned::envelope, (&converted.value.tx,), &envelope),
    ensures
        bytes@ == encoded@,
        op_transaction(encoded@) == Ok::<OpTxEnvelope, Eip2718Error>(envelope),
{
}

/// Transactions decode exactly if each of them does: there is then one for each encoding, in
/// order, with the bytes that it was decoded from. Otherwise the error is that of the first that
/// does not decode.
pub proof fn all_or_the_first_error(
    encoded: Vec<Vec<u8>>,
    decoded: Result<Vec<OpTransactionSigned>, Eip2718Error>,
)
    requires
        call_ensures(decode_transactions, (&encoded,), decoded),
    ensures
        decoded matches Ok(txs) ==> {
            &&& txs.len() == encoded.len()
            &&& forall|i: int|
                0 <= i < encoded.len() ==> op_transaction(#[trigger] encoded[i]@) is Ok
            &&& forall|i: int| 0 <= i < txs.len() ==> (#[trigger] txs[i])@ == encoded[i]@
        },
        decoded matches Err(error) ==> exists|i: int|
            {
                &&& 0 <= i < encoded.len()
                &&& op_transaction(#[trigger] encoded[i]@) == Err::<OpTxEnvelope, Eip2718Error>(
                    error,
                )
                &&& forall|j: int| 0 <= j < i ==> op_transaction(#[trigger] encoded[j]@) is Ok
            },
{
    if let Err(error) = decoded {
        let i = choose|i: int|
            0 <= i < encoded@.len() && all_op_transactions(encoded@.take(i))
                && op_transaction(#[trigger] encoded@[i]@) == Err::<OpTxEnvelope, Eip2718Error>(
                error,
            );
        assert forall|j: int| 0 <= j < i implies op_transaction(#[trigger] encoded[j]@) is Ok by {
            assert(encoded@.take(i)[j]@ == encoded[j]@);
        }
    }
}

/// What can be read of a transaction of a decoded list is what went in at its place.
pub proof fn decoded_transactions_keep_their_places(
    encoded: Vec<Vec<u8>>,
    txs: Vec<OpTransactionSigned>,
    i: int,
    bytes: Vec<u8>,
    envelope: OpTxEnvelope,
)
    requires
        call_ensures(
            decode_transactions,
            (&encoded,),
            Ok::<Vec<OpTransactionSigned>, Eip2718Error>(txs),
        ),
        0 <= i < txs.len(),
        call_ensures(OpTransactionSigned::encoded, (&txs[i],), &bytes),
        call_ensures(OpTransactionSigned::envelope, (&txs[i],), &envelope),
    ensures
        bytes@ == encoded[i]@,
        op_transaction(encoded[i]@) == Ok::<OpTxEnvelope, Eip2718Error>(envelope),
{
}

/// The transactions of a payload are handed out as they are: all of them, each with its bytes,
/// in order, whether they decode or not. Wrapped data make no difference.
pub proof fn payload_transactions_are_handed_out<R, EvmFactory>(
    config: FraxtalEvmConfig<R, EvmFactory>,
    data: OpExecutionData,
    encoded: Result<Vec<Vec<u8>>, EIP1559ParamError>,
)
    requires
        ({
            ||| call_ensures(
                FraxtalEvmConfig::<R, EvmFactory>::tx_iterator_for_payload,
                (&config, &data),
                encoded,
            )
            ||| call_ensures(
                FraxtalEvmConfig::<R, EvmFactory>::tx_iterator_for_exec_data,
                (&config, &OpExecData(data)),
                encoded,
            )
        }),
    ensures
        encoded matches Ok(txs) && {
            &&& txs.len() == data.payload.transactions.len()
            &&& forall|i: int|
                0 <= i < txs.len() ==> (#[trigger] txs[i])@ == data.payload.transactions[i]@
        },
{
}

} // verus!
