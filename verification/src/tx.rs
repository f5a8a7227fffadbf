//! Transactions of an OP chain: decoding, and recovery of their signers.

use crate::primitives::Address;
use alloy_consensus::crypto::RecoveryError;
use alloy_eips::eip2718::{Decodable2718, Eip2718Error};
use op_alloy_consensus::OpTxEnvelope;
use reth_primitives_traits::SignedTransaction;
use vstd::prelude::*;

verus! {

#[verifier::external_type_specification]
#[verifier::external_body]
pub struct ExOpTxEnvelope(OpTxEnvelope);

#[verifier::external_type_specification]
#[verifier::external_body]
pub struct ExEip2718Error(Eip2718Error);

#[verifier::external_type_specification]
#[verifier::external_body]
pub struct ExRecoveryError(RecoveryError);

/// A transaction that was decoded from its EIP-2718 encoding.
#[derive(Debug)]
pub struct OpTransactionSigned {
    encoded: Vec<u8>,
    envelope: OpTxEnvelope,
}

impl View for OpTransactionSigned {
    type V = Seq<u8>;

    /// The bytes that the transaction was decoded from. They determine it.
    closed spec fn view(&self) -> Seq<u8> {
        self.encoded@
    }
}

impl OpTransactionSigned {
    /// The envelope is what the encoding decodes to.
    #[verifier::type_invariant]
    spec fn decoded_from_encoding(self) -> bool {
        op_transaction(self.encoded@) == Ok::<OpTxEnvelope, Eip2718Error>(self.envelope)
    }

    /// Decodes a transaction.
    fn decode(encoded: Vec<u8>) -> (decoded: Result<OpTransactionSigned, Eip2718Error>)
        ensures
            match decoded {
                Ok(tx) => is_op_transaction(encoded@) && tx@ == encoded@,
                Err(error) => op_transaction(encoded@) == Err::<OpTxEnvelope, Eip2718Error>(error),
            },
    {
        match decode_2718_exact(&encoded) {
            Err(error) => Err(error),
            Ok(envelope) => Ok(OpTransactionSigned { encoded, envelope }),
        }
    }

    /// The bytes that the transaction was decoded from.
    pub fn encoded(&self) -> (bytes: &Vec<u8>)
        ensures
            bytes@ == self@,
    {
        &self.encoded
    }

    /// The decoded transaction: what its encoding decodes to.
    pub fn envelope(&self) -> (envelope: &OpTxEnvelope)
        ensures
            op_transaction(self@) == Ok::<OpTxEnvelope, Eip2718Error>(*envelope),
    {
        proof {
            use_type_invariant(self);
        }
        &self.envelope
    }

    /// The transaction together with `signer`, which is taken to be its signer.
    pub fn with_signer(self, signer: Address) -> (recovered: Recovered)
        ensures
            recovered.tx == self,
            recovered.signer == signer,
    {
        Recovered { tx: self, signer }
    }
}

/// The OP transaction that `bytes` encode by EIP-2718, or why they do not encode exactly one.
pub uninterp spec fn op_transaction(bytes: Seq<u8>) -> Result<OpTxEnvelope, Eip2718Error>;

/// Whether `bytes` are the EIP-2718 encoding of exactly one OP transaction.
pub open spec fn is_op_transaction(bytes: Seq<u8>) -> bool {
    op_transaction(bytes) is Ok
}

/// The address that signed the OP transaction encoded by `bytes`, or why its signature is invalid.
pub uninterp spec fn op_transaction_signer(bytes: Seq<u8>) -> Result<Address, RecoveryError>;

/// `decode_2718_exact` of `alloy_eips`, for the `OpTxEnvelope` of `op_alloy_consensus`. The
/// transaction that the bytes decode to, or the error if they do not, depends on them alone.
#[verifier::external_body]
fn decode_2718_exact(encoded: &Vec<u8>) -> (decoded: Result<OpTxEnvelope, Eip2718Error>)
    ensures
        decoded == op_transaction(encoded@),
{
    OpTxEnvelope::decode_2718_exact(encoded.as_ref())
}

/// `try_recover` of `reth_primitives_traits`, for the `OpTxEnvelope` of `op_alloy_consensus`. The
/// signer, or the error if there is none, depends on the transaction alone.
#[verifier::external_body]
fn try_recover(tx: &OpTransactionSigned) -> (signer: Result<Address, RecoveryError>)
    ensures
        signer == op_transaction_signer(tx@),
{
    tx.envelope.try_recover().map(|address| address.into_array())
}

/// A transaction together with its signer.
#[derive(Debug)]
pub struct Recovered {
    /// The transaction.
    pub tx: OpTransactionSigned,
    /// The address that signed it.
    pub signer: Address,
}

/// A transaction together with its signer and with the encoding that it came in.
#[derive(Debug)]
pub struct WithEncoded {
    /// The encoding.
    pub encoded: Vec<u8>,
    /// The transaction and its signer.
    pub value: Recovered,
}

impl WithEncoded {
    /// The transaction `value` together with its encoding.
    pub fn new(encoded: Vec<u8>, value: Recovered) -> (tx: WithEncoded)
        ensures
            tx.encoded == encoded,
            tx.value == value,
    {
        WithEncoded { encoded, value }
    }
}

/// Why an encoded transaction cannot be executed.
#[derive(Debug)]
pub enum TransactionError {
    /// The bytes are not the encoding of a transaction.
    Decode(Eip2718Error),
    /// The signature of the transaction is invalid.
    Recover(RecoveryError),
}

/// Decodes a transaction and recovers its signer.
pub fn convert_transaction(encoded: Vec<u8>) -> (converted: Result<WithEncoded, TransactionError>)
    ensures
        match converted {
            Ok(tx) => {
                &&& is_op_transaction(encoded@)
                &&& op_transaction_signer(encoded@) == Ok::<Address, RecoveryError>(tx.value.signer)
                &&& tx.value.tx@ == encoded@
                &&& tx.encoded@ == encoded@
            },
            Err(TransactionError::Decode(error)) => op_transaction(encoded@) == Err::<
                OpTxEnvelope,
                Eip2718Error,
            >(error),
            Err(TransactionError::Recover(error)) => {
                &&& is_op_transaction(encoded@)
                &&& op_transaction_signer(encoded@) == Err::<Address, RecoveryError>(error)
            },
        },
{
    match OpTransactionSigned::decode(encoded.clone()) {
        Err(error) => Err(TransactionError::Decode(error)),
        Ok(tx) => {
            let signer = try_recover(&tx);
            attach_signer(encoded, tx, signer)
        },
    }
}

/// A decoded transaction together with its encoding and with the outcome of the recovery of its
/// signer.
pub fn attach_signer(
    encoded: Vec<u8>,
    tx: OpTransactionSigned,
    signer: Result<Address, RecoveryError>,
) -> (converted: Result<WithEncoded, TransactionError>)
    ensures
        match signer {
            Ok(address) => converted matches Ok(with_encoded) && with_encoded == (WithEncoded {
                encoded,
                value: Recovered { tx, signer: address },
            }),
            Err(error) => converted matches Err(TransactionError::Recover(e)) && e == error,
        },
{
    match signer {
        Err(error) => Err(TransactionError::Recover(error)),
        Ok(signer) => Ok(WithEncoded::new(encoded, tx.with_signer(signer))),
    }
}

/// Whether each of `encoded` is the encoding of a transaction.
pub open spec fn all_op_transactions(encoded: Seq<Vec<u8>>) -> bool {
    forall|i: int| 0 <= i < encoded.len() ==> is_op_transaction(#[trigger] encoded[i]@)
}

/// Whether `txs` are the transactions that `encoded` hold, one by one.
pub open spec fn decoded_from(txs: Seq<OpTransactionSigned>, encoded: Seq<Vec<u8>>) -> bool {
    &&& txs.len() == encoded.len()
    &&& forall|i: int| 0 <= i < txs.len() ==> (#[trigger] txs[i])@ == encoded[i]@
}

/// Whether the first of `encoded` that is not the encoding of a transaction is not one because of
/// `error`.
pub open spec fn first_fails_with(encoded: Seq<Vec<u8>>, error: Eip2718Error) -> bool {
    exists|i: int|
        0 <= i < encoded.len() && all_op_transactions(encoded.take(i)) && op_transaction(
            #[trigger] encoded[i]@,
        ) == Err::<OpTxEnvelope, Eip2718Error>(error)
}

/// Decodes transactions, or fails on the first that does not decode.
pub fn decode_transactions(encoded: &Vec<Vec<u8>>) -> (decoded: Result<
    Vec<OpTransactionSigned>,
    Eip2718Error,
>)
    ensures
        decoded is Ok <==> all_op_transactions(encoded@),
        match decoded {
            Ok(txs) => decoded_from(txs@, encoded@),
            Err(error) => first_fails_with(encoded@, error),
        },
{
    let mut txs: Vec<OpTransactionSigned> = Vec::new();
    let mut i: usize = 0;
    while i < encoded.len()
        invariant
            i <= encoded.len(),
            txs.len() == i,
            forall|j: int| 0 <= j < i ==> is_op_transaction(#[trigger] encoded[j]@),
            forall|j: int| 0 <= j < i ==> (#[trigger] txs[j])@ == encoded[j]@,
        decreases encoded.len() - i,
    {
        match OpTransactionSigned::decode(encoded[i].clone()) {
            Err(error) => {
                assert(all_op_transactions(encoded@.take(i as int)));
                return Err(error);
            },
            Ok(tx) => {
                txs.push(tx);
            },
        }
        i = i + 1;
    }
    Ok(txs)
}

/// Copies encoded transactions.
pub(crate) fn copy_encoded(encoded: &Vec<Vec<u8>>) -> (copy: Vec<Vec<u8>>)
    ensures
        copy.len() == encoded.len(),
        forall|i: int| 0 <= i < copy.len() ==> (#[trigger] copy[i])@ == encoded[i]@,
{
    let mut copy: Vec<Vec<u8>> = Vec::new();
    let mut i: usize = 0;
    while i < encoded.len()
        invariant
            i <= encoded.len(),
            copy.len() == i,
            forall|j: int| 0 <= j < i ==> (#[trigger] copy[j])@ == encoded[j]@,
        decreases encoded.len() - i,
    {
        copy.push(encoded[i].clone());
        i = i + 1;
    }
    copy
}

} // verus!
