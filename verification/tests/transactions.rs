use alloy_eips::eip2718::{Decodable2718, Encodable2718};
use alloy_primitives::{Address, Bytes, TxKind, B256, U256};
use fraxtal_evm::{
    attach_signer, convert_transaction, decode_transactions, ForkCondition, FraxtalEvmConfig,
    OpChainSpec, OpExecData, OpExecutionData, OpExecutionPayload, OpExecutionPayloadSidecar,
    OpForkSchedule, TransactionError,
};
use op_alloy_consensus::{build_post_exec_tx, OpTxEnvelope, SDMGasEntry, TxDeposit};
use reth_primitives_traits::SignedTransaction;
use std::sync::Arc;

/// The signed transaction that EIP-155 gives as an example, with a signature of the given `r`.
fn legacy(r: [u8; 32]) -> Vec<u8> {
    let mut bytes = vec![
        0xf8, 0x6c, 0x09, 0x85, 0x04, 0xa8, 0x17, 0xc8, 0x00, 0x82, 0x52, 0x08, 0x94,
    ];
    bytes.extend([0x35; 20]);
    bytes.extend([0x88, 0x0d, 0xe0, 0xb6, 0xb3, 0xa7, 0x64, 0x00, 0x00, 0x80, 0x25, 0xa0]);
    bytes.extend(r);
    bytes.extend([
        0xa0, 0x67, 0xcb, 0xe9, 0xd8, 0x99, 0x7f, 0x76, 0x1a, 0xec, 0xb7, 0x03, 0x30, 0x4b, 0x38,
        0x00, 0xcc, 0xf5, 0x55, 0xc9, 0xf3, 0xdc, 0x64, 0x21, 0x4b, 0x29, 0x7f, 0xb1, 0x96, 0x6a,
        0x3b, 0x6d, 0x83,
    ]);
    bytes
}

const R: [u8; 32] = [
    0x28, 0xef, 0x61, 0x34, 0x0b, 0xd9, 0x39, 0xbc, 0x21, 0x95, 0xfe, 0x53, 0x75, 0x67, 0x86, 0x60,
    0x03, 0xe1, 0xa1, 0x5d, 0x3c, 0x71, 0xff, 0x63, 0xe1, 0x59, 0x06, 0x20, 0xaa, 0x63, 0x62, 0x76,
];

const SIGNER: [u8; 20] = [
    0x9d, 0x8a, 0x62, 0xf6, 0x56, 0xa8, 0xd1, 0x61, 0x5c, 0x12, 0x94, 0xfd, 0x71, 0xe9, 0xcf, 0xb3,
    0xe4, 0x85, 0x5a, 0x4f,
];

fn deposit(from: [u8; 20]) -> Vec<u8> {
    TxDeposit {
        source_hash: B256::from([1; 32]),
        from: Address::from(from),
        to: TxKind::Call(Address::from([2; 20])),
        mint: 0,
        value: U256::from(5),
        gas_limit: 21_000,
        is_system_transaction: false,
        input: Bytes::new(),
    }
    .encoded_2718()
}

fn config() -> FraxtalEvmConfig {
    let forks = OpForkSchedule {
        bedrock: ForkCondition::Block(0),
        regolith: ForkCondition::Never,
        canyon: ForkCondition::Never,
        ecotone: ForkCondition::Never,
        fjord: ForkCondition::Never,
        granite: ForkCondition::Never,
        holocene: ForkCondition::Never,
        isthmus: ForkCondition::Never,
        jovian: ForkCondition::Never,
        karst: ForkCondition::Never,
        interop: ForkCondition::Never,
    };
    FraxtalEvmConfig::optimism(Arc::new(OpChainSpec { chain_id: 252, forks }))
}

fn data(transactions: Vec<Vec<u8>>) -> OpExecutionData {
    OpExecutionData {
        payload: OpExecutionPayload {
            parent_hash: [0; 32],
            fee_recipient: [0; 20],
            prev_randao: [0; 32],
            block_number: 1,
            gas_limit: 1,
            timestamp: 1,
            extra_data: vec![],
            base_fee_per_gas: [0; 4],
            transactions,
        },
        sidecar: OpExecutionPayloadSidecar { parent_beacon_block_root: None },
    }
}

#[test]
fn signed_transaction_gets_its_signer() {
    let tx = convert_transaction(legacy(R)).unwrap();
    assert_eq!(tx.value.signer, SIGNER);
    assert_eq!(tx.encoded, legacy(R));
    assert_eq!(*tx.value.tx.encoded(), legacy(R));
    assert!(tx.value.tx.envelope().is_legacy());
}

#[test]
fn deposit_is_signed_by_its_sender() {
    let tx = convert_transaction(deposit([7; 20])).unwrap();
    assert_eq!(tx.value.signer, [7; 20]);
    assert!(tx.value.tx.envelope().is_deposit());
}

#[test]
fn post_exec_transaction_is_signed_by_nobody() {
    let encoded = build_post_exec_tx(41, vec![SDMGasEntry { index: 3, gas_refund: 7 }])
        .encoded_2718();
    let tx = convert_transaction(encoded.clone()).unwrap();
    assert_eq!(tx.value.signer, [0; 20]);
    assert_eq!(tx.encoded, encoded);
}

#[test]
fn malformed_bytes_do_not_decode() {
    let mut trailing = legacy(R);
    trailing.push(0);
    for bytes in [vec![], vec![0x05], vec![0x02, 0xc0], trailing, legacy(R)[..50].to_vec()] {
        assert!(matches!(convert_transaction(bytes), Err(TransactionError::Decode(_))));
    }
}

#[test]
fn invalid_signature_is_not_recovered() {
    let converted = convert_transaction(legacy([0xff; 32]));
    assert!(matches!(converted, Err(TransactionError::Recover(_))));
}

#[test]
fn recovery_outcome_is_attached() {
    let mut txs = decode_transactions(&vec![deposit([7; 20]), legacy(R)]).unwrap();
    let second = txs.pop().unwrap();
    let first = txs.pop().unwrap();
    let attached = attach_signer(vec![1], first, Ok([9; 20])).unwrap();
    assert_eq!(attached.encoded, vec![1]);
    assert_eq!(attached.value.signer, [9; 20]);
    assert_eq!(*attached.value.tx.encoded(), deposit([7; 20]));
    let failed = alloy_consensus::crypto::RecoveryError::new();
    let refused = attach_signer(vec![1], second, Err(failed));
    assert!(matches!(refused, Err(TransactionError::Recover(_))));
}

#[test]
fn transactions_decode_all_or_none() {
    let all = vec![deposit([7; 20]), legacy(R)];
    let decoded = decode_transactions(&all).unwrap();
    assert_eq!(decoded.len(), 2);
    assert_eq!(*decoded[0].encoded(), all[0]);
    assert_eq!(*decoded[1].encoded(), all[1]);
    assert!(decode_transactions(&vec![deposit([7; 20]), vec![0x05], legacy(R)]).is_err());
    assert!(decode_transactions(&vec![]).unwrap().is_empty());
}

#[test]
fn payload_transactions_keep_their_order() {
    let transactions = vec![deposit([7; 20]), vec![0x05], legacy(R)];
    let payload = data(transactions.clone());
    let encoded = config().tx_iterator_for_payload(&payload).unwrap();
    assert_eq!(encoded, transactions);
    let signers: Vec<Option<[u8; 20]>> = encoded
        .into_iter()
        .map(|bytes| convert_transaction(bytes).ok().map(|tx| tx.value.signer))
        .collect();
    assert_eq!(signers, vec![Some([7; 20]), None, Some(SIGNER)]);
    let wrapped = OpExecData(payload);
    assert_eq!(config().tx_iterator_for_exec_data(&wrapped).unwrap(), transactions);
}

#[test]
fn copies_decode_as_the_originals_do() {
    let good = data(vec![deposit([7; 20]), legacy(R)]);
    let copies = config().tx_iterator_for_payload(&good).unwrap();
    assert!(decode_transactions(&copies).is_ok());
    let bad = data(vec![deposit([7; 20]), vec![0x7e]]);
    let copies = config().tx_iterator_for_payload(&bad).unwrap();
    assert!(decode_transactions(&copies).is_err());
}

#[test]
fn envelope_is_what_the_encoding_decodes_to() {
    for encoded in [legacy(R), deposit([7; 20]), deposit([8; 20])] {
        let expected = OpTxEnvelope::decode_2718_exact(&encoded).unwrap();
        let tx = convert_transaction(encoded.clone()).unwrap().value.tx;
        assert_eq!(*tx.envelope(), expected);
        assert_eq!(tx.envelope().encoded_2718(), encoded);
    }
}

/// How `alloy_eips` itself describes the failure to decode `bytes`.
fn decode_error(bytes: &[u8]) -> String {
    format!("{:?}", OpTxEnvelope::decode_2718_exact(bytes).unwrap_err())
}

#[test]
fn failed_decoding_returns_its_own_error() {
    let mut trailing = legacy(R);
    trailing.push(0);
    assert_ne!(decode_error(&[0x05]), decode_error(&trailing));
    for bytes in [vec![], vec![0x05], vec![0x02, 0xc0], trailing.clone()] {
        match convert_transaction(bytes.clone()) {
            Err(TransactionError::Decode(error)) => {
                assert_eq!(format!("{error:?}"), decode_error(&bytes));
            }
            other => panic!("{other:?}"),
        }
    }
    let first = decode_transactions(&vec![legacy(R), vec![0x05], trailing.clone()]).unwrap_err();
    assert_eq!(format!("{first:?}"), decode_error(&[0x05]));
    let first = decode_transactions(&vec![trailing.clone(), vec![0x05]]).unwrap_err();
    assert_eq!(format!("{first:?}"), decode_error(&trailing));
}

#[test]
fn failed_recovery_returns_its_own_error() {
    let encoded = legacy([0xff; 32]);
    let expected = OpTxEnvelope::decode_2718_exact(&encoded).unwrap().try_recover().unwrap_err();
    match convert_transaction(encoded) {
        Err(TransactionError::Recover(error)) => {
            assert_eq!(format!("{error:?}"), format!("{expected:?}"));
        }
        other => panic!("{other:?}"),
    }
}
