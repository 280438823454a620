use chainhook_event_observer::action::{
    BitcoinApplyTransactionPayload, BitcoinChainhookOccurrencePayload, BitcoinChainhookPayload,
    BitcoinRollbackTransactionPayload,
};
use chainhook_event_observer::chain::{
    BitcoinTransactionData, BitcoinTransactionMetadata, BlockIdentifier, KeyRegistrationData,
    LockSTXData, OperationKind, PobBlockCommitmentData, PoxBlockCommitmentData, PoxReward,
    StacksBaseChainOperation, TransactionIdentifier, TransferSTXData, TxOut,
};

fn every_operation() -> Vec<StacksBaseChainOperation> {
    vec![
        StacksBaseChainOperation::PobBlockCommitment(PobBlockCommitmentData {
            stacks_block_hash: "0xs1".to_string(),
            amount: 7,
        }),
        StacksBaseChainOperation::PoxBlockCommitment(PoxBlockCommitmentData {
            stacks_block_hash: "0xs2".to_string(),
            rewards: vec![
                PoxReward { recipient: "bob".to_string(), amount: 10 },
                PoxReward { recipient: "carol".to_string(), amount: 20 },
            ],
        }),
        StacksBaseChainOperation::KeyRegistration(KeyRegistrationData),
        StacksBaseChainOperation::TransferSTX(TransferSTXData {
            sender: "alice".to_string(),
            recipient: "bob".to_string(),
            amount: "12".to_string(),
        }),
        StacksBaseChainOperation::LockSTX(LockSTXData {
            sender: "alice".to_string(),
            amount: "13".to_string(),
            duration: 4,
        }),
    ]
}

fn full_transaction() -> BitcoinTransactionData {
    BitcoinTransactionData {
        transaction_identifier: TransactionIdentifier { hash: "0xabc".to_string() },
        metadata: BitcoinTransactionMetadata {
            outputs: vec![
                TxOut { value: 1, script_pubkey: "6a00".to_string() },
                TxOut { value: u64::MAX, script_pubkey: String::new() },
            ],
            stacks_operations: every_operation(),
        },
    }
}

#[test]
fn operations_tell_their_kind() {
    let kinds: Vec<OperationKind> =
        every_operation().iter().map(|operation| operation.kind()).collect();
    assert_eq!(
        kinds,
        vec![
            OperationKind::PobBlockCommitment,
            OperationKind::PoxBlockCommitment,
            OperationKind::KeyRegistration,
            OperationKind::TransferSTX,
            OperationKind::LockSTX,
        ]
    );
}

#[test]
fn clones_of_chain_data_are_equal_to_what_they_copy() {
    let transaction = full_transaction();
    assert_eq!(transaction.clone(), transaction);
    for operation in every_operation() {
        assert_eq!(operation.clone(), operation);
    }
    let identifier = BlockIdentifier { index: 9, hash: "0xblock".to_string() };
    assert_eq!(identifier.clone(), identifier);
    let output = TxOut { value: 5, script_pubkey: "00".to_string() };
    assert_eq!(output.clone(), output);
    let empty = BitcoinTransactionData {
        transaction_identifier: TransactionIdentifier { hash: String::new() },
        metadata: BitcoinTransactionMetadata { outputs: vec![], stacks_operations: vec![] },
    };
    assert_eq!(empty.clone(), empty);
}

#[test]
fn clones_of_payloads_are_equal_to_what_they_copy() {
    let identifier = BlockIdentifier { index: 9, hash: "0xblock".to_string() };
    let payload = BitcoinChainhookOccurrencePayload {
        apply: vec![
            BitcoinApplyTransactionPayload {
                transaction: full_transaction(),
                block_identifier: identifier.clone(),
                confirmations: 1,
                proof: Some(vec![1, 2, 3]),
            },
            BitcoinApplyTransactionPayload {
                transaction: full_transaction(),
                block_identifier: identifier.clone(),
                confirmations: 1,
                proof: None,
            },
        ],
        rollback: vec![BitcoinRollbackTransactionPayload {
            transaction: full_transaction(),
            block_identifier: identifier.clone(),
            confirmations: 1,
        }],
        chainhook: BitcoinChainhookPayload { uuid: "hook".to_string() },
    };
    assert_eq!(payload.clone(), payload);
    assert_eq!(payload.apply[0].clone(), payload.apply[0]);
    assert_eq!(payload.rollback[0].clone(), payload.rollback[0]);
    assert_eq!(payload.chainhook.clone(), payload.chainhook);
}
