use chainhook_event_observer::chain::{
    BitcoinTransactionData, BitcoinTransactionMetadata, KeyRegistrationData, LockSTXData,
    PobBlockCommitmentData, PoxBlockCommitmentData, PoxReward, StacksBaseChainOperation,
    TransactionIdentifier, TransferSTXData, TxOut,
};
use chainhook_event_observer::chainhook::{
    BitcoinChainhookSpecification, BitcoinPredicateType, BitcoinTransactionFilterPredicate,
    ExactMatchingRule, HookAction, KeyRegistrationPredicate, LockSTXPredicate, MatchingRule,
    PobPredicate, PoxPredicate, TransferSTXPredicate,
};
use chainhook_event_observer::error::ChainhookError;
use chainhook_event_observer::chain::OperationKind;
use chainhook_event_observer::predicate::{
    any_operation_of_kind, any_operation_pays, any_output_holds, any_output_matches,
    any_recipient_matches, matches_rule,
};

const P2PKH_ADDRESS: &str = "1A1zP1eP5QGefi2DMPTfTL5SLmv7DivfNa";
const P2PKH_SCRIPT_HEX: &str = "76a91462e907b15cbf27d5425399ebf6f0fb50ebb88f1888ac";
const P2SH_ADDRESS: &str = "3J98t1WpEZ73CNmQviecrnyiWrnqRhWNLy";
const P2SH_SCRIPT_HEX: &str = "a914b472a266d0bd89c13706a4132ccfb16f7c3b9fcb87";

fn hook(kind: BitcoinPredicateType) -> BitcoinChainhookSpecification {
    BitcoinChainhookSpecification {
        uuid: "hook".to_string(),
        predicate: BitcoinTransactionFilterPredicate { kind },
        action: HookAction::Noop,
    }
}

fn transaction(
    hash: &str,
    scripts: &[&str],
    operations: Vec<StacksBaseChainOperation>,
) -> BitcoinTransactionData {
    BitcoinTransactionData {
        transaction_identifier: TransactionIdentifier { hash: hash.to_string() },
        metadata: BitcoinTransactionMetadata {
            outputs: scripts
                .iter()
                .map(|script| TxOut { value: 1000, script_pubkey: script.to_string() })
                .collect(),
            stacks_operations: operations,
        },
    }
}

fn pox_commitment(recipients: &[&str]) -> StacksBaseChainOperation {
    StacksBaseChainOperation::PoxBlockCommitment(PoxBlockCommitmentData {
        stacks_block_hash: "0xblock".to_string(),
        rewards: recipients
            .iter()
            .map(|recipient| PoxReward { recipient: recipient.to_string(), amount: 5000 })
            .collect(),
    })
}

fn pob_commitment() -> StacksBaseChainOperation {
    StacksBaseChainOperation::PobBlockCommitment(PobBlockCommitmentData {
        stacks_block_hash: "0xblock".to_string(),
        amount: 7,
    })
}

fn transfer() -> StacksBaseChainOperation {
    StacksBaseChainOperation::TransferSTX(TransferSTXData {
        sender: "alice".to_string(),
        recipient: "bob".to_string(),
        amount: "12".to_string(),
    })
}

fn lock() -> StacksBaseChainOperation {
    StacksBaseChainOperation::LockSTX(LockSTXData {
        sender: "alice".to_string(),
        amount: "12".to_string(),
        duration: 3,
    })
}

fn equals(target: &str) -> ExactMatchingRule {
    ExactMatchingRule::Equals(target.to_string())
}

#[test]
fn matches_rule_compares_bytes() {
    let equal = MatchingRule::Equals("aabb".to_string());
    assert!(matches_rule(&equal, "aabb"));
    assert!(!matches_rule(&equal, "aab"));
    assert!(!matches_rule(&equal, "aabbc"));
    let prefix = MatchingRule::StartsWith("aa".to_string());
    assert!(matches_rule(&prefix, "aabb"));
    assert!(matches_rule(&prefix, "aa"));
    assert!(!matches_rule(&prefix, "bbaa"));
    assert!(!matches_rule(&prefix, "a"));
    let suffix = MatchingRule::EndsWith("aa".to_string());
    assert!(matches_rule(&suffix, "bbaa"));
    assert!(!matches_rule(&suffix, "aabb"));
    let empty = MatchingRule::StartsWith(String::new());
    assert!(matches_rule(&empty, ""));
    assert!(matches_rule(&empty, "anything"));
}

#[test]
fn transaction_identifier_hash_is_compared_exactly() {
    let chainhook = hook(BitcoinPredicateType::TransactionIdentifierHash(equals("0xabc")));
    assert_eq!(chainhook.evaluate_transaction_predicate(&transaction("0xabc", &[], vec![])), Ok(true));
    assert_eq!(chainhook.evaluate_transaction_predicate(&transaction("0xabd", &[], vec![])), Ok(false));
    assert_eq!(chainhook.evaluate_transaction_predicate(&transaction("0xab", &[], vec![])), Ok(false));
    assert_eq!(chainhook.evaluate_transaction_predicate(&transaction("0xABC", &[], vec![])), Ok(false));
}

#[test]
fn op_return_equals_looks_at_every_output() {
    let chainhook = hook(BitcoinPredicateType::OpReturn(MatchingRule::Equals("01".to_string())));
    assert_eq!(chainhook.evaluate_transaction_predicate(&transaction("t", &["00", "01"], vec![])), Ok(true));
    assert_eq!(chainhook.evaluate_transaction_predicate(&transaction("t", &["00", "011"], vec![])), Ok(false));
    assert_eq!(chainhook.evaluate_transaction_predicate(&transaction("t", &[], vec![])), Ok(false));
}

#[test]
fn op_return_starts_with_matches_a_prefix_only() {
    let chainhook = hook(BitcoinPredicateType::OpReturn(MatchingRule::StartsWith("aa".to_string())));
    assert_eq!(chainhook.evaluate_transaction_predicate(&transaction("t", &["aabb"], vec![])), Ok(true));
    assert_eq!(chainhook.evaluate_transaction_predicate(&transaction("t", &["bbaa"], vec![])), Ok(false));
    assert_eq!(chainhook.evaluate_transaction_predicate(&transaction("t", &["bbaa", "aabb"], vec![])), Ok(true));
}

#[test]
fn op_return_ends_with_matches_a_suffix_only() {
    let chainhook = hook(BitcoinPredicateType::OpReturn(MatchingRule::EndsWith("aa".to_string())));
    assert_eq!(chainhook.evaluate_transaction_predicate(&transaction("t", &["bbaa"], vec![])), Ok(true));
    assert_eq!(chainhook.evaluate_transaction_predicate(&transaction("t", &["aabb"], vec![])), Ok(false));
}

#[test]
fn p2pkh_matches_the_script_rebuilt_from_the_address() {
    let chainhook = hook(BitcoinPredicateType::P2pkh(equals(P2PKH_ADDRESS)));
    let paying = transaction("t", &["6a00", P2PKH_SCRIPT_HEX], vec![]);
    assert_eq!(chainhook.evaluate_transaction_predicate(&paying), Ok(true));
    let other = transaction("t", &["6a00", P2SH_SCRIPT_HEX], vec![]);
    assert_eq!(chainhook.evaluate_transaction_predicate(&other), Ok(false));
    let upper_case = transaction("t", &["76A91462E907B15CBF27D5425399EBF6F0FB50EBB88F1888AC"], vec![]);
    assert_eq!(chainhook.evaluate_transaction_predicate(&upper_case), Ok(false));
    assert_eq!(chainhook.evaluate_transaction_predicate(&transaction("t", &[], vec![])), Ok(false));
}

#[test]
fn p2sh_matches_the_script_rebuilt_from_the_address() {
    let chainhook = hook(BitcoinPredicateType::P2sh(equals(P2SH_ADDRESS)));
    let paying = transaction("t", &[P2SH_SCRIPT_HEX], vec![]);
    assert_eq!(chainhook.evaluate_transaction_predicate(&paying), Ok(true));
    let other = transaction("t", &[P2PKH_SCRIPT_HEX], vec![]);
    assert_eq!(chainhook.evaluate_transaction_predicate(&other), Ok(false));
}

#[test]
fn malformed_address_is_reported_whatever_the_transaction() {
    for address in ["not base58!", "", "ZiCa", "0000"] {
        for chainhook in [
            hook(BitcoinPredicateType::P2pkh(equals(address))),
            hook(BitcoinPredicateType::P2sh(equals(address))),
        ] {
            assert_eq!(
                chainhook.evaluate_transaction_predicate(&transaction("t", &[], vec![])),
                Err(ChainhookError::InvalidAddressEncoding)
            );
            assert_eq!(
                chainhook.evaluate_transaction_predicate(&transaction("t", &[P2PKH_SCRIPT_HEX], vec![])),
                Err(ChainhookError::InvalidAddressEncoding)
            );
        }
    }
}

#[test]
fn witness_addresses_never_match() {
    let address = "bc1qw508d6qejxtdg4y5r3zarvary0c5xw7kv8f3t4";
    let script = "0014751e76e8199196d454941c45d1b3a323f1433bd6";
    for chainhook in [
        hook(BitcoinPredicateType::P2wpkh(equals(address))),
        hook(BitcoinPredicateType::P2wsh(equals(address))),
    ] {
        assert_eq!(chainhook.evaluate_transaction_predicate(&transaction("t", &[script], vec![])), Ok(false));
        assert_eq!(chainhook.evaluate_transaction_predicate(&transaction("t", &[], vec![])), Ok(false));
    }
}

#[test]
fn operation_predicates_ask_for_one_operation_of_their_kind() {
    let kinds: Vec<(BitcoinPredicateType, StacksBaseChainOperation)> = vec![
        (BitcoinPredicateType::Pob(PobPredicate::Any), pob_commitment()),
        (BitcoinPredicateType::Pox(PoxPredicate::Any), pox_commitment(&["r"])),
        (
            BitcoinPredicateType::KeyRegistration(KeyRegistrationPredicate::Any),
            StacksBaseChainOperation::KeyRegistration(KeyRegistrationData),
        ),
        (BitcoinPredicateType::TransferSTX(TransferSTXPredicate::Any), transfer()),
        (BitcoinPredicateType::LockSTX(LockSTXPredicate::Any), lock()),
    ];
    let all = || {
        vec![
            pob_commitment(),
            pox_commitment(&["r"]),
            StacksBaseChainOperation::KeyRegistration(KeyRegistrationData),
            transfer(),
            lock(),
        ]
    };
    for (index, (kind, operation)) in kinds.into_iter().enumerate() {
        let chainhook = hook(kind);
        assert_eq!(chainhook.evaluate_transaction_predicate(&transaction("t", &[], vec![])), Ok(false));
        assert_eq!(chainhook.evaluate_transaction_predicate(&transaction("t", &[], vec![operation])), Ok(true));
        assert_eq!(chainhook.evaluate_transaction_predicate(&transaction("t", &[], all())), Ok(true));
        let mut others = all();
        others.remove(index);
        assert_eq!(chainhook.evaluate_transaction_predicate(&transaction("t", &[], others)), Ok(false));
    }
}

#[test]
fn pox_recipient_rules_look_at_every_reward_of_every_commitment() {
    let equal = hook(BitcoinPredicateType::Pox(PoxPredicate::Recipient(MatchingRule::Equals(
        "bob".to_string(),
    ))));
    let prefix = hook(BitcoinPredicateType::Pox(PoxPredicate::Recipient(MatchingRule::StartsWith(
        "bo".to_string(),
    ))));
    let suffix = hook(BitcoinPredicateType::Pox(PoxPredicate::Recipient(MatchingRule::EndsWith(
        "ob".to_string(),
    ))));
    let with_bob = transaction("t", &[], vec![pox_commitment(&["alice"]), transfer(), pox_commitment(&["carol", "bob"])]);
    let with_bobby = transaction("t", &[], vec![pox_commitment(&["bobby"])]);
    let with_jacob = transaction("t", &[], vec![pox_commitment(&["jacob"])]);
    let without = transaction("t", &[], vec![pox_commitment(&[]), transfer(), pob_commitment()]);
    assert_eq!(equal.evaluate_transaction_predicate(&with_bob), Ok(true));
    assert_eq!(equal.evaluate_transaction_predicate(&with_bobby), Ok(false));
    assert_eq!(equal.evaluate_transaction_predicate(&without), Ok(false));
    assert_eq!(prefix.evaluate_transaction_predicate(&with_bob), Ok(true));
    assert_eq!(prefix.evaluate_transaction_predicate(&with_bobby), Ok(true));
    assert_eq!(prefix.evaluate_transaction_predicate(&with_jacob), Ok(false));
    assert_eq!(suffix.evaluate_transaction_predicate(&with_jacob), Ok(true));
    assert_eq!(suffix.evaluate_transaction_predicate(&with_bobby), Ok(false));
    assert_eq!(suffix.evaluate_transaction_predicate(&without), Ok(false));
}

#[test]
fn transfer_recipient_is_no_reward_recipient() {
    let chainhook = hook(BitcoinPredicateType::Pox(PoxPredicate::Recipient(MatchingRule::Equals(
        "bob".to_string(),
    ))));
    assert_eq!(chainhook.evaluate_transaction_predicate(&transaction("t", &[], vec![transfer()])), Ok(false));
}

#[test]
fn scans_find_what_is_there_and_nothing_else() {
    let outputs = vec![
        TxOut { value: 1, script_pubkey: "aabb".to_string() },
        TxOut { value: 2, script_pubkey: "ccdd".to_string() },
    ];
    assert!(any_output_holds(b"ccdd", &outputs));
    assert!(!any_output_holds(b"ccd", &outputs));
    assert!(!any_output_holds(b"", &outputs));
    assert!(!any_output_holds(b"ccdd", &vec![]));
    assert!(any_output_matches(&MatchingRule::EndsWith("dd".to_string()), &outputs));
    assert!(!any_output_matches(&MatchingRule::EndsWith("ee".to_string()), &outputs));
    let rewards = vec![
        PoxReward { recipient: "bob".to_string(), amount: 1 },
        PoxReward { recipient: "carol".to_string(), amount: 2 },
    ];
    assert!(any_recipient_matches(&MatchingRule::Equals("carol".to_string()), &rewards));
    assert!(!any_recipient_matches(&MatchingRule::Equals("dave".to_string()), &rewards));
    let operations = vec![transfer(), pox_commitment(&["bob"])];
    assert!(any_operation_of_kind(OperationKind::TransferSTX, &operations));
    assert!(any_operation_of_kind(OperationKind::PoxBlockCommitment, &operations));
    assert!(!any_operation_of_kind(OperationKind::LockSTX, &operations));
    assert!(any_operation_pays(&MatchingRule::StartsWith("b".to_string()), &operations));
    assert!(!any_operation_pays(&MatchingRule::StartsWith("c".to_string()), &operations));
}

#[test]
fn long_addresses_are_decoded_like_short_ones() {
    let address = "z".repeat(140);
    let decoded = base58::FromBase58::from_base58(address.as_str()).unwrap();
    let hash: String = decoded[1..21].iter().map(|byte| format!("{:02x}", byte)).collect();
    let p2pkh_script = format!("76a914{}88ac", hash);
    let p2sh_script = format!("a914{}87", hash);
    let p2pkh = hook(BitcoinPredicateType::P2pkh(equals(&address)));
    let p2sh = hook(BitcoinPredicateType::P2sh(equals(&address)));
    let pays_key = transaction("t", &["6a00", p2pkh_script.as_str()], vec![]);
    let pays_script = transaction("t", &[p2sh_script.as_str()], vec![]);
    assert_eq!(p2pkh.evaluate_transaction_predicate(&pays_key), Ok(true));
    assert_eq!(p2pkh.evaluate_transaction_predicate(&pays_script), Ok(false));
    assert_eq!(p2pkh.evaluate_transaction_predicate(&transaction("t", &[], vec![])), Ok(false));
    assert_eq!(p2sh.evaluate_transaction_predicate(&pays_script), Ok(true));
    assert_eq!(p2sh.evaluate_transaction_predicate(&pays_key), Ok(false));
    let zeros = hook(BitcoinPredicateType::P2pkh(equals(&"1".repeat(500))));
    let pays_zeros = transaction("t", &["76a914000000000000000000000000000000000000000088ac"], vec![]);
    assert_eq!(zeros.evaluate_transaction_predicate(&pays_zeros), Ok(true));
    assert_eq!(zeros.evaluate_transaction_predicate(&pays_key), Ok(false));
    let undecodable = hook(BitcoinPredicateType::P2pkh(equals(&"z".repeat(200))));
    assert_eq!(
        undecodable.evaluate_transaction_predicate(&pays_key),
        Err(ChainhookError::InvalidAddressEncoding)
    );
}
