//! Whether a transaction meets the predicate of a chainhook.

use crate::address::{
    address_hash,
    build_p2pkh_script,
    build_p2sh_script,
    decode_address_hash,
    p2pkh_script,
    p2sh_script,
};
use crate::chain::{
    kind_of,
    operations_view,
    outputs_view,
    rewards_view,
    BitcoinTransactionData,
    BitcoinTransactionView,
    OperationKind,
    PoxReward,
    PoxRewardView,
    StacksBaseChainOperation,
    StacksBaseChainOperationView,
    TxOut,
    TxOutView,
};
use crate::chainhook::{
    BitcoinChainhookSpecification,
    BitcoinPredicateType,
    BitcoinPredicateView,
    ExactMatchingRule,
    KeyRegistrationPredicate,
    LockSTXPredicate,
    MatchingRule,
    MatchingRuleView,
    PobPredicate,
    PoxPredicate,
    TransferSTXPredicate,
};
use crate::error::ChainhookError;
use crate::matching::{
    ends_with,
    equals,
    hex_encoding,
    lemma_text_bytes_injective,
    starts_with,
    text_bytes,
    to_hex,
};
use vstd::prelude::*;

verus! {

/// Whether `text` meets `rule`, compared byte by byte.
pub open spec fn rule_matches(rule: MatchingRuleView, text: Seq<char>) -> bool {
    match rule {
        MatchingRuleView::Equals(target) => text_bytes(text) == text_bytes(target),
        MatchingRuleView::StartsWith(prefix) => text_bytes(prefix).is_prefix_of(text_bytes(text)),
        MatchingRuleView::EndsWith(suffix) => text_bytes(suffix).is_suffix_of(text_bytes(text)),
    }
}

/// Whether the script of some output meets `rule`.
pub open spec fn some_output_matches(rule: MatchingRuleView, outputs: Seq<TxOutView>) -> bool {
    exists|i: int| 0 <= i < outputs.len() && rule_matches(rule, #[trigger] outputs[i].script_pubkey)
}

/// Whether the script of some output is `script_hex`.
pub open spec fn some_output_holds(script_hex: Seq<u8>, outputs: Seq<TxOutView>) -> bool {
    exists|i: int|
        0 <= i < outputs.len() && text_bytes(#[trigger] outputs[i].script_pubkey) == script_hex
}

/// Whether some of `rewards` goes to a recipient that meets `rule`.
pub open spec fn some_recipient_matches(rule: MatchingRuleView, rewards: Seq<PoxRewardView>) -> bool {
    exists|j: int| 0 <= j < rewards.len() && rule_matches(rule, #[trigger] rewards[j].recipient)
}

/// Whether `operation` is a commitment with a reward to a recipient that
/// meets `rule`.
pub open spec fn pays_matching_recipient(
    rule: MatchingRuleView,
    operation: StacksBaseChainOperationView,
) -> bool {
    match operation {
        StacksBaseChainOperationView::PoxBlockCommitment(commitment) => some_recipient_matches(
            rule,
            commitment.rewards,
        ),
        _ => false,
    }
}

/// Whether some of `operations` is of the kind `kind`.
pub open spec fn some_operation_is(
    kind: OperationKind,
    operations: Seq<StacksBaseChainOperationView>,
) -> bool {
    exists|i: int| 0 <= i < operations.len() && kind_of(#[trigger] operations[i]) == kind
}

/// Whether some of `operations` is a commitment with a reward to a recipient
/// that meets `rule`.
pub open spec fn some_operation_pays(
    rule: MatchingRuleView,
    operations: Seq<StacksBaseChainOperationView>,
) -> bool {
    exists|i: int|
        0 <= i < operations.len() && pays_matching_recipient(rule, #[trigger] operations[i])
}

/// Why `predicate` cannot be evaluated, if it cannot: its address holds no
/// hash. The other kinds can always be evaluated.
pub open spec fn predicate_error(predicate: BitcoinPredicateView) -> Option<ChainhookError> {
    match predicate {
        BitcoinPredicateView::P2pkh(address) | BitcoinPredicateView::P2sh(address) => {
            if address_hash(address) is None {
                Some(ChainhookError::InvalidAddressEncoding)
            } else {
                None
            }
        },
        _ => None,
    }
}

/// Whether `transaction` meets `predicate`. Of a predicate that cannot be
/// evaluated this says `false`.
pub open spec fn predicate_matches(
    predicate: BitcoinPredicateView,
    transaction: BitcoinTransactionView,
) -> bool {
    let operations = transaction.stacks_operations;
    match predicate {
        BitcoinPredicateView::TransactionIdentifierHash(target) => transaction.hash == target,
        BitcoinPredicateView::OpReturn(rule) => some_output_matches(rule, transaction.outputs),
        BitcoinPredicateView::P2pkh(address) => {
            &&& address_hash(address) matches Some(hash)
            &&& some_output_holds(hex_encoding(p2pkh_script(hash)), transaction.outputs)
        },
        BitcoinPredicateView::P2sh(address) => {
            &&& address_hash(address) matches Some(hash)
            &&& some_output_holds(hex_encoding(p2sh_script(hash)), transaction.outputs)
        },
        BitcoinPredicateView::P2wpkh(_) => false,
        BitcoinPredicateView::P2wsh(_) => false,
        BitcoinPredicateView::PobAny => some_operation_is(
            OperationKind::PobBlockCommitment,
            operations,
        ),
        BitcoinPredicateView::PoxAny => some_operation_is(
            OperationKind::PoxBlockCommitment,
            operations,
        ),
        BitcoinPredicateView::PoxRecipient(rule) => some_operation_pays(rule, operations),
        BitcoinPredicateView::KeyRegistrationAny => some_operation_is(
            OperationKind::KeyRegistration,
            operations,
        ),
        BitcoinPredicateView::TransferSTXAny => some_operation_is(
            OperationKind::TransferSTX,
            operations,
        ),
        BitcoinPredicateView::LockSTXAny => some_operation_is(OperationKind::LockSTX, operations),
    }
}

/// What evaluating `predicate` on `transaction` gives: the error of the
/// predicate if it has one, else whether the transaction meets it.
pub open spec fn evaluation_of(
    predicate: BitcoinPredicateView,
    transaction: BitcoinTransactionView,
) -> Result<bool, ChainhookError> {
    match predicate_error(predicate) {
        Some(error) => Err(error),
        None => Ok(predicate_matches(predicate, transaction)),
    }
}

/// A transaction meets "pays to the public key hash of `address`" exactly if
/// one of its outputs holds, as hexadecimal text, the script that pays to the
/// hash in the address.
pub proof fn lemma_p2pkh_matches_rebuilt_script(
    address: Seq<char>,
    hash: Seq<u8>,
    transaction: BitcoinTransactionView,
)
    requires
        address_hash(address) == Some(hash),
    ensures
        evaluation_of(BitcoinPredicateView::P2pkh(address), transaction) matches Ok(met) && met
            == some_output_holds(hex_encoding(p2pkh_script(hash)), transaction.outputs),
{
}

/// A transaction meets "pays to the script hash of `address`" exactly if one
/// of its outputs holds, as hexadecimal text, the script that pays to the
/// hash in the address.
pub proof fn lemma_p2sh_matches_rebuilt_script(
    address: Seq<char>,
    hash: Seq<u8>,
    transaction: BitcoinTransactionView,
)
    requires
        address_hash(address) == Some(hash),
    ensures
        evaluation_of(BitcoinPredicateView::P2sh(address), transaction) matches Ok(met) && met
            == some_output_holds(hex_encoding(p2sh_script(hash)), transaction.outputs),
{
}

/// A predicate on an address that holds no hash fails on every transaction,
/// and only such a predicate fails.
pub proof fn lemma_only_addresses_fail(
    predicate: BitcoinPredicateView,
    transaction: BitcoinTransactionView,
)
    ensures
        evaluation_of(predicate, transaction) is Err <==> {
            ||| predicate matches BitcoinPredicateView::P2pkh(address) && address_hash(address)
                is None
            ||| predicate matches BitcoinPredicateView::P2sh(address) && address_hash(address)
                is None
        },
        evaluation_of(predicate, transaction) matches Err(error) ==> error
            == ChainhookError::InvalidAddressEncoding,
{
}

/// Whether `text` meets `rule`.
pub fn matches_rule(rule: &MatchingRule, text: &str) -> (met: bool)
    ensures
        met == rule_matches(rule@, text@),
{
    let bytes = text.as_bytes();
    match rule {
        MatchingRule::Equals(target) => equals(bytes, target.as_str().as_bytes()),
        MatchingRule::StartsWith(prefix) => starts_with(bytes, prefix.as_str().as_bytes()),
        MatchingRule::EndsWith(suffix) => ends_with(bytes, suffix.as_str().as_bytes()),
    }
}

/// Whether the script of some output meets `rule`.
pub fn any_output_matches(rule: &MatchingRule, outputs: &Vec<TxOut>) -> (found: bool)
    ensures
        found == some_output_matches(rule@, outputs_view(outputs@)),
{
    let mut i: usize = 0;
    while i < outputs.len()
        invariant
            i <= outputs.len(),
            forall|k: int|
                0 <= k < i ==> !rule_matches(
                    rule@,
                    #[trigger] outputs_view(outputs@)[k].script_pubkey,
                ),
        decreases outputs.len() - i,
    {
        if matches_rule(rule, outputs[i].script_pubkey.as_str()) {
            assert(rule_matches(rule@, outputs_view(outputs@)[i as int].script_pubkey));
            return true;
        }
        i += 1;
    }
    false
}

/// Whether the script of some output is `script_hex`.
pub fn any_output_holds(script_hex: &[u8], outputs: &Vec<TxOut>) -> (found: bool)
    ensures
        found == some_output_holds(script_hex@, outputs_view(outputs@)),
{
    let mut i: usize = 0;
    while i < outputs.len()
        invariant
            i <= outputs.len(),
            forall|k: int|
                0 <= k < i ==> text_bytes(#[trigger] outputs_view(outputs@)[k].script_pubkey)
                    != script_hex@,
        decreases outputs.len() - i,
    {
        if equals(outputs[i].script_pubkey.as_str().as_bytes(), script_hex) {
            assert(text_bytes(outputs_view(outputs@)[i as int].script_pubkey) == script_hex@);
            return true;
        }
        i += 1;
    }
    false
}

/// Whether some of `rewards` goes to a recipient that meets `rule`.
pub fn any_recipient_matches(rule: &MatchingRule, rewards: &Vec<PoxReward>) -> (found: bool)
    ensures
        found == some_recipient_matches(rule@, rewards_view(rewards@)),
{
    let mut j: usize = 0;
    while j < rewards.len()
        invariant
            j <= rewards.len(),
            forall|k: int|
                0 <= k < j ==> !rule_matches(rule@, #[trigger] rewards_view(rewards@)[k].recipient),
        decreases rewards.len() - j,
    {
        if matches_rule(rule, rewards[j].recipient.as_str()) {
            assert(rule_matches(rule@, rewards_view(rewards@)[j as int].recipient));
            return true;
        }
        j += 1;
    }
    false
}

/// Whether some of `operations` is of the kind `kind`.
pub fn any_operation_of_kind(kind: OperationKind, operations: &Vec<StacksBaseChainOperation>) -> (found:
    bool)
    ensures
        found == some_operation_is(kind, operations_view(operations@)),
{
    let mut i: usize = 0;
    while i < operations.len()
        invariant
            i <= operations.len(),
            forall|k: int|
                0 <= k < i ==> kind_of(#[trigger] operations_view(operations@)[k]) != kind,
        decreases operations.len() - i,
    {
        if operations[i].kind() == kind {
            assert(kind_of(operations_view(operations@)[i as int]) == kind);
            return true;
        }
        i += 1;
    }
    false
}

/// Whether some of `operations` is a commitment with a reward to a recipient
/// that meets `rule`.
pub fn any_operation_pays(rule: &MatchingRule, operations: &Vec<StacksBaseChainOperation>) -> (found:
    bool)
    ensures
        found == some_operation_pays(rule@, operations_view(operations@)),
{
    let mut i: usize = 0;
    while i < operations.len()
        invariant
            i <= operations.len(),
            forall|k: int|
                0 <= k < i ==> !pays_matching_recipient(
                    rule@,
                    #[trigger] operations_view(operations@)[k],
                ),
        decreases operations.len() - i,
    {
        if let StacksBaseChainOperation::PoxBlockCommitment(commitment) = &operations[i] {
            if any_recipient_matches(rule, &commitment.rewards) {
                assert(pays_matching_recipient(rule@, operations_view(operations@)[i as int]));
                return true;
            }
        }
        i += 1;
    }
    false
}

impl BitcoinChainhookSpecification {
    /// Evaluates the predicate of this chainhook on `tx`.
    ///
    /// The result is an error exactly if the predicate names an address that
    /// holds no hash; then it is `InvalidAddressEncoding`, whatever `tx` is.
    /// Otherwise it says whether `tx` meets the predicate. The witness address
    /// kinds are not implemented: no transaction meets them.
    pub fn evaluate_transaction_predicate(&self, tx: &BitcoinTransactionData) -> (outcome: Result<
        bool,
        ChainhookError,
    >)
        ensures
            outcome == evaluation_of(self@.predicate, tx@),
    {
        let operations = &tx.metadata.stacks_operations;
        match &self.predicate.kind {
            BitcoinPredicateType::TransactionIdentifierHash(ExactMatchingRule::Equals(txid)) => {
                proof {
                    lemma_text_bytes_injective(tx.transaction_identifier.hash@, txid@);
                }
                Ok(
                    equals(
                        tx.transaction_identifier.hash.as_str().as_bytes(),
                        txid.as_str().as_bytes(),
                    ),
                )
            },
            BitcoinPredicateType::OpReturn(rule) => Ok(
                any_output_matches(rule, &tx.metadata.outputs),
            ),
            BitcoinPredicateType::P2pkh(ExactMatchingRule::Equals(address)) => {
                match decode_address_hash(address.as_str()) {
                    Ok(hash) => {
                        let script = build_p2pkh_script(hash.as_slice());
                        let script_hex = to_hex(script.as_slice());
                        Ok(any_output_holds(script_hex.as_slice(), &tx.metadata.outputs))
                    },
                    Err(error) => Err(error),
                }
            },
            BitcoinPredicateType::P2sh(ExactMatchingRule::Equals(address)) => {
                match decode_address_hash(address.as_str()) {
                    Ok(hash) => {
                        let script = build_p2sh_script(hash.as_slice());
                        let script_hex = to_hex(script.as_slice());
                        Ok(any_output_holds(script_hex.as_slice(), &tx.metadata.outputs))
                    },
                    Err(error) => Err(error),
                }
            },
            BitcoinPredicateType::P2wpkh(ExactMatchingRule::Equals(_address)) => Ok(false),
            BitcoinPredicateType::P2wsh(ExactMatchingRule::Equals(_address)) => Ok(false),
            BitcoinPredicateType::Pob(PobPredicate::Any) => Ok(
                any_operation_of_kind(OperationKind::PobBlockCommitment, operations),
            ),
            BitcoinPredicateType::Pox(PoxPredicate::Any) => Ok(
                any_operation_of_kind(OperationKind::PoxBlockCommitment, operations),
            ),
            BitcoinPredicateType::Pox(PoxPredicate::Recipient(rule)) => Ok(
                any_operation_pays(rule, operations),
            ),
            BitcoinPredicateType::KeyRegistration(KeyRegistrationPredicate::Any) => Ok(
                any_operation_of_kind(OperationKind::KeyRegistration, operations),
            ),
            BitcoinPredicateType::TransferSTX(TransferSTXPredicate::Any) => Ok(
                any_operation_of_kind(OperationKind::TransferSTX, operations),
            ),
            BitcoinPredicateType::LockSTX(LockSTXPredicate::Any) => Ok(
                any_operation_of_kind(OperationKind::LockSTX, operations),
            ),
        }
    }
}

} // verus!
