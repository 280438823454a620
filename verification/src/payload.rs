//! The payload that is delivered for a trigger, as a JSON document.
//!
//! The document has three members: `apply` and `rollback`, with one entry
//! for each transaction of the trigger, and `chainhook`, which names the
//! chainhook and repeats its predicate.

use crate::chain::{
    operations_view,
    outputs_view,
    rewards_view,
    BitcoinTransactionData,
    BitcoinTransactionView,
    BlockIdentifier,
    BlockIdentifierView,
    PoxReward,
    PoxRewardView,
    StacksBaseChainOperation,
    StacksBaseChainOperationView,
    TxOut,
    TxOutView,
};
use crate::chainhook::{
    BitcoinChainhookSpecification,
    BitcoinChainhookView,
    BitcoinPredicateType,
    BitcoinPredicateView,
    ExactMatchingRule,
    KeyRegistrationPredicate,
    LockSTXPredicate,
    MatchingRule,
    MatchingRuleView,
    PobPredicate,
    PoxPredicate,
    TransferSTXPredicate,
};
use crate::evaluation::{entries_view, BitcoinTriggerChainhook, BitcoinTriggerView, EntryView};
use crate::json::{
    json_array,
    json_members,
    json_members_insert,
    json_members_new,
    json_model,
    json_null,
    json_number,
    json_object,
    json_string,
    models_of,
    no_members,
    Json,
    JsonMembers,
};
use crate::lookup::ProofLookup;
use vstd::prelude::*;

verus! {

/// The number of confirmations that every entry reports. The depth of a
/// block in the chain is not known here, so this is a fixed stand-in and not
/// a count.
pub const CONFIRMATIONS: u8 = 1;

/// The document for the name of a block.
pub open spec fn block_identifier_json(identifier: BlockIdentifierView) -> Json {
    Json::Object(
        no_members().insert("index"@, Json::Number(identifier.index)).insert(
            "hash"@,
            Json::String(identifier.hash),
        ),
    )
}

/// The document for an output.
pub open spec fn output_json(output: TxOutView) -> Json {
    Json::Object(
        no_members().insert("value"@, Json::Number(output.value)).insert(
            "script_pubkey"@,
            Json::String(output.script_pubkey),
        ),
    )
}

/// The document for a reward.
pub open spec fn reward_json(reward: PoxRewardView) -> Json {
    Json::Object(
        no_members().insert("recipient"@, Json::String(reward.recipient)).insert(
            "amount"@,
            Json::Number(reward.amount),
        ),
    )
}

/// The document for an operation: an object with one member, named after the
/// kind of the operation, that holds its data.
pub open spec fn operation_json(operation: StacksBaseChainOperationView) -> Json {
    match operation {
        StacksBaseChainOperationView::PobBlockCommitment(data) => Json::Object(
            no_members().insert(
                "PobBlockCommitment"@,
                Json::Object(
                    no_members().insert(
                        "stacks_block_hash"@,
                        Json::String(data.stacks_block_hash),
                    ).insert("amount"@, Json::Number(data.amount)),
                ),
            ),
        ),
        StacksBaseChainOperationView::PoxBlockCommitment(data) => Json::Object(
            no_members().insert(
                "PoxBlockCommitment"@,
                Json::Object(
                    no_members().insert(
                        "stacks_block_hash"@,
                        Json::String(data.stacks_block_hash),
                    ).insert(
                        "rewards"@,
                        Json::Array(data.rewards.map_values(|reward: PoxRewardView| reward_json(reward))),
                    ),
                ),
            ),
        ),
        StacksBaseChainOperationView::KeyRegistration => Json::Object(
            no_members().insert("KeyRegistration"@, Json::Null),
        ),
        StacksBaseChainOperationView::TransferSTX(data) => Json::Object(
            no_members().insert(
                "TransferSTX"@,
                Json::Object(
                    no_members().insert("sender"@, Json::String(data.sender)).insert(
                        "recipient"@,
                        Json::String(data.recipient),
                    ).insert("amount"@, Json::String(data.amount)),
                ),
            ),
        ),
        StacksBaseChainOperationView::LockSTX(data) => Json::Object(
            no_members().insert(
                "LockSTX"@,
                Json::Object(
                    no_members().insert("sender"@, Json::String(data.sender)).insert(
                        "amount"@,
                        Json::String(data.amount),
                    ).insert("duration"@, Json::Number(data.duration)),
                ),
            ),
        ),
    }
}

/// The document for a transaction.
pub open spec fn transaction_json(transaction: BitcoinTransactionView) -> Json {
    Json::Object(
        no_members().insert(
            "transaction_identifier"@,
            Json::Object(no_members().insert("hash"@, Json::String(transaction.hash))),
        ).insert(
            "metadata"@,
            Json::Object(
                no_members().insert(
                    "outputs"@,
                    Json::Array(transaction.outputs.map_values(|output: TxOutView| output_json(output))),
                ).insert(
                    "stacks_operations"@,
                    Json::Array(
                        transaction.stacks_operations.map_values(
                            |operation: StacksBaseChainOperationView| operation_json(operation),
                        ),
                    ),
                ),
            ),
        ),
    )
}

/// The document for a matching rule: one member, named after the
/// comparison, that holds the target.
pub open spec fn rule_json(rule: MatchingRuleView) -> Json {
    match rule {
        MatchingRuleView::Equals(target) => exact_rule_json(target),
        MatchingRuleView::StartsWith(prefix) => Json::Object(
            no_members().insert("starts_with"@, Json::String(prefix)),
        ),
        MatchingRuleView::EndsWith(suffix) => Json::Object(
            no_members().insert("ends_with"@, Json::String(suffix)),
        ),
    }
}

/// The document for the rule that asks for equality with `target`.
pub open spec fn exact_rule_json(target: Seq<char>) -> Json {
    Json::Object(no_members().insert("equals"@, Json::String(target)))
}

/// The document for a predicate of the kind `kind` with the rule `rule`.
pub open spec fn kind_and_rule(kind: Seq<char>, rule: Json) -> Json {
    Json::Object(no_members().insert("kind"@, Json::String(kind)).insert("rule"@, rule))
}

/// The document for a predicate: its kind by name, and its rule. A
/// predicate that asks for any operation of its kind has the rule `"any"`.
pub open spec fn predicate_json(predicate: BitcoinPredicateView) -> Json {
    match predicate {
        BitcoinPredicateView::TransactionIdentifierHash(target) => kind_and_rule(
            "transaction_identifier_hash"@,
            exact_rule_json(target),
        ),
        BitcoinPredicateView::OpReturn(rule) => kind_and_rule("op_return"@, rule_json(rule)),
        BitcoinPredicateView::P2pkh(address) => kind_and_rule("p2pkh"@, exact_rule_json(address)),
        BitcoinPredicateView::P2sh(address) => kind_and_rule("p2sh"@, exact_rule_json(address)),
        BitcoinPredicateView::P2wpkh(address) => kind_and_rule(
            "p2wpkh"@,
            exact_rule_json(address),
        ),
        BitcoinPredicateView::P2wsh(address) => kind_and_rule("p2wsh"@, exact_rule_json(address)),
        BitcoinPredicateView::PobAny => kind_and_rule("pob"@, Json::String("any"@)),
        BitcoinPredicateView::PoxAny => kind_and_rule("pox"@, Json::String("any"@)),
        BitcoinPredicateView::PoxRecipient(rule) => kind_and_rule(
            "pox"@,
            Json::Object(no_members().insert("recipient"@, rule_json(rule))),
        ),
        BitcoinPredicateView::KeyRegistrationAny => kind_and_rule(
            "key_registration"@,
            Json::String("any"@),
        ),
        BitcoinPredicateView::TransferSTXAny => kind_and_rule(
            "transfer_stx"@,
            Json::String("any"@),
        ),
        BitcoinPredicateView::LockSTXAny => kind_and_rule("lock_stx"@, Json::String("any"@)),
    }
}

/// The document for the proof of a transaction: the proof, or `null` where
/// none was fetched.
pub open spec fn proof_json(proofs: Map<Seq<char>, Seq<char>>, transaction: Seq<char>) -> Json {
    if proofs.dom().contains(transaction) {
        Json::String(proofs[transaction])
    } else {
        Json::Null
    }
}

/// The document for an entry to apply.
pub open spec fn apply_entry_json(proofs: Map<Seq<char>, Seq<char>>, entry: EntryView) -> Json {
    Json::Object(
        no_members().insert("transaction"@, transaction_json(entry.0)).insert(
            "block_identifier"@,
            block_identifier_json(entry.1),
        ).insert("confirmations"@, Json::Number(CONFIRMATIONS as u64)).insert(
            "proof"@,
            proof_json(proofs, entry.0.hash),
        ),
    )
}

/// The document for an entry to roll back. It holds no proof.
pub open spec fn rollback_entry_json(entry: EntryView) -> Json {
    Json::Object(
        no_members().insert("transaction"@, transaction_json(entry.0)).insert(
            "block_identifier"@,
            block_identifier_json(entry.1),
        ).insert("confirmations"@, Json::Number(CONFIRMATIONS as u64)),
    )
}

/// The documents for the entries to apply, in order.
pub open spec fn apply_entries_json(proofs: Map<Seq<char>, Seq<char>>, entries: Seq<EntryView>) -> Seq<
    Json,
> {
    entries.map_values(|entry: EntryView| apply_entry_json(proofs, entry))
}

/// The documents for the entries to roll back, in order.
pub open spec fn rollback_entries_json(entries: Seq<EntryView>) -> Seq<Json> {
    entries.map_values(|entry: EntryView| rollback_entry_json(entry))
}

/// The document that names a chainhook and repeats its predicate.
pub open spec fn chainhook_json(chainhook: BitcoinChainhookView) -> Json {
    Json::Object(
        no_members().insert("uuid"@, Json::String(chainhook.uuid)).insert(
            "predicate"@,
            predicate_json(chainhook.predicate),
        ),
    )
}

/// The payload of `trigger`, with the proofs found in `proofs`.
pub open spec fn payload_json(trigger: BitcoinTriggerView, proofs: Map<Seq<char>, Seq<char>>) -> Json {
    Json::Object(
        no_members().insert("apply"@, Json::Array(apply_entries_json(proofs, trigger.apply))).insert(
            "rollback"@,
            Json::Array(rollback_entries_json(trigger.rollback)),
        ).insert("chainhook"@, chainhook_json(trigger.chainhook)),
    )
}

/// The number of items in the array that `document` holds under `key`, if
/// it is an object that holds an array there.
pub open spec fn items_under(document: Json, key: Seq<char>) -> Option<nat> {
    match document {
        Json::Object(members) => if members.dom().contains(key) {
            match members[key] {
                Json::Array(items) => Some(items.len()),
                _ => None,
            }
        } else {
            None
        },
        _ => None,
    }
}

/// The payload of a trigger holds, under `apply` and under `rollback`, as
/// many entries as the trigger does: counting the entries of the payload
/// gives back the lengths of the trigger.
pub proof fn lemma_payload_counts(trigger: BitcoinTriggerView, proofs: Map<Seq<char>, Seq<char>>)
    ensures
        items_under(payload_json(trigger, proofs), "apply"@) == Some(trigger.apply.len()),
        items_under(payload_json(trigger, proofs), "rollback"@) == Some(trigger.rollback.len()),
{
    reveal_strlit("apply");
    reveal_strlit("rollback");
    reveal_strlit("chainhook");
    assert("rollback"@.len() == 8);
    assert("chainhook"@.len() == 9);
}

fn block_identifier_to_json(identifier: &BlockIdentifier) -> (value: serde_json::Value)
    ensures
        json_model(value) == block_identifier_json(identifier@),
{
    let mut members = json_members_new();
    json_members_insert(&mut members, "index", json_number(identifier.index));
    json_members_insert(&mut members, "hash", json_string(identifier.hash.as_str()));
    json_object(members)
}

fn output_to_json(output: &TxOut) -> (value: serde_json::Value)
    ensures
        json_model(value) == output_json(output@),
{
    let mut members = json_members_new();
    json_members_insert(&mut members, "value", json_number(output.value));
    json_members_insert(&mut members, "script_pubkey", json_string(output.script_pubkey.as_str()));
    json_object(members)
}

fn reward_to_json(reward: &PoxReward) -> (value: serde_json::Value)
    ensures
        json_model(value) == reward_json(reward@),
{
    let mut members = json_members_new();
    json_members_insert(&mut members, "recipient", json_string(reward.recipient.as_str()));
    json_members_insert(&mut members, "amount", json_number(reward.amount));
    json_object(members)
}

fn rewards_to_json(rewards: &Vec<PoxReward>) -> (value: serde_json::Value)
    ensures
        json_model(value) == Json::Array(
            rewards_view(rewards@).map_values(|reward: PoxRewardView| reward_json(reward)),
        ),
{
    let mut items: Vec<serde_json::Value> = Vec::new();
    let mut i: usize = 0;
    while i < rewards.len()
        invariant
            i <= rewards.len(),
            items.len() == i,
            forall|k: int| 0 <= k < i ==> json_model(#[trigger] items@[k]) == reward_json(rewards@[k]@),
        decreases rewards.len() - i,
    {
        items.push(reward_to_json(&rewards[i]));
        i += 1;
    }
    assert(models_of(items@) =~= rewards_view(rewards@).map_values(
        |reward: PoxRewardView| reward_json(reward),
    ));
    json_array(items)
}

fn tagged(tag: &str, data: serde_json::Value) -> (value: serde_json::Value)
    ensures
        json_model(value) == Json::Object(no_members().insert(tag@, json_model(data))),
{
    let mut members = json_members_new();
    json_members_insert(&mut members, tag, data);
    json_object(members)
}

fn operation_to_json(operation: &StacksBaseChainOperation) -> (value: serde_json::Value)
    ensures
        json_model(value) == operation_json(operation@),
{
    match operation {
        StacksBaseChainOperation::PobBlockCommitment(data) => {
            let mut members = json_members_new();
            json_members_insert(
                &mut members,
                "stacks_block_hash",
                json_string(data.stacks_block_hash.as_str()),
            );
            json_members_insert(&mut members, "amount", json_number(data.amount));
            tagged("PobBlockCommitment", json_object(members))
        },
        StacksBaseChainOperation::PoxBlockCommitment(data) => {
            let mut members = json_members_new();
            json_members_insert(
                &mut members,
                "stacks_block_hash",
                json_string(data.stacks_block_hash.as_str()),
            );
            json_members_insert(&mut members, "rewards", rewards_to_json(&data.rewards));
            tagged("PoxBlockCommitment", json_object(members))
        },
        StacksBaseChainOperation::KeyRegistration(_) => tagged("KeyRegistration", json_null()),
        StacksBaseChainOperation::TransferSTX(data) => {
            let mut members = json_members_new();
            json_members_insert(&mut members, "sender", json_string(data.sender.as_str()));
            json_members_insert(&mut members, "recipient", json_string(data.recipient.as_str()));
            json_members_insert(&mut members, "amount", json_string(data.amount.as_str()));
            tagged("TransferSTX", json_object(members))
        },
        StacksBaseChainOperation::LockSTX(data) => {
            let mut members = json_members_new();
            json_members_insert(&mut members, "sender", json_string(data.sender.as_str()));
            json_members_insert(&mut members, "amount", json_string(data.amount.as_str()));
            json_members_insert(&mut members, "duration", json_number(data.duration));
            tagged("LockSTX", json_object(members))
        },
    }
}

fn transaction_to_json(transaction: &BitcoinTransactionData) -> (value: serde_json::Value)
    ensures
        json_model(value) == transaction_json(transaction@),
{
    let outputs = &transaction.metadata.outputs;
    let mut output_items: Vec<serde_json::Value> = Vec::new();
    let mut i: usize = 0;
    while i < outputs.len()
        invariant
            i <= outputs.len(),
            output_items.len() == i,
            forall|k: int|
                0 <= k < i ==> json_model(#[trigger] output_items@[k]) == output_json(outputs@[k]@),
        decreases outputs.len() - i,
    {
        output_items.push(output_to_json(&outputs[i]));
        i += 1;
    }
    assert(models_of(output_items@) =~= outputs_view(outputs@).map_values(
        |output: TxOutView| output_json(output),
    ));
    let operations = &transaction.metadata.stacks_operations;
    let mut operation_items: Vec<serde_json::Value> = Vec::new();
    let mut j: usize = 0;
    while j < operations.len()
        invariant
            j <= operations.len(),
            operation_items.len() == j,
            forall|k: int|
                0 <= k < j ==> json_model(#[trigger] operation_items@[k]) == operation_json(
                    operations@[k]@,
                ),
        decreases operations.len() - j,
    {
        operation_items.push(operation_to_json(&operations[j]));
        j += 1;
    }
    assert(models_of(operation_items@) =~= operations_view(operations@).map_values(
        |operation: StacksBaseChainOperationView| operation_json(operation),
    ));
    let mut metadata = json_members_new();
    json_members_insert(&mut metadata, "outputs", json_array(output_items));
    json_members_insert(&mut metadata, "stacks_operations", json_array(operation_items));
    let mut members = json_members_new();
    json_members_insert(
        &mut members,
        "transaction_identifier",
        tagged("hash", json_string(transaction.transaction_identifier.hash.as_str())),
    );
    json_members_insert(&mut members, "metadata", json_object(metadata));
    json_object(members)
}

fn rule_to_json(rule: &MatchingRule) -> (value: serde_json::Value)
    ensures
        json_model(value) == rule_json(rule@),
{
    match rule {
        MatchingRule::Equals(target) => tagged("equals", json_string(target.as_str())),
        MatchingRule::StartsWith(prefix) => tagged("starts_with", json_string(prefix.as_str())),
        MatchingRule::EndsWith(suffix) => tagged("ends_with", json_string(suffix.as_str())),
    }
}

fn exact_rule_to_json(rule: &ExactMatchingRule) -> (value: serde_json::Value)
    ensures
        json_model(value) == exact_rule_json(rule@),
{
    match rule {
        ExactMatchingRule::Equals(target) => tagged("equals", json_string(target.as_str())),
    }
}

fn kind_and_rule_to_json(kind: &str, rule: serde_json::Value) -> (value: serde_json::Value)
    ensures
        json_model(value) == kind_and_rule(kind@, json_model(rule)),
{
    let mut members = json_members_new();
    json_members_insert(&mut members, "kind", json_string(kind));
    json_members_insert(&mut members, "rule", rule);
    json_object(members)
}

fn predicate_to_json(predicate: &BitcoinPredicateType) -> (value: serde_json::Value)
    ensures
        json_model(value) == predicate_json(predicate@),
{
    match predicate {
        BitcoinPredicateType::TransactionIdentifierHash(rule) => kind_and_rule_to_json(
            "transaction_identifier_hash",
            exact_rule_to_json(rule),
        ),
        BitcoinPredicateType::OpReturn(rule) => kind_and_rule_to_json(
            "op_return",
            rule_to_json(rule),
        ),
        BitcoinPredicateType::P2pkh(rule) => kind_and_rule_to_json(
            "p2pkh",
            exact_rule_to_json(rule),
        ),
        BitcoinPredicateType::P2sh(rule) => kind_and_rule_to_json("p2sh", exact_rule_to_json(rule)),
        BitcoinPredicateType::P2wpkh(rule) => kind_and_rule_to_json(
            "p2wpkh",
            exact_rule_to_json(rule),
        ),
        BitcoinPredicateType::P2wsh(rule) => kind_and_rule_to_json(
            "p2wsh",
            exact_rule_to_json(rule),
        ),
        BitcoinPredicateType::Pob(PobPredicate::Any) => kind_and_rule_to_json(
            "pob",
            json_string("any"),
        ),
        BitcoinPredicateType::Pox(PoxPredicate::Any) => kind_and_rule_to_json(
            "pox",
            json_string("any"),
        ),
        BitcoinPredicateType::Pox(PoxPredicate::Recipient(rule)) => kind_and_rule_to_json(
            "pox",
            tagged("recipient", rule_to_json(rule)),
        ),
        BitcoinPredicateType::KeyRegistration(KeyRegistrationPredicate::Any) => {
            kind_and_rule_to_json("key_registration", json_string("any"))
        },
        BitcoinPredicateType::TransferSTX(TransferSTXPredicate::Any) => kind_and_rule_to_json(
            "transfer_stx",
            json_string("any"),
        ),
        BitcoinPredicateType::LockSTX(LockSTXPredicate::Any) => kind_and_rule_to_json(
            "lock_stx",
            json_string("any"),
        ),
    }
}

fn chainhook_to_json(chainhook: &BitcoinChainhookSpecification) -> (value: serde_json::Value)
    ensures
        json_model(value) == chainhook_json(chainhook@),
{
    let mut members = json_members_new();
    json_members_insert(&mut members, "uuid", json_string(chainhook.uuid.as_str()));
    json_members_insert(&mut members, "predicate", predicate_to_json(&chainhook.predicate.kind));
    json_object(members)
}

fn entry_to_json(
    transaction: &BitcoinTransactionData,
    block_identifier: &BlockIdentifier,
) -> (members: JsonMembers)
    ensures
        json_members(members) == no_members().insert(
            "transaction"@,
            transaction_json(transaction@),
        ).insert("block_identifier"@, block_identifier_json(block_identifier@)).insert(
            "confirmations"@,
            Json::Number(CONFIRMATIONS as u64),
        ),
{
    let mut members = json_members_new();
    json_members_insert(&mut members, "transaction", transaction_to_json(transaction));
    json_members_insert(
        &mut members,
        "block_identifier",
        block_identifier_to_json(block_identifier),
    );
    json_members_insert(&mut members, "confirmations", json_number(CONFIRMATIONS as u64));
    members
}

/// Builds the payload of `trigger` as a JSON value, with the proofs found in
/// `proofs`.
///
/// Every entry reports `CONFIRMATIONS` confirmations. An entry to apply holds
/// the proof of its transaction, or `null` where `proofs` has none.
pub fn serialize_bitcoin_payload_to_json<'a>(
    trigger: BitcoinTriggerChainhook<'a>,
    proofs: &ProofLookup,
) -> (payload: serde_json::Value)
    ensures
        json_model(payload) == payload_json(trigger@, proofs@),
{
    let mut apply_items: Vec<serde_json::Value> = Vec::new();
    let mut i: usize = 0;
    while i < trigger.apply.len()
        invariant
            i <= trigger.apply.len(),
            apply_items.len() == i,
            forall|k: int|
                0 <= k < i ==> json_model(#[trigger] apply_items@[k]) == apply_entry_json(
                    proofs@,
                    entries_view(trigger.apply@)[k],
                ),
        decreases trigger.apply.len() - i,
    {
        let (transaction, block_identifier) = trigger.apply[i];
        let mut members = entry_to_json(transaction, block_identifier);
        let proof_value = match proofs.get(&transaction.transaction_identifier) {
            Some(proof_text) => json_string(proof_text.as_str()),
            None => json_null(),
        };
        json_members_insert(&mut members, "proof", proof_value);
        apply_items.push(json_object(members));
        i += 1;
    }
    assert(models_of(apply_items@) =~= apply_entries_json(proofs@, entries_view(trigger.apply@)));
    let mut rollback_items: Vec<serde_json::Value> = Vec::new();
    let mut j: usize = 0;
    while j < trigger.rollback.len()
        invariant
            j <= trigger.rollback.len(),
            rollback_items.len() == j,
            forall|k: int|
                0 <= k < j ==> json_model(#[trigger] rollback_items@[k]) == rollback_entry_json(
                    entries_view(trigger.rollback@)[k],
                ),
        decreases trigger.rollback.len() - j,
    {
        let (transaction, block_identifier) = trigger.rollback[j];
        let members = entry_to_json(transaction, block_identifier);
        rollback_items.push(json_object(members));
        j += 1;
    }
    assert(models_of(rollback_items@) =~= rollback_entries_json(entries_view(trigger.rollback@)));
    let mut members = json_members_new();
    json_members_insert(&mut members, "apply", json_array(apply_items));
    json_members_insert(&mut members, "rollback", json_array(rollback_items));
    json_members_insert(&mut members, "chainhook", chainhook_to_json(trigger.chainhook));
    json_object(members)
}

} // verus!
