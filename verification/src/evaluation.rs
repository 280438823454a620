//! Evaluating the active chainhooks on a chain event.
//!
//! The blocks of an event are read in order, and in each block its
//! transactions in order. A chainhook triggers if it selects any of them; its
//! trigger lists what it selected, in the order read.

use crate::chain::{
    blocks_view,
    BitcoinBlockData,
    BitcoinBlockView,
    BitcoinChainEvent,
    BitcoinChainEventView,
    BitcoinTransactionData,
    BitcoinTransactionView,
    BlockIdentifier,
    BlockIdentifierView,
};
use crate::chainhook::{BitcoinChainhookSpecification, BitcoinChainhookView, BitcoinPredicateView};
use crate::error::ChainhookError;
use crate::predicate::{predicate_error, predicate_matches};
use vstd::prelude::*;

verus! {

/// A transaction, and the name of the block that holds it.
pub type EntryView = (BitcoinTransactionView, BlockIdentifierView);

/// The views of `entries`, in order.
pub open spec fn entries_view(entries: Seq<(&BitcoinTransactionData, &BlockIdentifier)>) -> Seq<
    EntryView,
> {
    entries.map_values(|entry: (&BitcoinTransactionData, &BlockIdentifier)| (entry.0@, entry.1@))
}

/// What a chainhook selected from a chain event: the transactions to apply
/// and those to roll back, each with the name of its block.
#[derive(Debug, PartialEq, Eq)]
pub struct BitcoinTriggerChainhook<'a> {
    pub chainhook: &'a BitcoinChainhookSpecification,
    pub apply: Vec<(&'a BitcoinTransactionData, &'a BlockIdentifier)>,
    pub rollback: Vec<(&'a BitcoinTransactionData, &'a BlockIdentifier)>,
}

/// The view of `BitcoinTriggerChainhook`.
pub struct BitcoinTriggerView {
    pub chainhook: BitcoinChainhookView,
    pub apply: Seq<EntryView>,
    pub rollback: Seq<EntryView>,
}

impl<'a> View for BitcoinTriggerChainhook<'a> {
    type V = BitcoinTriggerView;

    open spec fn view(&self) -> BitcoinTriggerView {
        BitcoinTriggerView {
            chainhook: self.chainhook@,
            apply: entries_view(self.apply@),
            rollback: entries_view(self.rollback@),
        }
    }
}

/// A chainhook that could not be evaluated, and why.
#[derive(Debug, PartialEq, Eq)]
pub struct BitcoinFailedChainhook<'a> {
    pub chainhook: &'a BitcoinChainhookSpecification,
    pub error: ChainhookError,
}

/// The view of `BitcoinFailedChainhook`.
pub struct BitcoinFailedChainhookView {
    pub chainhook: BitcoinChainhookView,
    pub error: ChainhookError,
}

impl<'a> View for BitcoinFailedChainhook<'a> {
    type V = BitcoinFailedChainhookView;

    open spec fn view(&self) -> BitcoinFailedChainhookView {
        BitcoinFailedChainhookView { chainhook: self.chainhook@, error: self.error }
    }
}

/// The views of `triggers`, in order.
pub open spec fn triggers_view(triggers: Seq<BitcoinTriggerChainhook>) -> Seq<BitcoinTriggerView> {
    triggers.map_values(|trigger: BitcoinTriggerChainhook| trigger@)
}

/// The views of `failures`, in order.
pub open spec fn failures_view(failures: Seq<BitcoinFailedChainhook>) -> Seq<
    BitcoinFailedChainhookView,
> {
    failures.map_values(|failure: BitcoinFailedChainhook| failure@)
}

/// The views of `chainhooks`, in order.
pub open spec fn chainhooks_view(chainhooks: Seq<&BitcoinChainhookSpecification>) -> Seq<
    BitcoinChainhookView,
> {
    chainhooks.map_values(|chainhook: &BitcoinChainhookSpecification| chainhook@)
}

/// What one pass over the active chainhooks gave: the triggers of the
/// chainhooks that selected anything, and the chainhooks that could not be
/// evaluated. Both follow the order of the active chainhooks.
#[derive(Debug, PartialEq, Eq)]
pub struct BitcoinChainhookEvaluation<'a> {
    pub triggered: Vec<BitcoinTriggerChainhook<'a>>,
    pub failed: Vec<BitcoinFailedChainhook<'a>>,
}

/// The view of `BitcoinChainhookEvaluation`.
pub struct BitcoinChainhookEvaluationView {
    pub triggered: Seq<BitcoinTriggerView>,
    pub failed: Seq<BitcoinFailedChainhookView>,
}

impl<'a> View for BitcoinChainhookEvaluation<'a> {
    type V = BitcoinChainhookEvaluationView;

    open spec fn view(&self) -> BitcoinChainhookEvaluationView {
        BitcoinChainhookEvaluationView {
            triggered: triggers_view(self.triggered@),
            failed: failures_view(self.failed@),
        }
    }
}

/// The transactions of `block`, in order, each with the name of the block.
pub open spec fn block_entries(block: BitcoinBlockView) -> Seq<EntryView> {
    block.transactions.map_values(|transaction: BitcoinTransactionView| (transaction, block.block_identifier))
}

/// For each of `blocks`, in order, its entries.
pub open spec fn entries_by_block(blocks: Seq<BitcoinBlockView>) -> Seq<Seq<EntryView>> {
    blocks.map_values(|block: BitcoinBlockView| block_entries(block))
}

/// The transactions of `blocks`: those of the first block, then those of the
/// second, and so on.
pub open spec fn chain_entries(blocks: Seq<BitcoinBlockView>) -> Seq<EntryView> {
    entries_by_block(blocks).flatten()
}

/// The test that keeps the entries whose transaction meets `predicate`.
pub open spec fn meets(predicate: BitcoinPredicateView) -> spec_fn(EntryView) -> bool {
    |entry: EntryView| predicate_matches(predicate, entry.0)
}

/// The transactions of `blocks` that meet `predicate`, in the order of
/// `chain_entries`.
pub open spec fn selected_entries(predicate: BitcoinPredicateView, blocks: Seq<BitcoinBlockView>) -> Seq<
    EntryView,
> {
    chain_entries(blocks).filter(meets(predicate))
}

/// What scanning `blocks` for `predicate` gives. A predicate that cannot be
/// evaluated fails on the first transaction it is tried on, so the scan fails
/// if there is any transaction; else the scan gives the selected entries.
pub open spec fn scan_of(predicate: BitcoinPredicateView, blocks: Seq<BitcoinBlockView>) -> Result<
    Seq<EntryView>,
    ChainhookError,
> {
    match predicate_error(predicate) {
        Some(error) if chain_entries(blocks).len() > 0 => Err(error),
        _ => Ok(selected_entries(predicate, blocks)),
    }
}

/// The trigger of `chainhook` for what it selected, if it selected anything.
pub open spec fn trigger_for(
    chainhook: BitcoinChainhookView,
    apply: Seq<EntryView>,
    rollback: Seq<EntryView>,
) -> Option<BitcoinTriggerView> {
    if apply.len() > 0 || rollback.len() > 0 {
        Some(BitcoinTriggerView { chainhook, apply, rollback })
    } else {
        None
    }
}

/// What evaluating `chainhook` on `event` gives: an error, no trigger, or a
/// trigger. Blocks that arrive are scanned into `apply`, blocks that leave
/// into `rollback`.
pub open spec fn outcome_of(chainhook: BitcoinChainhookView, event: BitcoinChainEventView) -> Result<
    Option<BitcoinTriggerView>,
    ChainhookError,
> {
    match event {
        BitcoinChainEventView::ChainUpdatedWithBlocks { new_blocks } => {
            match scan_of(chainhook.predicate, new_blocks) {
                Ok(apply) => Ok(trigger_for(chainhook, apply, Seq::empty())),
                Err(error) => Err(error),
            }
        },
        BitcoinChainEventView::ChainUpdatedWithReorg { blocks_to_rollback, blocks_to_apply } => {
            match scan_of(chainhook.predicate, blocks_to_apply) {
                Ok(apply) => match scan_of(chainhook.predicate, blocks_to_rollback) {
                    Ok(rollback) => Ok(trigger_for(chainhook, apply, rollback)),
                    Err(error) => Err(error),
                },
                Err(error) => Err(error),
            }
        },
    }
}

/// The trigger in the outcome of `chainhook`, if there is one.
pub open spec fn trigger_of(event: BitcoinChainEventView) -> spec_fn(BitcoinChainhookView) -> Option<
    BitcoinTriggerView,
> {
    |chainhook: BitcoinChainhookView|
        match outcome_of(chainhook, event) {
            Ok(Some(trigger)) => Some(trigger),
            _ => None,
        }
}

/// The failure in the outcome of `chainhook`, if there is one.
pub open spec fn failure_of(event: BitcoinChainEventView) -> spec_fn(BitcoinChainhookView) -> Option<
    BitcoinFailedChainhookView,
> {
    |chainhook: BitcoinChainhookView|
        match outcome_of(chainhook, event) {
            Err(error) => Some(BitcoinFailedChainhookView { chainhook, error }),
            _ => None,
        }
}

/// What evaluating `chainhooks` on `event` gives: the triggers and the
/// failures among their outcomes, each in the order of `chainhooks`.
pub open spec fn evaluation_of_event(
    chainhooks: Seq<BitcoinChainhookView>,
    event: BitcoinChainEventView,
) -> BitcoinChainhookEvaluationView {
    BitcoinChainhookEvaluationView {
        triggered: chainhooks.filter_map(trigger_of(event)),
        failed: chainhooks.filter_map(failure_of(event)),
    }
}

/// The entries of some blocks and one more are those of the blocks, then
/// those of the one.
pub proof fn lemma_chain_entries_push(blocks: Seq<BitcoinBlockView>, block: BitcoinBlockView)
    ensures
        chain_entries(blocks.push(block)) == chain_entries(blocks) + block_entries(block),
{
    let listed = entries_by_block(blocks);
    assert(entries_by_block(blocks.push(block)) =~= listed.push(block_entries(block)));
    listed.lemma_flatten_push(block_entries(block));
}

/// The entries of some blocks are at least as many as those of one of them.
pub proof fn lemma_chain_entries_hold(blocks: Seq<BitcoinBlockView>, i: int)
    requires
        0 <= i < blocks.len(),
    ensures
        chain_entries(blocks).len() >= block_entries(blocks[i]).len(),
{
    let listed = entries_by_block(blocks);
    listed.lemma_flatten_length_ge_single_element_length(i);
    listed.lemma_flatten_and_flatten_alt_are_equivalent();
}

fn scan_blocks<'a>(
    chainhook: &'a BitcoinChainhookSpecification,
    blocks: &'a Vec<BitcoinBlockData>,
) -> (scan: Result<Vec<(&'a BitcoinTransactionData, &'a BlockIdentifier)>, ChainhookError>)
    ensures
        match scan {
            Ok(entries) => scan_of(chainhook@.predicate, blocks_view(blocks@)) matches Ok(found)
                && found == entries_view(entries@),
            Err(error) => scan_of(chainhook@.predicate, blocks_view(blocks@)) matches Err(found)
                && found == error,
        },
{
    let ghost predicate = chainhook@.predicate;
    let ghost views = blocks_view(blocks@);
    let mut entries: Vec<(&'a BitcoinTransactionData, &'a BlockIdentifier)> = Vec::new();
    let mut b: usize = 0;
    while b < blocks.len()
        invariant
            b <= blocks.len(),
            predicate == chainhook@.predicate,
            views == blocks_view(blocks@),
            entries_view(entries@) == selected_entries(predicate, views.take(b as int)),
            chain_entries(views.take(b as int)).len() > 0 ==> predicate_error(predicate) is None,
        decreases blocks.len() - b,
    {
        let block = &blocks[b];
        let ghost before = selected_entries(predicate, views.take(b as int));
        let ghost listed = block_entries(block@);
        let mut t: usize = 0;
        while t < block.transactions.len()
            invariant
                t <= block.transactions.len(),
                b < blocks.len(),
                block == &blocks@[b as int],
                predicate == chainhook@.predicate,
                views == blocks_view(blocks@),
                before == selected_entries(predicate, views.take(b as int)),
                listed == block_entries(block@),
                entries_view(entries@) == before + listed.take(t as int).filter(meets(predicate)),
                chain_entries(views.take(b as int)).len() > 0 || t > 0 ==> predicate_error(
                    predicate,
                ) is None,
            decreases block.transactions.len() - t,
        {
            let tx = &block.transactions[t];
            let ghost entry = (tx@, block.block_identifier@);
            proof {
                assert(listed.take(t + 1) =~= listed.take(t as int).push(entry));
                listed.take(t as int).lemma_filter_push(entry, meets(predicate));
            }
            match chainhook.evaluate_transaction_predicate(tx) {
                Ok(met) => {
                    if met {
                        entries.push((tx, &block.block_identifier));
                        assert(before + listed.take(t as int).filter(meets(predicate)).push(entry)
                            =~= (before + listed.take(t as int).filter(meets(predicate))).push(
                            entry,
                        ));
                    }
                },
                Err(error) => {
                    proof {
                        lemma_chain_entries_hold(views, b as int);
                    }
                    return Err(error);
                },
            }
            t += 1;
        }
        proof {
            assert(listed.take(t as int) =~= listed);
            assert(views.take(b + 1) =~= views.take(b as int).push(block@));
            lemma_chain_entries_push(views.take(b as int), block@);
            Seq::filter_distributes_over_add(
                chain_entries(views.take(b as int)),
                listed,
                meets(predicate),
            );
        }
        b += 1;
    }
    proof {
        assert(views.take(b as int) =~= views);
    }
    Ok(entries)
}

/// Evaluates one chainhook on a chain event.
///
/// The result is the trigger of the chainhook if it selected any
/// transaction, `None` if it selected none, and the error of its predicate
/// if the predicate cannot be evaluated and the event holds a transaction to
/// try it on.
pub fn evaluate_bitcoin_chainhook_on_chain_event<'a>(
    chain_event: &'a BitcoinChainEvent,
    chainhook: &'a BitcoinChainhookSpecification,
) -> (outcome: Result<Option<BitcoinTriggerChainhook<'a>>, ChainhookError>)
    ensures
        match outcome {
            Ok(Some(trigger)) => outcome_of(chainhook@, chain_event@) matches Ok(Some(found))
                && found == trigger@,
            Ok(None) => outcome_of(chainhook@, chain_event@) matches Ok(None),
            Err(error) => outcome_of(chainhook@, chain_event@) matches Err(found) && found
                == error,
        },
{
    match chain_event {
        BitcoinChainEvent::ChainUpdatedWithBlocks(event) => {
            let apply = match scan_blocks(chainhook, &event.new_blocks) {
                Ok(entries) => entries,
                Err(error) => { return Err(error); },
            };
            let rollback: Vec<(&'a BitcoinTransactionData, &'a BlockIdentifier)> = Vec::new();
            assert(entries_view(rollback@) =~= Seq::empty());
            if apply.len() > 0 {
                Ok(Some(BitcoinTriggerChainhook { chainhook, apply, rollback }))
            } else {
                Ok(None)
            }
        },
        BitcoinChainEvent::ChainUpdatedWithReorg(event) => {
            let apply = match scan_blocks(chainhook, &event.blocks_to_apply) {
                Ok(entries) => entries,
                Err(error) => { return Err(error); },
            };
            let rollback = match scan_blocks(chainhook, &event.blocks_to_rollback) {
                Ok(entries) => entries,
                Err(error) => {
                    return Err(error);
                },
            };
            if apply.len() > 0 || rollback.len() > 0 {
                Ok(Some(BitcoinTriggerChainhook { chainhook, apply, rollback }))
            } else {
                Ok(None)
            }
        },
    }
}

/// Evaluates the active chainhooks on a chain event.
///
/// Each chainhook is evaluated by itself, as
/// `evaluate_bitcoin_chainhook_on_chain_event` does it: one that gives a
/// trigger is listed under `triggered`, one that gives an error is listed
/// under `failed` and leaves the others as they are, and one that selects no
/// transaction is in neither list.
pub fn evaluate_bitcoin_chainhooks_on_chain_event<'a>(
    chain_event: &'a BitcoinChainEvent,
    active_chainhooks: Vec<&'a BitcoinChainhookSpecification>,
) -> (evaluation: BitcoinChainhookEvaluation<'a>)
    ensures
        evaluation@ == evaluation_of_event(chainhooks_view(active_chainhooks@), chain_event@),
{
    let ghost views = chainhooks_view(active_chainhooks@);
    let ghost event = chain_event@;
    let mut triggered: Vec<BitcoinTriggerChainhook<'a>> = Vec::new();
    let mut failed: Vec<BitcoinFailedChainhook<'a>> = Vec::new();
    let mut i: usize = 0;
    while i < active_chainhooks.len()
        invariant
            i <= active_chainhooks.len(),
            views == chainhooks_view(active_chainhooks@),
            event == chain_event@,
            triggers_view(triggered@) == views.take(i as int).filter_map(trigger_of(event)),
            failures_view(failed@) == views.take(i as int).filter_map(failure_of(event)),
        decreases active_chainhooks.len() - i,
    {
        let chainhook = active_chainhooks[i];
        proof {
            views.lemma_filter_map_take_succ(trigger_of(event), i as int);
            views.lemma_filter_map_take_succ(failure_of(event), i as int);
        }
        match evaluate_bitcoin_chainhook_on_chain_event(chain_event, chainhook) {
            Ok(Some(trigger)) => {
                triggered.push(trigger);
            },
            Ok(None) => {},
            Err(error) => {
                failed.push(BitcoinFailedChainhook { chainhook, error });
            },
        }
        i += 1;
    }
    proof {
        assert(views.take(i as int) =~= views);
    }
    BitcoinChainhookEvaluation { triggered, failed }
}

} // verus!
