//! What holds of every evaluation of chainhooks on a chain event.

use crate::chain::{BitcoinBlockView, BitcoinChainEventView};
use crate::chainhook::{BitcoinChainhookView, BitcoinPredicateView};
use crate::evaluation::{
    evaluation_of_event,
    failure_of,
    meets,
    outcome_of,
    selected_entries,
    trigger_of,
    BitcoinFailedChainhookView,
    BitcoinTriggerView,
};
use crate::predicate::{predicate_error, predicate_matches};
use crate::selection::{
    entry_at,
    is_entry_of,
    is_place_in,
    lemma_selection_keeps_order,
    selected_places,
    Place,
};
use vstd::prelude::*;

verus! {

/// Every trigger of an evaluation is the outcome of one of the chainhooks
/// evaluated, and belongs to that chainhook.
pub proof fn lemma_trigger_has_origin(
    chainhooks: Seq<BitcoinChainhookView>,
    event: BitcoinChainEventView,
    trigger: BitcoinTriggerView,
)
    requires
        evaluation_of_event(chainhooks, event).triggered.contains(trigger),
    ensures
        chainhooks.contains(trigger.chainhook),
        outcome_of(trigger.chainhook, event) matches Ok(Some(found)) && found == trigger,
        trigger.apply.len() > 0 || trigger.rollback.len() > 0,
{
    chainhooks.lemma_filter_map_contains(trigger_of(event), trigger);
    let origin = choose|origin: BitcoinChainhookView| #[trigger]
        chainhooks.contains(origin) && trigger_of(event)(origin) == Some(trigger);
    assert(trigger.chainhook == origin);
}

/// Every failure of an evaluation is the outcome of one of the chainhooks
/// evaluated: the predicate of that chainhook cannot be evaluated.
pub proof fn lemma_failure_has_origin(
    chainhooks: Seq<BitcoinChainhookView>,
    event: BitcoinChainEventView,
    failure: BitcoinFailedChainhookView,
)
    requires
        evaluation_of_event(chainhooks, event).failed.contains(failure),
    ensures
        chainhooks.contains(failure.chainhook),
        predicate_error(failure.chainhook.predicate) == Some(failure.error),
{
    chainhooks.lemma_filter_map_contains(failure_of(event), failure);
    let origin = choose|origin: BitcoinChainhookView| #[trigger]
        chainhooks.contains(origin) && failure_of(event)(origin) == Some(failure);
    assert(failure.chainhook == origin);
}

/// The indices of the items of `items` for which `pick` gives something, in
/// rising order.
pub open spec fn picked_places<A, B>(items: Seq<A>, pick: spec_fn(A) -> Option<B>) -> Seq<int>
    decreases items.len(),
{
    if items.len() == 0 {
        Seq::empty()
    } else {
        let earlier = picked_places(items.drop_last(), pick);
        if pick(items.last()) is Some {
            earlier.push(items.len() - 1)
        } else {
            earlier
        }
    }
}

/// What `filter_map` keeps is what `pick` gives at the picked places: the
/// places rise, and no item for which `pick` gives something is left out.
pub proof fn lemma_filter_map_keeps_order<A, B>(items: Seq<A>, pick: spec_fn(A) -> Option<B>)
    ensures
        ({
            let places = picked_places(items, pick);
            let kept = items.filter_map(pick);
            &&& places.len() == kept.len()
            &&& forall|k: int|
                0 <= k < places.len() ==> {
                    &&& 0 <= #[trigger] places[k] < items.len()
                    &&& pick(items[places[k]]) == Some(kept[k])
                }
            &&& forall|k: int, l: int|
                0 <= k < l < places.len() ==> #[trigger] places[k] < #[trigger] places[l]
            &&& forall|i: int|
                0 <= i < items.len() && pick(items[i]) is Some ==> places.contains(i)
        }),
    decreases items.len(),
{
    let places = picked_places(items, pick);
    if items.len() > 0 {
        let shorter = items.drop_last();
        lemma_filter_map_keeps_order(shorter, pick);
        let earlier_places = picked_places(shorter, pick);
        assert forall|i: int| 0 <= i < items.len() && pick(items[i]) is Some implies places.contains(
            i,
        ) by {
            if i < shorter.len() {
                assert(earlier_places.contains(i));
                let k = choose|k: int| 0 <= k < earlier_places.len() && earlier_places[k] == i;
                assert(places[k] == i);
            } else {
                assert(places[places.len() - 1] == i);
            }
        }
    }
}

/// The triggers of an evaluation follow the order of the chainhooks: each
/// trigger is the outcome of the chainhook at its place, the places rise, and
/// every chainhook whose outcome is a trigger has its place among them.
pub proof fn lemma_triggers_follow_chainhooks(
    chainhooks: Seq<BitcoinChainhookView>,
    event: BitcoinChainEventView,
)
    ensures
        ({
            let places = picked_places(chainhooks, trigger_of(event));
            let triggered = evaluation_of_event(chainhooks, event).triggered;
            &&& places.len() == triggered.len()
            &&& forall|k: int|
                0 <= k < places.len() ==> {
                    &&& 0 <= #[trigger] places[k] < chainhooks.len()
                    &&& triggered[k].chainhook == chainhooks[places[k]]
                    &&& outcome_of(chainhooks[places[k]], event) matches Ok(Some(found)) && found
                        == triggered[k]
                }
            &&& forall|k: int, l: int|
                0 <= k < l < places.len() ==> #[trigger] places[k] < #[trigger] places[l]
            &&& forall|i: int|
                0 <= i < chainhooks.len() && trigger_of(event)(chainhooks[i]) is Some
                    ==> places.contains(i)
        }),
{
    lemma_filter_map_keeps_order(chainhooks, trigger_of(event));
}

/// What `filter_map` keeps of two sequences in a row is what it keeps of the
/// first, then what it keeps of the second.
pub proof fn lemma_filter_map_splits<A, B>(
    first: Seq<A>,
    second: Seq<A>,
    pick: spec_fn(A) -> Option<B>,
)
    ensures
        (first + second).filter_map(pick) == first.filter_map(pick) + second.filter_map(pick),
    decreases second.len(),
{
    if second.len() == 0 {
        assert(first + second =~= first);
        assert(first.filter_map(pick) + second.filter_map(pick) =~= first.filter_map(pick));
    } else {
        lemma_filter_map_splits(first, second.drop_last(), pick);
        assert((first + second).drop_last() =~= first + second.drop_last());
        assert((first + second).last() == second.last());
        match pick(second.last()) {
            Some(kept) => {
                assert(first.filter_map(pick) + (second.drop_last().filter_map(pick) + seq![kept])
                    =~= (first.filter_map(pick) + second.drop_last().filter_map(pick))
                    + seq![kept]);
            },
            None => {},
        }
    }
}

/// Chainhooks are evaluated one by one: evaluating two lists of chainhooks
/// in a row gives what evaluating each list by itself gives, the first before
/// the second. So the chainhooks can be shared out and evaluated apart.
pub proof fn lemma_evaluation_splits(
    first: Seq<BitcoinChainhookView>,
    second: Seq<BitcoinChainhookView>,
    event: BitcoinChainEventView,
)
    ensures
        evaluation_of_event(first + second, event).triggered == evaluation_of_event(
            first,
            event,
        ).triggered + evaluation_of_event(second, event).triggered,
        evaluation_of_event(first + second, event).failed == evaluation_of_event(
            first,
            event,
        ).failed + evaluation_of_event(second, event).failed,
{
    lemma_filter_map_splits(first, second, trigger_of(event));
    lemma_filter_map_splits(first, second, failure_of(event));
}

/// A chainhook that fails leaves the triggers of the others as they are: the
/// triggers are those of the evaluation without it.
pub proof fn lemma_failure_is_kept_apart(
    before: Seq<BitcoinChainhookView>,
    failing: BitcoinChainhookView,
    after: Seq<BitcoinChainhookView>,
    event: BitcoinChainEventView,
)
    requires
        outcome_of(failing, event) is Err,
    ensures
        evaluation_of_event(before + seq![failing] + after, event).triggered
            == evaluation_of_event(before + after, event).triggered,
{
    lemma_evaluation_splits(before + seq![failing], after, event);
    lemma_evaluation_splits(before, seq![failing], event);
    lemma_evaluation_splits(before, after, event);
    Seq::lemma_filter_map_singleton(failing, trigger_of(event));
    assert(evaluation_of_event(before, event).triggered + Seq::empty() =~= evaluation_of_event(
        before,
        event,
    ).triggered);
}

/// When the chain only grows, no trigger rolls anything back.
pub proof fn lemma_growth_rolls_nothing_back(
    chainhooks: Seq<BitcoinChainhookView>,
    new_blocks: Seq<BitcoinBlockView>,
    trigger: BitcoinTriggerView,
)
    requires
        evaluation_of_event(
            chainhooks,
            BitcoinChainEventView::ChainUpdatedWithBlocks { new_blocks },
        ).triggered.contains(trigger),
    ensures
        trigger.rollback.len() == 0,
        trigger.apply == selected_entries(trigger.chainhook.predicate, new_blocks),
{
    lemma_trigger_has_origin(
        chainhooks,
        BitcoinChainEventView::ChainUpdatedWithBlocks { new_blocks },
        trigger,
    );
}

/// After a reorganization, a trigger applies what its chainhook selects from
/// the blocks to apply, and rolls back what it selects from the blocks to
/// roll back. Every entry under `apply` is a transaction of a block to apply,
/// with the name of that block, and every entry under `rollback` one of a
/// block to roll back: neither list takes anything from the other's blocks.
pub proof fn lemma_reorg_keeps_lists_apart(
    chainhooks: Seq<BitcoinChainhookView>,
    blocks_to_rollback: Seq<BitcoinBlockView>,
    blocks_to_apply: Seq<BitcoinBlockView>,
    trigger: BitcoinTriggerView,
)
    requires
        evaluation_of_event(
            chainhooks,
            BitcoinChainEventView::ChainUpdatedWithReorg { blocks_to_rollback, blocks_to_apply },
        ).triggered.contains(trigger),
    ensures
        trigger.apply == selected_entries(trigger.chainhook.predicate, blocks_to_apply),
        trigger.rollback == selected_entries(trigger.chainhook.predicate, blocks_to_rollback),
        forall|k: int|
            0 <= k < trigger.apply.len() ==> is_entry_of(
                blocks_to_apply,
                #[trigger] trigger.apply[k],
            ),
        forall|k: int|
            0 <= k < trigger.rollback.len() ==> is_entry_of(
                blocks_to_rollback,
                #[trigger] trigger.rollback[k],
            ),
{
    let predicate = trigger.chainhook.predicate;
    lemma_trigger_has_origin(
        chainhooks,
        BitcoinChainEventView::ChainUpdatedWithReorg { blocks_to_rollback, blocks_to_apply },
        trigger,
    );
    lemma_selection_keeps_order(predicate, blocks_to_apply);
    lemma_selection_keeps_order(predicate, blocks_to_rollback);
    assert forall|k: int| 0 <= k < trigger.apply.len() implies is_entry_of(
        blocks_to_apply,
        #[trigger] trigger.apply[k],
    ) by {
        let place = selected_places(predicate, blocks_to_apply)[k];
        assert(trigger.apply[k] == entry_at(blocks_to_apply, place));
    }
    assert forall|k: int| 0 <= k < trigger.rollback.len() implies is_entry_of(
        blocks_to_rollback,
        #[trigger] trigger.rollback[k],
    ) by {
        let place = selected_places(predicate, blocks_to_rollback)[k];
        assert(trigger.rollback[k] == entry_at(blocks_to_rollback, place));
    }
}

/// The blocks that an event has scanned: those that arrive, then those that
/// leave.
pub open spec fn scanned_blocks(event: BitcoinChainEventView) -> Seq<BitcoinBlockView> {
    match event {
        BitcoinChainEventView::ChainUpdatedWithBlocks { new_blocks } => new_blocks,
        BitcoinChainEventView::ChainUpdatedWithReorg { blocks_to_rollback, blocks_to_apply } => {
            blocks_to_apply + blocks_to_rollback
        },
    }
}

/// Whether no transaction of the blocks that `event` has scanned meets the
/// predicate of `chainhook`.
pub open spec fn selects_nothing(chainhook: BitcoinChainhookView, event: BitcoinChainEventView) -> bool {
    forall|place: Place|
        is_place_in(scanned_blocks(event), place) ==> !predicate_matches(
            chainhook.predicate,
            #[trigger] entry_at(scanned_blocks(event), place).0,
        )
}

/// A chainhook that selects nothing has no trigger: neither as its own
/// outcome nor among the triggers of an evaluation.
pub proof fn lemma_no_match_no_trigger(
    chainhooks: Seq<BitcoinChainhookView>,
    event: BitcoinChainEventView,
    chainhook: BitcoinChainhookView,
)
    requires
        selects_nothing(chainhook, event),
    ensures
        !(outcome_of(chainhook, event) matches Ok(Some(_))),
        forall|i: int|
            0 <= i < evaluation_of_event(chainhooks, event).triggered.len() ==> (
            #[trigger] evaluation_of_event(chainhooks, event).triggered[i]).chainhook != chainhook,
{
    let predicate = chainhook.predicate;
    let scanned = scanned_blocks(event);
    match event {
        BitcoinChainEventView::ChainUpdatedWithBlocks { new_blocks } => {
            lemma_nothing_selected(predicate, new_blocks, scanned, 0);
        },
        BitcoinChainEventView::ChainUpdatedWithReorg { blocks_to_rollback, blocks_to_apply } => {
            lemma_nothing_selected(predicate, blocks_to_apply, scanned, 0);
            lemma_nothing_selected(
                predicate,
                blocks_to_rollback,
                scanned,
                blocks_to_apply.len() as int,
            );
        },
    }
    let triggered = evaluation_of_event(chainhooks, event).triggered;
    assert forall|i: int| 0 <= i < triggered.len() implies (#[trigger] triggered[i]).chainhook
        != chainhook by {
        lemma_trigger_has_origin(chainhooks, event, triggered[i]);
    }
}

/// Where no transaction of `blocks` meets `predicate`, nothing is selected
/// from them. `blocks` lies in `scanned` from the index `shift` on.
proof fn lemma_nothing_selected(
    predicate: BitcoinPredicateView,
    blocks: Seq<BitcoinBlockView>,
    scanned: Seq<BitcoinBlockView>,
    shift: int,
)
    requires
        0 <= shift,
        shift + blocks.len() <= scanned.len(),
        forall|b: int| 0 <= b < blocks.len() ==> blocks[b] == scanned[shift + b],
        forall|place: Place|
            is_place_in(scanned, place) ==> !predicate_matches(
                predicate,
                #[trigger] entry_at(scanned, place).0,
            ),
    ensures
        selected_entries(predicate, blocks).len() == 0,
{
    lemma_selection_keeps_order(predicate, blocks);
    let places = selected_places(predicate, blocks);
    if places.len() > 0 {
        let place = places[0];
        let moved = (shift + place.0, place.1);
        assert(entry_at(scanned, moved) == entry_at(blocks, place));
    }
}

} // verus!
