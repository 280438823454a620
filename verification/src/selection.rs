//! Where the selected entries of a scan come from, and in which order.

use crate::chain::{BitcoinBlockView, BitcoinTransactionView, BlockIdentifierView};
use crate::chainhook::BitcoinPredicateView;
use crate::evaluation::{
    block_entries,
    chain_entries,
    lemma_chain_entries_push,
    meets,
    selected_entries,
    EntryView,
};
use crate::predicate::predicate_matches;
use vstd::prelude::*;

verus! {

/// The place of a transaction in a list of blocks: the index of its block,
/// and its index in the block.
pub type Place = (int, int);

/// Whether `place` names a transaction of `blocks`.
pub open spec fn is_place_in(blocks: Seq<BitcoinBlockView>, place: Place) -> bool {
    0 <= place.0 < blocks.len() && 0 <= place.1 < blocks[place.0].transactions.len()
}

/// The entry at `place`.
pub open spec fn entry_at(blocks: Seq<BitcoinBlockView>, place: Place) -> EntryView {
    (blocks[place.0].transactions[place.1], blocks[place.0].block_identifier)
}

/// Whether `entry` is a transaction of `blocks`, with the name of its block.
pub open spec fn is_entry_of(blocks: Seq<BitcoinBlockView>, entry: EntryView) -> bool {
    exists|place: Place| is_place_in(blocks, place) && entry == #[trigger] entry_at(blocks, place)
}

/// Whether `first` is read before `second`: it is in an earlier block, or
/// earlier in the same block.
pub open spec fn reads_before(first: Place, second: Place) -> bool {
    first.0 < second.0 || (first.0 == second.0 && first.1 < second.1)
}

/// The places, within the block of index `block`, of the transactions among
/// `transactions` that meet `predicate`, in rising order.
pub open spec fn selected_places_in_block(
    predicate: BitcoinPredicateView,
    block: int,
    transactions: Seq<BitcoinTransactionView>,
) -> Seq<Place>
    decreases transactions.len(),
{
    if transactions.len() == 0 {
        Seq::empty()
    } else {
        let earlier = selected_places_in_block(predicate, block, transactions.drop_last());
        if predicate_matches(predicate, transactions.last()) {
            earlier.push((block, transactions.len() - 1))
        } else {
            earlier
        }
    }
}

/// The places of the transactions of `blocks` that meet `predicate`, block
/// after block.
pub open spec fn selected_places(predicate: BitcoinPredicateView, blocks: Seq<BitcoinBlockView>) -> Seq<
    Place,
>
    decreases blocks.len(),
{
    if blocks.len() == 0 {
        Seq::empty()
    } else {
        selected_places(predicate, blocks.drop_last()) + selected_places_in_block(
            predicate,
            blocks.len() - 1,
            blocks.last().transactions,
        )
    }
}

/// Within one block, the selected entries are the transactions at the
/// selected places; the places rise, and no transaction that meets the
/// predicate is left out.
pub proof fn lemma_selection_in_block(
    predicate: BitcoinPredicateView,
    block: int,
    identifier: BlockIdentifierView,
    transactions: Seq<BitcoinTransactionView>,
)
    ensures
        ({
            let places = selected_places_in_block(predicate, block, transactions);
            let selected = block_entries(
                BitcoinBlockView { block_identifier: identifier, transactions },
            ).filter(meets(predicate));
            &&& places.len() == selected.len()
            &&& forall|k: int|
                0 <= k < places.len() ==> {
                    &&& (#[trigger] places[k]).0 == block
                    &&& 0 <= places[k].1 < transactions.len()
                    &&& predicate_matches(predicate, transactions[places[k].1])
                    &&& selected[k] == (transactions[places[k].1], identifier)
                }
            &&& forall|k: int, l: int|
                0 <= k < l < places.len() ==> (#[trigger] places[k]).1 < (#[trigger] places[l]).1
            &&& forall|x: int|
                0 <= x < transactions.len() && predicate_matches(predicate, transactions[x])
                    ==> places.contains((block, x))
        }),
    decreases transactions.len(),
{
    let whole = BitcoinBlockView { block_identifier: identifier, transactions };
    let places = selected_places_in_block(predicate, block, transactions);
    reveal(Seq::filter);
    if transactions.len() > 0 {
        let shorter = transactions.drop_last();
        let part = BitcoinBlockView { block_identifier: identifier, transactions: shorter };
        let last = transactions.last();
        lemma_selection_in_block(predicate, block, identifier, shorter);
        let earlier_places = selected_places_in_block(predicate, block, shorter);
        assert(block_entries(whole) =~= block_entries(part).push((last, identifier)));
        block_entries(part).lemma_filter_push((last, identifier), meets(predicate));
        assert forall|x: int|
            0 <= x < transactions.len() && predicate_matches(
                predicate,
                transactions[x],
            ) implies places.contains((block, x)) by {
            if x < shorter.len() {
                assert(shorter[x] == transactions[x]);
                let k = choose|k: int|
                    0 <= k < earlier_places.len() && earlier_places[k] == (block, x);
                assert(places[k] == (block, x));
            } else {
                assert(places[places.len() - 1] == (block, x));
            }
        }
    }
}

/// The selected entries are the transactions at the selected places. Each
/// place is read before the next, and the place of every transaction that
/// meets the predicate is among them: the selection keeps the order in which
/// blocks and transactions arrive, repeats nothing and drops nothing.
pub proof fn lemma_selection_keeps_order(
    predicate: BitcoinPredicateView,
    blocks: Seq<BitcoinBlockView>,
)
    ensures
        ({
            let places = selected_places(predicate, blocks);
            let selected = selected_entries(predicate, blocks);
            &&& places.len() == selected.len()
            &&& forall|k: int|
                0 <= k < places.len() ==> {
                    &&& is_place_in(blocks, #[trigger] places[k])
                    &&& predicate_matches(predicate, entry_at(blocks, places[k]).0)
                    &&& selected[k] == entry_at(blocks, places[k])
                }
            &&& forall|k: int, l: int|
                0 <= k < l < places.len() ==> reads_before(
                    #[trigger] places[k],
                    #[trigger] places[l],
                )
            &&& forall|place: Place|
                is_place_in(blocks, place) && predicate_matches(
                    predicate,
                    entry_at(blocks, place).0,
                ) ==> places.contains(place)
        }),
    decreases blocks.len(),
{
    let places = selected_places(predicate, blocks);
    reveal(Seq::filter);
    if blocks.len() > 0 {
        let shorter = blocks.drop_last();
        let last = blocks.last();
        let index = blocks.len() - 1;
        lemma_selection_keeps_order(predicate, shorter);
        lemma_selection_in_block(predicate, index, last.block_identifier, last.transactions);
        let earlier_places = selected_places(predicate, shorter);
        let last_places = selected_places_in_block(predicate, index, last.transactions);
        assert(blocks =~= shorter.push(last));
        lemma_chain_entries_push(shorter, last);
        Seq::filter_distributes_over_add(
            chain_entries(shorter),
            block_entries(last),
            meets(predicate),
        );
        assert forall|place: Place|
            is_place_in(blocks, place) && predicate_matches(
                predicate,
                entry_at(blocks, place).0,
            ) implies places.contains(place) by {
            if place.0 < index {
                assert(earlier_places.contains(place));
                let k = choose|k: int| 0 <= k < earlier_places.len() && earlier_places[k] == place;
                assert(places[k] == place);
            } else {
                let m = choose|m: int| 0 <= m < last_places.len() && last_places[m] == place;
                assert(places[earlier_places.len() + m] == place);
            }
        }
    }
}

} // verus!
