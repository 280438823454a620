//! The inclusion proofs that were fetched for a pass, by transaction.

use crate::chain::TransactionIdentifier;
use vstd::prelude::*;

verus! {

/// The map that `entries` build up, each entry replacing an earlier one for
/// the same transaction.
pub open spec fn proofs_of(entries: Seq<(TransactionIdentifier, String)>) -> Map<
    Seq<char>,
    Seq<char>,
>
    decreases entries.len(),
{
    if entries.len() == 0 {
        Map::empty()
    } else {
        proofs_of(entries.drop_last()).insert(entries.last().0@, entries.last().1@)
    }
}

/// Inclusion proofs by the hash of their transaction. The lookup is filled
/// before a pass and only read during it; a transaction without an entry has
/// no proof.
#[derive(Debug)]
pub struct ProofLookup {
    entries: Vec<(TransactionIdentifier, String)>,
}

impl View for ProofLookup {
    type V = Map<Seq<char>, Seq<char>>;

    closed spec fn view(&self) -> Map<Seq<char>, Seq<char>> {
        proofs_of(self.entries@)
    }
}

impl ProofLookup {
    /// A lookup without proofs.
    pub fn new() -> (lookup: ProofLookup)
        ensures
            lookup@ == Map::<Seq<char>, Seq<char>>::empty(),
    {
        ProofLookup { entries: Vec::new() }
    }

    /// Records `proof` for `transaction`, in place of an earlier proof for
    /// it.
    pub fn insert(&mut self, transaction: TransactionIdentifier, proof_text: String)
        ensures
            final(self)@ == old(self)@.insert(transaction@, proof_text@),
    {
        let ghost earlier = self.entries@;
        self.entries.push((transaction, proof_text));
        assert(self.entries@.drop_last() =~= earlier);
    }

    /// The proof recorded for `transaction`, if there is one.
    pub fn get(&self, transaction: &TransactionIdentifier) -> (found: Option<&String>)
        ensures
            match found {
                Some(proof_text) => self@.dom().contains(transaction@) && self@[transaction@]
                    == proof_text@,
                None => !self@.dom().contains(transaction@),
            },
    {
        let mut i: usize = self.entries.len();
        proof {
            assert(self.entries@.take(i as int) =~= self.entries@);
        }
        while i > 0
            invariant
                i <= self.entries.len(),
                self@.dom().contains(transaction@) == proofs_of(
                    self.entries@.take(i as int),
                ).dom().contains(transaction@),
                self@.dom().contains(transaction@) ==> self@[transaction@] == proofs_of(
                    self.entries@.take(i as int),
                )[transaction@],
            decreases i,
        {
            i -= 1;
            proof {
                assert(self.entries@.take(i + 1).drop_last() =~= self.entries@.take(i as int));
            }
            if self.entries[i].0.hash == transaction.hash {
                return Some(&self.entries[i].1);
            }
        }
        None
    }
}

} // verus!
