//! The table that a parsed BOE page yields: for each concept found on the
//! page, its text.

use vstd::prelude::*;
use crate::concepts::{BoeConcept, CONCEPT_COUNT};

verus! {

/// Concept texts of one BOE page, at most one text per concept.
#[derive(Debug)]
pub struct ConceptTable {
    values: Vec<Option<String>>,
}

impl ConceptTable {
    /// The text stored at position `i`, if any.
    closed spec fn slot(self, i: nat) -> Option<Seq<char>> {
        if i < self.values@.len() {
            match self.values@[i as int] {
                Some(s) => Some(s@),
                None => None,
            }
        } else {
            None
        }
    }

    /// The text stored at position `i`, if any.
    fn slot_ref(&self, i: usize) -> (r: Option<&String>)
        ensures
            self.slot(i as nat) == (match r {
                Some(s) => Some(s@),
                None => None,
            }),
    {
        if i < self.values.len() {
            match &self.values[i] {
                Some(s) => Some(s),
                None => None,
            }
        } else {
            None
        }
    }
}

impl View for ConceptTable {
    type V = Map<BoeConcept, Seq<char>>;

    closed spec fn view(&self) -> Map<BoeConcept, Seq<char>> {
        Map::new(
            |k: BoeConcept| self.slot(k.index_spec()) is Some,
            |k: BoeConcept| self.slot(k.index_spec())->0,
        )
    }
}

impl ConceptTable {
    /// An empty table.
    pub fn new() -> (r: Self)
        ensures
            r@ == Map::<BoeConcept, Seq<char>>::empty(),
    {
        let mut values: Vec<Option<String>> = Vec::new();
        let mut i: usize = 0;
        while i < CONCEPT_COUNT
            invariant
                i <= CONCEPT_COUNT,
                values@.len() == i,
                forall|j: int| 0 <= j < i ==> values@[j] is None,
            decreases CONCEPT_COUNT - i,
        {
            values.push(None);
            i = i + 1;
        }
        let r = ConceptTable { values };
        assert(r@ =~= Map::<BoeConcept, Seq<char>>::empty()) by {
            assert forall|k: BoeConcept| !r@.contains_key(k) by {
                k.lemma_index();
            }
        }
        r
    }

    /// Sets the text of `concept` to `text`, replacing any previous text.
    pub fn insert(&mut self, concept: BoeConcept, text: String)
        ensures
            final(self)@ == old(self)@.insert(concept, text@),
    {
        let ghost prev = self@;
        let ghost prev_values = self.values@;
        let i = concept.index();
        while self.values.len() <= i
            invariant
                forall|j: nat| #[trigger] self.slot(j) == old(self).slot(j),
                self.values@.len() >= old(self).values@.len(),
                forall|j: int| 0 <= j < old(self).values@.len() ==> self.values@[j] == old(self).values@[j],
            decreases i + 1 - self.values@.len(),
        {
            let ghost before = *self;
            self.values.push(None);
            assert forall|j: nat| #[trigger] self.slot(j) == before.slot(j) by {
                if j < before.values@.len() {
                    assert(self.values@[j as int] == before.values@[j as int]);
                }
            }
        }
        let ghost mid = *self;
        self.values.set(i, Some(text));
        assert forall|j: nat| j != i implies #[trigger] self.slot(j) == mid.slot(j) by {
            if j < mid.values@.len() && j != i {
                assert(self.values@[j as int] == mid.values@[j as int]);
            }
        }
        assert(self.slot(i as nat) == Some(text@));
        proof {
            concept.lemma_index();
            assert forall|k: BoeConcept| #[trigger] self@.contains_key(k) == prev.insert(
                concept,
                text@,
            ).contains_key(k) && (self@.contains_key(k) ==> self@[k] == prev.insert(
                concept,
                text@,
            )[k]) by {
                k.lemma_index();
                if k.index_spec() == i {
                    assert(k == concept);
                } else {
                    assert(self.slot(k.index_spec()) == mid.slot(k.index_spec()));
                    assert(mid.slot(k.index_spec()) == old(self).slot(k.index_spec()));
                }
            }
            assert(self@ =~= prev.insert(concept, text@));
        }
    }

    /// The text of `concept`, if the table has one.
    pub fn get(&self, concept: BoeConcept) -> (r: Option<&String>)
        ensures
            r is Some == self@.contains_key(concept),
            r matches Some(s) ==> s@ == self@[concept],
    {
        self.slot_ref(concept.index())
    }

    /// Whether the table holds a text for `concept`.
    pub fn contains(&self, concept: BoeConcept) -> (r: bool)
        ensures
            r == self@.contains_key(concept),
    {
        self.get(concept).is_some()
    }

    /// Whether both tables hold the same texts for the same concepts.
    pub fn same_entries(&self, other: &ConceptTable) -> (r: bool)
        ensures
            r == (self@ == other@),
    {
        let mut i: usize = 0;
        while i < CONCEPT_COUNT
            invariant
                i <= CONCEPT_COUNT,
                forall|j: nat| j < i ==> self.slot(j) == other.slot(j),
            decreases CONCEPT_COUNT - i,
        {
            let same = match (self.slot_ref(i), other.slot_ref(i)) {
                (Some(a), Some(b)) => *a == *b,
                (None, None) => true,
                _ => false,
            };
            if !same {
                proof {
                    let k = BoeConcept::at_index(i as nat);
                    BoeConcept::lemma_at_index(i as nat);
                    assert(self.slot(i as nat) != other.slot(i as nat));
                    assert(self@.contains_key(k) != other@.contains_key(k) || self@[k] != other@[k]);
                }
                return false;
            }
            i = i + 1;
        }
        proof {
            assert forall|k: BoeConcept| #[trigger] self@.contains_key(k) == other@.contains_key(k)
                && (self@.contains_key(k) ==> self@[k] == other@[k]) by {
                k.lemma_index();
            }
            assert(self@ =~= other@);
        }
        true
    }
}

/// What `insert` stores is what `get` then gives back, and the texts of the
/// other concepts do not change (stated over the tables' views, in which
/// both functions' contracts are written).
pub proof fn lemma_insert_then_get(
    table: Map<BoeConcept, Seq<char>>,
    concept: BoeConcept,
    text: Seq<char>,
    other: BoeConcept,
)
    ensures
        table.insert(concept, text).contains_key(concept),
        table.insert(concept, text)[concept] == text,
        other != concept ==> table.insert(concept, text).contains_key(other) == table.contains_key(
            other,
        ),
        other != concept && table.contains_key(other) ==> table.insert(concept, text)[other]
            == table[other],
{
}

impl PartialEq for ConceptTable {
    fn eq(&self, other: &Self) -> (r: bool) {
        self.same_entries(other)
    }
}

impl vstd::std_specs::cmp::PartialEqSpecImpl for ConceptTable {
    open spec fn obeys_eq_spec() -> bool {
        true
    }

    open spec fn eq_spec(&self, other: &ConceptTable) -> bool {
        self@ == other@
    }
}

} // verus!
