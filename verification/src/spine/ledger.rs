//! The ledger: one amount per pipeline stage, kept in pipeline order.

use crate::types::Usd;
use vstd::prelude::*;

verus! {

/// A stage of the pipeline, and with it a line of the ledger. The variants
/// stand in pipeline order, which is also the order of the ledger.
#[derive(Debug, Clone, Copy, PartialEq, Eq, PartialOrd, Ord, Hash, Structural)]
pub enum Key {
    TotalIncome,
    Adjustments,
    AGI,
    Deductions,
    TaxableIncome,
    RegularTax,
    AdditionalTax,
    TotalTaxPreCredits,
    NonRefundableCredits,
    TaxAfterNonRefundableCredits,
    RefundableCredits,
    TotalTax,
    Withholding,
    EstimatedPayments,
    TotalPayments,
    Refund,
    AmountOwed,
}

/// Number of pipeline stages.
pub const STAGES: usize = 17;

impl Key {
    /// Place of the stage in the pipeline, counted from zero.
    pub open spec fn spec_position(self) -> usize {
        match self {
            Key::TotalIncome => 0,
            Key::Adjustments => 1,
            Key::AGI => 2,
            Key::Deductions => 3,
            Key::TaxableIncome => 4,
            Key::RegularTax => 5,
            Key::AdditionalTax => 6,
            Key::TotalTaxPreCredits => 7,
            Key::NonRefundableCredits => 8,
            Key::TaxAfterNonRefundableCredits => 9,
            Key::RefundableCredits => 10,
            Key::TotalTax => 11,
            Key::Withholding => 12,
            Key::EstimatedPayments => 13,
            Key::TotalPayments => 14,
            Key::Refund => 15,
            Key::AmountOwed => 16,
        }
    }

    /// The stage at a place of the pipeline; past the end, the last stage.
    pub open spec fn spec_at(position: usize) -> Key {
        if position == 0 {
            Key::TotalIncome
        } else if position == 1 {
            Key::Adjustments
        } else if position == 2 {
            Key::AGI
        } else if position == 3 {
            Key::Deductions
        } else if position == 4 {
            Key::TaxableIncome
        } else if position == 5 {
            Key::RegularTax
        } else if position == 6 {
            Key::AdditionalTax
        } else if position == 7 {
            Key::TotalTaxPreCredits
        } else if position == 8 {
            Key::NonRefundableCredits
        } else if position == 9 {
            Key::TaxAfterNonRefundableCredits
        } else if position == 10 {
            Key::RefundableCredits
        } else if position == 11 {
            Key::TotalTax
        } else if position == 12 {
            Key::Withholding
        } else if position == 13 {
            Key::EstimatedPayments
        } else if position == 14 {
            Key::TotalPayments
        } else if position == 15 {
            Key::Refund
        } else {
            Key::AmountOwed
        }
    }

    /// Place of the stage in the pipeline, counted from zero.
    #[verifier::when_used_as_spec(spec_position)]
    pub fn position(self) -> (position: usize)
        ensures
            position == self.position(),
            position < STAGES,
            Key::at(position) == self,
    {
        match self {
            Key::TotalIncome => 0,
            Key::Adjustments => 1,
            Key::AGI => 2,
            Key::Deductions => 3,
            Key::TaxableIncome => 4,
            Key::RegularTax => 5,
            Key::AdditionalTax => 6,
            Key::TotalTaxPreCredits => 7,
            Key::NonRefundableCredits => 8,
            Key::TaxAfterNonRefundableCredits => 9,
            Key::RefundableCredits => 10,
            Key::TotalTax => 11,
            Key::Withholding => 12,
            Key::EstimatedPayments => 13,
            Key::TotalPayments => 14,
            Key::Refund => 15,
            Key::AmountOwed => 16,
        }
    }

    /// The stage at a place of the pipeline; past the end, the last stage.
    #[verifier::when_used_as_spec(spec_at)]
    pub fn at(position: usize) -> (key: Key)
        ensures
            key == Key::at(position),
            position < STAGES ==> key.position() == position,
    {
        if position == 0 {
            Key::TotalIncome
        } else if position == 1 {
            Key::Adjustments
        } else if position == 2 {
            Key::AGI
        } else if position == 3 {
            Key::Deductions
        } else if position == 4 {
            Key::TaxableIncome
        } else if position == 5 {
            Key::RegularTax
        } else if position == 6 {
            Key::AdditionalTax
        } else if position == 7 {
            Key::TotalTaxPreCredits
        } else if position == 8 {
            Key::NonRefundableCredits
        } else if position == 9 {
            Key::TaxAfterNonRefundableCredits
        } else if position == 10 {
            Key::RefundableCredits
        } else if position == 11 {
            Key::TotalTax
        } else if position == 12 {
            Key::Withholding
        } else if position == 13 {
            Key::EstimatedPayments
        } else if position == 14 {
            Key::TotalPayments
        } else if position == 15 {
            Key::Refund
        } else {
            Key::AmountOwed
        }
    }
}

/// An ordered mapping from pipeline stage to amount.
///
/// A stage is either absent or holds one amount; walking the ledger visits
/// the stages in pipeline order, whatever the order in which they were
/// entered.
#[derive(Debug, Clone)]
pub struct Ledger {
    /// One slot per stage, by position; stages past the end are absent.
    slots: Vec<Option<Usd>>,
}

impl View for Ledger {
    type V = Map<Key, Usd>;

    closed spec fn view(&self) -> Map<Key, Usd> {
        Map::new(
            |key: Key|
                key.position() < self.slots@.len() && self.slots@[key.position() as int] is Some,
            |key: Key| self.slots@[key.position() as int]->Some_0,
        )
    }
}

impl Ledger {
    /// Whether every stage of the pipeline has its amount.
    pub open spec fn is_complete(self) -> bool {
        forall|key: Key| self@.dom().contains(key)
    }

    /// A ledger without any entry.
    pub fn new() -> (ledger: Ledger)
        ensures
            ledger@ == Map::<Key, Usd>::empty(),
    {
        let ledger = Ledger { slots: Vec::new() };
        assert(ledger@ =~= Map::<Key, Usd>::empty());
        ledger
    }

    /// Enters `amount` under `key` and gives back what stood there before.
    pub fn insert(&mut self, key: Key, amount: Usd) -> (previous: Option<Usd>)
        ensures
            final(self)@ == old(self)@.insert(key, amount),
            previous == (if old(self)@.dom().contains(key) {
                Some(old(self)@[key])
            } else {
                None
            }),
    {
        let position = key.position();
        while self.slots.len() <= position
            invariant
                position < STAGES,
                old(self).slots@.len() <= self.slots@.len(),
                forall|i: int|
                    0 <= i < old(self).slots@.len() ==> self.slots@[i] == old(self).slots@[i],
                forall|i: int|
                    old(self).slots@.len() <= i < self.slots@.len() ==> self.slots@[i] is None,
            decreases STAGES - self.slots@.len(),
        {
            self.slots.push(None);
        }
        let previous = self.slots[position];
        self.slots.set(position, Some(amount));
        proof {
            assert forall|other: Key| other != key implies other.position() != position by {
                assert(Key::at(other.position()) == other);
            }
            assert(self@ =~= old(self)@.insert(key, amount));
        }
        previous
    }

    /// The amount under `key`, if the ledger has one.
    pub fn get(&self, key: &Key) -> (amount: Option<&Usd>)
        ensures
            match amount {
                Some(amount) => self@.dom().contains(*key) && *amount == self@[*key],
                None => !self@.dom().contains(*key),
            },
    {
        let position = key.position();
        if position < self.slots.len() {
            self.slots[position].as_ref()
        } else {
            None
        }
    }

    /// Whether the ledger has an amount under `key`.
    pub fn contains_key(&self, key: &Key) -> (present: bool)
        ensures
            present == self@.dom().contains(*key),
    {
        let position = key.position();
        position < self.slots.len() && self.slots[position].is_some()
    }

    /// The entries of the ledger, in pipeline order.
    pub fn entries(&self) -> (entries: Vec<(Key, Usd)>)
        ensures
            forall|i: int, j: int|
                0 <= i < j < entries@.len() ==> entries@[i].0.position() < entries@[j].0.position(),
            forall|i: int|
                0 <= i < entries@.len() ==> self@.dom().contains(entries@[i].0)
                    && self@[entries@[i].0] == entries@[i].1,
            forall|key: Key|
                self@.dom().contains(key) ==> exists|i: int|
                    0 <= i < entries@.len() && entries@[i].0 == key,
    {
        let mut entries: Vec<(Key, Usd)> = Vec::new();
        let mut position: usize = 0;
        while position < STAGES && position < self.slots.len()
            invariant
                forall|i: int| 0 <= i < entries@.len() ==> entries@[i].0.position() < position,
                forall|i: int, j: int|
                    0 <= i < j < entries@.len() ==> entries@[i].0.position()
                        < entries@[j].0.position(),
                forall|i: int|
                    0 <= i < entries@.len() ==> self@.dom().contains(entries@[i].0)
                        && self@[entries@[i].0] == entries@[i].1,
                forall|key: Key|
                    self@.dom().contains(key) && key.position() < position ==> exists|i: int|
                        0 <= i < entries@.len() && entries@[i].0 == key,
            decreases STAGES - position,
        {
            let key = Key::at(position);
            let ghost before = entries@;
            match self.slots[position] {
                Some(amount) => {
                    entries.push((key, amount));
                    proof {
                        assert(entries@[before.len() as int].0 == key);
                    }
                },
                None => {},
            }
            proof {
                assert forall|other: Key|
                    self@.dom().contains(other) && other.position() < position + 1 implies exists|
                    i: int,
                | 0 <= i < entries@.len() && entries@[i].0 == other by {
                    if other.position() < position {
                        let i = choose|i: int| 0 <= i < before.len() && before[i].0 == other;
                        assert(entries@[i].0 == other);
                    } else {
                        assert(Key::at(other.position()) == other);
                        assert(other == key);
                        assert(entries@[before.len() as int].0 == key);
                    }
                }
            }
            position = position + 1;
        }
        entries
    }
}

impl Ledger {
    /// Number of stages that have an amount.
    pub fn len(&self) -> (count: usize)
        ensures
            self@.dom().finite(),
            count == self@.dom().len(),
            count <= STAGES,
    {
        let entries = self.entries();
        proof {
            let keys = entries@.map_values(|entry: (Key, Usd)| entry.0);
            assert(keys.no_duplicates()) by {
                assert forall|i: int, j: int|
                    0 <= i < keys.len() && 0 <= j < keys.len() && i != j implies keys[i]
                    != keys[j] by {
                    if i < j {
                        assert(entries@[i].0.position() < entries@[j].0.position());
                    } else {
                        assert(entries@[j].0.position() < entries@[i].0.position());
                    }
                }
            }
            assert(keys.to_set() =~= self@.dom()) by {
                assert forall|key: Key| keys.to_set().contains(key) == self@.dom().contains(
                    key,
                ) by {
                    if self@.dom().contains(key) {
                        let i = choose|i: int| 0 <= i < entries@.len() && entries@[i].0 == key;
                        assert(keys[i] == key);
                    }
                }
            }
            keys.unique_seq_to_set();
            vstd::seq_lib::seq_to_set_is_finite(keys);
            lemma_rising_positions(keys, keys.len() as int);
        }
        entries.len()
    }

    /// Whether the ledger has no entry.
    pub fn is_empty(&self) -> (empty: bool)
        ensures
            empty == (self@.dom().len() == 0),
            empty == (self@ == Map::<Key, Usd>::empty()),
    {
        let empty = self.len() == 0;
        proof {
            if empty {
                assert(self@.dom() =~= Set::<Key>::empty());
                assert(self@ =~= Map::<Key, Usd>::empty());
            }
        }
        empty
    }
}

/// Keys whose positions rise strictly stand at least as far in the pipeline
/// as in their list, so there are no more of them than stages.
proof fn lemma_rising_positions(keys: Seq<Key>, upto: int)
    requires
        0 <= upto <= keys.len(),
        forall|i: int, j: int| 0 <= i < j < keys.len() ==> keys[i].position() < keys[j].position(),
    ensures
        forall|i: int| 0 <= i < upto ==> keys[i].position() >= i,
        upto <= STAGES,
    decreases upto,
{
    if upto > 0 {
        lemma_rising_positions(keys, upto - 1);
        if upto > 1 {
            assert(keys[upto - 2].position() < keys[upto - 1].position());
        }
    }
}

/// A ledger in which every stage has its amount has exactly as many entries
/// as the pipeline has stages.
pub proof fn complete_means_every_stage(ledger: Map<Key, Usd>)
    requires
        forall|key: Key| ledger.dom().contains(key),
    ensures
        ledger.dom().finite(),
        ledger.dom().len() == STAGES,
{
    let keys = Seq::new(STAGES as nat, |i: int| Key::at(i as usize));
    assert forall|i: int| 0 <= i < STAGES implies (#[trigger] keys[i]).position() == i by {
    }
    assert(keys.no_duplicates());
    assert(keys.to_set() =~= ledger.dom()) by {
        assert forall|key: Key| keys.to_set().contains(key) by {
            assert(keys[key.position() as int] == key);
        }
    }
    keys.unique_seq_to_set();
    vstd::seq_lib::seq_to_set_is_finite(keys);
}

impl Default for Ledger {
    fn default() -> (ledger: Ledger)
        ensures
            ledger@ == Map::<Key, Usd>::empty(),
    {
        Ledger::new()
    }
}

impl<'a> core::ops::Index<&'a Key> for Ledger {
    type Output = Usd;

    /// The amount under `key`, which the ledger must hold.
    fn index(&self, key: &'a Key) -> (amount: &Usd)
        ensures
            *amount == self@[*key],
    {
        self.slots[key.position()].as_ref().unwrap()
    }
}

impl<'a> vstd::std_specs::core::IndexSpecImpl<&'a Key> for Ledger {
    open spec fn index_req(&self, key: &&'a Key) -> bool {
        self@.dom().contains(**key)
    }
}

} // verus!
