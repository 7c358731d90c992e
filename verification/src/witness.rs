//! Witness assignments: the values bound to a circuit's named input slots
//! for one proving call. Every slot is assigned at most once; assigning a
//! slot twice, out of range, or with a value at or above the field modulus
//! is a binding error, never a silent truncation.
use vstd::prelude::*;

verus! {

use crate::FIELD_ORDER;
use crate::errors::BindingError;

/// One proving call's input slot values, indexed by slot number.
#[derive(Debug, PartialEq, Eq)]
pub struct WitnessAssignment {
    pub vals: Vec<Option<u64>>,
}

/// Every assigned slot holds a proper field element.
pub open spec fn wf_witness(w: Seq<Option<u64>>) -> bool {
    forall|i: int| 0 <= i < w.len() ==> (#[trigger] w[i] is Some ==> w[i]->0 < FIELD_ORDER)
}

/// The exact result of assigning values to slots in order: the first
/// offending slot decides the error; on success each listed slot holds its
/// value and every other slot is untouched.
pub open spec fn set_targets_spec(w: Seq<Option<u64>>, idxs: Seq<usize>, vals: Seq<u64>) -> Result<
    Seq<Option<u64>>,
    BindingError,
>
    decreases idxs.len(),
{
    if idxs.len() == 0 {
        Ok(w)
    } else if idxs[0] >= w.len() {
        Err(BindingError::SlotOutOfRange)
    } else if w[idxs[0] as int] is Some {
        Err(BindingError::SlotConflict)
    } else if vals[0] >= FIELD_ORDER {
        Err(BindingError::ValueTooLarge)
    } else {
        set_targets_spec(
            w.update(idxs[0] as int, Some(vals[0])),
            idxs.drop_first(),
            vals.drop_first(),
        )
    }
}

/// Assigning slot list and value list of one length: a length mismatch is
/// caught before any slot is touched.
pub open spec fn assign_spec(w: Seq<Option<u64>>, idxs: Seq<usize>, vals: Seq<u64>) -> Result<
    Seq<Option<u64>>,
    BindingError,
> {
    if idxs.len() != vals.len() {
        Err(BindingError::LengthMismatch)
    } else {
        set_targets_spec(w, idxs, vals)
    }
}

/// When every slot is in range, unassigned, and distinct, and every value is
/// a field element, assignment succeeds.
pub open spec fn can_set(w: Seq<Option<u64>>, idxs: Seq<usize>, vals: Seq<u64>) -> bool {
    &&& idxs.len() == vals.len()
    &&& forall|j: int|
        0 <= j < idxs.len() ==> (#[trigger] idxs[j]) < w.len() && w[idxs[j] as int] is None
            && vals[j] < FIELD_ORDER
    &&& forall|j: int, k: int| 0 <= j < k < idxs.len() ==> idxs[j] != idxs[k]
}

/// Success happens exactly under `can_set`, and then slot `idxs[j]` holds
/// `vals[j]` while every slot outside the list keeps its old value.
pub proof fn lemma_set_targets_pointwise(w: Seq<Option<u64>>, idxs: Seq<usize>, vals: Seq<u64>)
    requires
        idxs.len() == vals.len(),
    ensures
        set_targets_spec(w, idxs, vals) is Ok <==> can_set(w, idxs, vals),
        set_targets_spec(w, idxs, vals) is Ok ==> {
            let w2 = set_targets_spec(w, idxs, vals)->Ok_0;
            &&& w2.len() == w.len()
            &&& forall|j: int| 0 <= j < idxs.len() ==> w2[idxs[j] as int] == Some(vals[j])
            &&& forall|i: int|
                0 <= i < w.len() && (forall|j: int| 0 <= j < idxs.len() ==> idxs[j] != i) ==> w2[i]
                    == w[i]
        },
    decreases idxs.len(),
{
    if idxs.len() == 0 {
    } else if idxs[0] >= w.len() || w[idxs[0] as int] is Some || vals[0] >= FIELD_ORDER {
        assert(!can_set(w, idxs, vals));
    } else {
        let w1 = w.update(idxs[0] as int, Some(vals[0]));
        lemma_set_targets_pointwise(w1, idxs.drop_first(), vals.drop_first());
        assert(forall|k: int|
            0 <= k < idxs.drop_first().len() ==> idxs.drop_first()[k] == idxs[k + 1]
                && vals.drop_first()[k] == vals[k + 1]);
        if set_targets_spec(w, idxs, vals) is Ok {
            let w2 = set_targets_spec(w, idxs, vals)->Ok_0;
            assert(can_set(w1, idxs.drop_first(), vals.drop_first()));
            assert forall|j: int| 0 <= j < idxs.len() implies (#[trigger] idxs[j]) < w.len()
                && w[idxs[j] as int] is None && vals[j] < FIELD_ORDER by {
                if j > 0 {
                    assert(idxs.drop_first()[j - 1] == idxs[j]);
                    assert(vals.drop_first()[j - 1] == vals[j]);
                    assert(w1[idxs[j] as int] is None);
                }
            }
            assert forall|j: int, k: int| 0 <= j < k < idxs.len() implies idxs[j] != idxs[k] by {
                if j > 0 {
                    assert(idxs.drop_first()[j - 1] == idxs[j]);
                    assert(idxs.drop_first()[k - 1] == idxs[k]);
                } else {
                    assert(idxs.drop_first()[k - 1] == idxs[k]);
                    assert(w1[idxs[k] as int] is None);
                }
            }
            assert forall|j: int| 0 <= j < idxs.len() implies w2[idxs[j] as int] == Some(
                vals[j],
            ) by {
                if j == 0 {
                    assert forall|k: int| 0 <= k < idxs.drop_first().len() implies idxs.drop_first()[k]
                        != idxs[0] by {
                        assert(idxs.drop_first()[k] == idxs[k + 1]);
                    }
                    assert(w2[idxs[0] as int] == w1[idxs[0] as int]);
                } else {
                    assert(idxs.drop_first()[j - 1] == idxs[j]);
                    assert(vals.drop_first()[j - 1] == vals[j]);
                }
            }
            assert forall|i: int|
                0 <= i < w.len() && (forall|j: int| 0 <= j < idxs.len() ==> idxs[j] != i) implies w2[i]
                == w[i] by {
                assert(idxs[0] != i);
                assert(w1[i] == w[i]);
                assert forall|k: int| 0 <= k < idxs.drop_first().len() implies idxs.drop_first()[k]
                    != i by {
                    assert(idxs.drop_first()[k] == idxs[k + 1]);
                }
                assert(w2[i] == w1[i]);
            }
        }
        if can_set(w, idxs, vals) {
            assert forall|j: int| 0 <= j < idxs.drop_first().len() implies (#[trigger] idxs.drop_first()[j])
                < w1.len() && w1[idxs.drop_first()[j] as int] is None && vals.drop_first()[j]
                < FIELD_ORDER by {
                assert(idxs.drop_first()[j] == idxs[j + 1]);
                assert(vals.drop_first()[j] == vals[j + 1]);
                assert(idxs[0] != idxs[j + 1]);
            }
            assert forall|j: int, k: int| 0 <= j < k < idxs.drop_first().len() implies idxs.drop_first()[j]
                != idxs.drop_first()[k] by {
                assert(idxs.drop_first()[j] == idxs[j + 1]);
                assert(idxs.drop_first()[k] == idxs[k + 1]);
            }
            assert(can_set(w1, idxs.drop_first(), vals.drop_first()));
        }
    }
}

impl WitnessAssignment {
    pub open spec fn wf(self) -> bool {
        wf_witness(self.vals@)
    }

    /// A fresh assignment with every one of `num_slots` slots open.
    pub fn new(num_slots: usize) -> (r: WitnessAssignment)
        ensures
            r.wf(),
            r.vals@.len() == num_slots,
            forall|i: int| 0 <= i < num_slots ==> r.vals@[i] is None,
    {
        let mut vals: Vec<Option<u64>> = Vec::new();
        let mut i: usize = 0;
        while i < num_slots
            invariant
                i <= num_slots,
                vals@.len() == i,
                forall|k: int| 0 <= k < i ==> vals@[k] is None,
            decreases num_slots - i,
        {
            vals.push(None);
            i += 1;
        }
        WitnessAssignment { vals }
    }

    /// Every slot the schema demands has been assigned.
    pub open spec fn complete(self) -> bool {
        forall|i: int| 0 <= i < self.vals@.len() ==> (#[trigger] self.vals@[i]) is Some
    }

    /// Checks that every slot is assigned: a proving call on an incomplete
    /// witness must be refused, never padded.
    pub fn is_complete(&self) -> (r: bool)
        ensures
            r == self.complete(),
    {
        let mut i: usize = 0;
        while i < self.vals.len()
            invariant
                i <= self.vals@.len(),
                forall|k: int| 0 <= k < i ==> (#[trigger] self.vals@[k]) is Some,
            decreases self.vals@.len() - i,
        {
            if self.vals[i].is_none() {
                return false;
            }
            i += 1;
        }
        true
    }

    /// Reads one slot back.
    pub fn get(&self, i: usize) -> (r: Option<u64>)
        requires
            i < self.vals@.len(),
        ensures
            r == self.vals@[i as int],
    {
        self.vals[i]
    }

    pub fn num_slots(&self) -> (r: usize)
        ensures
            r == self.vals@.len(),
    {
        self.vals.len()
    }

    /// Assigns `vals[j]` to slot `idxs[j]`, each slot once, in order; the
    /// first offence aborts the call.
    pub fn assign(&mut self, idxs: &Vec<usize>, vals: &Vec<u64>) -> (r: Result<(), BindingError>)
        requires
            old(self).wf(),
        ensures
            final(self).wf(),
            final(self).vals@.len() == old(self).vals@.len(),
            match assign_spec(old(self).vals@, idxs@, vals@) {
                Ok(w2) => r is Ok && final(self).vals@ == w2,
                Err(e) => r == Err::<(), BindingError>(e),
            },
    {
        if idxs.len() != vals.len() {
            return Err(BindingError::LengthMismatch);
        }
        let ghost w0 = self.vals@;
        proof {
            assert(idxs@.skip(0) =~= idxs@);
            assert(vals@.skip(0) =~= vals@);
        }
        let mut j: usize = 0;
        while j < idxs.len()
            invariant
                j <= idxs.len(),
                idxs@.len() == vals@.len(),
                w0 == old(self).vals@,
                self.wf(),
                self.vals@.len() == w0.len(),
                set_targets_spec(w0, idxs@, vals@) == set_targets_spec(
                    self.vals@,
                    idxs@.skip(j as int),
                    vals@.skip(j as int),
                ),
            decreases idxs@.len() - j,
        {
            proof {
                assert(idxs@.skip(j as int).len() == idxs@.len() - j);
                assert(idxs@.skip(j as int)[0] == idxs@[j as int]);
                assert(vals@.skip(j as int)[0] == vals@[j as int]);
            }
            let idx = idxs[j];
            let v = vals[j];
            if idx >= self.vals.len() {
                return Err(BindingError::SlotOutOfRange);
            }
            if self.vals[idx].is_some() {
                return Err(BindingError::SlotConflict);
            }
            if v >= FIELD_ORDER {
                return Err(BindingError::ValueTooLarge);
            }
            self.vals[idx] = Some(v);
            proof {
                assert(idxs@.skip(j as int).drop_first() =~= idxs@.skip(j + 1));
                assert(vals@.skip(j as int).drop_first() =~= vals@.skip(j + 1));
            }
            j += 1;
        }
        proof {
            assert(idxs@.skip(j as int).len() == 0);
            assert(set_targets_spec(self.vals@, idxs@.skip(j as int), vals@.skip(j as int)) == Ok::<
                Seq<Option<u64>>,
                BindingError,
            >(self.vals@));
        }
        Ok(())
    }
}

} // verus!
