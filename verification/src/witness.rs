//! The execution trace of one proving attempt: a grid of optional advice
//! values, per-row selector flags, the public-input values of the instance
//! column, and the recorded copy (equality) constraints.
//!
//! A trace is created fresh for every proving attempt against an immutable
//! `ConstraintSystem` and is discarded after proof generation; verification
//! never needs it back. Each assignment primitive here is atomic: it either
//! performs its whole effect or returns an error and leaves the trace
//! untouched.

use vstd::prelude::*;
use halo2_proofs::pasta::Fp;
use crate::field::{fp_add, fp_eq, sum_of};
use crate::system::{AddGate, Column, ConstraintSystem, Error, Role, Selector};

verus! {

/// A cell together with the field value resolved for it during witness
/// assignment; it carries enough identity to be referenced later by a copy
/// constraint without re-deriving the value.
#[derive(Clone, Copy, Debug)]
pub struct AssignedCell {
    pub column: Column,
    pub row: usize,
    pub value: Fp,
}

/// A recorded copy constraint between an advice cell and a row of the
/// instance column: the two must hold the same value for the trace to be
/// satisfiable.
#[derive(Clone, Copy, Debug, PartialEq, Eq, Structural)]
pub struct InstanceCopy {
    /// Index of the advice column of the constrained cell.
    pub column: usize,
    /// Row of the constrained cell.
    pub row: usize,
    /// The instance row the cell must equal.
    pub instance_row: usize,
}

/// The full grid of values for one proving attempt.
pub struct Trace {
    /// The shape this trace was created against.
    pub cs: ConstraintSystem,
    /// How many rows every column has.
    pub rows: usize,
    /// Advice values, indexed by column then row; `None` is an unassigned cell.
    pub advice: Vec<Vec<Option<Fp>>>,
    /// Selector flags, indexed by selector then row.
    pub selectors: Vec<Vec<bool>>,
    /// The values of the one instance column: the public-input vector this
    /// trace is being assigned from.
    pub instance: Vec<Fp>,
    /// The recorded copy constraints.
    pub copies: Vec<InstanceCopy>,
}

impl Trace {
    /// The advice value at a column and row.
    pub open spec fn advice_at(self, c: int, r: int) -> Option<Fp> {
        self.advice@[c]@[r]
    }

    /// Whether a selector is enabled at a row.
    pub open spec fn selector_on(self, s: int, r: int) -> bool {
        self.selectors@[s]@[r]
    }

    /// A recorded copy constraint references an existing advice cell and an
    /// existing row of the instance column.
    pub open spec fn copy_wf(self, c: InstanceCopy) -> bool {
        &&& c.column < self.cs.num_advice
        &&& c.row < self.rows
        &&& c.instance_row < self.instance@.len()
    }

    /// The grid matches the shape it was created against, which declares
    /// exactly one instance column.
    pub open spec fn wf(self) -> bool {
        &&& self.cs.wf()
        &&& self.cs.num_instance == 1
        &&& self.advice@.len() == self.cs.num_advice
        &&& forall|c: int| 0 <= c < self.advice@.len() ==> (#[trigger] self.advice@[c])@.len() == self.rows
        &&& self.selectors@.len() == self.cs.num_selectors
        &&& forall|s: int| 0 <= s < self.selectors@.len() ==> (#[trigger] self.selectors@[s])@.len() == self.rows
        &&& forall|i: int| 0 <= i < self.copies@.len() ==> self.copy_wf(#[trigger] self.copies@[i])
    }

    /// The three cells a gate reads at a row are all assigned and the third is
    /// the field sum of the first two.
    pub open spec fn gate_values_sum(self, g: AddGate, r: int) -> bool {
        &&& self.advice_at(g.a.index as int, r) matches Some(va)
        &&& self.advice_at(g.b.index as int, r) matches Some(vb)
        &&& self.advice_at(g.c.index as int, r) matches Some(vc)
        &&& vc == sum_of(va, vb)
    }

    /// A gate imposes its constraint exactly where its selector is enabled.
    pub open spec fn gate_satisfied_at(self, g: AddGate, r: int) -> bool {
        self.selector_on(g.selector.index as int, r) ==> self.gate_values_sum(g, r)
    }

    /// A gate holds at every row of the trace.
    pub open spec fn gate_satisfied(self, g: AddGate) -> bool {
        forall|r: int| 0 <= r < self.rows ==> self.gate_satisfied_at(g, r)
    }

    /// A copy constraint holds against a given public-input vector: the
    /// referenced instance row exists in it and the constrained cell holds
    /// exactly that value.
    pub open spec fn copy_satisfied(self, c: InstanceCopy, pi: Seq<Fp>) -> bool {
        &&& c.instance_row < pi.len()
        &&& self.advice_at(c.column as int, c.row as int) == Some(pi[c.instance_row as int])
    }

    /// The trace satisfies the declared circuit against a public-input
    /// vector: every gate holds at every row, and every recorded copy
    /// constraint agrees with the vector.
    pub open spec fn satisfied(self, pi: Seq<Fp>) -> bool {
        &&& forall|i: int| 0 <= i < self.cs.gates@.len() ==>
            self.gate_satisfied(#[trigger] self.cs.gates@[i])
        &&& forall|i: int| 0 <= i < self.copies@.len() ==>
            self.copy_satisfied(#[trigger] self.copies@[i], pi)
    }
}

/// One unassigned column of a fresh trace.
fn blank_column(rows: usize) -> (r: Vec<Option<Fp>>)
    ensures
        r@.len() == rows,
        forall|i: int| 0 <= i < rows ==> r@[i] is None,
{
    let mut col: Vec<Option<Fp>> = Vec::new();
    while col.len() < rows
        invariant
            col@.len() <= rows,
            forall|i: int| 0 <= i < col@.len() ==> col@[i] is None,
        decreases rows - col@.len(),
    {
        col.push(None);
    }
    col
}

/// One all-off selector column of a fresh trace.
fn blank_flags(rows: usize) -> (r: Vec<bool>)
    ensures
        r@.len() == rows,
        forall|i: int| 0 <= i < rows ==> !r@[i],
{
    let mut col: Vec<bool> = Vec::new();
    while col.len() < rows
        invariant
            col@.len() <= rows,
            forall|i: int| 0 <= i < col@.len() ==> !col@[i],
        decreases rows - col@.len(),
    {
        col.push(false);
    }
    col
}

impl Trace {
    /// A fresh, fully unassigned trace for one proving attempt: every advice
    /// cell empty, every selector off, no copy constraints, and the instance
    /// column seeded with the public-input vector. Refused when the shape does
    /// not declare exactly one instance column, the only layout this library's
    /// pattern uses.
    pub fn new(cs: ConstraintSystem, rows: usize, instance: Vec<Fp>) -> (r: Result<Trace, Error>)
        requires
            cs.wf(),
        ensures
            r is Ok <==> cs.num_instance == 1,
            r is Err ==> r == Err::<Trace, Error>(Error::ConfigurationError),
            r matches Ok(t) ==> {
                &&& t.wf()
                &&& t.cs == cs
                &&& t.rows == rows
                &&& t.instance == instance
                &&& t.copies@ =~= Seq::<InstanceCopy>::empty()
                &&& forall|c: int, rr: int| 0 <= c < cs.num_advice && 0 <= rr < rows ==>
                    t.advice_at(c, rr) is None
                &&& forall|s: int, rr: int| 0 <= s < cs.num_selectors && 0 <= rr < rows ==>
                    !t.selector_on(s, rr)
            },
    {
        if cs.num_instance != 1 {
            return Err(Error::ConfigurationError);
        }
        let mut advice: Vec<Vec<Option<Fp>>> = Vec::new();
        while advice.len() < cs.num_advice
            invariant
                advice@.len() <= cs.num_advice,
                forall|c: int| 0 <= c < advice@.len() ==> (#[trigger] advice@[c])@.len() == rows,
                forall|c: int, rr: int| 0 <= c < advice@.len() && 0 <= rr < rows ==>
                    advice@[c]@[rr] is None,
            decreases cs.num_advice - advice@.len(),
        {
            advice.push(blank_column(rows));
        }
        let mut selectors: Vec<Vec<bool>> = Vec::new();
        while selectors.len() < cs.num_selectors
            invariant
                selectors@.len() <= cs.num_selectors,
                forall|s: int| 0 <= s < selectors@.len() ==> (#[trigger] selectors@[s])@.len() == rows,
                forall|s: int, rr: int| 0 <= s < selectors@.len() && 0 <= rr < rows ==>
                    !selectors@[s]@[rr],
            decreases cs.num_selectors - selectors@.len(),
        {
            selectors.push(blank_flags(rows));
        }
        Ok(Trace { cs, rows, advice, selectors, instance, copies: Vec::new() })
    }

    /// Turns a gate on for one row. Enabling the same selector twice at the
    /// same row is a double assignment and is refused, leaving the trace
    /// unchanged.
    pub fn enable_selector(&mut self, s: Selector, row: usize) -> (r: Result<(), Error>)
        requires
            old(self).wf(),
        ensures
            final(self).wf(),
            r is Ok <==> s.index < old(self).cs.num_selectors && row < old(self).rows
                && !old(self).selector_on(s.index as int, row as int),
            s.index >= old(self).cs.num_selectors ==> r == Err::<(), Error>(Error::ConfigurationError),
            s.index < old(self).cs.num_selectors
                && (row >= old(self).rows || old(self).selector_on(s.index as int, row as int))
                ==> r == Err::<(), Error>(Error::AssignmentError),
            r is Err ==> *final(self) == *old(self),
            r is Ok ==> {
                &&& final(self).cs == old(self).cs
                &&& final(self).rows == old(self).rows
                &&& final(self).advice == old(self).advice
                &&& final(self).instance == old(self).instance
                &&& final(self).copies == old(self).copies
                &&& forall|c: int, rr: int|
                    0 <= c < old(self).cs.num_advice && 0 <= rr < old(self).rows ==>
                    #[trigger] final(self).advice_at(c, rr) == old(self).advice_at(c, rr)
                &&& forall|si: int, rr: int|
                    0 <= si < old(self).cs.num_selectors && 0 <= rr < old(self).rows ==>
                    #[trigger] final(self).selector_on(si, rr)
                        == (old(self).selector_on(si, rr) || (si == s.index && rr == row))
            },
    {
        if s.index >= self.cs.num_selectors {
            return Err(Error::ConfigurationError);
        }
        if row >= self.rows {
            return Err(Error::AssignmentError);
        }
        if self.selectors[s.index][row] {
            return Err(Error::AssignmentError);
        }
        let flags = &mut self.selectors[s.index];
        flags[row] = true;
        Ok(())
    }

    /// Fills one advice cell with a value the caller derived itself, and hands
    /// back the assigned cell. Refused for a column handle this shape never
    /// declared or a row outside the trace, leaving the trace unchanged.
    pub fn assign_advice(&mut self, col: Column, row: usize, value: Fp) -> (r: Result<
        AssignedCell,
        Error,
    >)
        requires
            old(self).wf(),
        ensures
            final(self).wf(),
            r is Ok <==> col.role == Role::Advice && col.index < old(self).cs.num_advice
                && row < old(self).rows,
            !(col.role == Role::Advice && col.index < old(self).cs.num_advice) ==>
                r == Err::<AssignedCell, Error>(Error::ConfigurationError),
            col.role == Role::Advice && col.index < old(self).cs.num_advice
                && row >= old(self).rows ==> r == Err::<AssignedCell, Error>(Error::AssignmentError),
            r is Err ==> *final(self) == *old(self),
            r matches Ok(cell) ==> {
                &&& cell == (AssignedCell { column: col, row, value })
                &&& final(self).cs == old(self).cs
                &&& final(self).rows == old(self).rows
                &&& final(self).selectors == old(self).selectors
                &&& final(self).instance == old(self).instance
                &&& final(self).copies == old(self).copies
                &&& forall|si: int, rr: int|
                    0 <= si < old(self).cs.num_selectors && 0 <= rr < old(self).rows ==>
                    #[trigger] final(self).selector_on(si, rr) == old(self).selector_on(si, rr)
                &&& forall|c: int, rr: int|
                    0 <= c < old(self).cs.num_advice && 0 <= rr < old(self).rows ==>
                    #[trigger] final(self).advice_at(c, rr)
                        == if c == col.index && rr == row { Some(value) } else {
                            old(self).advice_at(c, rr)
                        }
            },
    {
        if !(matches!(col.role, Role::Advice) && col.index < self.cs.num_advice) {
            return Err(Error::ConfigurationError);
        }
        if row >= self.rows {
            return Err(Error::AssignmentError);
        }
        let lane = &mut self.advice[col.index];
        lane[row] = Some(value);
        Ok(AssignedCell { column: col, row, value })
    }

    /// Reads a public value out of the instance column into an advice cell and
    /// records, in the same step, the copy constraint that ties the two
    /// together. The two effects are never split: a value sourced from a
    /// public input and its public binding cannot silently diverge. Refused
    /// when the instance row does not exist (an out-of-bounds instance read),
    /// leaving the trace unchanged.
    pub fn assign_advice_from_instance(&mut self, instance_row: usize, col: Column, row: usize)
        -> (r: Result<AssignedCell, Error>)
        requires
            old(self).wf(),
        ensures
            final(self).wf(),
            r is Ok <==> col.role == Role::Advice && col.index < old(self).cs.num_advice
                && row < old(self).rows && instance_row < old(self).instance@.len(),
            !(col.role == Role::Advice && col.index < old(self).cs.num_advice) ==>
                r == Err::<AssignedCell, Error>(Error::ConfigurationError),
            col.role == Role::Advice && col.index < old(self).cs.num_advice
                && (row >= old(self).rows || instance_row >= old(self).instance@.len())
                ==> r == Err::<AssignedCell, Error>(Error::AssignmentError),
            r is Err ==> *final(self) == *old(self),
            r matches Ok(cell) ==> {
                &&& cell == (AssignedCell {
                    column: col,
                    row,
                    value: old(self).instance@[instance_row as int],
                })
                &&& final(self).cs == old(self).cs
                &&& final(self).rows == old(self).rows
                &&& final(self).selectors == old(self).selectors
                &&& final(self).instance == old(self).instance
                &&& final(self).copies@ == old(self).copies@.push(
                    InstanceCopy { column: col.index, row, instance_row },
                )
                &&& forall|si: int, rr: int|
                    0 <= si < old(self).cs.num_selectors && 0 <= rr < old(self).rows ==>
                    #[trigger] final(self).selector_on(si, rr) == old(self).selector_on(si, rr)
                &&& forall|c: int, rr: int|
                    0 <= c < old(self).cs.num_advice && 0 <= rr < old(self).rows ==>
                    #[trigger] final(self).advice_at(c, rr)
                        == if c == col.index && rr == row {
                            Some(old(self).instance@[instance_row as int])
                        } else {
                            old(self).advice_at(c, rr)
                        }
            },
    {
        if !(matches!(col.role, Role::Advice) && col.index < self.cs.num_advice) {
            return Err(Error::ConfigurationError);
        }
        if row >= self.rows || instance_row >= self.instance.len() {
            return Err(Error::AssignmentError);
        }
        let value = self.instance[instance_row];
        let lane = &mut self.advice[col.index];
        lane[row] = Some(value);
        self.copies.push(InstanceCopy { column: col.index, row, instance_row });
        Ok(AssignedCell { column: col, row, value })
    }

    /// Whether a cell and an instance column are fit to be tied by a copy
    /// constraint: both columns exist, both were enabled for equality, and the
    /// cell lies inside the trace.
    pub open spec fn instance_bind_config_ok(self, cell: AssignedCell, icol: Column) -> bool {
        &&& icol.role == Role::Instance && self.cs.column_wf(icol)
        &&& self.cs.equality_enabled(icol)
        &&& cell.column.role == Role::Advice && self.cs.column_wf(cell.column)
        &&& self.cs.equality_enabled(cell.column)
        &&& cell.row < self.rows
    }

    /// Records a copy constraint between a previously assigned cell and a row
    /// of the instance column, however the cell was produced. Refused when a
    /// column involved was never enabled for equality (a configuration error)
    /// or when the row lies beyond the instance column's declared length,
    /// leaving the trace unchanged.
    pub fn constrain_instance(&mut self, cell: &AssignedCell, icol: Column, row: usize) -> (r:
        Result<(), Error>)
        requires
            old(self).wf(),
        ensures
            final(self).wf(),
            r is Ok <==> old(self).instance_bind_config_ok(*cell, icol)
                && row < old(self).instance@.len(),
            !old(self).instance_bind_config_ok(*cell, icol) ==>
                r == Err::<(), Error>(Error::ConfigurationError),
            old(self).instance_bind_config_ok(*cell, icol) && row >= old(self).instance@.len()
                ==> r == Err::<(), Error>(Error::AssignmentError),
            r is Err ==> *final(self) == *old(self),
            r is Ok ==> {
                &&& final(self).cs == old(self).cs
                &&& final(self).rows == old(self).rows
                &&& final(self).advice == old(self).advice
                &&& final(self).selectors == old(self).selectors
                &&& final(self).instance == old(self).instance
                &&& final(self).copies@ == old(self).copies@.push(
                    InstanceCopy { column: cell.column.index, row: cell.row, instance_row: row },
                )
                &&& forall|si: int, rr: int|
                    0 <= si < old(self).cs.num_selectors && 0 <= rr < old(self).rows ==>
                    #[trigger] final(self).selector_on(si, rr) == old(self).selector_on(si, rr)
                &&& forall|c: int, rr: int|
                    0 <= c < old(self).cs.num_advice && 0 <= rr < old(self).rows ==>
                    #[trigger] final(self).advice_at(c, rr) == old(self).advice_at(c, rr)
            },
    {
        let config_ok = matches!(icol.role, Role::Instance) && icol.index < self.cs.num_instance
            && self.cs.eq_instance[icol.index]
            && matches!(cell.column.role, Role::Advice) && cell.column.index < self.cs.num_advice
            && self.cs.eq_advice[cell.column.index]
            && cell.row < self.rows;
        if !config_ok {
            return Err(Error::ConfigurationError);
        }
        if row >= self.instance.len() {
            return Err(Error::AssignmentError);
        }
        self.copies.push(InstanceCopy { column: cell.column.index, row: cell.row, instance_row: row });
        Ok(())
    }
}

/// Evaluates every gate at every row and every recorded copy constraint
/// against a given public-input vector: exactly the satisfiability relation a
/// proof attests to.
pub fn check_satisfied(t: &Trace, pi: &Vec<Fp>) -> (r: bool)
    requires
        t.wf(),
    ensures
        r == t.satisfied(pi@),
{
    let mut gi: usize = 0;
    while gi < t.cs.gates.len()
        invariant
            t.wf(),
            gi <= t.cs.gates@.len(),
            forall|i: int| 0 <= i < gi ==> t.gate_satisfied(#[trigger] t.cs.gates@[i]),
        decreases t.cs.gates@.len() - gi,
    {
        let g = t.cs.gates[gi];
        let mut row: usize = 0;
        while row < t.rows
            invariant
                t.wf(),
                gi < t.cs.gates@.len(),
                g == t.cs.gates@[gi as int],
                row <= t.rows,
                forall|rr: int| 0 <= rr < row ==> t.gate_satisfied_at(g, rr),
            decreases t.rows - row,
        {
            if t.selectors[g.selector.index][row] {
                let oa = t.advice[g.a.index][row];
                let ob = t.advice[g.b.index][row];
                let oc = t.advice[g.c.index][row];
                match (oa, ob, oc) {
                    (Some(va), Some(vb), Some(vc)) => {
                        let sum = fp_add(va, vb);
                        if !fp_eq(&sum, &vc) {
                            proof {
                                assert(!t.gate_satisfied_at(g, row as int));
                                assert(!t.gate_satisfied(g));
                            }
                            return false;
                        }
                    },
                    _ => {
                        proof {
                            assert(!t.gate_satisfied_at(g, row as int));
                            assert(!t.gate_satisfied(g));
                        }
                        return false;
                    },
                }
            }
            row = row + 1;
        }
        gi = gi + 1;
    }
    let mut ci: usize = 0;
    while ci < t.copies.len()
        invariant
            t.wf(),
            ci <= t.copies@.len(),
            forall|i: int| 0 <= i < t.cs.gates@.len() ==> t.gate_satisfied(#[trigger] t.cs.gates@[i]),
            forall|i: int| 0 <= i < ci ==> t.copy_satisfied(#[trigger] t.copies@[i], pi@),
        decreases t.copies@.len() - ci,
    {
        let c = t.copies[ci];
        if c.instance_row >= pi.len() {
            return false;
        }
        match t.advice[c.column][c.row] {
            Some(v) => {
                if !fp_eq(&v, &pi[c.instance_row]) {
                    return false;
                }
            },
            None => {
                return false;
            },
        }
        ci = ci + 1;
    }
    true
}

}
