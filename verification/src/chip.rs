//! The addition chip: the circuit shape of the relation "c equals a plus b"
//! and the witness-assignment procedure that fills one row for it.
//!
//! `configure` declares the shape once; `assign_row` fills the row and returns
//! the three assigned cells; `expose_public` binds an assigned cell to a row
//! of the public-input vector; `AddCircuit::synthesize` strings the three
//! together.

use vstd::prelude::*;
use crate::field::sum_of;
use crate::system::{AddGate, Column, ConstraintSystem, Error, Role, Selector};
use crate::witness::{AssignedCell, InstanceCopy, Trace};

verus! {

/// The declared columns of the addition circuit: three advice lanes for the
/// two summands and the derived sum, the selector that turns its gate on, and
/// the one instance column holding the public inputs.
#[derive(Clone, Copy, Debug, PartialEq, Eq, Structural)]
pub struct AddConfig {
    pub col_a: Column,
    pub col_b: Column,
    pub col_c: Column,
    pub selector: Selector,
    pub instance: Column,
}

/// The chip that owns an `AddConfig` and knows how to fill a witness for it.
#[derive(Clone, Copy, Debug, PartialEq, Eq, Structural)]
pub struct AddChip {
    pub config: AddConfig,
}

impl AddChip {
    /// A configuration fits a shape when all its columns exist in the shape
    /// with the right roles and distinct lanes, every column is enabled for
    /// equality, and the shape registered the addition gate over exactly these
    /// columns.
    pub open spec fn config_wf(cs: ConstraintSystem, cfg: AddConfig) -> bool {
        &&& cfg.col_a.role == Role::Advice && cs.column_wf(cfg.col_a)
        &&& cfg.col_b.role == Role::Advice && cs.column_wf(cfg.col_b)
        &&& cfg.col_c.role == Role::Advice && cs.column_wf(cfg.col_c)
        &&& cfg.col_a.index != cfg.col_b.index
        &&& cfg.col_a.index != cfg.col_c.index
        &&& cfg.col_b.index != cfg.col_c.index
        &&& cfg.selector.index < cs.num_selectors
        &&& cfg.instance.role == Role::Instance && cs.column_wf(cfg.instance)
        &&& cs.equality_enabled(cfg.col_a)
        &&& cs.equality_enabled(cfg.col_b)
        &&& cs.equality_enabled(cfg.col_c)
        &&& cs.equality_enabled(cfg.instance)
        &&& cs.gates@.contains(AddGate {
            selector: cfg.selector,
            a: cfg.col_a,
            b: cfg.col_b,
            c: cfg.col_c,
        })
    }

    /// Wraps a finished configuration in a chip.
    pub fn construct(config: AddConfig) -> (r: Self)
        ensures
            r.config == config,
    {
        AddChip { config }
    }

    /// Declares the addition circuit's shape: allocates three advice columns,
    /// one selector and one instance column, enables equality on all three
    /// advice columns and on the instance column, and registers the addition gate
    /// `selector * (a + b - c)`.
    pub fn configure(meta: &mut ConstraintSystem) -> (r: AddConfig)
        requires
            old(meta).wf(),
            old(meta).num_advice + 3 <= usize::MAX,
            old(meta).num_instance < usize::MAX,
            old(meta).num_selectors < usize::MAX,
        ensures
            final(meta).wf(),
            Self::config_wf(*final(meta), r),
            final(meta).num_advice == old(meta).num_advice + 3,
            final(meta).num_instance == old(meta).num_instance + 1,
            final(meta).num_selectors == old(meta).num_selectors + 1,
            final(meta).gates@ == old(meta).gates@.push(AddGate {
                selector: r.selector,
                a: r.col_a,
                b: r.col_b,
                c: r.col_c,
            }),
            r.col_a == (Column { role: Role::Advice, index: old(meta).num_advice }),
            r.col_b == (Column { role: Role::Advice, index: (old(meta).num_advice + 1) as usize }),
            r.col_c == (Column { role: Role::Advice, index: (old(meta).num_advice + 2) as usize }),
            r.selector == (Selector { index: old(meta).num_selectors }),
            r.instance == (Column { role: Role::Instance, index: old(meta).num_instance }),
    {
        let col_a = meta.advice_column();
        let col_b = meta.advice_column();
        let col_c = meta.advice_column();
        let selector = meta.selector();
        let instance = meta.instance_column();

        let ra = meta.enable_equality(col_a);
        proof { assert(ra is Ok); }
        let rb = meta.enable_equality(col_b);
        proof { assert(rb is Ok); }
        let rc = meta.enable_equality(col_c);
        proof { assert(rc is Ok); }
        let ri = meta.enable_equality(instance);
        proof { assert(ri is Ok); }

        let rg = meta.create_gate(AddGate { selector, a: col_a, b: col_b, c: col_c });
        proof {
            assert(rg is Ok);
            assert(final(meta).gates@.last() == (AddGate {
                selector,
                a: col_a,
                b: col_b,
                c: col_c,
            }));
        }

        AddConfig { col_a, col_b, col_c, selector, instance }
    }

    /// Fills the one constrained row of the trace: turns the selector on at
    /// row 0, reads public inputs 0 and 1 into the first two advice columns
    /// (each read recording its copy constraint in the same step), and derives
    /// the third column as the field sum of the two values just assigned — the
    /// sum is never supplied independently, so the addition gate holds by construction.
    ///
    /// The row is assigned as one unit: every check precedes the first write,
    /// so on an error the trace is exactly as it was.
    pub fn assign_row(&self, trace: &mut Trace) -> (r: Result<
        (AssignedCell, AssignedCell, AssignedCell),
        Error,
    >)
        requires
            old(trace).wf(),
            Self::config_wf(old(trace).cs, self.config),
        ensures
            final(trace).wf(),
            r is Ok <==> old(trace).rows >= 1
                && !old(trace).selector_on(self.config.selector.index as int, 0)
                && old(trace).instance@.len() >= 2,
            r is Err ==> r == Err::<(AssignedCell, AssignedCell, AssignedCell), Error>(
                Error::AssignmentError,
            ) && *final(trace) == *old(trace),
            r matches Ok(cells) ==> {
                &&& cells.0 == (AssignedCell {
                    column: self.config.col_a,
                    row: 0,
                    value: old(trace).instance@[0],
                })
                &&& cells.1 == (AssignedCell {
                    column: self.config.col_b,
                    row: 0,
                    value: old(trace).instance@[1],
                })
                &&& cells.2 == (AssignedCell {
                    column: self.config.col_c,
                    row: 0,
                    value: sum_of(old(trace).instance@[0], old(trace).instance@[1]),
                })
                &&& final(trace).cs == old(trace).cs
                &&& final(trace).rows == old(trace).rows
                &&& final(trace).instance == old(trace).instance
                &&& final(trace).copies@ == old(trace).copies@
                    .push(InstanceCopy { column: self.config.col_a.index, row: 0, instance_row: 0 })
                    .push(InstanceCopy { column: self.config.col_b.index, row: 0, instance_row: 1 })
                &&& forall|si: int, rr: int|
                    0 <= si < old(trace).cs.num_selectors && 0 <= rr < old(trace).rows ==>
                    #[trigger] final(trace).selector_on(si, rr) == (old(trace).selector_on(si, rr)
                        || (si == self.config.selector.index && rr == 0))
                &&& forall|c: int, rr: int|
                    0 <= c < old(trace).cs.num_advice && 0 <= rr < old(trace).rows ==>
                    #[trigger] final(trace).advice_at(c, rr) == if rr == 0 && c
                        == self.config.col_a.index {
                        Some(old(trace).instance@[0])
                    } else if rr == 0 && c == self.config.col_b.index {
                        Some(old(trace).instance@[1])
                    } else if rr == 0 && c == self.config.col_c.index {
                        Some(sum_of(old(trace).instance@[0], old(trace).instance@[1]))
                    } else {
                        old(trace).advice_at(c, rr)
                    }
            },
    {
        if trace.rows < 1 {
            return Err(Error::AssignmentError);
        }
        if trace.selectors[self.config.selector.index][0] {
            return Err(Error::AssignmentError);
        }
        if trace.instance.len() < 2 {
            return Err(Error::AssignmentError);
        }

        let rs = trace.enable_selector(self.config.selector, 0);
        proof { assert(rs is Ok); }

        let ra = trace.assign_advice_from_instance(0, self.config.col_a, 0);
        let a_cell = match ra {
            Ok(cell) => cell,
            Err(e) => {
                proof { assert(false); }
                return Err(e);
            },
        };

        let rb = trace.assign_advice_from_instance(1, self.config.col_b, 0);
        let b_cell = match rb {
            Ok(cell) => cell,
            Err(e) => {
                proof { assert(false); }
                return Err(e);
            },
        };

        let sum = crate::field::fp_add(a_cell.value, b_cell.value);
        let rc = trace.assign_advice(self.config.col_c, 0, sum);
        let c_cell = match rc {
            Ok(cell) => cell,
            Err(e) => {
                proof { assert(false); }
                return Err(e);
            },
        };

        Ok((a_cell, b_cell, c_cell))
    }

    /// Binds a previously assigned cell to a row of the public-input vector:
    /// after this call no proof built from the trace is valid unless that row
    /// of the vector equals the value the cell holds.
    pub fn expose_public(&self, trace: &mut Trace, cell: &AssignedCell, row: usize) -> (r: Result<
        (),
        Error,
    >)
        requires
            old(trace).wf(),
            Self::config_wf(old(trace).cs, self.config),
        ensures
            final(trace).wf(),
            r is Ok <==> old(trace).instance_bind_config_ok(*cell, self.config.instance)
                && row < old(trace).instance@.len(),
            !old(trace).instance_bind_config_ok(*cell, self.config.instance) ==>
                r == Err::<(), Error>(Error::ConfigurationError),
            old(trace).instance_bind_config_ok(*cell, self.config.instance)
                && row >= old(trace).instance@.len() ==> r == Err::<(), Error>(
                Error::AssignmentError,
            ),
            r is Err ==> *final(trace) == *old(trace),
            r is Ok ==> {
                &&& final(trace).cs == old(trace).cs
                &&& final(trace).rows == old(trace).rows
                &&& final(trace).advice == old(trace).advice
                &&& final(trace).selectors == old(trace).selectors
                &&& final(trace).instance == old(trace).instance
                &&& final(trace).copies@ == old(trace).copies@.push(
                    InstanceCopy { column: cell.column.index, row: cell.row, instance_row: row },
                )
                &&& forall|si: int, rr: int|
                    0 <= si < old(trace).cs.num_selectors && 0 <= rr < old(trace).rows ==>
                    #[trigger] final(trace).selector_on(si, rr) == old(trace).selector_on(si, rr)
                &&& forall|c: int, rr: int|
                    0 <= c < old(trace).cs.num_advice && 0 <= rr < old(trace).rows ==>
                    #[trigger] final(trace).advice_at(c, rr) == old(trace).advice_at(c, rr)
            },
    {
        trace.constrain_instance(cell, self.config.instance, row)
    }
}

/// The complete addition circuit: one assigned row, with the derived sum bound
/// to row 2 of the public-input vector.
#[derive(Clone, Copy, Debug, Default)]
pub struct AddCircuit {
}

impl AddCircuit {
    /// The circuit's shape carries no witness data; a copy fit for
    /// configuration is the circuit itself.
    pub fn without_witnesses(&self) -> (r: Self)
        ensures
            r == (AddCircuit {  }),
    {
        AddCircuit {}
    }

    /// Declares the circuit's shape; pure declaration, no data.
    pub fn configure(meta: &mut ConstraintSystem) -> (r: AddConfig)
        requires
            old(meta).wf(),
            old(meta).num_advice + 3 <= usize::MAX,
            old(meta).num_instance < usize::MAX,
            old(meta).num_selectors < usize::MAX,
        ensures
            final(meta).wf(),
            AddChip::config_wf(*final(meta), r),
            final(meta).num_advice == old(meta).num_advice + 3,
            final(meta).num_instance == old(meta).num_instance + 1,
            final(meta).num_selectors == old(meta).num_selectors + 1,
            final(meta).gates@ == old(meta).gates@.push(AddGate {
                selector: r.selector,
                a: r.col_a,
                b: r.col_b,
                c: r.col_c,
            }),
            r.col_a == (Column { role: Role::Advice, index: old(meta).num_advice }),
            r.col_b == (Column { role: Role::Advice, index: (old(meta).num_advice + 1) as usize }),
            r.col_c == (Column { role: Role::Advice, index: (old(meta).num_advice + 2) as usize }),
            r.selector == (Selector { index: old(meta).num_selectors }),
            r.instance == (Column { role: Role::Instance, index: old(meta).num_instance }),
    {
        AddChip::configure(meta)
    }

    /// Executes the configuration against the trace: assigns the one row and
    /// binds the derived sum cell to row 2 of the public-input vector, the
    /// only public commitment to the computed result (rows 0 and 1 were bound
    /// during assignment).
    ///
    /// Succeeds exactly when the trace is fresh enough to take the row (at
    /// least one row, selector not yet enabled) and the public-input vector
    /// has at least 3 entries; an assignment that went through but whose
    /// binding failed leaves a partly filled trace behind, which the caller
    /// discards with the failed proving attempt.
    pub fn synthesize(&self, config: AddConfig, trace: &mut Trace) -> (r: Result<(), Error>)
        requires
            old(trace).wf(),
            AddChip::config_wf(old(trace).cs, config),
        ensures
            final(trace).wf(),
            r is Ok <==> old(trace).rows >= 1
                && !old(trace).selector_on(config.selector.index as int, 0)
                && old(trace).instance@.len() >= 3,
            r is Err ==> r == Err::<(), Error>(Error::AssignmentError),
            r is Ok ==> {
                &&& final(trace).cs == old(trace).cs
                &&& final(trace).rows == old(trace).rows
                &&& final(trace).instance == old(trace).instance
                &&& final(trace).copies@ == old(trace).copies@
                    .push(InstanceCopy { column: config.col_a.index, row: 0, instance_row: 0 })
                    .push(InstanceCopy { column: config.col_b.index, row: 0, instance_row: 1 })
                    .push(InstanceCopy { column: config.col_c.index, row: 0, instance_row: 2 })
                &&& forall|si: int, rr: int|
                    0 <= si < old(trace).cs.num_selectors && 0 <= rr < old(trace).rows ==>
                    #[trigger] final(trace).selector_on(si, rr) == (old(trace).selector_on(si, rr)
                        || (si == config.selector.index && rr == 0))
                &&& forall|c: int, rr: int|
                    0 <= c < old(trace).cs.num_advice && 0 <= rr < old(trace).rows ==>
                    #[trigger] final(trace).advice_at(c, rr) == if rr == 0 && c
                        == config.col_a.index {
                        Some(old(trace).instance@[0])
                    } else if rr == 0 && c == config.col_b.index {
                        Some(old(trace).instance@[1])
                    } else if rr == 0 && c == config.col_c.index {
                        Some(sum_of(old(trace).instance@[0], old(trace).instance@[1]))
                    } else {
                        old(trace).advice_at(c, rr)
                    }
            },
    {
        let chip = AddChip::construct(config);

        let cells = match chip.assign_row(trace) {
            Ok(cells) => cells,
            Err(e) => {
                return Err(e);
            },
        };

        match chip.expose_public(trace, &cells.2, 2) {
            Ok(()) => Ok(()),
            Err(e) => {
                proof {
                    assert(e == Error::AssignmentError);
                }
                Err(e)
            },
        }
    }
}

}
