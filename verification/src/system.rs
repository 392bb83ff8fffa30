//! The declared shape of a circuit: columns, the selector, the addition gate,
//! and which columns are eligible for copy (equality) constraints.
//!
//! A `ConstraintSystem` is built once, before any witness exists, and is
//! immutable afterwards. It carries no data, only bookkeeping: how many
//! columns of each role exist, which of them may appear in a copy constraint,
//! and the registered gates.

use vstd::prelude::*;

verus! {

/// Every failure the library can surface.
#[derive(Clone, Copy, Debug, PartialEq, Eq, Structural)]
pub enum Error {
    /// An invalid column, selector or gate declaration: fatal at build time.
    ConfigurationError,
    /// A double assignment or an out-of-bounds instance read: fatal for the
    /// proving attempt, the witness must be rebuilt.
    AssignmentError,
    /// The assigned trace does not satisfy the declared gates or copy
    /// constraints: a caller logic bug, surfaced before proof generation.
    UnsatisfiedConstraint,
    /// A proof byte stream that does not decode to a proof; distinct from a
    /// rejected verification outcome.
    MalformedProof,
}

/// What a column of the trace holds.
#[derive(Clone, Copy, Debug, PartialEq, Eq, Structural)]
pub enum Role {
    /// Private witness values.
    Advice,
    /// Public values, known to prover and verifier alike.
    Instance,
}

/// A handle to one lane of the trace: a role together with the index of the
/// column among the columns of that role.
#[derive(Clone, Copy, Debug, PartialEq, Eq, Structural)]
pub struct Column {
    pub role: Role,
    pub index: usize,
}

/// A handle to one boolean-valued column that turns a gate on or off per row.
#[derive(Clone, Copy, Debug, PartialEq, Eq, Structural)]
pub struct Selector {
    pub index: usize,
}

/// The one gate shape of this library, registered under the name "add" in the
/// backend: wherever `selector` is enabled, the polynomial
/// `selector * (a + b - c)` must evaluate to the additive identity, which in a
/// field holds exactly when the value in `a` plus the value in `b` equals the
/// value in `c`. Where the selector is off, no constraint is imposed.
#[derive(Clone, Copy, Debug, PartialEq, Eq, Structural)]
pub struct AddGate {
    pub selector: Selector,
    pub a: Column,
    pub b: Column,
    pub c: Column,
}

/// The declared circuit shape.
pub struct ConstraintSystem {
    /// How many advice columns exist; an advice `Column` is valid when its
    /// index lies below this count.
    pub num_advice: usize,
    /// How many instance columns exist.
    pub num_instance: usize,
    /// How many selectors exist.
    pub num_selectors: usize,
    /// Per advice column: whether it may appear in a copy constraint.
    pub eq_advice: Vec<bool>,
    /// Per instance column: whether it may appear in a copy constraint.
    pub eq_instance: Vec<bool>,
    /// The registered gates.
    pub gates: Vec<AddGate>,
}

impl ConstraintSystem {
    /// A column handle is valid for this shape when its index lies below the
    /// count of columns of its role.
    pub open spec fn column_wf(self, c: Column) -> bool {
        match c.role {
            Role::Advice => c.index < self.num_advice,
            Role::Instance => c.index < self.num_instance,
        }
    }

    /// A gate is valid when its selector exists and its three cells are
    /// existing advice columns.
    pub open spec fn gate_wf(self, g: AddGate) -> bool {
        &&& g.selector.index < self.num_selectors
        &&& g.a.role == Role::Advice && self.column_wf(g.a)
        &&& g.b.role == Role::Advice && self.column_wf(g.b)
        &&& g.c.role == Role::Advice && self.column_wf(g.c)
    }

    /// The equality flags track the column counts and every registered gate
    /// references existing columns and selectors.
    pub open spec fn wf(self) -> bool {
        &&& self.eq_advice@.len() == self.num_advice
        &&& self.eq_instance@.len() == self.num_instance
        &&& forall|i: int| 0 <= i < self.gates@.len() ==> self.gate_wf(#[trigger] self.gates@[i])
    }

    /// Whether a valid column is enabled for copy constraints.
    pub open spec fn equality_enabled(self, c: Column) -> bool {
        match c.role {
            Role::Advice => self.eq_advice@[c.index as int],
            Role::Instance => self.eq_instance@[c.index as int],
        }
    }

    /// An empty shape: no columns, no selectors, no gates.
    pub fn new() -> (r: Self)
        ensures
            r.wf(),
            r.num_advice == 0,
            r.num_instance == 0,
            r.num_selectors == 0,
            r.gates@ =~= Seq::<AddGate>::empty(),
    {
        ConstraintSystem {
            num_advice: 0,
            num_instance: 0,
            num_selectors: 0,
            eq_advice: Vec::new(),
            eq_instance: Vec::new(),
            gates: Vec::new(),
        }
    }

    /// Allocates a fresh advice column, not yet enabled for equality.
    pub fn advice_column(&mut self) -> (c: Column)
        requires
            old(self).wf(),
            old(self).num_advice < usize::MAX,
        ensures
            final(self).wf(),
            c == (Column { role: Role::Advice, index: old(self).num_advice }),
            final(self).num_advice == old(self).num_advice + 1,
            final(self).eq_advice@ == old(self).eq_advice@.push(false),
            final(self).num_instance == old(self).num_instance,
            final(self).num_selectors == old(self).num_selectors,
            final(self).eq_instance == old(self).eq_instance,
            final(self).gates == old(self).gates,
    {
        let index = self.num_advice;
        self.num_advice = self.num_advice + 1;
        self.eq_advice.push(false);
        Column { role: Role::Advice, index }
    }

    /// Allocates a fresh instance column, not yet enabled for equality.
    pub fn instance_column(&mut self) -> (c: Column)
        requires
            old(self).wf(),
            old(self).num_instance < usize::MAX,
        ensures
            final(self).wf(),
            c == (Column { role: Role::Instance, index: old(self).num_instance }),
            final(self).num_instance == old(self).num_instance + 1,
            final(self).eq_instance@ == old(self).eq_instance@.push(false),
            final(self).num_advice == old(self).num_advice,
            final(self).num_selectors == old(self).num_selectors,
            final(self).eq_advice == old(self).eq_advice,
            final(self).gates == old(self).gates,
    {
        let index = self.num_instance;
        self.num_instance = self.num_instance + 1;
        self.eq_instance.push(false);
        Column { role: Role::Instance, index }
    }

    /// Allocates a fresh selector.
    pub fn selector(&mut self) -> (s: Selector)
        requires
            old(self).wf(),
            old(self).num_selectors < usize::MAX,
        ensures
            final(self).wf(),
            s == (Selector { index: old(self).num_selectors }),
            final(self).num_selectors == old(self).num_selectors + 1,
            final(self).num_advice == old(self).num_advice,
            final(self).num_instance == old(self).num_instance,
            final(self).eq_advice == old(self).eq_advice,
            final(self).eq_instance == old(self).eq_instance,
            final(self).gates == old(self).gates,
    {
        let index = self.num_selectors;
        self.num_selectors = self.num_selectors + 1;
        Selector { index }
    }

    /// Marks a column as eligible for copy constraints. A copy constraint may
    /// only reference a column that was enabled here first. A handle to a
    /// column this shape never declared is refused.
    pub fn enable_equality(&mut self, c: Column) -> (r: Result<(), Error>)
        requires
            old(self).wf(),
        ensures
            final(self).wf(),
            r is Ok <==> old(self).column_wf(c),
            r is Err ==> r == Err::<(), Error>(Error::ConfigurationError) && *final(self) == *old(self),
            r is Ok ==> {
                &&& final(self).equality_enabled(c)
                &&& final(self).num_advice == old(self).num_advice
                &&& final(self).num_instance == old(self).num_instance
                &&& final(self).num_selectors == old(self).num_selectors
                &&& final(self).gates == old(self).gates
                &&& forall|d: Column| old(self).column_wf(d) && d != c ==>
                    final(self).equality_enabled(d) == old(self).equality_enabled(d)
                &&& final(self).column_wf(c)
            },
    {
        match c.role {
            Role::Advice => {
                if c.index < self.num_advice {
                    let flags = &mut self.eq_advice;
                    flags[c.index] = true;
                    Ok(())
                } else {
                    Err(Error::ConfigurationError)
                }
            },
            Role::Instance => {
                if c.index < self.num_instance {
                    let flags = &mut self.eq_instance;
                    flags[c.index] = true;
                    Ok(())
                } else {
                    Err(Error::ConfigurationError)
                }
            },
        }
    }

    /// Registers a gate. A gate whose selector or columns were never declared
    /// by this shape is a dangling reference and is refused.
    pub fn create_gate(&mut self, g: AddGate) -> (r: Result<(), Error>)
        requires
            old(self).wf(),
        ensures
            final(self).wf(),
            r is Ok <==> old(self).gate_wf(g),
            r is Err ==> r == Err::<(), Error>(Error::ConfigurationError) && *final(self) == *old(self),
            r is Ok ==> {
                &&& final(self).gates@ == old(self).gates@.push(g)
                &&& final(self).num_advice == old(self).num_advice
                &&& final(self).num_instance == old(self).num_instance
                &&& final(self).num_selectors == old(self).num_selectors
                &&& final(self).eq_advice == old(self).eq_advice
                &&& final(self).eq_instance == old(self).eq_instance
            },
    {
        let ok = g.selector.index < self.num_selectors
            && matches!(g.a.role, Role::Advice) && g.a.index < self.num_advice
            && matches!(g.b.role, Role::Advice) && g.b.index < self.num_advice
            && matches!(g.c.role, Role::Advice) && g.c.index < self.num_advice;
        if ok {
            self.gates.push(g);
            Ok(())
        } else {
            Err(Error::ConfigurationError)
        }
    }
}

}
