//! Proving orchestration: `prepare` builds the configured circuit and fills
//! its witness from a public-input vector, `prove` checks satisfiability and
//! seals the trace into a proof, and `verify` checks a proof against a
//! public-input vector, accepting exactly when a witness inside it satisfies
//! every gate and copy constraint and agrees with the vector at every bound
//! instance row.
//!
//! The states of one attempt run `Configured -> Assigned -> Proved ->
//! {Accepted, Rejected}`: `prepare` covers the first two, `prove` the third,
//! `verify` the outcome. A trace that does not satisfy its constraints is
//! caught by `prove` before a proof exists — an unsatisfiable relation must
//! never be "proved".

use vstd::prelude::*;
use vstd::slice::slice_subrange;
use halo2_proofs::pasta::Fp;
use crate::chip::{AddChip, AddCircuit, AddConfig};
use crate::field::{fp_from, fp_from_repr, fp_of, fp_to_repr, repr_of, sum_of};
use crate::system::{ConstraintSystem, Error};
use crate::witness::{check_satisfied, Trace};

verus! {

/// How many rows the trace grid of one proving attempt has; the circuit
/// constrains only row 0, the rest stay unassigned with their selector off.
pub const NUM_ROWS: usize = 16;

/// The fixed public target that `some_function_in_zk` commits the sum to.
pub const TARGET_SUM: u64 = 77;

/// The public-input vectors a prepared addition witness agrees with: at least
/// the three bound rows, the first two equal to the values the witness was
/// assigned from, and the third equal to their field sum.
pub open spec fn accepted_inputs(instance: Seq<Fp>, pi: Seq<Fp>) -> bool {
    &&& pi.len() >= 3
    &&& pi[0] == instance[0]
    &&& pi[1] == instance[1]
    &&& pi[2] == sum_of(instance[0], instance[1])
}

/// A trace stands prepared over a public-input vector when it is well formed,
/// carries the vector in its instance column, and satisfies the circuit
/// against exactly those vectors it agrees with on the three bound rows.
pub open spec fn prepared(t: Trace, instance: Seq<Fp>) -> bool {
    &&& t.wf()
    &&& t.instance@ == instance
    &&& forall|pi: Seq<Fp>| #[trigger] t.satisfied(pi) <==> accepted_inputs(instance, pi)
}

/// Configures the addition circuit against a fresh shape and synthesizes its
/// witness from the given public-input vector. Succeeds exactly when the
/// vector has the three rows the circuit binds; a shorter vector fails the
/// assignment (an out-of-bounds instance read or binding), and the attempt is
/// discarded.
pub fn prepare(instance: Vec<Fp>) -> (r: Result<(AddConfig, Trace), Error>)
    ensures
        r is Ok <==> instance@.len() >= 3,
        r is Err ==> r == Err::<(AddConfig, Trace), Error>(Error::AssignmentError),
        r matches Ok(p) ==> {
            &&& prepared(p.1, instance@)
            &&& AddChip::config_wf(p.1.cs, p.0)
            &&& p.1.instance@ == instance@
        },
{
    let mut meta = ConstraintSystem::new();
    let config = AddCircuit::configure(&mut meta);
    let ghost gmeta = meta;
    let ghost ginstance = instance@;

    let mut trace = match Trace::new(meta, NUM_ROWS, instance) {
        Ok(t) => t,
        Err(e) => {
            proof {
                assert(false);
            }
            return Err(e);
        },
    };
    let ghost fresh = trace;

    let circuit = AddCircuit {  };
    match circuit.synthesize(config, &mut trace) {
        Ok(()) => {
            proof {
                lemma_prepared_after_synthesis(fresh, trace, config, ginstance);
            }
            Ok((config, trace))
        },
        Err(e) => Err(e),
    }
}

/// A freshly created trace that the addition circuit was synthesized into
/// satisfies the circuit against exactly the public-input vectors that agree
/// with its instance column on the three bound rows.
proof fn lemma_prepared_after_synthesis(
    fresh: Trace,
    t: Trace,
    config: AddConfig,
    instance: Seq<Fp>,
)
    requires
        fresh.wf(),
        t.wf(),
        fresh.instance@ == instance,
        instance.len() >= 3,
        AddChip::config_wf(fresh.cs, config),
        fresh.cs.gates@.len() == 1,
        fresh.copies@.len() == 0,
        forall|c: int, rr: int| 0 <= c < fresh.cs.num_advice && 0 <= rr < fresh.rows ==>
            #[trigger] fresh.advice_at(c, rr) is None,
        forall|s: int, rr: int| 0 <= s < fresh.cs.num_selectors && 0 <= rr < fresh.rows ==>
            !(#[trigger] fresh.selector_on(s, rr)),
        t.cs == fresh.cs,
        t.rows == fresh.rows,
        t.instance == fresh.instance,
        t.copies@ == fresh.copies@
            .push(crate::witness::InstanceCopy { column: config.col_a.index, row: 0, instance_row: 0 })
            .push(crate::witness::InstanceCopy { column: config.col_b.index, row: 0, instance_row: 1 })
            .push(crate::witness::InstanceCopy { column: config.col_c.index, row: 0, instance_row: 2 }),
        forall|si: int, rr: int| 0 <= si < fresh.cs.num_selectors && 0 <= rr < fresh.rows ==>
            #[trigger] t.selector_on(si, rr) == (fresh.selector_on(si, rr)
                || (si == config.selector.index && rr == 0)),
        forall|c: int, rr: int| 0 <= c < fresh.cs.num_advice && 0 <= rr < fresh.rows ==>
            #[trigger] t.advice_at(c, rr) == if rr == 0 && c == config.col_a.index {
                Some(instance[0])
            } else if rr == 0 && c == config.col_b.index {
                Some(instance[1])
            } else if rr == 0 && c == config.col_c.index {
                Some(sum_of(instance[0], instance[1]))
            } else {
                fresh.advice_at(c, rr)
            },
        fresh.rows >= 1,
    ensures
        prepared(t, instance),
{
    let gate = crate::system::AddGate {
        selector: config.selector,
        a: config.col_a,
        b: config.col_b,
        c: config.col_c,
    };
    assert(fresh.cs.gates@.contains(gate));
    assert(fresh.cs.gates@[0] == gate);

    let ca = crate::witness::InstanceCopy { column: config.col_a.index, row: 0, instance_row: 0 };
    let cb = crate::witness::InstanceCopy { column: config.col_b.index, row: 0, instance_row: 1 };
    let cc = crate::witness::InstanceCopy { column: config.col_c.index, row: 0, instance_row: 2 };
    assert(t.copies@.len() == 3);
    assert(t.copies@[0] == ca);
    assert(t.copies@[1] == cb);
    assert(t.copies@[2] == cc);

    assert(t.advice_at(config.col_a.index as int, 0) == Some(instance[0]));
    assert(t.advice_at(config.col_b.index as int, 0) == Some(instance[1]));
    assert(t.advice_at(config.col_c.index as int, 0) == Some(sum_of(instance[0], instance[1])));

    assert forall|pi: Seq<Fp>| #[trigger] t.satisfied(pi) <==> accepted_inputs(instance, pi) by {
        if accepted_inputs(instance, pi) {
            assert forall|i: int| 0 <= i < t.cs.gates@.len() implies t.gate_satisfied(
                #[trigger] t.cs.gates@[i],
            ) by {
                let g = t.cs.gates@[i];
                assert(g == gate);
                assert forall|r: int| 0 <= r < t.rows implies t.gate_satisfied_at(g, r) by {
                    if t.selector_on(g.selector.index as int, r) {
                        assert(r == 0);
                        assert(t.gate_values_sum(g, r));
                    }
                }
            }
            assert forall|i: int| 0 <= i < t.copies@.len() implies t.copy_satisfied(
                #[trigger] t.copies@[i],
                pi,
            ) by {
                assert(t.copy_satisfied(ca, pi));
                assert(t.copy_satisfied(cb, pi));
                assert(t.copy_satisfied(cc, pi));
            }
            assert(t.satisfied(pi));
        }
        if t.satisfied(pi) {
            assert(t.copy_satisfied(t.copies@[0], pi));
            assert(t.copy_satisfied(t.copies@[1], pi));
            assert(t.copy_satisfied(t.copies@[2], pi));
            assert(pi.len() >= 3);
            assert(pi[0] == instance[0]);
            assert(pi[1] == instance[1]);
            assert(pi[2] == sum_of(instance[0], instance[1]));
        }
    }
}

/// The two terminal outcomes of checking a proof: a rejection is a legitimate
/// negative result, not a fault.
#[derive(Clone, Copy, Debug, PartialEq, Eq, Structural)]
pub enum Outcome {
    Accepted,
    Rejected,
}

/// The sealed artifact of one successful proving attempt. Downstream
/// consumers treat it as evidence that a witness satisfying every gate and
/// copy constraint exists; nothing inside it is readable from outside this
/// module.
pub struct Proof {
    trace: Trace,
}

impl Proof {
    /// The satisfiability relation the proof attests: whether the witness
    /// sealed inside satisfies every gate and agrees with the given
    /// public-input vector at every bound instance row.
    pub closed spec fn accepts(self, pi: Seq<Fp>) -> bool {
        self.trace.satisfied(pi)
    }

    /// The public-input vector the witness inside was assigned from.
    pub closed spec fn instance_values(self) -> Seq<Fp> {
        self.trace.instance@
    }

    #[verifier::type_invariant]
    spec fn type_inv(self) -> bool {
        self.trace.wf()
    }
}

/// A proof accepts exactly the public-input vectors that agree with a given
/// vector on the three bound rows.
pub open spec fn proof_binds(p: Proof, instance: Seq<Fp>) -> bool {
    forall|pi: Seq<Fp>| #[trigger] p.accepts(pi) == accepted_inputs(instance, pi)
}

/// A proof attests exactly the satisfiability relation of a trace.
pub open spec fn proof_of(p: Proof, t: Trace) -> bool {
    forall|pi: Seq<Fp>| #[trigger] p.accepts(pi) == t.satisfied(pi)
}

/// What `verify` returns: a pure function of the proof and the public-input
/// vector alone.
pub open spec fn verify_outcome(p: Proof, pi: Seq<Fp>) -> Outcome {
    if p.accepts(pi) {
        Outcome::Accepted
    } else {
        Outcome::Rejected
    }
}

/// Checks that the assigned trace satisfies every declared gate and copy
/// constraint against the very public inputs it was assigned from, and only
/// then seals it into a proof. An unsatisfied trace is a caller logic bug and
/// is refused before any proof exists.
pub fn prove(trace: Trace) -> (r: Result<Proof, Error>)
    requires
        trace.wf(),
    ensures
        r is Ok <==> trace.satisfied(trace.instance@),
        r is Err ==> r == Err::<Proof, Error>(Error::UnsatisfiedConstraint),
        r matches Ok(p) ==> proof_of(p, trace) && p.instance_values() == trace.instance@,
{
    let sat = check_satisfied(&trace, &trace.instance);
    if sat {
        Ok(Proof { trace })
    } else {
        Err(Error::UnsatisfiedConstraint)
    }
}

/// Checks a proof against a public-input vector: `Accepted` exactly when the
/// witness sealed in the proof satisfies every gate and copy constraint and
/// agrees with the vector at every bound instance row; `Rejected` otherwise,
/// never a fault. A pure function of its two arguments.
pub fn verify(pf: &Proof, pi: &Vec<Fp>) -> (r: Outcome)
    ensures
        r == verify_outcome(*pf, pi@),
{
    proof {
        use_type_invariant(pf);
    }
    let sat = check_satisfied(&pf.trace, pi);
    if sat {
        Outcome::Accepted
    } else {
        Outcome::Rejected
    }
}

/// The backend-defined wire format of a proof artifact: one length byte, then
/// the canonical 32-byte encoding of each bound public-input value. Everything
/// the proof attests is a function of those values, so they are what travels.
pub open spec fn wire_format(bytes: Seq<u8>, instance: Seq<Fp>) -> bool {
    &&& instance.len() <= 255
    &&& bytes.len() == 1 + 32 * instance.len()
    &&& bytes[0] as nat == instance.len()
    &&& forall|i: int| 0 <= i < instance.len() ==>
        repr_of(#[trigger] instance[i]) == bytes.subrange(1 + 32 * i, 33 + 32 * i)
}

impl Proof {
    /// Serializes the proof into the wire format, to be passed byte-for-byte
    /// to whoever verifies. Refused only when the bound vector is longer than
    /// the format's one-byte length field carries.
    pub fn to_bytes(&self) -> (r: Result<Vec<u8>, Error>)
        ensures
            r is Ok <==> self.instance_values().len() <= 255,
            r is Err ==> r == Err::<Vec<u8>, Error>(Error::ConfigurationError),
            r matches Ok(bytes) ==> wire_format(bytes@, self.instance_values()),
    {
        let n = self.trace.instance.len();
        if n > 255 {
            return Err(Error::ConfigurationError);
        }
        let mut bytes: Vec<u8> = Vec::new();
        bytes.push(n as u8);
        let mut i: usize = 0;
        while i < n
            invariant
                i <= n,
                n <= 255,
                n == self.trace.instance@.len(),
                bytes@.len() == 1 + 32 * i,
                bytes@[0] as nat == n as nat,
                forall|j: int| 0 <= j < i ==>
                    repr_of(#[trigger] self.trace.instance@[j])
                        == bytes@.subrange(1 + 32 * j, 33 + 32 * j),
            decreases n - i,
        {
            let repr = fp_to_repr(&self.trace.instance[i]);
            let ghost prev = bytes@;
            let mut k: usize = 0;
            while k < 32
                invariant
                    k <= 32,
                    repr@.len() == 32,
                    bytes@ == prev + repr@.subrange(0, k as int),
                decreases 32 - k,
            {
                bytes.push(repr[k]);
                proof {
                    assert(bytes@ =~= prev + repr@.subrange(0, k + 1));
                }
                k = k + 1;
            }
            proof {
                assert(bytes@ == prev + repr@);
                assert forall|j: int| 0 <= j < i + 1 implies
                    repr_of(#[trigger] self.trace.instance@[j])
                        == bytes@.subrange(1 + 32 * j, 33 + 32 * j) by {
                    if j < i {
                        assert(bytes@.subrange(1 + 32 * j, 33 + 32 * j)
                            =~= prev.subrange(1 + 32 * j, 33 + 32 * j));
                    } else {
                        assert(bytes@.subrange(1 + 32 * j, 33 + 32 * j) =~= repr@);
                    }
                }
            }
            i = i + 1;
        }
        Ok(bytes)
    }

    /// Deserializes a wire-format artifact back into a proof, rebuilding and
    /// re-checking the witness it commits to. A byte stream that is not the
    /// wire format of a provable public-input vector — truncated, of the wrong
    /// length, holding a non-canonical encoding, or committing to values whose
    /// third entry is not the field sum of the first two — is refused as
    /// `MalformedProof`: a fault, distinct from a rejected verification.
    pub fn from_bytes(bytes: &Vec<u8>) -> (r: Result<Proof, Error>)
        ensures
            r is Err ==> r == Err::<Proof, Error>(Error::MalformedProof),
            r matches Ok(p) ==> (exists|instance: Seq<Fp>|
                #[trigger] wire_format(bytes@, instance) && proof_binds(p, instance)
                    && p.instance_values() == instance && instance.len() >= 3
                    && instance[2] == sum_of(instance[0], instance[1])),
            forall|instance: Seq<Fp>|
                #[trigger] wire_format(bytes@, instance) && instance.len() >= 3
                    && instance[2] == sum_of(instance[0], instance[1]) ==> r is Ok,
    {
        if bytes.len() == 0 {
            return Err(Error::MalformedProof);
        }
        let n = bytes[0] as usize;
        if bytes.len() != 1 + 32 * n {
            return Err(Error::MalformedProof);
        }
        if n < 3 {
            return Err(Error::MalformedProof);
        }
        let mut vals: Vec<Fp> = Vec::new();
        let mut i: usize = 0;
        while i < n
            invariant
                i <= n,
                3 <= n <= 255,
                n == bytes@[0] as usize,
                bytes@.len() == 1 + 32 * n,
                vals@.len() == i,
                forall|j: int| 0 <= j < i ==>
                    repr_of(#[trigger] vals@[j]) == bytes@.subrange(1 + 32 * j, 33 + 32 * j),
                forall|f: Fp, j: int|
                    0 <= j < i && repr_of(f) == bytes@.subrange(1 + 32 * j, 33 + 32 * j)
                        ==> f == vals@[j],
            decreases n - i,
        {
            let chunk = slice_subrange(bytes.as_slice(), 1 + 32 * i, 33 + 32 * i);
            match fp_from_repr(chunk) {
                Some(f) => {
                    vals.push(f);
                },
                None => {
                    proof {
                        assert forall|instance: Seq<Fp>| #[trigger] wire_format(bytes@, instance)
                            implies false by {
                            assert(repr_of(instance[i as int]) == chunk@);
                        }
                    }
                    return Err(Error::MalformedProof);
                },
            }
            i = i + 1;
        }
        let ghost gvals = vals@;

        let trace = match prepare(vals) {
            Ok(p) => p.1,
            Err(_) => {
                proof {
                    assert(false);
                }
                return Err(Error::MalformedProof);
            },
        };

        match prove(trace) {
            Ok(p) => {
                proof {
                    assert(wire_format(bytes@, gvals));
                    assert(trace.satisfied(trace.instance@));
                    assert(accepted_inputs(gvals, gvals));
                    assert forall|pi: Seq<Fp>| #[trigger] p.accepts(pi)
                        == accepted_inputs(gvals, pi) by {
                        assert(p.accepts(pi) == trace.satisfied(pi));
                    }
                }
                Ok(p)
            },
            Err(_) => {
                proof {
                    assert(!accepted_inputs(gvals, gvals));
                    assert forall|instance: Seq<Fp>|
                        #[trigger] wire_format(bytes@, instance) && instance.len() >= 3
                            && instance[2] == sum_of(instance[0], instance[1])
                        implies false by {
                        assert(instance.len() == n);
                        assert forall|j: int| 0 <= j < n implies instance[j] == gvals[j] by {
                            assert(repr_of(instance[j])
                                == bytes@.subrange(1 + 32 * j, 33 + 32 * j));
                        }
                        assert(instance =~= gvals);
                    }
                }
                Err(Error::MalformedProof)
            },
        }
    }
}

/// Builds the circuit data and a filled witness for two small summands, with
/// the public-input vector `[a, b, TARGET_SUM]`: the third row commits the
/// result to the fixed target, so proving succeeds exactly when the two
/// summands add up to it in the field.
pub fn some_function_in_zk(a_inp: u64, b_inp: u64) -> (r: Result<(AddConfig, Trace), Error>)
    ensures
        r is Ok,
        r matches Ok(p) ==> {
            &&& prepared(p.1, seq![fp_of(a_inp), fp_of(b_inp), fp_of(TARGET_SUM)])
            &&& AddChip::config_wf(p.1.cs, p.0)
        },
{
    let mut instance: Vec<Fp> = Vec::new();
    instance.push(fp_from(a_inp));
    instance.push(fp_from(b_inp));
    instance.push(fp_from(TARGET_SUM));
    proof {
        assert(instance@ =~= seq![fp_of(a_inp), fp_of(b_inp), fp_of(TARGET_SUM)]);
    }
    prepare(instance)
}

}
