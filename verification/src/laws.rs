//! The library-wide guarantees, each stated over the spec-level models that
//! the executable functions' contracts speak of and proved once and for all.

use vstd::prelude::*;
use halo2_proofs::pasta::Fp;
use crate::backend::{accepted_inputs, prepared, proof_of, verify_outcome, Outcome, Proof};
use crate::field::sum_of;
use crate::witness::Trace;

verus! {

/// For all field values `a` and `b`: a witness prepared from public inputs
/// `[a, b, a + b]` (the derived sum exposed at instance row 2) satisfies the
/// circuit against those same inputs — so `prove` succeeds on it and `verify`
/// accepts the inputs it was assigned from.
pub proof fn lemma_sum_inputs_accepted(t: Trace, pi: Seq<Fp>)
    requires
        prepared(t, pi),
        pi.len() >= 3,
        pi[2] == sum_of(pi[0], pi[1]),
    ensures
        t.satisfied(pi),
{
}

/// For all field values `a`, `b` and any `c` other than `a + b`: a witness
/// prepared from public inputs `[a, b, c]` does not satisfy the circuit, so
/// `prove` refuses it with `UnsatisfiedConstraint` before any proof exists —
/// it can never silently turn into an acceptable proof.
pub proof fn lemma_tampered_inputs_unsatisfied(t: Trace, pi: Seq<Fp>)
    requires
        prepared(t, pi),
        pi.len() >= 3,
        pi[2] != sum_of(pi[0], pi[1]),
    ensures
        !t.satisfied(pi),
{
}

/// A proof built from a prepared witness is rejected as soon as the supplied
/// public-input vector differs anywhere from the vector that was accepted —
/// even if only row 2, the derived sum, changes.
pub proof fn lemma_changed_inputs_rejected(
    p: Proof,
    t: Trace,
    instance: Seq<Fp>,
    pi1: Seq<Fp>,
    pi2: Seq<Fp>,
)
    requires
        proof_of(p, t),
        prepared(t, instance),
        verify_outcome(p, pi1) == Outcome::Accepted,
        pi1.len() == 3,
        pi2.len() == 3,
        pi2 != pi1,
    ensures
        verify_outcome(p, pi2) == Outcome::Rejected,
{
    assert(p.accepts(pi1));
    assert(t.satisfied(pi1));
    assert(accepted_inputs(instance, pi1));
    if p.accepts(pi2) {
        assert(t.satisfied(pi2));
        assert(accepted_inputs(instance, pi2));
        assert(pi2 =~= pi1);
        assert(false);
    }
}

/// Verification is idempotent: its outcome is a pure function of the proof
/// and the public-input vector, so any two outcomes that `verify`'s contract
/// allows for identical arguments are the same outcome.
pub proof fn lemma_verify_idempotent(p: Proof, pi: Seq<Fp>, r1: Outcome, r2: Outcome)
    requires
        r1 == verify_outcome(p, pi),
        r2 == verify_outcome(p, pi),
    ensures
        r1 == r2,
{
}

}
