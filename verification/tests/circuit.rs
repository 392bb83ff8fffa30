use addgate::backend::{prepare, prove, some_function_in_zk, verify, Outcome};
use addgate::chip::{AddChip, AddCircuit};
use addgate::system::{Column, ConstraintSystem, Error, Role};
use addgate::witness::Trace;
use halo2_proofs::pasta::Fp;

#[test]
fn add_example() {
    let a = Fp::from(2);
    let b = Fp::from(75);
    let out = Fp::from(77);

    let public_input = vec![a, b, out];

    let (_config, trace) = prepare(public_input.clone()).unwrap();
    let proof = prove(trace).unwrap();
    assert!(matches!(verify(&proof, &public_input), Outcome::Accepted));
}

#[test]
fn sum_scenario_accepted() {
    let public_input = vec![Fp::from(2), Fp::from(75), Fp::from(77)];
    let (_config, trace) = prepare(public_input.clone()).unwrap();
    let proof = prove(trace).unwrap();
    assert_eq!(verify(&proof, &public_input), Outcome::Accepted);
}

#[test]
fn tampered_sum_fails_proving() {
    let public_input = vec![Fp::from(2), Fp::from(75), Fp::from(78)];
    let (_config, trace) = prepare(public_input).unwrap();
    assert!(matches!(prove(trace), Err(Error::UnsatisfiedConstraint)));
}

#[test]
fn short_public_inputs_fail_assignment() {
    let public_input = vec![Fp::from(2), Fp::from(75)];
    assert!(matches!(prepare(public_input), Err(Error::AssignmentError)));
}

#[test]
fn empty_public_inputs_fail_assignment() {
    assert!(matches!(prepare(Vec::new()), Err(Error::AssignmentError)));
}

#[test]
fn verify_is_idempotent() {
    let public_input = vec![Fp::from(2), Fp::from(75), Fp::from(77)];
    let (_config, trace) = prepare(public_input.clone()).unwrap();
    let proof = prove(trace).unwrap();
    let first = verify(&proof, &public_input);
    let second = verify(&proof, &public_input);
    assert_eq!(first, second);
    assert_eq!(first, Outcome::Accepted);
}

#[test]
fn changed_sum_row_rejected() {
    let proving_inputs = vec![Fp::from(2), Fp::from(75), Fp::from(77)];
    let (_config, trace) = prepare(proving_inputs.clone()).unwrap();
    let proof = prove(trace).unwrap();
    assert_eq!(verify(&proof, &proving_inputs), Outcome::Accepted);

    let tampered = vec![Fp::from(2), Fp::from(75), Fp::from(78)];
    assert_eq!(verify(&proof, &tampered), Outcome::Rejected);
}

#[test]
fn changed_summand_row_rejected() {
    let proving_inputs = vec![Fp::from(2), Fp::from(75), Fp::from(77)];
    let (_config, trace) = prepare(proving_inputs).unwrap();
    let proof = prove(trace).unwrap();

    let tampered = vec![Fp::from(3), Fp::from(75), Fp::from(77)];
    assert_eq!(verify(&proof, &tampered), Outcome::Rejected);
}

#[test]
fn shorter_vector_at_verification_rejected() {
    let proving_inputs = vec![Fp::from(2), Fp::from(75), Fp::from(77)];
    let (_config, trace) = prepare(proving_inputs).unwrap();
    let proof = prove(trace).unwrap();

    let missing_sum_row = vec![Fp::from(2), Fp::from(75)];
    assert_eq!(verify(&proof, &missing_sum_row), Outcome::Rejected);
}

#[test]
fn target_sum_roundtrip() {
    let (_config, trace) = some_function_in_zk(2, 75).unwrap();
    let proof = prove(trace).unwrap();
    let public_input = vec![Fp::from(2), Fp::from(75), Fp::from(77)];
    assert_eq!(verify(&proof, &public_input), Outcome::Accepted);
}

#[test]
fn target_sum_missed_fails_proving() {
    let (_config, trace) = some_function_in_zk(3, 75).unwrap();
    assert!(matches!(prove(trace), Err(Error::UnsatisfiedConstraint)));
}

#[test]
fn undeclared_column_is_configuration_error() {
    let mut meta = ConstraintSystem::new();
    let bogus = Column { role: Role::Advice, index: 0 };
    assert!(matches!(meta.enable_equality(bogus), Err(Error::ConfigurationError)));
}

#[test]
fn double_selector_enable_is_assignment_error() {
    let mut meta = ConstraintSystem::new();
    let config = AddCircuit::configure(&mut meta);
    let chip = AddChip::construct(config);
    let instance = vec![Fp::from(2), Fp::from(75), Fp::from(77)];
    let mut trace = Trace::new(meta, 16, instance).unwrap();

    assert!(chip.assign_row(&mut trace).is_ok());
    assert!(matches!(chip.assign_row(&mut trace), Err(Error::AssignmentError)));
}

#[test]
fn binding_without_equality_is_configuration_error() {
    let mut meta = ConstraintSystem::new();
    let config = AddCircuit::configure(&mut meta);
    let chip = AddChip::construct(config);

    // A second, private advice column that is never enabled for equality.
    let mut other_meta = ConstraintSystem::new();
    let loose = other_meta.advice_column();
    let _ = AddCircuit::configure(&mut other_meta);
    let loose_instance = vec![Fp::from(5), Fp::from(6), Fp::from(11)];
    let mut loose_trace = Trace::new(other_meta, 16, loose_instance).unwrap();
    let loose_cell = loose_trace.assign_advice(loose, 0, Fp::from(9)).unwrap();
    assert!(matches!(
        loose_trace.constrain_instance(&loose_cell, Column { role: Role::Instance, index: 0 }, 0),
        Err(Error::ConfigurationError)
    ));

    // The configured chip itself binds fine.
    let instance = vec![Fp::from(2), Fp::from(75), Fp::from(77)];
    let mut trace = Trace::new(meta, 16, instance).unwrap();
    let (_a, _b, c) = chip.assign_row(&mut trace).unwrap();
    assert!(chip.expose_public(&mut trace, &c, 2).is_ok());
}

#[test]
fn expose_out_of_bounds_row_is_assignment_error() {
    let mut meta = ConstraintSystem::new();
    let config = AddCircuit::configure(&mut meta);
    let chip = AddChip::construct(config);
    let instance = vec![Fp::from(2), Fp::from(75)];
    let mut trace = Trace::new(meta, 16, instance).unwrap();

    let (_a, _b, c) = chip.assign_row(&mut trace).unwrap();
    assert!(matches!(
        chip.expose_public(&mut trace, &c, 2),
        Err(Error::AssignmentError)
    ));
}

#[test]
fn assigned_cells_carry_the_derived_sum() {
    let mut meta = ConstraintSystem::new();
    let config = AddCircuit::configure(&mut meta);
    let chip = AddChip::construct(config);
    let instance = vec![Fp::from(2), Fp::from(75), Fp::from(77)];
    let mut trace = Trace::new(meta, 16, instance).unwrap();

    let (a, b, c) = chip.assign_row(&mut trace).unwrap();
    assert_eq!(a.value, Fp::from(2));
    assert_eq!(b.value, Fp::from(75));
    assert_eq!(c.value, Fp::from(77));
}
