use feos_c::selectors::PhaseHint;
use feos_c::state::{prepare_npt, StateError};

#[test]
fn npt_request_reads_phase() {
    assert_eq!(prepare_npt(1, 1, ""), Ok(PhaseHint::Unconstrained));
    assert_eq!(prepare_npt(2, 2, "liquid"), Ok(PhaseHint::Liquid));
    assert_eq!(prepare_npt(2, 2, "vapor"), Ok(PhaseHint::Vapor));
}

#[test]
fn npt_request_checks_mole_numbers() {
    assert_eq!(
        prepare_npt(2, 1, "liquid"),
        Err(StateError::MoleNumberLength { expected: 1, found: 2 })
    );
    assert_eq!(
        prepare_npt(0, 1, ""),
        Err(StateError::MoleNumberLength { expected: 1, found: 0 })
    );
}
