//! The checks made before a state is built from temperature and pressure.
use vstd::prelude::*;
use crate::selectors::{phase_from_word, phase_of, PhaseHint};

verus! {

/// Why a request for a state is refused before any density is searched.
#[derive(Clone, Copy, Debug, PartialEq, Eq, Structural)]
pub enum StateError {
    /// The mole-number array does not have one entry per component.
    MoleNumberLength { expected: usize, found: usize },
}

/// What a request for a state at given temperature and pressure resolves to
/// before any density is searched: the count of mole numbers is checked,
/// then the phase word is read.
pub open spec fn npt_request_of(n_moles: usize, n_components: usize, phase: Seq<char>) -> Result<PhaseHint, StateError> {
    if n_moles != n_components {
        Err(StateError::MoleNumberLength { expected: n_components, found: n_moles })
    } else {
        Ok(phase_of(phase))
    }
}

/// Validates a request for a state at given temperature and pressure with
/// `n_moles` mole numbers, against an equation of state with `n_components`
/// components, and reads its phase word.
pub fn prepare_npt(n_moles: usize, n_components: usize, phase: &str) -> (r: Result<PhaseHint, StateError>)
    ensures
        r == npt_request_of(n_moles, n_components, phase@),
{
    if n_moles != n_components {
        Err(StateError::MoleNumberLength { expected: n_components, found: n_moles })
    } else {
        Ok(phase_from_word(phase))
    }
}

} // verus!
