//! The small selectors that callers pass across the boundary: the phase hint
//! of a state and the contribution of a pressure.
use vstd::prelude::*;
use crate::text::str_equals;

verus! {

/// Which density root a state built from temperature and pressure starts from.
#[derive(Clone, Copy, Debug, PartialEq, Eq, Structural)]
pub enum PhaseHint {
    /// Start from a liquid-like density.
    Liquid,
    /// Start from a vapor-like density.
    Vapor,
    /// Search without a preferred root.
    Unconstrained,
}

/// The hint that a phase word gives: `liquid` and `vapor` exactly, anything
/// else gives no hint.
pub open spec fn phase_of(word: Seq<char>) -> PhaseHint {
    if word == "liquid"@ {
        PhaseHint::Liquid
    } else if word == "vapor"@ {
        PhaseHint::Vapor
    } else {
        PhaseHint::Unconstrained
    }
}

/// Reads a phase word.
pub fn phase_from_word(word: &str) -> (r: PhaseHint)
    ensures
        r == phase_of(word@),
{
    if str_equals(word, "liquid") {
        PhaseHint::Liquid
    } else if str_equals(word, "vapor") {
        PhaseHint::Vapor
    } else {
        PhaseHint::Unconstrained
    }
}

/// Which part of a property is asked for.
#[derive(Clone, Copy, Debug, PartialEq, Eq, Structural)]
pub enum ContributionKind {
    IdealGas,
    Residual,
    Total,
}

/// The contribution that a numeric selector stands for: 0 the ideal gas,
/// 1 the residual part, any other value the total.
pub open spec fn contribution_of(selector: usize) -> ContributionKind {
    if selector == 0 {
        ContributionKind::IdealGas
    } else if selector == 1 {
        ContributionKind::Residual
    } else {
        ContributionKind::Total
    }
}

/// Reads a numeric contribution selector.
pub fn contribution_from_selector(selector: usize) -> (r: ContributionKind)
    ensures
        r == contribution_of(selector),
{
    match selector {
        0 => ContributionKind::IdealGas,
        1 => ContributionKind::Residual,
        _ => ContributionKind::Total,
    }
}

} // verus!
