//! Selection of the residual model that a configuration names.
use vstd::prelude::*;
use crate::text::{lower_of, lowercase, str_equals};

verus! {

/// The residual models that an equation of state can be built from.
#[derive(Clone, Copy, Debug, PartialEq, Eq, Structural)]
pub enum ResidualModelKind {
    PcSaft,
}

/// The model that an already lower-cased name stands for: the aliases of
/// PC-SAFT are `pc-saft` and `pcsaft`, and no other name is known.
pub open spec fn model_of_lowercase(name: Seq<char>) -> Option<ResidualModelKind> {
    if name == "pc-saft"@ || name == "pcsaft"@ {
        Some(ResidualModelKind::PcSaft)
    } else {
        None
    }
}

/// The model that a model name stands for, compared without regard to case.
pub open spec fn model_of_name(name: Seq<char>) -> Option<ResidualModelKind> {
    model_of_lowercase(lower_of(name))
}

/// Looks up an already lower-cased model name among the known aliases.
pub fn model_from_lowercase(name: &str) -> (r: Option<ResidualModelKind>)
    ensures
        r == model_of_lowercase(name@),
{
    if str_equals(name, "pc-saft") || str_equals(name, "pcsaft") {
        Some(ResidualModelKind::PcSaft)
    } else {
        None
    }
}

/// Looks up a model name, lower-casing it first.
pub fn model_from_name(name: &str) -> (r: Option<ResidualModelKind>)
    ensures
        r == model_of_name(name@),
{
    let lower = lowercase(name);
    model_from_lowercase(lower.as_str())
}

} // verus!
