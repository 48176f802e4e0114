//! The dispatch table of derivatives of the residual Helmholtz energy with
//! respect to temperature and density, and the checks that come before it.
use vstd::prelude::*;

verus! {

/// The highest order supported in either direction.
pub const MAX_ORDER: usize = 2;

/// One entry of the dispatch table: which derivative is evaluated.
#[derive(Clone, Copy, Debug, PartialEq, Eq, Structural)]
pub enum DerivativeRule {
    /// The residual property itself.
    Value,
    /// First derivative with respect to temperature.
    TemperatureFirst,
    /// First derivative with respect to density.
    DensityFirst,
    /// Mixed second derivative in temperature and density.
    Mixed,
    /// Second derivative with respect to temperature.
    TemperatureSecond,
    /// Second derivative with respect to density.
    DensitySecond,
}

/// Why a derivative is not evaluated.
#[derive(Clone, Copy, Debug, PartialEq, Eq, Structural)]
pub enum EvaluationError {
    /// The pair of orders is not in the dispatch table.
    UnsupportedOrder { order_temperature: usize, order_density: usize },
    /// The mole-fraction array does not have one entry per component.
    CompositionLength { expected: usize, found: usize },
}

/// The dispatch table: the rule for a pair of orders, if there is one.
pub open spec fn rule_of(order_temperature: nat, order_density: nat) -> Option<DerivativeRule> {
    if order_temperature == 0 && order_density == 0 {
        Some(DerivativeRule::Value)
    } else if order_temperature == 1 && order_density == 0 {
        Some(DerivativeRule::TemperatureFirst)
    } else if order_temperature == 0 && order_density == 1 {
        Some(DerivativeRule::DensityFirst)
    } else if order_temperature == 1 && order_density == 1 {
        Some(DerivativeRule::Mixed)
    } else if order_temperature == 2 && order_density == 0 {
        Some(DerivativeRule::TemperatureSecond)
    } else if order_temperature == 0 && order_density == 2 {
        Some(DerivativeRule::DensitySecond)
    } else {
        None
    }
}

impl DerivativeRule {
    /// The orders in temperature and in density of the derivative.
    pub open spec fn orders(self) -> (nat, nat) {
        match self {
            DerivativeRule::Value => (0, 0),
            DerivativeRule::TemperatureFirst => (1, 0),
            DerivativeRule::DensityFirst => (0, 1),
            DerivativeRule::Mixed => (1, 1),
            DerivativeRule::TemperatureSecond => (2, 0),
            DerivativeRule::DensitySecond => (0, 2),
        }
    }
}

/// What looking up a pair of orders in the dispatch table gives.
pub open spec fn lookup_of(order_temperature: usize, order_density: usize) -> Result<DerivativeRule, EvaluationError> {
    match rule_of(order_temperature as nat, order_density as nat) {
        Some(rule) => Ok(rule),
        None => Err(EvaluationError::UnsupportedOrder { order_temperature, order_density }),
    }
}

/// Looks up a pair of orders in the dispatch table.
pub fn derivative_rule(order_temperature: usize, order_density: usize) -> (r: Result<DerivativeRule, EvaluationError>)
    ensures
        r == lookup_of(order_temperature, order_density),
        r is Ok <==> order_temperature + order_density <= MAX_ORDER,
{
    match (order_temperature, order_density) {
        (0, 0) => Ok(DerivativeRule::Value),
        (1, 0) => Ok(DerivativeRule::TemperatureFirst),
        (0, 1) => Ok(DerivativeRule::DensityFirst),
        (1, 1) => Ok(DerivativeRule::Mixed),
        (2, 0) => Ok(DerivativeRule::TemperatureSecond),
        (0, 2) => Ok(DerivativeRule::DensitySecond),
        _ => Err(EvaluationError::UnsupportedOrder { order_temperature, order_density }),
    }
}

/// Checks that a mole-fraction array has one entry per component.
pub fn check_composition(found: usize, expected: usize) -> (r: Result<(), EvaluationError>)
    ensures
        r == (if found == expected {
            Ok::<(), EvaluationError>(())
        } else {
            Err(EvaluationError::CompositionLength { expected, found })
        }),
{
    if found == expected {
        Ok(())
    } else {
        Err(EvaluationError::CompositionLength { expected, found })
    }
}

/// What is evaluated for a request: the composition is checked first, then
/// the orders are looked up.
pub open spec fn plan_of(
    order_temperature: usize,
    order_density: usize,
    n_fractions: usize,
    n_components: usize,
) -> Result<DerivativeRule, EvaluationError> {
    if n_fractions != n_components {
        Err(EvaluationError::CompositionLength { expected: n_components, found: n_fractions })
    } else {
        lookup_of(order_temperature, order_density)
    }
}

/// Validates a derivative request against an equation of state with
/// `n_components` components and picks its rule.
pub fn plan_evaluation(
    order_temperature: usize,
    order_density: usize,
    n_fractions: usize,
    n_components: usize,
) -> (r: Result<DerivativeRule, EvaluationError>)
    ensures
        r == plan_of(order_temperature, order_density, n_fractions, n_components),
{
    match check_composition(n_fractions, n_components) {
        Err(e) => Err(e),
        Ok(()) => derivative_rule(order_temperature, order_density),
    }
}

/// Every rule of the dispatch table is found again under its own orders,
/// and every supported pair of orders leads to a rule with those orders.
pub proof fn lemma_table_round_trip(rule: DerivativeRule, order_temperature: nat, order_density: nat)
    ensures
        rule_of(rule.orders().0, rule.orders().1) == Some(rule),
        rule_of(order_temperature, order_density) matches Some(found)
            ==> found.orders() == (order_temperature, order_density),
{
}

/// A mole-fraction array of the wrong length is rejected, whatever orders
/// are asked for.
pub proof fn lemma_composition_checked_first(
    order_temperature: usize,
    order_density: usize,
    n_fractions: usize,
    n_components: usize,
)
    requires
        n_fractions != n_components,
    ensures
        plan_of(order_temperature, order_density, n_fractions, n_components) == Err::<DerivativeRule, EvaluationError>(
            EvaluationError::CompositionLength { expected: n_components, found: n_fractions },
        ),
{
}

} // verus!
