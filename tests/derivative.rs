use feos_c::derivative::{
    check_composition, derivative_rule, plan_evaluation, DerivativeRule, EvaluationError, MAX_ORDER,
};

#[test]
fn table_entries() {
    assert_eq!(derivative_rule(0, 0), Ok(DerivativeRule::Value));
    assert_eq!(derivative_rule(1, 0), Ok(DerivativeRule::TemperatureFirst));
    assert_eq!(derivative_rule(0, 1), Ok(DerivativeRule::DensityFirst));
    assert_eq!(derivative_rule(1, 1), Ok(DerivativeRule::Mixed));
    assert_eq!(derivative_rule(2, 0), Ok(DerivativeRule::TemperatureSecond));
    assert_eq!(derivative_rule(0, 2), Ok(DerivativeRule::DensitySecond));
    assert_eq!(MAX_ORDER, 2);
}

#[test]
fn third_order_in_temperature_is_unimplemented() {
    assert_eq!(
        derivative_rule(3, 0),
        Err(EvaluationError::UnsupportedOrder { order_temperature: 3, order_density: 0 })
    );
}

#[test]
fn other_orders_are_unimplemented() {
    for (t, d) in [(2, 1), (1, 2), (2, 2), (0, 3), (usize::MAX, 0)] {
        assert_eq!(
            derivative_rule(t, d),
            Err(EvaluationError::UnsupportedOrder { order_temperature: t, order_density: d })
        );
    }
}

#[test]
fn composition_length() {
    assert_eq!(check_composition(1, 1), Ok(()));
    assert_eq!(check_composition(0, 0), Ok(()));
    assert_eq!(
        check_composition(2, 1),
        Err(EvaluationError::CompositionLength { expected: 1, found: 2 })
    );
}

#[test]
fn wrong_composition_rejected_before_orders() {
    assert_eq!(
        plan_evaluation(3, 0, 2, 1),
        Err(EvaluationError::CompositionLength { expected: 1, found: 2 })
    );
    assert_eq!(
        plan_evaluation(0, 1, 0, 3),
        Err(EvaluationError::CompositionLength { expected: 3, found: 0 })
    );
    assert_eq!(plan_evaluation(1, 1, 2, 2), Ok(DerivativeRule::Mixed));
    assert_eq!(
        plan_evaluation(3, 0, 1, 1),
        Err(EvaluationError::UnsupportedOrder { order_temperature: 3, order_density: 0 })
    );
}
