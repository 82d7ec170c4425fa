use cutup::PortfolioAllocator;
use nalgebra::DMatrix;
use tsmc_rust::allocation::{
    densify_weights, plan_allocation, resolve_strategy, strategy_label, AllocationPlan, Strategy,
};
use tsmc_rust::json::JsonValue;

fn number(x: f64) -> JsonValue {
    JsonValue::Number(x.to_bits())
}

fn series(values: &[f64]) -> JsonValue {
    JsonValue::Array(values.iter().map(|x| number(*x)).collect())
}

fn body(prices: Vec<JsonValue>, strategy: Option<&str>) -> JsonValue {
    let mut fields = vec![("prices".to_string(), JsonValue::Array(prices))];
    if let Some(s) = strategy {
        fields.push(("strategy".to_string(), JsonValue::Text(s.to_string())));
    }
    JsonValue::Object(fields)
}

/// Runs a plan the way the unverified shell does: the matrix goes to the
/// external optimizer, and its sparse answer comes back through the verified
/// densification.
fn run_plan(plan: &AllocationPlan) -> Vec<f64> {
    let rows = plan.matrix.rows();
    let cols = plan.matrix.cols();
    let flat: Vec<f64> = plan
        .matrix
        .row_major()
        .iter()
        .map(|b| f64::from_bits(*b))
        .collect();
    let allocator = PortfolioAllocator::new(DMatrix::from_row_slice(rows, cols, &flat));
    let sparse = match plan.strategy {
        Strategy::EqualWeight => allocator.ew_allocation(),
        Strategy::Hrp => allocator.hrp_allocation(),
        Strategy::Mvo => match &plan.mvo {
            Some(cfg) => allocator.mvo_allocation_with_config(&cutup::MvoConfig {
                regularization: cfg.regularization.map(f64::from_bits),
                shrinkage: cfg.shrinkage.map(f64::from_bits),
            }),
            None => allocator.mvo_allocation(),
        },
    };
    let pairs: Vec<(usize, u64)> = sparse.into_iter().map(|(i, w)| (i, w.to_bits())).collect();
    densify_weights(&pairs, cols)
        .iter()
        .map(|b| f64::from_bits(*b))
        .collect()
}

#[test]
fn it_allocates_equal_weight() {
    let v = body(
        vec![series(&[100.0, 101.0, 102.0]), series(&[200.0, 199.0, 198.0])],
        Some("ew"),
    );
    let plan = plan_allocation(&v).unwrap();
    let w = run_plan(&plan);
    assert_eq!(w.len(), 2);
    assert!((w.iter().sum::<f64>() - 1.0).abs() < 1e-6);
}

#[test]
fn it_allocates_mvo() {
    let v = body(
        vec![series(&[100.0, 101.0, 102.0]), series(&[90.0, 91.0, 92.0])],
        Some("mvo"),
    );
    let plan = plan_allocation(&v).unwrap();
    let w = run_plan(&plan);
    assert_eq!(w.len(), 2);
    assert!(w.iter().all(|x| x.is_finite()));
}

#[test]
fn strategy_names_resolve_case_insensitively() {
    assert_eq!(resolve_strategy("ew"), Strategy::EqualWeight);
    assert_eq!(resolve_strategy("EW"), Strategy::EqualWeight);
    assert_eq!(resolve_strategy("Equal"), Strategy::EqualWeight);
    assert_eq!(resolve_strategy("hrp"), Strategy::Hrp);
    assert_eq!(resolve_strategy("HRP"), Strategy::Hrp);
    assert_eq!(resolve_strategy("mvo"), Strategy::Mvo);
}

#[test]
fn unrecognized_strategy_falls_through_to_mvo() {
    assert_eq!(resolve_strategy("momentum"), Strategy::Mvo);
    assert_eq!(resolve_strategy(""), Strategy::Mvo);
}

#[test]
fn absent_strategy_defaults_to_mvo() {
    let v = body(vec![series(&[1.0, 2.0]), series(&[3.0, 4.0])], None);
    let plan = plan_allocation(&v).unwrap();
    assert_eq!(plan.strategy, Strategy::Mvo);
    assert!(plan.mvo.is_none());
}

#[test]
fn mvo_overrides_are_carried_through() {
    let mvo_cfg = JsonValue::Object(vec![
        ("regularization".to_string(), number(1e-4)),
        ("shrinkage".to_string(), number(0.5)),
    ]);
    let v = JsonValue::Object(vec![
        (
            "prices".to_string(),
            JsonValue::Array(vec![series(&[1.0, 2.0]), series(&[3.0, 4.0])]),
        ),
        ("mvo".to_string(), mvo_cfg),
    ]);
    let plan = plan_allocation(&v).unwrap();
    let cfg = plan.mvo.unwrap();
    assert_eq!(cfg.regularization.map(f64::from_bits), Some(1e-4));
    assert_eq!(cfg.shrinkage.map(f64::from_bits), Some(0.5));
}

#[test]
fn non_string_strategy_defaults_to_mvo() {
    let v = JsonValue::Object(vec![
        (
            "prices".to_string(),
            JsonValue::Array(vec![series(&[1.0, 2.0]), series(&[3.0, 4.0])]),
        ),
        ("strategy".to_string(), number(7.0)),
    ]);
    let plan = plan_allocation(&v).unwrap();
    assert_eq!(plan.strategy, Strategy::Mvo);
    assert_eq!(strategy_label(&v), "mvo");
}

#[test]
fn non_object_mvo_field_gives_empty_overrides() {
    let v = JsonValue::Object(vec![
        (
            "prices".to_string(),
            JsonValue::Array(vec![series(&[1.0, 2.0]), series(&[3.0, 4.0])]),
        ),
        ("mvo".to_string(), JsonValue::Bool(true)),
    ]);
    let plan = plan_allocation(&v).unwrap();
    let cfg = plan.mvo.unwrap();
    assert!(cfg.regularization.is_none());
    assert!(cfg.shrinkage.is_none());
}

#[test]
fn strategy_label_echoes_request_or_default() {
    let with_strategy = body(vec![series(&[1.0])], Some("HRP"));
    assert_eq!(strategy_label(&with_strategy), "HRP");
    let without_strategy = body(vec![series(&[1.0])], None);
    assert_eq!(strategy_label(&without_strategy), "mvo");
}

#[test]
fn out_of_range_optimizer_index_is_dropped() {
    let pairs: Vec<(usize, u64)> = vec![(1, 0.25f64.to_bits()), (7, 0.75f64.to_bits())];
    let dense = densify_weights(&pairs, 3);
    assert_eq!(dense.len(), 3);
    assert_eq!(f64::from_bits(dense[0]), 0.0);
    assert_eq!(f64::from_bits(dense[1]), 0.25);
    assert_eq!(f64::from_bits(dense[2]), 0.0);
}

#[test]
fn later_pair_for_same_index_wins() {
    let pairs: Vec<(usize, u64)> = vec![(0, 0.25f64.to_bits()), (0, 0.75f64.to_bits())];
    let dense = densify_weights(&pairs, 1);
    assert_eq!(f64::from_bits(dense[0]), 0.75);
}
