use accounting_formulas::{
    break_even_point, Cost, CostAnalysis, CostClassification, CostError, CostObject, CostType,
    DomainError, Ratio,
};

fn product(name: &str, lines: &[(i64, &str, &str)]) -> CostObject {
    let mut co = CostObject::new(name.to_string(), 1, 0);
    for (amount, ty, class) in lines {
        co.add_cost(Cost::new(*amount, ty, class).unwrap());
    }
    co
}

#[test]
fn spelling_is_case_insensitive() {
    let cost = Cost::new(42, "FiXeD", "InDiReCt").unwrap();
    assert_eq!(cost.amount, 42);
    assert_eq!(cost.cost_type, CostType::Fixed);
    assert_eq!(cost.classification, CostClassification::Indirect);
    let cost = Cost::new(-7, "VARIABLE", "Direct").unwrap();
    assert_eq!(cost.amount, -7);
    assert_eq!(cost.cost_type, CostType::Variable);
    assert_eq!(cost.classification, CostClassification::Direct);
}

#[test]
fn each_error_kind_is_reported() {
    assert_eq!(Cost::new(1, "fixd", "direct"), Err(CostError::InvalidCostType));
    assert_eq!(Cost::new(1, "fixed", "indirectly"), Err(CostError::InvalidClassification));
    assert_eq!(Cost::new(1, " fixed", "direct"), Err(CostError::InvalidCostType));
    assert_eq!(Cost::new(1, "", ""), Err(CostError::InvalidCostType));
}

#[test]
fn lowercase_readers_are_exact() {
    assert_eq!(CostType::from_lowercase("fixed"), Ok(CostType::Fixed));
    assert_eq!(CostType::from_lowercase("Fixed"), Err(CostError::InvalidCostType));
    assert_eq!(
        CostClassification::from_lowercase("indirect"),
        Ok(CostClassification::Indirect)
    );
    assert_eq!(
        Cost::from_lowercase(5, "variable", "direct"),
        Ok(Cost { amount: 5, cost_type: CostType::Variable, classification: CostClassification::Direct })
    );
    assert_eq!(Cost::from_lowercase(5, "VARIABLE", "direct"), Err(CostError::InvalidCostType));
}

#[test]
fn splits_add_up_to_total() {
    let co = product(
        "P",
        &[(100, "variable", "direct"), (200, "fixed", "indirect"), (-30, "fixed", "direct")],
    );
    let (v, f) = co.variable_fixed_breakdown();
    let (d, i) = co.direct_indirect_breakdown();
    assert_eq!(co.total_cost(), 270);
    assert_eq!(v + f, co.total_cost());
    assert_eq!(d + i, co.total_cost());
}

#[test]
fn empty_object_totals_zero() {
    let co = CostObject::new("Empty".to_string(), 3, 10);
    assert_eq!(co.total_cost(), 0);
    assert_eq!(co.variable_fixed_breakdown(), (0, 0));
    assert_eq!(co.direct_indirect_breakdown(), (0, 0));
}

#[test]
fn scenario_one_line_pair() {
    let co = product("P", &[(100, "variable", "direct"), (200, "fixed", "indirect")]);
    assert_eq!(co.total_cost(), 300);
    assert_eq!(co.variable_fixed_breakdown(), (100, 200));
    assert_eq!(co.direct_indirect_breakdown(), (100, 200));
}

#[test]
fn scenario_klear_camera() {
    let mut co = CostObject::new("Klear Camera".to_string(), 1, 1000);
    co.add_cost(Cost::new(500, "variable", "direct").unwrap());
    co.add_cost(Cost::new(100, "variable", "indirect").unwrap());
    co.add_cost(Cost::new(3_500_000, "fixed", "indirect").unwrap());
    let per_unit = co.contribution_margin_per_unit().unwrap();
    assert_eq!(per_unit, Ratio { numer: 400, denom: 1 });
    let ratio = co.contribution_margin_ratio().unwrap();
    assert_eq!(ratio.numer as f64 / ratio.denom as f64, 0.4);
    assert_eq!(co.break_even_units(), Ok(8750));
}

#[test]
fn margin_spreads_variable_cost_over_units() {
    let mut co = CostObject::new("P".to_string(), 4, 30);
    co.add_cost(Cost::new(40, "variable", "direct").unwrap());
    co.add_cost(Cost::new(101, "fixed", "direct").unwrap());
    // (30 * 4 - 40) / 4 = 20 per unit; 101 / 20 rounds up to 6.
    assert_eq!(co.contribution_margin_per_unit(), Ok(Ratio { numer: 80, denom: 4 }));
    assert_eq!(co.contribution_margin_ratio(), Ok(Ratio { numer: 80, denom: 120 }));
    assert_eq!(co.break_even_units(), Ok(6));
}

#[test]
fn domain_errors() {
    let zero_units = CostObject::new("Z".to_string(), 0, 10);
    assert_eq!(zero_units.contribution_margin_per_unit(), Err(DomainError::ZeroUnits));
    assert_eq!(zero_units.contribution_margin_ratio(), Err(DomainError::ZeroUnits));
    assert_eq!(zero_units.break_even_units(), Err(DomainError::ZeroUnits));

    let free = CostObject::new("F".to_string(), 2, 0);
    assert_eq!(free.contribution_margin_ratio(), Err(DomainError::ZeroPrice));

    let mut losing = CostObject::new("L".to_string(), 1, 10);
    losing.add_cost(Cost::new(10, "variable", "direct").unwrap());
    assert_eq!(losing.break_even_units(), Err(DomainError::NonPositiveMargin));

    assert_eq!(break_even_point(100, 50, 50), Err(DomainError::ZeroMargin));
}

#[test]
fn break_even_units_clamps_above() {
    let mut big = CostObject::new("B".to_string(), u32::MAX, 1);
    for _ in 0..21 {
        big.add_cost(Cost::new(i64::MAX, "fixed", "direct").unwrap());
    }
    assert_eq!(big.break_even_units(), Ok(u32::MAX));
}

#[test]
fn break_even_units_clamps_below() {
    let mut co = CostObject::new("P".to_string(), 1, 10);
    co.add_cost(Cost::new(-50, "fixed", "direct").unwrap());
    assert_eq!(co.break_even_units(), Ok(0));
}

#[test]
fn scenario_two_objects_overall() {
    let mut ca = CostAnalysis::new();
    ca.add_cost_object(product("A", &[(100, "variable", "direct"), (200, "fixed", "indirect")]));
    ca.add_cost_object(product("B", &[(150, "variable", "indirect"), (250, "fixed", "direct")]));
    assert_eq!(ca.overall_variable_fixed_breakdown(), (250, 450));
    assert_eq!(ca.overall_direct_indirect_breakdown(), (350, 350));
    let sum: i128 = ca.cost_objects.iter().map(|co| co.total_cost()).sum();
    assert_eq!(ca.total_costs(), sum);
}

#[test]
fn repeated_queries_agree() {
    let mut ca = CostAnalysis::new();
    ca.add_cost_object(product("A", &[(100, "variable", "direct"), (200, "fixed", "indirect")]));
    assert_eq!(ca.total_costs(), ca.total_costs());
    assert_eq!(ca.overall_variable_fixed_breakdown(), ca.overall_variable_fixed_breakdown());
    assert_eq!(ca.overall_direct_indirect_breakdown(), ca.overall_direct_indirect_breakdown());
    let co = &ca.cost_objects[0];
    assert_eq!(co.total_cost(), co.total_cost());
    assert_eq!(co.variable_fixed_breakdown(), co.variable_fixed_breakdown());
}

#[test]
fn same_name_replaces() {
    let mut ca = CostAnalysis::new();
    ca.add_cost_object(product("A", &[(100, "variable", "direct")]));
    ca.add_cost_object(product("B", &[(5, "fixed", "direct")]));
    ca.add_cost_object(product("A", &[(7, "fixed", "indirect")]));
    assert_eq!(ca.cost_objects.len(), 2);
    assert_eq!(ca.get("A").unwrap().total_cost(), 7);
    assert_eq!(ca.total_costs(), 12);
    assert!(ca.contains_key("B"));
    assert!(!ca.contains_key("C"));
    assert!(ca.get("C").is_none());
}

#[test]
fn point_and_margin_values() {
    let p = break_even_point(1000, 100, 50).unwrap();
    assert_eq!(p, Ratio { numer: 1000, denom: 50 });
    let q = break_even_point(90, 40, 70).unwrap();
    assert_eq!(q, Ratio { numer: 90, denom: -30 });
    assert_eq!(accounting_formulas::contribution_margin(i64::MIN, i64::MAX), i64::MIN as i128 - i64::MAX as i128);
}
