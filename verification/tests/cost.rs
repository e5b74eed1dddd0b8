use costctl_core::cost::{compute, exceeds_budget, NotEstimatedReason};
use costctl_core::ir::{Action, Attributes, ResourceChange};
use costctl_core::json::JsonValue;
use costctl_core::pricing::{MapPricer, Money, Price, PriceRow, UsageRate};

fn attrs(pairs: Vec<(&str, JsonValue)>) -> Attributes {
    let mut a = Attributes::new();
    for (k, v) in pairs {
        a.insert(k.to_string(), v);
    }
    a
}

fn usd(x: f64) -> Money {
    Money((x * 1e6).round() as i64)
}

fn approx(got: Money, want: f64) -> bool {
    (got.0 as f64 / 1e6 - want).abs() < 1e-6
}

fn row(sku: &str, fixed: f64, usage: Option<UsageRate>) -> PriceRow {
    PriceRow {
        resource_type: if sku.is_empty() { "aws_nat_gateway" } else { "aws_instance" }.into(),
        region: "us-east-1".into(),
        sku_key: sku.into(),
        price: Price { fixed_monthly: usd(fixed), usage },
    }
}

fn pricer() -> MapPricer {
    MapPricer::new(
        "us-east-1",
        vec![
            row("t3.small", 15.0, None),
            row("t3.large", 60.0, None),
            row("", 32.85, Some(UsageRate { rate: usd(0.045), unit: "GB processed".into() })),
        ],
    )
}

fn change(
    rtype: &str,
    action: Action,
    before: Option<Attributes>,
    after: Option<Attributes>,
    after_unknown: Option<Attributes>,
) -> ResourceChange {
    ResourceChange {
        address: format!("{rtype}.x"),
        rtype: rtype.into(),
        name: "x".into(),
        action,
        before,
        after,
        after_unknown,
    }
}

fn instance(action: Action, before: Option<&str>, after: Option<&str>) -> ResourceChange {
    let side = |t: Option<&str>| t.map(|t| attrs(vec![("instance_type", JsonValue::Str(t.into()))]));
    change("aws_instance", action, side(before), side(after), None)
}

#[test]
fn create_adds_after_cost() {
    let report = compute(&[instance(Action::Create, None, Some("t3.large"))], &pricer());
    assert_eq!(report.lines.len(), 1);
    assert_eq!(report.lines[0].detail, "t3.large");
    assert!(approx(report.lines[0].delta_monthly, 60.0));
    assert!(approx(report.net_monthly, 60.0));
    assert!(report.not_estimated.is_empty());
}

#[test]
fn delete_removes_before_cost() {
    let report = compute(&[instance(Action::Delete, Some("t3.large"), None)], &pricer());
    assert!(approx(report.lines[0].delta_monthly, -60.0));
    assert!(approx(report.net_monthly, -60.0));
}

#[test]
fn update_is_after_minus_before() {
    let report =
        compute(&[instance(Action::Update, Some("t3.small"), Some("t3.large"))], &pricer());
    assert!(approx(report.lines[0].delta_monthly, 60.0 - 15.0)); // +45
}

#[test]
fn replace_is_after_minus_before() {
    let report =
        compute(&[instance(Action::Replace, Some("t3.large"), Some("t3.small"))], &pricer());
    assert!(approx(report.lines[0].delta_monthly, 15.0 - 60.0)); // -45
}

#[test]
fn usage_rate_is_carried_not_summed() {
    let nat = change("aws_nat_gateway", Action::Create, None, Some(attrs(vec![])), None);
    let report = compute(&[nat], &pricer());
    let line = &report.lines[0];
    assert_eq!(line.detail, "fixed");
    assert!(approx(line.delta_monthly, 32.85));
    let usage = line.usage.as_ref().expect("nat carries a usage rate");
    assert!(approx(usage.rate, 0.045));
    assert_eq!(usage.unit, "GB processed");
    assert!(approx(report.net_monthly, 32.85)); // fixed only; usage never folded in
}

#[test]
fn computed_price_key_is_value_unknown() {
    // instance_type is computed-at-apply: absent from `after`, flagged in `after_unknown`.
    let rc = change(
        "aws_instance",
        Action::Create,
        None,
        Some(attrs(vec![("ami", JsonValue::Str("ami-1".into()))])),
        Some(attrs(vec![("instance_type", JsonValue::Bool(true))])),
    );
    let report = compute(&[rc], &pricer());
    assert!(report.lines.is_empty());
    assert_eq!(report.not_estimated[0].reason, NotEstimatedReason::ValueUnknown);
}

#[test]
fn cost_unmodeled_type_is_unpriced() {
    let rc = change("aws_unicorn", Action::Create, None, Some(attrs(vec![])), None);
    let report = compute(&[rc], &pricer());
    assert_eq!(report.not_estimated[0].reason, NotEstimatedReason::Unpriced);
}

#[test]
fn known_type_unknown_sku_is_unpriced() {
    let report = compute(&[instance(Action::Create, None, Some("x99.mega"))], &pricer());
    assert_eq!(report.not_estimated[0].reason, NotEstimatedReason::Unpriced);
}

#[test]
fn net_sums_signed_deltas() {
    let report = compute(
        &[
            instance(Action::Create, None, Some("t3.large")),
            instance(Action::Delete, Some("t3.small"), None),
        ],
        &pricer(),
    );
    assert!(approx(report.net_monthly, 60.0 - 15.0)); // +45
}

#[test]
fn noop_is_filtered_not_priced() {
    let report = compute(&[instance(Action::NoOp, Some("t3.large"), Some("t3.large"))], &pricer());
    assert!(report.lines.is_empty());
    assert!(report.not_estimated.is_empty());
    assert!(approx(report.net_monthly, 0.0));
}

#[test]
fn delete_surfaces_before_side_usage() {
    // A NAT delete removes a fixed cost; its usage rate must come from the `before` side.
    let nat = change("aws_nat_gateway", Action::Delete, Some(attrs(vec![])), None, None);
    let report = compute(&[nat], &pricer());
    let line = &report.lines[0];
    assert!(approx(line.delta_monthly, -32.85));
    let usage = line.usage.as_ref().expect("usage from the before side on a delete");
    assert!(approx(usage.rate, 0.045));
}

#[test]
fn net_excludes_not_estimated() {
    let report = compute(
        &[
            instance(Action::Create, None, Some("t3.large")), // +60, priced
            change("aws_unicorn", Action::Create, None, Some(attrs(vec![])), None), // unpriced
        ],
        &pricer(),
    );
    assert_eq!(report.lines.len(), 1);
    assert_eq!(report.not_estimated.len(), 1);
    assert!(approx(report.net_monthly, 60.0)); // only the priced line counts
}

#[test]
fn every_non_noop_change_lands_once_in_plan_order() {
    let report = compute(
        &[
            change("aws_unicorn", Action::Create, None, Some(attrs(vec![])), None),
            instance(Action::NoOp, Some("t3.large"), Some("t3.large")),
            instance(Action::Create, None, Some("t3.small")),
            instance(Action::Update, Some("t3.small"), Some("x99.mega")),
            instance(Action::Delete, Some("t3.large"), None),
        ],
        &pricer(),
    );
    assert_eq!(report.lines.len() + report.not_estimated.len(), 4);
    assert_eq!(report.lines[0].action, Action::Create);
    assert_eq!(report.lines[1].action, Action::Delete);
    assert_eq!(report.not_estimated[0].rtype, "aws_unicorn");
    assert_eq!(report.not_estimated[1].reason, NotEstimatedReason::Unpriced);
    assert!(approx(report.net_monthly, 15.0 - 60.0));
}

#[test]
fn update_with_unpriced_old_side_is_not_estimated() {
    // A half-real delta is worse than none: the before side is not in the catalog.
    let report =
        compute(&[instance(Action::Update, Some("x99.mega"), Some("t3.large"))], &pricer());
    assert!(report.lines.is_empty());
    assert_eq!(report.not_estimated[0].reason, NotEstimatedReason::Unpriced);
}

#[test]
fn delete_detail_comes_from_the_old_side() {
    let report = compute(&[instance(Action::Delete, Some("t3.small"), None)], &pricer());
    assert_eq!(report.lines[0].detail, "t3.small");
}

#[test]
fn net_saturates_at_the_amount_range() {
    let big = MapPricer::new(
        "us-east-1",
        vec![PriceRow {
            resource_type: "aws_instance".into(),
            region: "us-east-1".into(),
            sku_key: "huge".into(),
            price: Price { fixed_monthly: Money(i64::MAX), usage: None },
        }],
    );
    let report = compute(
        &[instance(Action::Create, None, Some("huge")), instance(Action::Create, None, Some("huge"))],
        &big,
    );
    assert_eq!(report.net_monthly, Money(i64::MAX));
}

#[test]
fn budget_is_exceeded_only_by_a_larger_net() {
    let report = compute(&[instance(Action::Create, None, Some("t3.large"))], &pricer());
    assert!(exceeds_budget(&report, usd(59.99)));
    assert!(!exceeds_budget(&report, usd(60.0)));
    assert!(!exceeds_budget(&report, usd(100000.0)));
}

#[test]
fn update_shows_only_the_new_side_rate() {
    // The new spec bears the cost on an update: an old rate that goes away is not shown.
    let metered = UsageRate { rate: usd(0.01), unit: "GB".into() };
    let pricer = MapPricer::new(
        "us-east-1",
        vec![row("t3.metered", 20.0, Some(metered)), row("t3.small", 15.0, None)],
    );
    let dropped = compute(&[instance(Action::Update, Some("t3.metered"), Some("t3.small"))], &pricer);
    assert!(approx(dropped.lines[0].delta_monthly, -5.0));
    assert!(dropped.lines[0].usage.is_none());

    let gained = compute(&[instance(Action::Update, Some("t3.small"), Some("t3.metered"))], &pricer);
    let usage = gained.lines[0].usage.as_ref().expect("rate of the new side");
    assert!(approx(usage.rate, 0.01));
    assert_eq!(usage.unit, "GB");
}
