use costctl_core::catalog::{builtin_catalog, CATALOG_DATE};
use costctl_core::ir::Attributes;
use costctl_core::json::JsonValue;
use costctl_core::pricing::{price_keys, MapPricer, Money, Price, PriceRow, Pricer, UsageRate};

fn attrs(pairs: Vec<(&str, JsonValue)>) -> Attributes {
    let mut a = Attributes::new();
    for (k, v) in pairs {
        a.insert(k.to_string(), v);
    }
    a
}

fn s(text: &str) -> JsonValue {
    JsonValue::Str(text.to_string())
}

fn usd(x: f64) -> Money {
    Money((x * 1e6).round() as i64)
}

/// `Money` counts millionths of a dollar; compare in dollars with a tolerance.
fn approx(got: Money, want: f64) -> bool {
    (got.0 as f64 / 1e6 - want).abs() < 1e-6
}

fn catalog() -> Vec<PriceRow> {
    vec![
        PriceRow {
            resource_type: "aws_instance".into(),
            region: "us-east-1".into(),
            sku_key: "t3.large".into(),
            // us-east-1 t3.large: $0.0832/hr ≈ $60.74/mo.
            price: Price { fixed_monthly: usd(60.736), usage: None },
        },
        PriceRow {
            resource_type: "aws_nat_gateway".into(),
            region: "us-east-1".into(),
            sku_key: String::new(),
            // NAT gateway: $0.045/hr ≈ $32.85/mo fixed, plus $0.045 per GB processed.
            price: Price {
                fixed_monthly: usd(32.85),
                usage: Some(UsageRate { rate: usd(0.045), unit: "GB processed".into() }),
            },
        },
    ]
}

#[test]
fn prices_known_instance_type() {
    let pricer = MapPricer::new("us-east-1", catalog());
    let price = pricer
        .price("aws_instance", &attrs(vec![("instance_type", s("t3.large"))]))
        .expect("t3.large should be priced");
    assert!(approx(price.fixed_monthly, 60.736));
    assert!(price.usage.is_none());
}

#[test]
fn nat_gateway_carries_a_usage_rate() {
    let pricer = MapPricer::new("us-east-1", catalog());
    // No discriminating attribute, yet it prices.
    let price = pricer.price("aws_nat_gateway", &attrs(vec![])).expect("nat gateway should price");
    let usage = price.usage.expect("nat gateway has a usage rate");
    assert!(approx(usage.rate, 0.045));
    assert_eq!(usage.unit, "GB processed");
}

#[test]
fn pricing_unmodeled_type_is_unpriced() {
    let pricer = MapPricer::new("us-east-1", catalog());
    assert!(pricer.price("aws_unicorn", &attrs(vec![])).is_none());
}

#[test]
fn known_type_with_sku_not_in_catalog_is_unpriced() {
    let pricer = MapPricer::new("us-east-1", catalog());
    let got = pricer.price("aws_instance", &attrs(vec![("instance_type", s("x99.mega"))]));
    assert!(got.is_none());
}

#[test]
fn instance_without_its_type_attribute_is_unpriced() {
    let pricer = MapPricer::new("us-east-1", catalog());
    // instance_type missing (e.g. computed) -> can't be keyed.
    assert!(pricer.price("aws_instance", &attrs(vec![("ami", s("ami-1"))])).is_none());
}

#[test]
fn other_region_is_unpriced() {
    // Catalog only holds us-east-1 rows; a eu-west-1 pricer finds nothing.
    let pricer = MapPricer::new("eu-west-1", catalog());
    let got = pricer.price("aws_instance", &attrs(vec![("instance_type", s("t3.large"))]));
    assert!(got.is_none());
}

#[test]
fn later_catalog_row_wins() {
    let mut rows = catalog();
    rows.push(PriceRow {
        resource_type: "aws_instance".into(),
        region: "us-east-1".into(),
        sku_key: "t3.large".into(),
        price: Price { fixed_monthly: usd(70.0), usage: None },
    });
    let pricer = MapPricer::new("us-east-1", rows);
    let price = pricer.price("aws_instance", &attrs(vec![("instance_type", s("t3.large"))])).unwrap();
    assert!(approx(price.fixed_monthly, 70.0));
}

#[test]
fn non_string_sku_is_unpriced() {
    let pricer = MapPricer::new("us-east-1", catalog());
    let got = pricer.price("aws_instance", &attrs(vec![("instance_type", JsonValue::Bool(true))]));
    assert!(got.is_none());
}

#[test]
fn price_keys_name_the_discriminating_attribute() {
    assert_eq!(price_keys("aws_instance"), vec!["instance_type"]);
    assert_eq!(price_keys("aws_db_instance"), vec!["instance_class"]);
    assert!(price_keys("aws_nat_gateway").is_empty());
    assert!(price_keys("aws_unicorn").is_empty());
}

#[test]
fn builtin_catalog_prices_monthly_at_730_hours() {
    let rows = builtin_catalog();
    assert_eq!(rows.len(), 13);
    assert_eq!(CATALOG_DATE, "builtin-dev");
    let pricer = MapPricer::new("us-east-1", builtin_catalog());
    let t3 = pricer.price("aws_instance", &attrs(vec![("instance_type", s("t3.large"))])).unwrap();
    assert_eq!(t3.fixed_monthly, Money(60_736_000)); // $0.0832/hr × 730
    let db = pricer.price("aws_db_instance", &attrs(vec![("instance_class", s("db.t3.medium"))])).unwrap();
    assert_eq!(db.fixed_monthly, Money(49_640_000)); // $0.068/hr × 730
    let nat = pricer.price("aws_nat_gateway", &attrs(vec![])).unwrap();
    assert_eq!(nat.fixed_monthly, Money(32_850_000));
    assert_eq!(nat.usage.unwrap().rate, Money(45_000));
}
