//! A tiny built-in price catalog so the tool works end to end before a fetched catalog
//! exists. Hand-entered and **approximate — not authoritative**, for a single baseline:
//! us-east-1 on-demand, EC2 = Linux / shared tenancy, RDS = MySQL single-AZ. Real prices vary
//! by OS, engine, tenancy and AZ — dimensions this stopgap ignores.

use vstd::prelude::*;
use crate::pricing::{Money, Price, PriceRow, UsageRate};

verus! {

/// Date label for the built-in catalog.
pub const CATALOG_DATE: &'static str = "builtin-dev";

/// The hours in a month: monthly = hourly × 730.
pub const HOURS_PER_MONTH: i64 = 730;

/// One entry of the built-in catalog: type, sku, hourly price in millionths of a dollar,
/// and a usage rate (rate in millionths of a dollar, unit) where the type has one.
pub struct CatalogEntry {
    pub rtype: Seq<char>,
    pub sku: Seq<char>,
    pub hourly: int,
    pub usage: Option<(int, Seq<char>)>,
}

/// The entries of the built-in catalog, in order.
pub open spec fn builtin_entries() -> Seq<CatalogEntry> {
    seq![
        CatalogEntry { rtype: "aws_instance"@, sku: "t3.micro"@, hourly: 10_400, usage: None },
        CatalogEntry { rtype: "aws_instance"@, sku: "t3.small"@, hourly: 20_800, usage: None },
        CatalogEntry { rtype: "aws_instance"@, sku: "t3.medium"@, hourly: 41_600, usage: None },
        CatalogEntry { rtype: "aws_instance"@, sku: "t3.large"@, hourly: 83_200, usage: None },
        CatalogEntry { rtype: "aws_instance"@, sku: "c5.large"@, hourly: 85_000, usage: None },
        CatalogEntry { rtype: "aws_instance"@, sku: "r5.large"@, hourly: 126_000, usage: None },
        CatalogEntry { rtype: "aws_instance"@, sku: "m5.large"@, hourly: 96_000, usage: None },
        CatalogEntry { rtype: "aws_instance"@, sku: "m5.xlarge"@, hourly: 192_000, usage: None },
        CatalogEntry { rtype: "aws_db_instance"@, sku: "db.t3.micro"@, hourly: 17_000, usage: None },
        CatalogEntry { rtype: "aws_db_instance"@, sku: "db.t3.small"@, hourly: 34_000, usage: None },
        CatalogEntry { rtype: "aws_db_instance"@, sku: "db.t3.medium"@, hourly: 68_000, usage: None },
        CatalogEntry { rtype: "aws_db_instance"@, sku: "db.m5.large"@, hourly: 171_000, usage: None },
        CatalogEntry {
            rtype: "aws_nat_gateway"@,
            sku: ""@,
            hourly: 45_000,
            usage: Some((45_000, "GB processed"@)),
        },
    ]
}

/// `row` is the us-east-1 catalog row for `entry`, priced monthly at hourly × 730.
pub open spec fn row_for(row: PriceRow, entry: CatalogEntry) -> bool {
    &&& row.resource_type@ == entry.rtype
    &&& row.region@ == "us-east-1"@
    &&& row.sku_key@ == entry.sku
    &&& row.price.fixed_monthly.0 == entry.hourly * HOURS_PER_MONTH
    &&& match entry.usage {
        Some((rate, unit)) => row.price.usage matches Some(u) && u.rate.0 == rate && u.unit@ == unit,
        None => row.price.usage is None,
    }
}

fn catalog_row(rtype: &str, sku: &str, hourly: i64, usage: Option<UsageRate>) -> (r: PriceRow)
    requires
        0 <= hourly <= 1_000_000_000,
    ensures
        r.resource_type@ == rtype@,
        r.region@ == "us-east-1"@,
        r.sku_key@ == sku@,
        r.price.fixed_monthly.0 == hourly * HOURS_PER_MONTH,
        r.price.usage == usage,
{
    PriceRow {
        resource_type: rtype.to_owned(),
        region: "us-east-1".to_owned(),
        sku_key: sku.to_owned(),
        price: Price { fixed_monthly: Money(hourly * HOURS_PER_MONTH), usage },
    }
}

/// The built-in catalog rows: see [`builtin_entries`].
pub fn builtin_catalog() -> (r: Vec<PriceRow>)
    ensures
        r@.len() == builtin_entries().len(),
        forall|i: int| 0 <= i < r@.len() ==> row_for(#[trigger] r@[i], builtin_entries()[i]),
{
    let ghost e = builtin_entries();
    let mut rows: Vec<PriceRow> = Vec::new();
    // EC2 on-demand
    rows.push(catalog_row("aws_instance", "t3.micro", 10_400, None));
    rows.push(catalog_row("aws_instance", "t3.small", 20_800, None));
    rows.push(catalog_row("aws_instance", "t3.medium", 41_600, None));
    rows.push(catalog_row("aws_instance", "t3.large", 83_200, None));
    rows.push(catalog_row("aws_instance", "c5.large", 85_000, None));
    rows.push(catalog_row("aws_instance", "r5.large", 126_000, None));
    rows.push(catalog_row("aws_instance", "m5.large", 96_000, None));
    rows.push(catalog_row("aws_instance", "m5.xlarge", 192_000, None));
    // RDS on-demand, single-AZ
    rows.push(catalog_row("aws_db_instance", "db.t3.micro", 17_000, None));
    rows.push(catalog_row("aws_db_instance", "db.t3.small", 34_000, None));
    rows.push(catalog_row("aws_db_instance", "db.t3.medium", 68_000, None));
    rows.push(catalog_row("aws_db_instance", "db.m5.large", 171_000, None));
    // NAT gateway: hourly + per-GB processed
    let nat_usage = UsageRate { rate: Money(45_000), unit: "GB processed".to_owned() };
    rows.push(catalog_row("aws_nat_gateway", "", 45_000, Some(nat_usage)));
    assert(forall|i: int| 0 <= i < rows@.len() ==> row_for(#[trigger] rows@[i], e[i]));
    rows
}

} // verus!
