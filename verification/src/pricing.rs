//! Unit-price lookup.
//!
//! A [`Pricer`] answers "what does this resource spec cost per month?" for a single resource
//! type + its attributes. The cost engine asks for the `before` and `after` sides separately
//! and nets the deltas; the pricer itself is a pure, side-agnostic lookup.
//!
//! [`MapPricer`] is the default backend: the whole price catalog for one region held in
//! memory. The [`Pricer`] trait is the swap point: a lazy or on-disk backend slots in here
//! without touching the cost engine.

use vstd::prelude::*;
use crate::ir::Attributes;
use crate::json::JsonValue;
use crate::text::str_eq;

verus! {

/// A USD amount, counted in millionths of a dollar (so `Money(1_500_000)` is $1.50).
///
/// Fixed-point on purpose: sums and differences of catalog prices are exact, and rounding
/// happens only where an amount is shown.
#[derive(Debug, Clone, Copy, PartialEq, Eq, Structural)]
pub struct Money(pub i64);

/// A usage-dependent rate that can't become a fixed total without knowing usage — e.g. NAT
/// gateway data processing. Reported as a unit rate so the variable part is shown, never faked.
#[derive(Debug, PartialEq)]
pub struct UsageRate {
    /// Price per unit, e.g. `Money(45_000)` for $0.045.
    pub rate: Money,
    /// What the rate is charged per, e.g. `"GB processed"`.
    pub unit: String,
}

impl Clone for UsageRate {
    fn clone(&self) -> (r: Self)
        ensures
            r == *self,
    {
        UsageRate { rate: self.rate, unit: self.unit.clone() }
    }
}

/// The price of one resource spec.
#[derive(Debug, PartialEq)]
pub struct Price {
    /// Fixed monthly cost — the always-on component, already normalized to a month.
    pub fixed_monthly: Money,
    /// Optional usage-based component, shown as a unit rate rather than a fabricated total.
    pub usage: Option<UsageRate>,
}

impl Clone for Price {
    fn clone(&self) -> (r: Self)
        ensures
            r == *self,
    {
        let usage = match &self.usage {
            Some(u) => Some(u.clone()),
            None => None,
        };
        Price { fixed_monthly: self.fixed_monthly, usage }
    }
}

/// Looks up the price of a resource spec (a type + its attributes).
///
/// Returns `None` when the type/attrs aren't in the catalog ("unpriced"). Unknown/computed
/// attributes are *not* this layer's concern — the cost engine flags those and won't ask the
/// pricer to price a spec it can't pin down.
pub trait Pricer {
    /// The price this pricer gives a resource of type `rtype` with attributes `attrs`.
    spec fn spec_price(&self, rtype: Seq<char>, attrs: Attributes) -> Option<Price>;

    fn price(&self, rtype: &str, attrs: &Attributes) -> (r: Option<Price>)
        ensures
            r == self.spec_price(rtype@, *attrs);
}

/// One catalog entry: a `(resource_type, region, sku_key)` and its [`Price`].
#[derive(Debug, PartialEq)]
pub struct PriceRow {
    pub resource_type: String,
    pub region: String,
    /// The discriminating attribute value (e.g. `"t3.large"`); empty when the type has a
    /// single price with no discriminator (e.g. NAT gateway).
    pub sku_key: String,
    pub price: Price,
}

impl Clone for PriceRow {
    fn clone(&self) -> (r: Self)
        ensures
            r == *self,
    {
        PriceRow {
            resource_type: self.resource_type.clone(),
            region: self.region.clone(),
            sku_key: self.sku_key.clone(),
            price: self.price.clone(),
        }
    }
}

/// `row` is the entry for `(rtype, sku)`.
pub open spec fn row_is(row: PriceRow, rtype: Seq<char>, sku: Seq<char>) -> bool {
    row.resource_type@ == rtype && row.sku_key@ == sku
}

/// The catalog's price for `(rtype, sku)` in `region`: among the rows for that region,
/// the last one with that type and sku wins.
pub open spec fn catalog_price(region: Seq<char>, rows: Seq<PriceRow>, rtype: Seq<char>, sku: Seq<char>) -> Option<Price>
    decreases rows.len(),
{
    if rows.len() == 0 {
        None
    } else if rows.last().region@ == region && row_is(rows.last(), rtype, sku) {
        Some(rows.last().price)
    } else {
        catalog_price(region, rows.drop_last(), rtype, sku)
    }
}

/// The first row of `rows` for `(rtype, sku)`.
pub open spec fn first_match(rows: Seq<PriceRow>, rtype: Seq<char>, sku: Seq<char>) -> Option<Price>
    decreases rows.len(),
{
    if rows.len() == 0 {
        None
    } else {
        match first_match(rows.drop_last(), rtype, sku) {
            Some(p) => Some(p),
            None => if row_is(rows.last(), rtype, sku) {
                Some(rows.last().price)
            } else {
                None
            },
        }
    }
}

/// Once a prefix of `rows` has a row for `(rtype, sku)`, the rest of the rows don't matter.
proof fn lemma_first_match_prefix(rows: Seq<PriceRow>, k: int, rtype: Seq<char>, sku: Seq<char>)
    requires
        0 <= k <= rows.len(),
        first_match(rows.take(k), rtype, sku) is Some,
    ensures
        first_match(rows, rtype, sku) == first_match(rows.take(k), rtype, sku),
    decreases rows.len(),
{
    if k == rows.len() {
        assert(rows.take(k) =~= rows);
    } else {
        assert(rows.drop_last().take(k) =~= rows.take(k));
        lemma_first_match_prefix(rows.drop_last(), k, rtype, sku);
    }
}

/// The string held by an optional attribute value.
pub open spec fn string_value(v: Option<JsonValue>) -> Option<Seq<char>> {
    match v {
        Some(JsonValue::Str(s)) => Some(s@),
        _ => None,
    }
}

/// Which attribute value discriminates the price for a resource type — its "sku key".
///
/// `None` means the type isn't modeled (→ unpriced). `Some("")` means the type has a single
/// price with no discriminator. Otherwise it is the discriminating attribute's string value;
/// if that attribute is absent (e.g. still computed) the spec can't be keyed, so it's `None`.
pub open spec fn sku_key_spec(rtype: Seq<char>, attrs: Attributes) -> Option<Seq<char>> {
    if rtype == "aws_instance"@ {
        string_value(attrs.spec_get("instance_type"@))
    } else if rtype == "aws_db_instance"@ {
        string_value(attrs.spec_get("instance_class"@))
    } else if rtype == "aws_nat_gateway"@ {
        Some(Seq::<char>::empty())
    } else {
        None
    }
}

/// The attributes whose values determine the price of a resource type.
pub open spec fn price_keys_spec(rtype: Seq<char>) -> Seq<Seq<char>> {
    if rtype == "aws_instance"@ {
        seq!["instance_type"@]
    } else if rtype == "aws_db_instance"@ {
        seq!["instance_class"@]
    } else {
        Seq::empty()
    }
}

/// The attributes whose values determine the price of a resource type: `instance_type`
/// for EC2 instances, `instance_class` for RDS instances, none otherwise.
pub fn price_keys(rtype: &str) -> (r: Vec<&'static str>)
    ensures
        r@.len() == price_keys_spec(rtype@).len(),
        forall|i: int| 0 <= i < r@.len() ==> (#[trigger] r@[i])@ == price_keys_spec(rtype@)[i],
{
    if str_eq(rtype, "aws_instance") {
        vec!["instance_type"]
    } else if str_eq(rtype, "aws_db_instance") {
        vec!["instance_class"]
    } else {
        Vec::new()
    }
}

/// The sku key of a resource spec: see [`sku_key_spec`].
pub fn sku_key_for<'a>(rtype: &str, attrs: &'a Attributes) -> (r: Option<&'a str>)
    ensures
        match r {
            Some(s) => sku_key_spec(rtype@, *attrs) == Some(s@),
            None => sku_key_spec(rtype@, *attrs) is None,
        },
{
    proof {
        reveal_strlit("");
    }
    if str_eq(rtype, "aws_instance") {
        match attrs.get("instance_type") {
            Some(v) => v.as_str(),
            None => None,
        }
    } else if str_eq(rtype, "aws_db_instance") {
        match attrs.get("instance_class") {
            Some(v) => v.as_str(),
            None => None,
        }
    } else if str_eq(rtype, "aws_nat_gateway") {
        Some("")
    } else {
        None
    }
}

/// The in-memory price catalog for one region.
///
/// Built for a fixed region — rows for other regions are dropped at construction. The rows
/// are kept newest first, so a lookup stops at the row that the catalog says wins.
///
/// The rows stay in a vector that a lookup scans, not in a map keyed by resource type and
/// sku: with string keys, what a hash map's lookup returns cannot be proved, while the scan
/// is proved to give exactly [`catalog_price`], the last matching row of the catalog.
pub struct MapPricer {
    rows: Vec<PriceRow>,
}

impl MapPricer {
    /// The price this pricer holds for `(rtype, sku)`.
    pub closed spec fn spec_lookup(&self, rtype: Seq<char>, sku: Seq<char>) -> Option<Price> {
        first_match(self.rows@, rtype, sku)
    }

    /// Build a pricer for `region` from catalog rows; rows for other regions are ignored.
    pub fn new(region: &str, rows: Vec<PriceRow>) -> (r: MapPricer)
        ensures
            forall|rtype: Seq<char>, sku: Seq<char>|
                #[trigger] r.spec_lookup(rtype, sku) == catalog_price(region@, rows@, rtype, sku),
    {
        let ghost all = rows@;
        let mut rest = rows;
        let mut kept: Vec<PriceRow> = Vec::new();
        while rest.len() > 0
            invariant
                rest@.len() <= all.len(),
                rest@ == all.take(rest@.len() as int),
                forall|rtype: Seq<char>, sku: Seq<char>|
                    #[trigger] catalog_price(region@, all, rtype, sku) == match first_match(kept@, rtype, sku) {
                        Some(p) => Some(p),
                        None => catalog_price(region@, rest@, rtype, sku),
                    },
            decreases rest@.len(),
        {
            let ghost before = rest@;
            let ghost old_kept = kept@;
            let row = rest.pop().unwrap();
            assert(before.drop_last() =~= rest@);
            assert(rest@ =~= all.take(rest@.len() as int));
            if str_eq(row.region.as_str(), region) {
                kept.push(row);
                assert(kept@.drop_last() =~= old_kept);
            }
        }
        MapPricer { rows: kept }
    }

    /// The price held for `(rtype, sku)`, if any.
    fn lookup(&self, rtype: &str, sku: &str) -> (r: Option<Price>)
        ensures
            r == self.spec_lookup(rtype@, sku@),
    {
        let mut i: usize = 0;
        while i < self.rows.len()
            invariant
                i <= self.rows@.len(),
                first_match(self.rows@.take(i as int), rtype@, sku@) is None,
            decreases self.rows@.len() - i,
        {
            let row = &self.rows[i];
            assert(self.rows@.take(i + 1).drop_last() =~= self.rows@.take(i as int));
            if str_eq(row.resource_type.as_str(), rtype) && str_eq(row.sku_key.as_str(), sku) {
                proof {
                    lemma_first_match_prefix(self.rows@, i + 1, rtype@, sku@);
                }
                return Some(row.price.clone());
            }
            i = i + 1;
        }
        assert(self.rows@.take(i as int) =~= self.rows@);
        None
    }
}

impl Pricer for MapPricer {
    open spec fn spec_price(&self, rtype: Seq<char>, attrs: Attributes) -> Option<Price> {
        match sku_key_spec(rtype, attrs) {
            Some(sku) => self.spec_lookup(rtype, sku),
            None => None,
        }
    }

    fn price(&self, rtype: &str, attrs: &Attributes) -> (r: Option<Price>) {
        match sku_key_for(rtype, attrs) {
            Some(sku) => self.lookup(rtype, sku),
            None => None,
        }
    }
}

} // verus!
