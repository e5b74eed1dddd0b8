//! The cost diff engine.
//!
//! Turns a set of [`ResourceChange`]s plus a [`Pricer`] into a [`Report`]: the signed monthly
//! delta of each priced change, their net, and a separate bucket for everything that couldn't
//! be estimated (with the reason). Usage-based rates are carried per line but never summed —
//! a variable rate has no fixed monthly total to fold into the net.
//!
//! Amounts are `i64` millionths of a dollar; a sum or difference beyond that range is held
//! at the nearest end of the range.

use vstd::prelude::*;
use crate::ir::{Action, ResourceChange, SpecState};
use crate::pricing::{price_keys, price_keys_spec, string_value, Money, Price, Pricer, UsageRate};

verus! {

/// A priced change: its signed monthly delta plus any usage rate to surface.
#[derive(Debug, Clone, PartialEq)]
pub struct CostLine {
    pub address: String,
    pub rtype: String,
    pub action: Action,
    /// Short label for what's priced — a sku like "t3.large", or "fixed" when the type's
    /// cost has no discriminator.
    pub detail: String,
    /// Signed fixed monthly delta: positive adds cost, negative removes it.
    pub delta_monthly: Money,
    /// Usage-based rate from the cost-bearing side, shown alongside but never summed.
    pub usage: Option<UsageRate>,
}

/// Why a change couldn't be priced.
#[derive(Debug, Clone, Copy, PartialEq, Eq, Structural)]
pub enum NotEstimatedReason {
    /// A price-determining attribute is computed and not known until apply.
    ValueUnknown,
    /// The resource type/sku isn't in the price catalog.
    Unpriced,
}

/// A change we deliberately did not assign a number to — reported, never treated as $0.
#[derive(Debug, Clone, PartialEq)]
pub struct NotEstimated {
    pub address: String,
    pub rtype: String,
    pub reason: NotEstimatedReason,
}

/// The forecast: priced lines, their net, and everything we couldn't estimate.
#[derive(Debug, Clone, PartialEq)]
pub struct Report {
    pub lines: Vec<CostLine>,
    /// Sum of the fixed monthly deltas. Usage rates are excluded (they'd be fabricated).
    pub net_monthly: Money,
    pub not_estimated: Vec<NotEstimated>,
}

/// `x`, held within the range of `i64`.
pub open spec fn saturate(x: int) -> int {
    if x > i64::MAX {
        i64::MAX as int
    } else if x < i64::MIN {
        i64::MIN as int
    } else {
        x
    }
}

/// `a + b`, held within the range of `i64`.
pub fn saturating_sum(a: i64, b: i64) -> (r: i64)
    ensures
        r == saturate(a + b),
{
    let s = a as i128 + b as i128;
    if s > i64::MAX as i128 {
        i64::MAX
    } else if s < i64::MIN as i128 {
        i64::MIN
    } else {
        s as i64
    }
}

/// `a - b`, held within the range of `i64`.
pub fn saturating_difference(a: i64, b: i64) -> (r: i64)
    ensures
        r == saturate(a - b),
{
    let s = a as i128 - b as i128;
    if s > i64::MAX as i128 {
        i64::MAX
    } else if s < i64::MIN as i128 {
        i64::MIN
    } else {
        s as i64
    }
}

/// Some price-determining attribute of the change is computed and unknown until apply.
pub open spec fn price_key_unknown(rc: ResourceChange) -> bool {
    exists|i: int|
        0 <= i < price_keys_spec(rc.rtype@).len() && rc.spec_is_unknown(
            #[trigger] price_keys_spec(rc.rtype@)[i],
        )
}

/// The price of one side of a change, or why there is none. Only the `after` side carries
/// computed-unknowns; `before` is materialized state.
pub open spec fn side_price<P: Pricer>(pricer: P, rc: ResourceChange, state: SpecState) -> Result<Price, NotEstimatedReason> {
    if state == SpecState::After && price_key_unknown(rc) {
        Err(NotEstimatedReason::ValueUnknown)
    } else {
        match rc.side(state) {
            None => Err(NotEstimatedReason::Unpriced),
            Some(attrs) => match pricer.spec_price(rc.rtype@, attrs) {
                Some(p) => Ok(p),
                None => Err(NotEstimatedReason::Unpriced),
            },
        }
    }
}

/// The fixed monthly cost of a side the action touches, 0 for a side it doesn't.
pub open spec fn side_fixed<P: Pricer>(pricer: P, rc: ResourceChange, state: SpecState, touched: bool) -> int {
    if touched {
        match side_price(pricer, rc, state) {
            Ok(p) => p.fixed_monthly.0 as int,
            Err(_) => 0,
        }
    } else {
        0
    }
}

/// The usage rate of a side the action touches, if it has one.
pub open spec fn side_usage<P: Pricer>(pricer: P, rc: ResourceChange, state: SpecState, touched: bool) -> Option<UsageRate> {
    if touched {
        match side_price(pricer, rc, state) {
            Ok(p) => p.usage,
            Err(_) => None,
        }
    } else {
        None
    }
}

/// The priced outcome of a change: its signed monthly delta (`after - before`, counting
/// only the sides its action touches) and the usage rate of the cost-bearing side (the
/// `after` side's rate, possibly none, when the action adds cost; else the rate of the
/// `before` side that goes away); or the
/// reason it can't be priced, the `after` side's reason first. If a side the action needs
/// can't be priced, the whole change is not estimated — a half-real delta is worse than none.
pub open spec fn change_outcome<P: Pricer>(pricer: P, rc: ResourceChange) -> Result<(int, Option<UsageRate>), NotEstimatedReason> {
    let adds = rc.action.spec_adds_after();
    let removes = rc.action.spec_removes_before();
    if adds && side_price(pricer, rc, SpecState::After) is Err {
        Err(side_price(pricer, rc, SpecState::After)->Err_0)
    } else if removes && side_price(pricer, rc, SpecState::Before) is Err {
        Err(side_price(pricer, rc, SpecState::Before)->Err_0)
    } else {
        let delta = saturate(
            side_fixed(pricer, rc, SpecState::After, adds) - side_fixed(pricer, rc, SpecState::Before, removes),
        );
        let usage = if adds {
            side_usage(pricer, rc, SpecState::After, adds)
        } else {
            side_usage(pricer, rc, SpecState::Before, removes)
        };
        Ok((delta, usage))
    }
}

/// The sku values present as strings on the given side, for the given keys.
pub open spec fn detail_parts(rc: ResourceChange, state: SpecState, keys: Seq<Seq<char>>) -> Seq<Seq<char>>
    decreases keys.len(),
{
    if keys.len() == 0 {
        Seq::empty()
    } else {
        let rest = detail_parts(rc, state, keys.drop_last());
        match string_value(rc.spec_attr(state, keys.last())) {
            Some(v) => rest.push(v),
            None => rest,
        }
    }
}

/// `parts` joined by `sep`.
pub open spec fn join(parts: Seq<Seq<char>>, sep: Seq<char>) -> Seq<char>
    decreases parts.len(),
{
    if parts.len() == 0 {
        Seq::empty()
    } else if parts.len() == 1 {
        parts[0]
    } else {
        join(parts.drop_last(), sep) + sep + parts.last()
    }
}

/// The side that bears a change's cost: the new one if the action adds cost, else the old.
pub open spec fn cost_side(action: Action) -> SpecState {
    if action.spec_adds_after() {
        SpecState::After
    } else {
        SpecState::Before
    }
}

/// A short label for what's being priced — the sku value(s) on the cost-bearing side, or
/// "fixed" when the type has no discriminator (a flat monthly charge), or "?" when none of
/// its sku values is a string on that side.
pub open spec fn detail_text(rc: ResourceChange) -> Seq<char> {
    let keys = price_keys_spec(rc.rtype@);
    if keys.len() == 0 {
        "fixed"@
    } else {
        let joined = join(detail_parts(rc, cost_side(rc.action), keys), ", "@);
        if joined.len() == 0 {
            "?"@
        } else {
            joined
        }
    }
}

/// `line` is the priced line of change `rc`.
pub open spec fn line_of<P: Pricer>(pricer: P, rc: ResourceChange, line: CostLine) -> bool {
    &&& change_outcome(pricer, rc) is Ok
    &&& line.address == rc.address
    &&& line.rtype == rc.rtype
    &&& line.action == rc.action
    &&& line.detail@ == detail_text(rc)
    &&& line.delta_monthly.0 == change_outcome(pricer, rc)->Ok_0.0
    &&& line.usage == change_outcome(pricer, rc)->Ok_0.1
}

/// `ne` reports change `rc` as not estimated, with the reason.
pub open spec fn not_estimated_of<P: Pricer>(pricer: P, rc: ResourceChange, ne: NotEstimated) -> bool {
    &&& change_outcome(pricer, rc) is Err
    &&& ne.address == rc.address
    &&& ne.rtype == rc.rtype
    &&& ne.reason == change_outcome(pricer, rc)->Err_0
}

/// The positions, in order, of the changes that get a priced line: every change but a
/// no-op whose outcome is priced.
pub open spec fn priced_positions<P: Pricer>(pricer: P, changes: Seq<ResourceChange>) -> Seq<int>
    decreases changes.len(),
{
    if changes.len() == 0 {
        Seq::empty()
    } else {
        let rest = priced_positions(pricer, changes.drop_last());
        if !(changes.last().action is NoOp) && change_outcome(pricer, changes.last()) is Ok {
            rest.push(changes.len() - 1)
        } else {
            rest
        }
    }
}

/// The positions, in order, of the changes reported as not estimated.
pub open spec fn unpriced_positions<P: Pricer>(pricer: P, changes: Seq<ResourceChange>) -> Seq<int>
    decreases changes.len(),
{
    if changes.len() == 0 {
        Seq::empty()
    } else {
        let rest = unpriced_positions(pricer, changes.drop_last());
        if !(changes.last().action is NoOp) && change_outcome(pricer, changes.last()) is Err {
            rest.push(changes.len() - 1)
        } else {
            rest
        }
    }
}

/// The net of the lines' deltas, added in order.
pub open spec fn net_of(lines: Seq<CostLine>) -> int
    decreases lines.len(),
{
    if lines.len() == 0 {
        0
    } else {
        saturate(net_of(lines.drop_last()) + lines.last().delta_monthly.0)
    }
}

/// The report for `changes` priced by `pricer`: one line per priced change and one
/// not-estimated entry per unpriced change, each in plan order; no-ops appear in neither;
/// the net is the sum of the lines' deltas.
pub open spec fn report_of<P: Pricer>(pricer: P, changes: Seq<ResourceChange>, report: Report) -> bool {
    let priced = priced_positions(pricer, changes);
    let unpriced = unpriced_positions(pricer, changes);
    &&& report.lines@.len() == priced.len()
    &&& forall|j: int| 0 <= j < priced.len() ==> line_of(pricer, changes[#[trigger] priced[j]], report.lines@[j])
    &&& report.not_estimated@.len() == unpriced.len()
    &&& forall|j: int| 0 <= j < unpriced.len() ==> not_estimated_of(pricer, changes[#[trigger] unpriced[j]], report.not_estimated@[j])
    &&& report.net_monthly.0 == net_of(report.lines@)
}

/// Price one side of a change, or say why not.
fn price_side<P: Pricer>(rc: &ResourceChange, state: SpecState, pricer: &P) -> (r: Result<Price, NotEstimatedReason>)
    ensures
        r == side_price(*pricer, *rc, state),
{
    if state == SpecState::After {
        let keys = price_keys(rc.rtype.as_str());
        let mut i: usize = 0;
        while i < keys.len()
            invariant
                state == SpecState::After,
                i <= keys@.len(),
                keys@.len() == price_keys_spec(rc.rtype@).len(),
                forall|j: int| 0 <= j < keys@.len() ==> (#[trigger] keys@[j])@ == price_keys_spec(rc.rtype@)[j],
                forall|j: int| 0 <= j < i ==> !rc.spec_is_unknown(#[trigger] price_keys_spec(rc.rtype@)[j]),
            decreases keys@.len() - i,
        {
            if rc.is_unknown(keys[i]) {
                assert(rc.spec_is_unknown(price_keys_spec(rc.rtype@)[i as int]));
                return Err(NotEstimatedReason::ValueUnknown);
            }
            i = i + 1;
        }
    }
    match rc.attributes(state) {
        None => Err(NotEstimatedReason::Unpriced),
        Some(attrs) => match pricer.price(rc.rtype.as_str(), attrs) {
            Some(p) => Ok(p),
            None => Err(NotEstimatedReason::Unpriced),
        },
    }
}

/// A short label for what's being priced: see [`detail_text`].
fn detail_for(rc: &ResourceChange, state: SpecState) -> (r: String)
    requires
        state == cost_side(rc.action),
    ensures
        r@ == detail_text(*rc),
{
    let keys = price_keys(rc.rtype.as_str());
    if keys.len() == 0 {
        return "fixed".to_owned();
    }
    let ghost spec_keys = price_keys_spec(rc.rtype@);
    let mut detail = String::new();
    let mut count: usize = 0;
    let mut i: usize = 0;
    while i < keys.len()
        invariant
            i <= keys@.len(),
            keys@.len() == spec_keys.len(),
            spec_keys == price_keys_spec(rc.rtype@),
            forall|j: int| 0 <= j < keys@.len() ==> (#[trigger] keys@[j])@ == spec_keys[j],
            count == detail_parts(*rc, state, spec_keys.take(i as int)).len(),
            detail@ == join(detail_parts(*rc, state, spec_keys.take(i as int)), ", "@),
        decreases keys@.len() - i,
    {
        assert(spec_keys.take(i + 1).drop_last() =~= spec_keys.take(i as int));
        match rc.attr(state, keys[i]) {
            Some(v) => match v.as_str() {
                Some(text) => {
                    if count > 0 {
                        detail.append(", ");
                    }
                    detail.append(text);
                    count = count + 1;
                },
                None => {},
            },
            None => {},
        }
        i = i + 1;
    }
    assert(spec_keys.take(keys@.len() as int) =~= spec_keys);
    if detail.unicode_len() == 0 {
        "?".to_owned()
    } else {
        detail
    }
}

/// Price a single change, or explain why it can't be estimated.
///
/// Delta is uniform across actions via the IR's own helpers: add the `after` cost when the
/// action creates value, remove the `before` cost when it destroys value. Create is `+after`,
/// Delete is `-before`, Update/Replace is `after - before`.
fn price_change<P: Pricer>(rc: &ResourceChange, pricer: &P) -> (r: Result<CostLine, NotEstimatedReason>)
    ensures
        match r {
            Ok(line) => line_of(*pricer, *rc, line),
            Err(reason) => change_outcome(*pricer, *rc) == Err::<(int, Option<UsageRate>), NotEstimatedReason>(reason),
        },
{
    let adds = rc.action.adds_after();
    let removes = rc.action.removes_before();
    let after = if adds {
        match price_side(rc, SpecState::After, pricer) {
            Ok(p) => Some(p),
            Err(e) => return Err(e),
        }
    } else {
        None
    };
    let before = if removes {
        match price_side(rc, SpecState::Before, pricer) {
            Ok(p) => Some(p),
            Err(e) => return Err(e),
        }
    } else {
        None
    };
    let after_fixed: i64 = match &after {
        Some(p) => p.fixed_monthly.0,
        None => 0,
    };
    let before_fixed: i64 = match &before {
        Some(p) => p.fixed_monthly.0,
        None => 0,
    };
    // Surface the rate from the cost-bearing side: the new one if we add cost, else the old
    // one that goes away. Presentation (sign, prefix) is the renderer's job.
    let usage = if adds {
        match after {
            Some(p) => p.usage,
            None => None,
        }
    } else {
        match before {
            Some(p) => p.usage,
            None => None,
        }
    };
    let detail_state = if adds { SpecState::After } else { SpecState::Before };
    Ok(CostLine {
        address: rc.address.clone(),
        rtype: rc.rtype.clone(),
        action: rc.action,
        detail: detail_for(rc, detail_state),
        delta_monthly: Money(saturating_difference(after_fixed, before_fixed)),
        usage,
    })
}

/// Compute the monthly cost delta for a set of resource changes.
pub fn compute<P: Pricer>(changes: &[ResourceChange], pricer: &P) -> (report: Report)
    ensures
        report_of(*pricer, changes@, report),
{
    let mut lines: Vec<CostLine> = Vec::new();
    let mut not_estimated: Vec<NotEstimated> = Vec::new();
    let mut net: i64 = 0;
    let mut i: usize = 0;
    while i < changes.len()
        invariant
            i <= changes@.len(),
            lines@.len() == priced_positions(*pricer, changes@.take(i as int)).len(),
            forall|j: int| 0 <= j < lines@.len() ==> {
                let k = #[trigger] priced_positions(*pricer, changes@.take(i as int))[j];
                0 <= k < i && line_of(*pricer, changes@[k], lines@[j])
            },
            not_estimated@.len() == unpriced_positions(*pricer, changes@.take(i as int)).len(),
            forall|j: int| 0 <= j < not_estimated@.len() ==> {
                let k = #[trigger] unpriced_positions(*pricer, changes@.take(i as int))[j];
                0 <= k < i && not_estimated_of(*pricer, changes@[k], not_estimated@[j])
            },
            net == net_of(lines@),
        decreases changes@.len() - i,
    {
        let ghost prefix = changes@.take(i + 1);
        assert(prefix.drop_last() =~= changes@.take(i as int));
        assert(prefix.last() == changes@[i as int]);
        let rc = &changes[i];
        // No-ops carry no cost change: never a $0 line.
        if rc.action != Action::NoOp {
            match price_change(rc, pricer) {
                Ok(line) => {
                    let ghost old_lines = lines@;
                    net = saturating_sum(net, line.delta_monthly.0);
                    lines.push(line);
                    assert(lines@.drop_last() =~= old_lines);
                },
                Err(reason) => {
                    not_estimated.push(NotEstimated {
                        address: rc.address.clone(),
                        rtype: rc.rtype.clone(),
                        reason,
                    });
                },
            }
        }
        i = i + 1;
    }
    assert(changes@.take(changes@.len() as int) =~= changes@);
    Report { lines, net_monthly: Money(net), not_estimated }
}

/// The report's net monthly change is an increase of more than `budget`.
pub fn exceeds_budget(report: &Report, budget: Money) -> (r: bool)
    ensures
        r == (report.net_monthly.0 > budget.0),
{
    report.net_monthly.0 > budget.0
}

} // verus!
