//! Properties of the library as a whole, stated over the specifications of its functions
//! and proved.

use vstd::prelude::*;
use crate::adapters::terraform::{
    action_for, attributes_of, names_of, string_of,
    change_keys, change_well_formed, detail_keys, kept_changes, normalized_change, plan_change_items, plan_format_version,
    plan_keys, plan_outcome_ok, plan_well_formed, ParseError,
};
use crate::catalog::{builtin_entries, row_for};
use crate::cost::{
    detail_parts, detail_text, NotEstimated,
    change_outcome, net_of, price_key_unknown, priced_positions, report_of,
    saturate, side_price, unpriced_positions, CostLine, NotEstimatedReason, Report,
};
use crate::ir::{Action, Attributes, ResourceChange, SpecState};
use crate::json::{
    key_count, keys_unrepeated, lemma_key_count_insert, lemma_key_count_update, lemma_member_insert,
    lemma_member_update, member, field, JsonValue,
};
use crate::pricing::{catalog_price, price_keys_spec, row_is, string_value, PriceRow, Pricer, UsageRate};
use crate::report::{
    header_text, net_text, not_estimated_rows, reason_text, report_text, table_text,
    change_label, change_width, colored, detail_width, longest_detail, longest_label, money_text,
    rounded_cents, action_name, reason_name,
};
use crate::text::{decimal, pad_right, zero_padded};

verus! {

/// The signed monthly delta of a priced change, by action: a create adds the new cost, a
/// delete removes the old cost, and an update or a replace costs the new minus the old.
pub proof fn law_delta_by_action<P: Pricer>(pricer: P, rc: ResourceChange)
    requires
        change_outcome(pricer, rc) is Ok,
    ensures
        ({
            let delta = change_outcome(pricer, rc)->Ok_0.0;
            let after = side_price(pricer, rc, SpecState::After);
            let before = side_price(pricer, rc, SpecState::Before);
            &&& rc.action == Action::Create ==> after is Ok && delta == saturate(
                after->Ok_0.fixed_monthly.0 as int,
            )
            &&& rc.action == Action::Delete ==> before is Ok && delta == saturate(
                -(before->Ok_0.fixed_monthly.0 as int),
            )
            &&& (rc.action == Action::Update || rc.action == Action::Replace) ==> after is Ok
                && before is Ok && delta == saturate(
                after->Ok_0.fixed_monthly.0 - before->Ok_0.fixed_monthly.0,
            )
        }),
{
}

/// The usage rate shown beside a priced change is that of its cost-bearing side: the new
/// side's rate (or none) when the action adds the new spec, else the rate of the old side
/// that goes away.
pub proof fn law_usage_from_cost_bearing_side<P: Pricer>(pricer: P, rc: ResourceChange)
    requires
        change_outcome(pricer, rc) is Ok,
    ensures
        ({
            let usage = change_outcome(pricer, rc)->Ok_0.1;
            let after = side_price(pricer, rc, SpecState::After);
            let before = side_price(pricer, rc, SpecState::Before);
            &&& rc.action.spec_adds_after() ==> after is Ok && usage == after->Ok_0.usage
            &&& rc.action == Action::Delete ==> before is Ok && usage == before->Ok_0.usage
            &&& rc.action is NoOp ==> usage is None
        }),
{
}

/// A change whose price-determining attribute is computed at apply is never priced, nor
/// called unpriced: when its action needs the new spec, it is not estimated because the
/// value is unknown.
pub proof fn law_unknown_price_key_is_not_estimated<P: Pricer>(pricer: P, rc: ResourceChange)
    requires
        rc.action.spec_adds_after(),
        price_key_unknown(rc),
    ensures
        change_outcome(pricer, rc) == Err::<(int, Option<UsageRate>), NotEstimatedReason>(
            NotEstimatedReason::ValueUnknown,
        ),
{
}

/// The positions of the changes with a priced line are exactly the changes, other than
/// no-ops, whose outcome is priced; the positions of the not-estimated entries are exactly
/// the other changes that are not no-ops. Both lists are in plan order without repeats.
pub proof fn law_positions<P: Pricer>(pricer: P, changes: Seq<ResourceChange>)
    ensures
        forall|i: int| #![trigger priced_positions(pricer, changes).contains(i)]
            priced_positions(pricer, changes).contains(i) <==> (0 <= i < changes.len()
                && !(changes[i].action is NoOp) && change_outcome(pricer, changes[i]) is Ok),
        forall|i: int| #![trigger unpriced_positions(pricer, changes).contains(i)]
            unpriced_positions(pricer, changes).contains(i) <==> (0 <= i < changes.len()
                && !(changes[i].action is NoOp) && change_outcome(pricer, changes[i]) is Err),
        forall|a: int, b: int| 0 <= a < b < priced_positions(pricer, changes).len()
            ==> priced_positions(pricer, changes)[a] < priced_positions(pricer, changes)[b],
        forall|a: int, b: int| 0 <= a < b < unpriced_positions(pricer, changes).len()
            ==> unpriced_positions(pricer, changes)[a] < unpriced_positions(pricer, changes)[b],
    decreases changes.len(),
{
    if changes.len() > 0 {
        let prefix = changes.drop_last();
        law_positions(pricer, prefix);
        assert forall|i: int| 0 <= i < prefix.len() implies prefix[i] == changes[i] by {}
        let p = priced_positions(pricer, prefix);
        let u = unpriced_positions(pricer, prefix);
        assert forall|i: int| #![trigger p.contains(i)] p.contains(i) ==> 0 <= i < prefix.len() by {}
        assert forall|i: int| #![trigger u.contains(i)] u.contains(i) ==> 0 <= i < prefix.len() by {}
        assert forall|i: int| #![trigger priced_positions(pricer, changes).contains(i)]
            priced_positions(pricer, changes).contains(i) <==> (0 <= i < changes.len()
                && !(changes[i].action is NoOp) && change_outcome(pricer, changes[i]) is Ok) by {
            let full = priced_positions(pricer, changes);
            if full.contains(i) {
                let k = choose|k: int| 0 <= k < full.len() && full[k] == i;
                if k < p.len() {
                    assert(p.contains(i));
                }
            }
            if 0 <= i < prefix.len() && !(changes[i].action is NoOp) && change_outcome(pricer, changes[i]) is Ok {
                assert(p.contains(i));
                let k = choose|k: int| 0 <= k < p.len() && p[k] == i;
                assert(full[k] == i);
            }
            if i == changes.len() - 1 && !(changes[i].action is NoOp) && change_outcome(pricer, changes[i]) is Ok {
                assert(full[full.len() - 1] == i);
            }
        }
        assert forall|i: int| #![trigger unpriced_positions(pricer, changes).contains(i)]
            unpriced_positions(pricer, changes).contains(i) <==> (0 <= i < changes.len()
                && !(changes[i].action is NoOp) && change_outcome(pricer, changes[i]) is Err) by {
            let full = unpriced_positions(pricer, changes);
            if full.contains(i) {
                let k = choose|k: int| 0 <= k < full.len() && full[k] == i;
                if k < u.len() {
                    assert(u.contains(i));
                }
            }
            if 0 <= i < prefix.len() && !(changes[i].action is NoOp) && change_outcome(pricer, changes[i]) is Err {
                assert(u.contains(i));
                let k = choose|k: int| 0 <= k < u.len() && u[k] == i;
                assert(full[k] == i);
            }
            if i == changes.len() - 1 && !(changes[i].action is NoOp) && change_outcome(pricer, changes[i]) is Err {
                assert(full[full.len() - 1] == i);
            }
        }
        assert forall|a: int, b: int| 0 <= a < b < priced_positions(pricer, changes).len()
            implies priced_positions(pricer, changes)[a] < priced_positions(pricer, changes)[b] by {
            if b == p.len() {
                assert(p.contains(p[a]));
            }
        }
        assert forall|a: int, b: int| 0 <= a < b < unpriced_positions(pricer, changes).len()
            implies unpriced_positions(pricer, changes)[a] < unpriced_positions(pricer, changes)[b] by {
            if b == u.len() {
                assert(u.contains(u[a]));
            }
        }
    }
}

/// The number of changes that are not no-ops.
pub open spec fn counted_changes(changes: Seq<ResourceChange>) -> nat
    decreases changes.len(),
{
    if changes.len() == 0 {
        0
    } else {
        counted_changes(changes.drop_last()) + if changes.last().action is NoOp { 0nat } else { 1nat }
    }
}

/// Every change but a no-op lands in the report exactly once: as a priced line or as a
/// not-estimated entry.
pub proof fn law_every_change_reported<P: Pricer>(pricer: P, changes: Seq<ResourceChange>, report: Report)
    requires
        report_of(pricer, changes, report),
    ensures
        report.lines@.len() + report.not_estimated@.len() == counted_changes(changes),
{
    lemma_position_counts(pricer, changes);
}

proof fn lemma_position_counts<P: Pricer>(pricer: P, changes: Seq<ResourceChange>)
    ensures
        priced_positions(pricer, changes).len() + unpriced_positions(pricer, changes).len()
            == counted_changes(changes),
    decreases changes.len(),
{
    if changes.len() > 0 {
        lemma_position_counts(pricer, changes.drop_last());
    }
}

/// The exact sum of the lines' deltas.
pub open spec fn sum_of_deltas(lines: Seq<CostLine>) -> int
    decreases lines.len(),
{
    if lines.len() == 0 {
        0
    } else {
        sum_of_deltas(lines.drop_last()) + lines.last().delta_monthly.0
    }
}

/// The net is the sum of the priced lines' deltas — usage rates and not-estimated changes
/// never enter it — as long as every running total fits the amount's range.
pub proof fn law_net_is_sum_of_lines<P: Pricer>(pricer: P, changes: Seq<ResourceChange>, report: Report)
    requires
        report_of(pricer, changes, report),
        forall|k: int| 0 <= k <= report.lines@.len() ==> i64::MIN <= #[trigger] sum_of_deltas(
            report.lines@.take(k),
        ) <= i64::MAX,
    ensures
        report.net_monthly.0 == sum_of_deltas(report.lines@),
{
    lemma_net_is_sum(report.lines@);
}

proof fn lemma_net_is_sum(lines: Seq<CostLine>)
    requires
        forall|k: int| 0 <= k <= lines.len() ==> i64::MIN <= #[trigger] sum_of_deltas(lines.take(k)) <= i64::MAX,
    ensures
        net_of(lines) == sum_of_deltas(lines),
    decreases lines.len(),
{
    if lines.len() > 0 {
        let prefix = lines.drop_last();
        assert forall|k: int| 0 <= k <= prefix.len() implies i64::MIN <= #[trigger] sum_of_deltas(
            prefix.take(k),
        ) <= i64::MAX by {
            assert(prefix.take(k) =~= lines.take(k));
        }
        lemma_net_is_sum(prefix);
        assert(lines.take(lines.len() as int) =~= lines);
    }
}

/// Lines that differ only in their usage rates have the same net: usage is never summed.
pub proof fn law_usage_not_in_net(a: Seq<CostLine>, b: Seq<CostLine>)
    requires
        a.len() == b.len(),
        forall|i: int| 0 <= i < a.len() ==> (#[trigger] a[i]).delta_monthly == b[i].delta_monthly,
    ensures
        net_of(a) == net_of(b),
    decreases a.len(),
{
    if a.len() > 0 {
        law_usage_not_in_net(a.drop_last(), b.drop_last());
    }
}

/// A catalog never prices anything for a region none of its rows is for.
pub proof fn law_other_region_unpriced(region: Seq<char>, rows: Seq<PriceRow>, rtype: Seq<char>, sku: Seq<char>)
    requires
        forall|i: int| 0 <= i < rows.len() ==> (#[trigger] rows[i]).region@ != region,
    ensures
        catalog_price(region, rows, rtype, sku) is None,
    decreases rows.len(),
{
    if rows.len() > 0 {
        law_other_region_unpriced(region, rows.drop_last(), rtype, sku);
    }
}

/// The plan reader keeps only changes with a cost impact: none of them is a no-op.
pub proof fn law_kept_changes_cost_bearing(items: Seq<JsonValue>)
    ensures
        forall|j: int| 0 <= j < kept_changes(items).len() ==> !(#[trigger] kept_changes(items)[j].action is NoOp),
        kept_changes(items).len() <= items.len(),
    decreases items.len(),
{
    if items.len() > 0 {
        law_kept_changes_cost_bearing(items.drop_last());
    }
}

/// An amount that rounds to zero cents shows as `+$0.00`, never `-$0.00`.
pub proof fn law_zero_cents_unsigned(micros: int)
    requires
        rounded_cents(micros) == 0,
    ensures
        money_text(micros) == "+$0.00"@,
{
    reveal_strlit("+$0.00");
    reveal_strlit("+");
    reveal_strlit("$");
    reveal_strlit(".");
    assert(decimal(0) == seq!['0']);
    assert(zero_padded(0, 2) =~= seq!['0', '0']);
    assert(money_text(micros) =~= "+$0.00"@);
}

/// Color is never added when it is off, nor to an amount that shows as $0.00.
pub proof fn law_color_only_when_visible(text: Seq<char>, micros: int, color: bool)
    ensures
        !color ==> colored(text, micros, color) == text,
        rounded_cents(micros) == 0 ==> colored(text, micros, color) == text,
{
}

/// Every CHANGE and DETAIL cell of the table is padded to its column's full width, so the
/// amounts of all rows start at the same display column.
pub proof fn law_columns_align(lines: Seq<CostLine>)
    ensures
        forall|i: int| 0 <= i < lines.len() ==> pad_right(change_label(#[trigger] lines[i]), change_width(lines)).len()
            == change_width(lines),
        forall|i: int| 0 <= i < lines.len() ==> pad_right((#[trigger] lines[i]).detail@, detail_width(lines)).len()
            == detail_width(lines),
{
    lemma_longest(lines);
}

proof fn lemma_longest(lines: Seq<CostLine>)
    ensures
        forall|i: int| 0 <= i < lines.len() ==> change_label(#[trigger] lines[i]).len() <= longest_label(lines),
        forall|i: int| 0 <= i < lines.len() ==> (#[trigger] lines[i]).detail@.len() <= longest_detail(lines),
    decreases lines.len(),
{
    if lines.len() > 0 {
        lemma_longest(lines.drop_last());
        assert forall|i: int| 0 <= i < lines.len() - 1 implies lines[i] == lines.drop_last()[i] by {}
    }
}

/// The JSON schema names every action and every not-estimated reason differently.
pub proof fn law_schema_names_distinct(a: Action, b: Action, r: NotEstimatedReason, s: NotEstimatedReason)
    ensures
        a != b ==> action_name(a) != action_name(b),
        r != s ==> reason_name(r) != reason_name(s),
{
    reveal_strlit("create");
    reveal_strlit("update");
    reveal_strlit("delete");
    reveal_strlit("replace");
    reveal_strlit("no-op");
    reveal_strlit("value_unknown");
    reveal_strlit("unpriced");
    if a != b {
        if action_name(a) == action_name(b) {
            assert(action_name(a)[0] == action_name(b)[0]);
            assert(action_name(a).len() == action_name(b).len());
            assert(action_name(a)[1] == action_name(b)[1]);
        }
    }
    if r != s {
        if reason_name(r) == reason_name(s) {
            assert(reason_name(r)[0] == reason_name(s)[0]);
        }
    }
}

/// Two plan documents read the same: they are equally well formed, carry the same
/// `format_version`, and have resource changes (or not) that keep the same changes in the
/// same order.
pub open spec fn same_plan_reading(a: JsonValue, b: JsonValue) -> bool {
    &&& plan_well_formed(a) == plan_well_formed(b)
    &&& plan_format_version(a) == plan_format_version(b)
    &&& (plan_change_items(a) is Some) == (plan_change_items(b) is Some)
    &&& plan_change_items(a) is Some ==> kept_changes(plan_change_items(a)->0) == kept_changes(
        plan_change_items(b)->0,
    )
}

/// Two resource changes read the same: they are equally well formed and give the same
/// change, or both none.
pub open spec fn same_change_reading(a: JsonValue, b: JsonValue) -> bool {
    &&& change_well_formed(a) == change_well_formed(b)
    &&& normalized_change(a) == normalized_change(b)
}

/// Inserting a member under a key outside `keys` leaves unchanged whether `keys` repeat.
proof fn lemma_unrepeated_insert(
    entries: Seq<(String, JsonValue)>,
    pos: int,
    extra: (String, JsonValue),
    keys: Seq<Seq<char>>,
)
    requires
        0 <= pos <= entries.len(),
        forall|i: int| 0 <= i < keys.len() ==> keys[i] != extra.0@,
    ensures
        keys_unrepeated(entries.insert(pos, extra), keys) == keys_unrepeated(entries, keys),
{
    assert forall|i: int| 0 <= i < keys.len() implies key_count(entries.insert(pos, extra), #[trigger] keys[i])
        == key_count(entries, keys[i]) by {
        lemma_key_count_insert(entries, pos, extra, keys[i]);
    }
}

/// Replacing a member's value, keeping its key, leaves unchanged whether `keys` repeat.
proof fn lemma_unrepeated_update(entries: Seq<(String, JsonValue)>, j: int, v: JsonValue, keys: Seq<Seq<char>>)
    requires
        0 <= j < entries.len(),
    ensures
        keys_unrepeated(entries.update(j, (entries[j].0, v)), keys) == keys_unrepeated(entries, keys),
{
    assert forall|i: int| 0 <= i < keys.len() implies key_count(
        entries.update(j, (entries[j].0, v)),
        #[trigger] keys[i],
    ) == key_count(entries, keys[i]) by {
        lemma_key_count_update(entries, j, v, keys[i]);
    }
}

/// Documents that read the same are read alike: the same changes, or an error of the same
/// kind (with the same version named, for an unsupported format).
pub proof fn law_same_reading_same_outcome(
    a: JsonValue,
    b: JsonValue,
    r: Result<Vec<ResourceChange>, ParseError>,
)
    requires
        same_plan_reading(a, b),
    ensures
        plan_outcome_ok(a, r) == plan_outcome_ok(b, r),
{
}

/// A plan document's members other than `format_version` and `resource_changes` are
/// ignored: inserting one anywhere among its members leaves the reading unchanged.
pub proof fn law_unknown_members_ignored(
    entries: Vec<(String, JsonValue)>,
    pos: int,
    extra: (String, JsonValue),
    bigger: Vec<(String, JsonValue)>,
)
    requires
        0 <= pos <= entries@.len(),
        bigger@ == entries@.insert(pos, extra),
        extra.0@ != "format_version"@,
        extra.0@ != "resource_changes"@,
    ensures
        same_plan_reading(JsonValue::Object(entries), JsonValue::Object(bigger)),
        forall|r: Result<Vec<ResourceChange>, ParseError>|
            plan_outcome_ok(JsonValue::Object(entries), r) == #[trigger] plan_outcome_ok(
                JsonValue::Object(bigger),
                r,
            ),
{
    lemma_member_insert(entries@, pos, extra, "format_version"@);
    lemma_member_insert(entries@, pos, extra, "resource_changes"@);
    lemma_unrepeated_insert(entries@, pos, extra, plan_keys());
    let a = JsonValue::Object(entries);
    let b = JsonValue::Object(bigger);
    assert forall|r: Result<Vec<ResourceChange>, ParseError>|
        plan_outcome_ok(a, r) == #[trigger] plan_outcome_ok(b, r) by {
        law_same_reading_same_outcome(a, b, r);
    }
}

/// A resource change's members other than `address`, `type`, `name`, `mode` and `change`
/// are ignored: inserting one anywhere among its members leaves its reading unchanged.
pub proof fn law_unknown_change_members_ignored(
    entries: Vec<(String, JsonValue)>,
    pos: int,
    extra: (String, JsonValue),
    bigger: Vec<(String, JsonValue)>,
)
    requires
        0 <= pos <= entries@.len(),
        bigger@ == entries@.insert(pos, extra),
        extra.0@ != "address"@,
        extra.0@ != "type"@,
        extra.0@ != "name"@,
        extra.0@ != "mode"@,
        extra.0@ != "change"@,
    ensures
        same_change_reading(JsonValue::Object(entries), JsonValue::Object(bigger)),
{
    lemma_member_insert(entries@, pos, extra, "address"@);
    lemma_member_insert(entries@, pos, extra, "type"@);
    lemma_member_insert(entries@, pos, extra, "name"@);
    lemma_member_insert(entries@, pos, extra, "mode"@);
    lemma_member_insert(entries@, pos, extra, "change"@);
    lemma_unrepeated_insert(entries@, pos, extra, change_keys());
}

/// The members of a resource change's `change` object other than `actions`, `before`,
/// `after` and `after_unknown` are ignored: inserting one anywhere among them leaves the
/// change's reading unchanged.
pub proof fn law_unknown_change_detail_members_ignored(
    entries: Vec<(String, JsonValue)>,
    j: int,
    detail: Vec<(String, JsonValue)>,
    pos: int,
    extra: (String, JsonValue),
    bigger_detail: Vec<(String, JsonValue)>,
    bigger: Vec<(String, JsonValue)>,
)
    requires
        0 <= j < entries@.len(),
        entries@[j].0@ == "change"@,
        entries@[j].1 == JsonValue::Object(detail),
        0 <= pos <= detail@.len(),
        bigger_detail@ == detail@.insert(pos, extra),
        extra.0@ != "actions"@,
        extra.0@ != "before"@,
        extra.0@ != "after"@,
        extra.0@ != "after_unknown"@,
        bigger@ == entries@.update(j, (entries@[j].0, JsonValue::Object(bigger_detail))),
    ensures
        same_change_reading(JsonValue::Object(entries), JsonValue::Object(bigger)),
{
    let new_value = JsonValue::Object(bigger_detail);
    assert(bigger@ == entries@.update(j, (entries@[j].0, new_value)));
    lemma_member_update(entries@, j, new_value, "address"@);
    lemma_member_update(entries@, j, new_value, "type"@);
    lemma_member_update(entries@, j, new_value, "name"@);
    lemma_member_update(entries@, j, new_value, "mode"@);
    lemma_member_update(entries@, j, new_value, "change"@);
    lemma_member_insert(detail@, pos, extra, "actions"@);
    lemma_member_insert(detail@, pos, extra, "before"@);
    lemma_member_insert(detail@, pos, extra, "after"@);
    lemma_member_insert(detail@, pos, extra, "after_unknown"@);
    lemma_unrepeated_update(entries@, j, new_value, change_keys());
    lemma_unrepeated_insert(detail@, pos, extra, detail_keys());
}

/// Replacing one element by another that normalizes the same keeps the same changes.
proof fn lemma_kept_changes_update(items: Seq<JsonValue>, i: int, item: JsonValue)
    requires
        0 <= i < items.len(),
        normalized_change(items[i]) == normalized_change(item),
    ensures
        kept_changes(items.update(i, item)) == kept_changes(items),
    decreases items.len(),
{
    let updated = items.update(i, item);
    if i == items.len() - 1 {
        assert(updated.drop_last() =~= items.drop_last());
    } else {
        assert(updated.drop_last() =~= items.drop_last().update(i, item));
        lemma_kept_changes_update(items.drop_last(), i, item);
    }
}

/// Replacing one of a plan's resource changes by one that reads the same leaves the plan's
/// reading, and so what reading it gives, unchanged.
pub proof fn law_change_with_same_reading(
    entries: Vec<(String, JsonValue)>,
    j: int,
    items: Vec<JsonValue>,
    i: int,
    item: JsonValue,
    bigger_items: Vec<JsonValue>,
    bigger: Vec<(String, JsonValue)>,
)
    requires
        0 <= j < entries@.len(),
        entries@[j].0@ == "resource_changes"@,
        entries@[j].1 == JsonValue::Array(items),
        0 <= i < items@.len(),
        same_change_reading(items@[i], item),
        bigger_items@ == items@.update(i, item),
        bigger@ == entries@.update(j, (entries@[j].0, JsonValue::Array(bigger_items))),
    ensures
        same_plan_reading(JsonValue::Object(entries), JsonValue::Object(bigger)),
        forall|r: Result<Vec<ResourceChange>, ParseError>|
            plan_outcome_ok(JsonValue::Object(entries), r) == #[trigger] plan_outcome_ok(
                JsonValue::Object(bigger),
                r,
            ),
{
    let new_value = JsonValue::Array(bigger_items);
    lemma_member_update(entries@, j, new_value, "format_version"@);
    lemma_member_update(entries@, j, new_value, "resource_changes"@);
    lemma_unrepeated_update(entries@, j, new_value, plan_keys());
    lemma_kept_changes_update(items@, i, item);
    let a = JsonValue::Object(entries);
    let b = JsonValue::Object(bigger);
    if member(bigger@, "resource_changes"@) != member(entries@, "resource_changes"@) {
        assert forall|k: int| 0 <= k < items@.len() implies change_well_formed(
            #[trigger] bigger_items@[k],
        ) == change_well_formed(items@[k]) by {
            if k != i {
                assert(bigger_items@[k] == items@[k]);
            }
        }
        assert(bigger_items@.len() == items@.len());
        if forall|k: int| 0 <= k < items@.len() ==> change_well_formed(#[trigger] items@[k]) {
            assert forall|k: int| 0 <= k < bigger_items@.len() implies change_well_formed(
                #[trigger] bigger_items@[k],
            ) by {
                assert(change_well_formed(items@[k]));
            }
        }
        if forall|k: int| 0 <= k < bigger_items@.len() ==> change_well_formed(
            #[trigger] bigger_items@[k],
        ) {
            assert forall|k: int| 0 <= k < items@.len() implies change_well_formed(
                #[trigger] items@[k],
            ) by {
                assert(change_well_formed(bigger_items@[k]));
            }
        }
    }
    assert(same_plan_reading(a, b));
    assert forall|r: Result<Vec<ResourceChange>, ParseError>|
        plan_outcome_ok(a, r) == #[trigger] plan_outcome_ok(b, r) by {
        law_same_reading_same_outcome(a, b, r);
    }
}

/// `b2` is the resource change `b` with one member of a name the schema does not read
/// inserted, either among its own members or among those of its `change` object.
pub open spec fn change_gains_unmodeled_member(b: JsonValue, b2: JsonValue) -> bool {
    ||| exists|entries: Vec<(String, JsonValue)>, pos: int, extra: (String, JsonValue), bigger: Vec<(String, JsonValue)>|
        #![trigger entries@.insert(pos, extra), bigger@]
        b == JsonValue::Object(entries) && b2 == JsonValue::Object(bigger) && 0 <= pos
            <= entries@.len() && bigger@ == entries@.insert(pos, extra) && !change_keys().contains(
            extra.0@,
        )
    ||| exists|
        entries: Vec<(String, JsonValue)>,
        j: int,
        detail: Vec<(String, JsonValue)>,
        pos: int,
        extra: (String, JsonValue),
        bigger_detail: Vec<(String, JsonValue)>,
        bigger: Vec<(String, JsonValue)>,
    |
        #![trigger detail@.insert(pos, extra), entries@[j], bigger_detail@, bigger@]
        b == JsonValue::Object(entries) && b2 == JsonValue::Object(bigger) && 0 <= j
            < entries@.len() && entries@[j].0@ == "change"@ && entries@[j].1 == JsonValue::Object(
            detail,
        ) && 0 <= pos <= detail@.len() && bigger_detail@ == detail@.insert(pos, extra)
            && !detail_keys().contains(extra.0@) && bigger@ == entries@.update(
            j,
            (entries@[j].0, JsonValue::Object(bigger_detail)),
        )
}

/// `b2` is the plan document `b` with one member of a name the schema does not read
/// inserted: among the document's own members, or inside one of its resource changes.
pub open spec fn plan_gains_unmodeled_member(b: JsonValue, b2: JsonValue) -> bool {
    ||| exists|entries: Vec<(String, JsonValue)>, pos: int, extra: (String, JsonValue), bigger: Vec<(String, JsonValue)>|
        #![trigger entries@.insert(pos, extra), bigger@]
        b == JsonValue::Object(entries) && b2 == JsonValue::Object(bigger) && 0 <= pos
            <= entries@.len() && bigger@ == entries@.insert(pos, extra) && !plan_keys().contains(
            extra.0@,
        )
    ||| exists|
        entries: Vec<(String, JsonValue)>,
        j: int,
        items: Vec<JsonValue>,
        i: int,
        item: JsonValue,
        bigger_items: Vec<JsonValue>,
        bigger: Vec<(String, JsonValue)>,
    |
        #![trigger items@.update(i, item), entries@[j], bigger_items@, bigger@]
        b == JsonValue::Object(entries) && b2 == JsonValue::Object(bigger) && 0 <= j
            < entries@.len() && entries@[j].0@ == "resource_changes"@ && entries@[j].1
            == JsonValue::Array(items) && 0 <= i < items@.len() && change_gains_unmodeled_member(
            items@[i],
            item,
        ) && bigger_items@ == items@.update(i, item) && bigger@ == entries@.update(
            j,
            (entries@[j].0, JsonValue::Array(bigger_items)),
        )
}

/// A resource change that gains a member of a name the schema does not read reads the same.
proof fn lemma_change_gains_unmodeled_member(b: JsonValue, b2: JsonValue)
    requires
        change_gains_unmodeled_member(b, b2),
    ensures
        same_change_reading(b, b2),
{
    reveal_strlit("address");
    reveal_strlit("type");
    reveal_strlit("name");
    reveal_strlit("mode");
    reveal_strlit("change");
    reveal_strlit("actions");
    reveal_strlit("before");
    reveal_strlit("after");
    reveal_strlit("after_unknown");
    let ck = change_keys();
    let dk = detail_keys();
    if exists|entries: Vec<(String, JsonValue)>, pos: int, extra: (String, JsonValue), bigger: Vec<(String, JsonValue)>|
        #![trigger entries@.insert(pos, extra), bigger@]
        b == JsonValue::Object(entries) && b2 == JsonValue::Object(bigger) && 0 <= pos
            <= entries@.len() && bigger@ == entries@.insert(pos, extra) && !change_keys().contains(
            extra.0@,
        ) {
        let (entries, pos, extra, bigger) = choose|
            entries: Vec<(String, JsonValue)>,
            pos: int,
            extra: (String, JsonValue),
            bigger: Vec<(String, JsonValue)>,
        |
            #![trigger entries@.insert(pos, extra), bigger@]
            b == JsonValue::Object(entries) && b2 == JsonValue::Object(bigger) && 0 <= pos
                <= entries@.len() && bigger@ == entries@.insert(pos, extra)
                && !change_keys().contains(extra.0@);
        assert(ck[0] == "address"@ && ck[1] == "type"@ && ck[2] == "name"@ && ck[3] == "mode"@
            && ck[4] == "change"@);
        law_unknown_change_members_ignored(entries, pos, extra, bigger);
    } else {
        let (entries, j, detail, pos, extra, bigger_detail, bigger) = choose|
            entries: Vec<(String, JsonValue)>,
            j: int,
            detail: Vec<(String, JsonValue)>,
            pos: int,
            extra: (String, JsonValue),
            bigger_detail: Vec<(String, JsonValue)>,
            bigger: Vec<(String, JsonValue)>,
        |
            #![trigger detail@.insert(pos, extra), entries@[j], bigger_detail@, bigger@]
            b == JsonValue::Object(entries) && b2 == JsonValue::Object(bigger) && 0 <= j
                < entries@.len() && entries@[j].0@ == "change"@ && entries@[j].1
                == JsonValue::Object(detail) && 0 <= pos <= detail@.len() && bigger_detail@
                == detail@.insert(pos, extra) && !detail_keys().contains(extra.0@) && bigger@
                == entries@.update(j, (entries@[j].0, JsonValue::Object(bigger_detail)));
        assert(dk[0] == "actions"@ && dk[1] == "before"@ && dk[2] == "after"@ && dk[3]
            == "after_unknown"@);
        law_unknown_change_detail_members_ignored(entries, j, detail, pos, extra, bigger_detail, bigger);
    }
}

/// Members of names the schema does not read are ignored, at every level: when each
/// document of `docs` is the one before with one such member inserted (in the document,
/// in a resource change, or in a change's `change` object), the first and the last are
/// read alike — the same changes, or an error of the same kind.
pub proof fn law_unmodeled_members_ignored_in_plan(docs: Seq<JsonValue>)
    requires
        docs.len() >= 1,
        forall|k: int| 0 <= k < docs.len() - 1 ==> #[trigger] plan_gains_unmodeled_member(
            docs[k],
            docs[k + 1],
        ),
    ensures
        same_plan_reading(docs[0], docs.last()),
        forall|r: Result<Vec<ResourceChange>, ParseError>|
            plan_outcome_ok(docs[0], r) == #[trigger] plan_outcome_ok(docs.last(), r),
    decreases docs.len(),
{
    if docs.len() > 1 {
        let prefix = docs.drop_last();
        assert forall|k: int| 0 <= k < prefix.len() - 1 implies #[trigger] plan_gains_unmodeled_member(
            prefix[k],
            prefix[k + 1],
        ) by {
            assert(plan_gains_unmodeled_member(docs[k], docs[k + 1]));
        }
        law_unmodeled_members_ignored_in_plan(prefix);
        let n = docs.len() - 2;
        assert(plan_gains_unmodeled_member(docs[n], docs[n + 1]));
        let b = docs[n];
        let b2 = docs.last();
        assert(docs[n + 1] == b2);
        reveal_strlit("format_version");
        reveal_strlit("resource_changes");
        let pk = plan_keys();
        if exists|entries: Vec<(String, JsonValue)>, pos: int, extra: (String, JsonValue), bigger: Vec<(String, JsonValue)>|
            #![trigger entries@.insert(pos, extra), bigger@]
            b == JsonValue::Object(entries) && b2 == JsonValue::Object(bigger) && 0 <= pos
                <= entries@.len() && bigger@ == entries@.insert(pos, extra)
                && !plan_keys().contains(extra.0@) {
            let (entries, pos, extra, bigger) = choose|
                entries: Vec<(String, JsonValue)>,
                pos: int,
                extra: (String, JsonValue),
                bigger: Vec<(String, JsonValue)>,
            |
                #![trigger entries@.insert(pos, extra), bigger@]
                b == JsonValue::Object(entries) && b2 == JsonValue::Object(bigger) && 0 <= pos
                    <= entries@.len() && bigger@ == entries@.insert(pos, extra)
                    && !plan_keys().contains(extra.0@);
            assert(pk[0] == "format_version"@ && pk[1] == "resource_changes"@);
            law_unknown_members_ignored(entries, pos, extra, bigger);
        } else {
            let (entries, j, items, i, item, bigger_items, bigger) = choose|
                entries: Vec<(String, JsonValue)>,
                j: int,
                items: Vec<JsonValue>,
                i: int,
                item: JsonValue,
                bigger_items: Vec<JsonValue>,
                bigger: Vec<(String, JsonValue)>,
            |
                #![trigger items@.update(i, item), entries@[j], bigger_items@, bigger@]
                b == JsonValue::Object(entries) && b2 == JsonValue::Object(bigger) && 0 <= j
                    < entries@.len() && entries@[j].0@ == "resource_changes"@ && entries@[j].1
                    == JsonValue::Array(items) && 0 <= i < items@.len()
                    && change_gains_unmodeled_member(items@[i], item) && bigger_items@
                    == items@.update(i, item) && bigger@ == entries@.update(
                    j,
                    (entries@[j].0, JsonValue::Array(bigger_items)),
                );
            lemma_change_gains_unmodeled_member(items@[i], item);
            law_change_with_same_reading(entries, j, items, i, item, bigger_items, bigger);
        }
        assert(prefix.last() == b);
        assert forall|r: Result<Vec<ResourceChange>, ParseError>|
            plan_outcome_ok(docs[0], r) == #[trigger] plan_outcome_ok(docs.last(), r) by {
            law_same_reading_same_outcome(docs[0], b, r);
            law_same_reading_same_outcome(b, b2, r);
        }
    }
}

/// The sku values read from a side depend on that side alone.
proof fn lemma_detail_parts_side(a: ResourceChange, b: ResourceChange, state: SpecState, keys: Seq<Seq<char>>)
    requires
        a.side(state) == b.side(state),
    ensures
        detail_parts(a, state, keys) == detail_parts(b, state, keys),
    decreases keys.len(),
{
    if keys.len() > 0 {
        lemma_detail_parts_side(a, b, state, keys.drop_last());
    }
}

/// A change is labelled from its cost-bearing side. When its action adds the new spec
/// (create, update, replace) the label depends on the `after` side alone, and for a type
/// priced by one attribute it is that attribute's value there; a delete is labelled from
/// the `before` side alone in the same way.
pub proof fn law_detail_from_cost_bearing_side(rc: ResourceChange, other: Option<Attributes>)
    ensures
        rc.action.spec_adds_after() ==> detail_text(rc) == detail_text(
            ResourceChange { before: other, ..rc },
        ),
        rc.action is Delete ==> detail_text(rc) == detail_text(ResourceChange { after: other, ..rc }),
        ({
            let keys = price_keys_spec(rc.rtype@);
            let v = string_value(rc.spec_attr(SpecState::After, keys[0]));
            rc.action.spec_adds_after() && keys.len() == 1 && v is Some && v->0.len() > 0
                ==> detail_text(rc) == v->0
        }),
        ({
            let keys = price_keys_spec(rc.rtype@);
            let v = string_value(rc.spec_attr(SpecState::Before, keys[0]));
            rc.action is Delete && keys.len() == 1 && v is Some && v->0.len() > 0 ==> detail_text(rc)
                == v->0
        }),
        price_keys_spec(rc.rtype@).len() == 0 ==> detail_text(rc) == "fixed"@,
        ({
            let keys = price_keys_spec(rc.rtype@);
            let side = if rc.action.spec_adds_after() { SpecState::After } else { SpecState::Before };
            keys.len() == 1 && string_value(rc.spec_attr(side, keys[0])) is None ==> detail_text(rc) == "?"@
        }),
{
    let keys = price_keys_spec(rc.rtype@);
    let no_before = ResourceChange { before: other, ..rc };
    let no_after = ResourceChange { after: other, ..rc };
    lemma_detail_parts_side(rc, no_before, SpecState::After, keys);
    lemma_detail_parts_side(rc, no_after, SpecState::Before, keys);
    if keys.len() == 1 {
        assert(keys.last() == keys[0]);
        assert(detail_parts(rc, SpecState::After, keys.drop_last()) =~= Seq::<Seq<char>>::empty());
        assert(detail_parts(rc, SpecState::Before, keys.drop_last()) =~= Seq::<Seq<char>>::empty());
        let va = string_value(rc.spec_attr(SpecState::After, keys[0]));
        let vb = string_value(rc.spec_attr(SpecState::Before, keys[0]));
        if va is Some {
            assert(detail_parts(rc, SpecState::After, keys) =~= seq![va->0]);
        }
        if vb is Some {
            assert(detail_parts(rc, SpecState::Before, keys) =~= seq![vb->0]);
        } else {
            assert(detail_parts(rc, SpecState::Before, keys) =~= Seq::<Seq<char>>::empty());
        }
        if va is None {
            assert(detail_parts(rc, SpecState::After, keys) =~= Seq::<Seq<char>>::empty());
        }
    }
}

/// Every not-estimated entry is listed, in order and whatever its reason, as one row
/// `    <address> — <reason>`; the reasons read "value computed at apply" and "not in price
/// catalog".
pub proof fn law_not_estimated_listed(nes: Seq<NotEstimated>, ne: NotEstimated)
    ensures
        not_estimated_rows(Seq::empty()) == Seq::<char>::empty(),
        not_estimated_rows(nes.push(ne)) == not_estimated_rows(nes) + ("    "@ + ne.address@ + " — "@
            + reason_text(ne.reason) + "\n"@),
        reason_text(NotEstimatedReason::ValueUnknown) == "value computed at apply"@,
        reason_text(NotEstimatedReason::Unpriced) == "not in price catalog"@,
{
    assert(nes.push(ne).drop_last() =~= nes);
}

/// A text report with entries it could not estimate ends with their count and their rows.
pub proof fn law_report_ends_with_not_estimated(
    report: Report,
    source: Seq<char>,
    region: Seq<char>,
    catalog_date: Seq<char>,
    color: bool,
)
    requires
        report.not_estimated@.len() > 0,
    ensures
        ({
            let t = report_text(report, source, region, catalog_date, color);
            let nes = report.not_estimated@;
            let tail = "\n"@ + "  Not estimated ("@ + decimal(nes.len()) + "):\n"@ + not_estimated_rows(nes);
            t.len() >= tail.len() && t.subrange(t.len() - tail.len(), t.len() as int) == tail
        }),
{
    let t = report_text(report, source, region, catalog_date, color);
    let nes = report.not_estimated@;
    let tail = "\n"@ + "  Not estimated ("@ + decimal(nes.len()) + "):\n"@ + not_estimated_rows(nes);
    let head = header_text(source, region, catalog_date) + table_text(report.lines@, color) + net_text(
        report.net_monthly.0 as int,
        color,
    );
    assert(t =~= head + tail);
    assert(t.subrange(t.len() - tail.len(), t.len() as int) =~= tail);
}

/// The catalog's price for a type and sku in a region is that of the last row of that
/// region with that type and sku: rows before it, and rows of other regions, play no part.
pub proof fn law_catalog_price_last_row(
    region: Seq<char>,
    rows: Seq<PriceRow>,
    rtype: Seq<char>,
    sku: Seq<char>,
    k: int,
)
    requires
        0 <= k < rows.len(),
        rows[k].region@ == region,
        row_is(rows[k], rtype, sku),
        forall|j: int| k < j < rows.len() ==> !((#[trigger] rows[j]).region@ == region && row_is(rows[j], rtype, sku)),
    ensures
        catalog_price(region, rows, rtype, sku) == Some(rows[k].price),
    decreases rows.len(),
{
    if k < rows.len() - 1 {
        assert(rows[rows.len() - 1] == rows.last());
        let prefix = rows.drop_last();
        assert forall|j: int| k < j < prefix.len() implies !((#[trigger] prefix[j]).region@ == region
            && row_is(prefix[j], rtype, sku)) by {
            assert(prefix[j] == rows[j]);
        }
        law_catalog_price_last_row(region, prefix, rtype, sku, k);
    } else {
        assert(rows.last() == rows[k]);
    }
}

/// With no row of the region for a type and sku, the catalog has no price for them.
pub proof fn law_catalog_price_none(region: Seq<char>, rows: Seq<PriceRow>, rtype: Seq<char>, sku: Seq<char>)
    requires
        forall|j: int| 0 <= j < rows.len() ==> !((#[trigger] rows[j]).region@ == region && row_is(rows[j], rtype, sku)),
    ensures
        catalog_price(region, rows, rtype, sku) is None,
    decreases rows.len(),
{
    if rows.len() > 0 {
        assert(rows[rows.len() - 1] == rows.last());
        let prefix = rows.drop_last();
        assert forall|j: int| 0 <= j < prefix.len() implies !((#[trigger] prefix[j]).region@ == region
            && row_is(prefix[j], rtype, sku)) by {
            assert(prefix[j] == rows[j]);
        }
        law_catalog_price_none(region, prefix, rtype, sku);
    }
}

/// A catalog read for a region prices everything as the same catalog with only that
/// region's rows, in the same order: rows of other regions never affect a lookup.
pub proof fn law_catalog_ignores_other_regions(
    region: Seq<char>,
    rows: Seq<PriceRow>,
    rtype: Seq<char>,
    sku: Seq<char>,
)
    ensures
        catalog_price(region, rows, rtype, sku) == catalog_price(
            region,
            rows.filter(|r: PriceRow| r.region@ == region),
            rtype,
            sku,
        ),
    decreases rows.len(),
{
    reveal(Seq::filter);
    if rows.len() > 0 {
        law_catalog_ignores_other_regions(region, rows.drop_last(), rtype, sku);
        let kept = rows.drop_last().filter(|r: PriceRow| r.region@ == region);
        if rows.last().region@ == region {
            assert(rows.filter(|r: PriceRow| r.region@ == region) == kept.push(rows.last()));
            assert(kept.push(rows.last()).drop_last() =~= kept);
        } else {
            assert(rows.filter(|r: PriceRow| r.region@ == region) == kept);
        }
    }
}

/// A resource change is read as written: its address, type and name are the record's
/// fields, its action the one its `actions` name, and, whatever the action, its `before`,
/// `after` and `after_unknown` are those members of its `change` record read as
/// attributes, never swapped or dropped.
pub proof fn law_change_read_as_written(v: JsonValue)
    requires
        change_well_formed(v),
        normalized_change(v) is Some,
    ensures
        ({
            let rc = normalized_change(v)->0;
            let d = field(v, 4, "change"@)->0;
            &&& field(v, 4, "change"@) is Some
            &&& Some(rc.address) == string_of(field(v, 0, "address"@))
            &&& Some(rc.rtype) == string_of(field(v, 1, "type"@))
            &&& Some(rc.name) == string_of(field(v, 2, "name"@))
            &&& string_of(field(v, 3, "mode"@)) matches Some(m) && m@ == "managed"@
            &&& field(d, 0, "actions"@) matches Some(JsonValue::Array(items)) && Some(rc.action)
                == action_for(names_of(items@))
            &&& rc.before == attributes_of(field(d, 1, "before"@))
            &&& rc.after == attributes_of(field(d, 2, "after"@))
            &&& rc.after_unknown == attributes_of(field(d, 3, "after_unknown"@))
        }),
{
}

/// Every change the plan reader keeps is the reading of one of the plan's resource
/// changes, and the changes keep the plan's order.
pub proof fn law_kept_changes_from_items(items: Seq<JsonValue>)
    ensures
        forall|k: int| #![trigger kept_changes(items)[k]] 0 <= k < kept_changes(items).len() ==> exists|j: int|
            0 <= j < items.len() && normalized_change(#[trigger] items[j]) == Some(
                kept_changes(items)[k],
            ),
    decreases items.len(),
{
    if items.len() > 0 {
        let prefix = items.drop_last();
        law_kept_changes_from_items(prefix);
        let kept = kept_changes(items);
        assert forall|k: int| #![trigger kept[k]] 0 <= k < kept.len() implies exists|j: int|
            0 <= j < items.len() && normalized_change(#[trigger] items[j]) == Some(kept[k]) by {
            if k < kept_changes(prefix).len() {
                let j = choose|j: int|
                    0 <= j < prefix.len() && normalized_change(#[trigger] prefix[j]) == Some(
                        kept_changes(prefix)[k],
                    );
                assert(items[j] == prefix[j]);
            } else {
                assert(items[items.len() - 1] == items.last());
            }
        }
    }
}

/// The built-in catalog's monthly price for a type and sku, in millionths of a dollar: the
/// sku's listed hourly rate × 730 hours.
pub open spec fn builtin_monthly(rtype: Seq<char>, sku: Seq<char>) -> Option<int> {
    if rtype == "aws_instance"@ {
        if sku == "t3.micro"@ {
            Some(7_592_000)  // $0.0104/hr
        } else if sku == "t3.small"@ {
            Some(15_184_000)  // $0.0208/hr
        } else if sku == "t3.medium"@ {
            Some(30_368_000)  // $0.0416/hr
        } else if sku == "t3.large"@ {
            Some(60_736_000)  // $0.0832/hr
        } else if sku == "c5.large"@ {
            Some(62_050_000)  // $0.085/hr
        } else if sku == "r5.large"@ {
            Some(91_980_000)  // $0.126/hr
        } else if sku == "m5.large"@ {
            Some(70_080_000)  // $0.096/hr
        } else if sku == "m5.xlarge"@ {
            Some(140_160_000)  // $0.192/hr
        } else {
            None
        }
    } else     if rtype == "aws_db_instance"@ {
        if sku == "db.t3.micro"@ {
            Some(12_410_000)  // $0.017/hr
        } else if sku == "db.t3.small"@ {
            Some(24_820_000)  // $0.034/hr
        } else if sku == "db.t3.medium"@ {
            Some(49_640_000)  // $0.068/hr
        } else if sku == "db.m5.large"@ {
            Some(124_830_000)  // $0.171/hr
        } else {
            None
        }
    } else if rtype == "aws_nat_gateway"@ && sku == ""@ {
        Some(32_850_000)  // $0.045/hr
    } else {
        None
    }
}

/// What the built-in catalog's type and sku names are made of.
proof fn lemma_catalog_names()
    ensures
        "aws_instance"@.len() == 12 && "aws_instance"@[0] == 'a' && "aws_instance"@[3] == '_' && "aws_instance"@[4] == 'i',
        "aws_db_instance"@.len() == 15 && "aws_db_instance"@[0] == 'a' && "aws_db_instance"@[3] == '_' && "aws_db_instance"@[4] == 'd',
        "aws_nat_gateway"@.len() == 15 && "aws_nat_gateway"@[0] == 'a' && "aws_nat_gateway"@[3] == '_' && "aws_nat_gateway"@[4] == 'n',
        ""@.len() == 0,
        "t3.micro"@.len() == 8 && "t3.micro"@[0] == 't' && "t3.micro"@[3] == 'm',
        "t3.small"@.len() == 8 && "t3.small"@[0] == 't' && "t3.small"@[3] == 's',
        "t3.medium"@.len() == 9 && "t3.medium"@[0] == 't' && "t3.medium"@[3] == 'm',
        "t3.large"@.len() == 8 && "t3.large"@[0] == 't' && "t3.large"@[3] == 'l',
        "c5.large"@.len() == 8 && "c5.large"@[0] == 'c' && "c5.large"@[3] == 'l',
        "r5.large"@.len() == 8 && "r5.large"@[0] == 'r' && "r5.large"@[3] == 'l',
        "m5.large"@.len() == 8 && "m5.large"@[0] == 'm' && "m5.large"@[3] == 'l',
        "m5.xlarge"@.len() == 9 && "m5.xlarge"@[0] == 'm' && "m5.xlarge"@[3] == 'x',
        "db.t3.micro"@.len() == 11 && "db.t3.micro"@[3] == 't' && "db.t3.micro"@[6] == 'm',
        "db.t3.small"@.len() == 11 && "db.t3.small"@[3] == 't' && "db.t3.small"@[6] == 's',
        "db.t3.medium"@.len() == 12 && "db.t3.medium"@[3] == 't' && "db.t3.medium"@[6] == 'm',
        "db.m5.large"@.len() == 11 && "db.m5.large"@[3] == 'm' && "db.m5.large"@[6] == 'l',
{
    reveal_strlit("aws_instance");
    reveal_strlit("aws_db_instance");
    reveal_strlit("aws_nat_gateway");
    reveal_strlit("");
    reveal_strlit("t3.micro");
    reveal_strlit("t3.small");
    reveal_strlit("t3.medium");
    reveal_strlit("t3.large");
    reveal_strlit("c5.large");
    reveal_strlit("r5.large");
    reveal_strlit("m5.large");
    reveal_strlit("m5.xlarge");
    reveal_strlit("db.t3.micro");
    reveal_strlit("db.t3.small");
    reveal_strlit("db.t3.medium");
    reveal_strlit("db.m5.large");
}

/// The built-in catalog prices exactly the listed skus, each at its listed hourly rate ×
/// 730 (so `m5.xlarge` at $140.16, twice `m5.large`), in us-east-1; only the NAT gateway
/// carries a usage rate, $0.045 per GB processed.
#[verifier::rlimit(60)]
pub proof fn law_builtin_catalog_prices(rows: Seq<PriceRow>, rtype: Seq<char>, sku: Seq<char>)
    requires
        rows.len() == builtin_entries().len(),
        forall|i: int| 0 <= i < rows.len() ==> row_for(#[trigger] rows[i], builtin_entries()[i]),
    ensures
        (catalog_price("us-east-1"@, rows, rtype, sku) is Some) == (builtin_monthly(rtype, sku) is Some),
        builtin_monthly(rtype, sku) is Some ==> catalog_price("us-east-1"@, rows, rtype, sku)->0.fixed_monthly.0
            == builtin_monthly(rtype, sku)->0,
        catalog_price("us-east-1"@, rows, rtype, sku) matches Some(p) ==> (p.usage is Some <==> rtype
            == "aws_nat_gateway"@),
        rtype == "aws_nat_gateway"@ ==> (catalog_price("us-east-1"@, rows, rtype, sku) matches Some(p)
            ==> (p.usage matches Some(u) && u.rate.0 == 45_000 && u.unit@ == "GB processed"@)),
{
    lemma_catalog_names();
    let region = "us-east-1"@;
    let e = builtin_entries();
    assert(row_for(rows[0], e[0]));
    assert(row_for(rows[1], e[1]));
    assert(row_for(rows[2], e[2]));
    assert(row_for(rows[3], e[3]));
    assert(row_for(rows[4], e[4]));
    assert(row_for(rows[5], e[5]));
    assert(row_for(rows[6], e[6]));
    assert(row_for(rows[7], e[7]));
    assert(row_for(rows[8], e[8]));
    assert(row_for(rows[9], e[9]));
    assert(row_for(rows[10], e[10]));
    assert(row_for(rows[11], e[11]));
    assert(row_for(rows[12], e[12]));
    if rtype == "aws_instance"@ && sku == "t3.micro"@ {
        law_catalog_price_last_row(region, rows, rtype, sku, 0);
    } else if rtype == "aws_instance"@ && sku == "t3.small"@ {
        law_catalog_price_last_row(region, rows, rtype, sku, 1);
    } else if rtype == "aws_instance"@ && sku == "t3.medium"@ {
        law_catalog_price_last_row(region, rows, rtype, sku, 2);
    } else if rtype == "aws_instance"@ && sku == "t3.large"@ {
        law_catalog_price_last_row(region, rows, rtype, sku, 3);
    } else if rtype == "aws_instance"@ && sku == "c5.large"@ {
        law_catalog_price_last_row(region, rows, rtype, sku, 4);
    } else if rtype == "aws_instance"@ && sku == "r5.large"@ {
        law_catalog_price_last_row(region, rows, rtype, sku, 5);
    } else if rtype == "aws_instance"@ && sku == "m5.large"@ {
        law_catalog_price_last_row(region, rows, rtype, sku, 6);
    } else if rtype == "aws_instance"@ && sku == "m5.xlarge"@ {
        law_catalog_price_last_row(region, rows, rtype, sku, 7);
    } else if rtype == "aws_db_instance"@ && sku == "db.t3.micro"@ {
        law_catalog_price_last_row(region, rows, rtype, sku, 8);
    } else if rtype == "aws_db_instance"@ && sku == "db.t3.small"@ {
        law_catalog_price_last_row(region, rows, rtype, sku, 9);
    } else if rtype == "aws_db_instance"@ && sku == "db.t3.medium"@ {
        law_catalog_price_last_row(region, rows, rtype, sku, 10);
    } else if rtype == "aws_db_instance"@ && sku == "db.m5.large"@ {
        law_catalog_price_last_row(region, rows, rtype, sku, 11);
    } else if rtype == "aws_nat_gateway"@ && sku == ""@ {
        law_catalog_price_last_row(region, rows, rtype, sku, 12);
    } else {
        law_catalog_price_none(region, rows, rtype, sku);
    }
}

/// The next size up within an instance family of the built-in catalog.
pub open spec fn next_size(rtype: Seq<char>, sku: Seq<char>) -> Option<Seq<char>> {
    if rtype == "aws_instance"@ {
        if sku == "t3.micro"@ {
            Some("t3.small"@)
        } else if sku == "t3.small"@ {
            Some("t3.medium"@)
        } else if sku == "t3.medium"@ {
            Some("t3.large"@)
        } else if sku == "m5.large"@ {
            Some("m5.xlarge"@)
        } else {
            None
        }
    } else if rtype == "aws_db_instance"@ {
        if sku == "db.t3.micro"@ {
            Some("db.t3.small"@)
        } else if sku == "db.t3.small"@ {
            Some("db.t3.medium"@)
        } else {
            None
        }
    } else {
        None
    }
}

/// In the built-in catalog each size of a family costs twice the size below it, as the
/// listed rates do: `t3.small` twice `t3.micro`, `m5.xlarge` twice `m5.large`, and so on.
pub proof fn law_builtin_sizes_double(rows: Seq<PriceRow>, rtype: Seq<char>, sku: Seq<char>)
    requires
        rows.len() == builtin_entries().len(),
        forall|i: int| 0 <= i < rows.len() ==> row_for(#[trigger] rows[i], builtin_entries()[i]),
        next_size(rtype, sku) is Some,
    ensures
        ({
            let small = catalog_price("us-east-1"@, rows, rtype, sku);
            let big = catalog_price("us-east-1"@, rows, rtype, next_size(rtype, sku)->0);
            small is Some && big is Some && big->0.fixed_monthly.0 == 2 * small->0.fixed_monthly.0
        }),
{
    lemma_catalog_names();
    law_builtin_catalog_prices(rows, rtype, sku);
    law_builtin_catalog_prices(rows, rtype, next_size(rtype, sku)->0);
}

} // verus!
