//! Render a cost [`Report`] for humans (`render_text`), or as the document of the stable
//! JSON schema (`json_report`).
//!
//! The text renderer aligns columns, shows usage rates as a separate per-line suffix (never
//! folded into the net), and optionally colors amounts (the caller decides, e.g. by TTY).

use vstd::prelude::*;
use crate::cost::{CostLine, NotEstimated, NotEstimatedReason, Report};
use crate::ir::Action;
use crate::pricing::{Money, UsageRate};
use crate::text::{decimal, zero_padded, pad_right, push_decimal, push_zero_padded, push_padded};

verus! {

/// Header context the report itself doesn't carry — supplied by the caller.
pub struct RenderMeta<'a> {
    pub source: &'a str,
    pub region: &'a str,
    pub catalog_date: &'a str,
}

// --- symbols and names ---

/// The glyph that marks an action in the text report.
pub open spec fn glyph(action: Action) -> char {
    match action {
        Action::Create => '+',
        Action::Delete => '-',
        Action::Update => '~',
        Action::Replace => '±',
        Action::NoOp => ' ',
    }
}

fn glyph_text(action: Action) -> (r: &'static str)
    ensures
        r@ == seq![glyph(action)],
{
    proof {
        reveal_strlit("+");
        reveal_strlit("-");
        reveal_strlit("~");
        reveal_strlit("±");
        reveal_strlit(" ");
    }
    let r = match action {
        Action::Create => "+",
        Action::Delete => "-",
        Action::Update => "~",
        Action::Replace => "±",
        Action::NoOp => " ",
    };
    assert(r@ =~= seq![glyph(action)]);
    r
}

/// The glyph that marks an action in the text report.
pub fn action_glyph(action: Action) -> (r: char)
    ensures
        r == glyph(action),
{
    glyph_text(action).get_char(0)
}

/// What the text report says about a change it could not estimate.
pub open spec fn reason_text(reason: NotEstimatedReason) -> Seq<char> {
    match reason {
        NotEstimatedReason::ValueUnknown => "value computed at apply"@,
        NotEstimatedReason::Unpriced => "not in price catalog"@,
    }
}

/// What the text report says about a change it could not estimate.
pub fn reason_message(reason: NotEstimatedReason) -> (r: &'static str)
    ensures
        r@ == reason_text(reason),
{
    match reason {
        NotEstimatedReason::ValueUnknown => "value computed at apply",
        NotEstimatedReason::Unpriced => "not in price catalog",
    }
}

/// The name of an action in the JSON schema.
pub open spec fn action_name(action: Action) -> Seq<char> {
    match action {
        Action::Create => "create"@,
        Action::Update => "update"@,
        Action::Delete => "delete"@,
        Action::Replace => "replace"@,
        Action::NoOp => "no-op"@,
    }
}

/// The name of an action in the JSON schema.
pub fn action_str(action: Action) -> (r: &'static str)
    ensures
        r@ == action_name(action),
{
    match action {
        Action::Create => "create",
        Action::Update => "update",
        Action::Delete => "delete",
        Action::Replace => "replace",
        Action::NoOp => "no-op",
    }
}

/// The name of a not-estimated reason in the JSON schema.
pub open spec fn reason_name(reason: NotEstimatedReason) -> Seq<char> {
    match reason {
        NotEstimatedReason::ValueUnknown => "value_unknown"@,
        NotEstimatedReason::Unpriced => "unpriced"@,
    }
}

/// The name of a not-estimated reason in the JSON schema.
pub fn reason_str(reason: NotEstimatedReason) -> (r: &'static str)
    ensures
        r@ == reason_name(reason),
{
    match reason {
        NotEstimatedReason::ValueUnknown => "value_unknown",
        NotEstimatedReason::Unpriced => "unpriced",
    }
}

// --- amounts ---

/// An amount in whole cents, rounded half away from zero.
pub open spec fn rounded_cents(micros: int) -> int {
    if micros >= 0 {
        (micros + 5000) / 10000
    } else {
        -((-micros + 5000) / 10000)
    }
}

/// An amount as signed dollars and cents, e.g. `+$60.74` or `-$49.64`. The sign comes from
/// the *rounded* cents, so a sub-cent amount never prints as `-$0.00`.
pub open spec fn money_text(micros: int) -> Seq<char> {
    let cents = rounded_cents(micros);
    let a = if cents < 0 { -cents } else { cents };
    (if cents < 0 { "-"@ } else { "+"@ }) + "$"@ + decimal((a / 100) as nat) + "."@ + zero_padded(
        (a % 100) as nat,
        2,
    )
}

/// A rate in dollars with three decimals, e.g. `0.045`: the amount is rounded to the
/// nearest thousandth, an exact tie going to the even thousandth (`0.0625` shows as
/// `0.062`), and a negative rate keeps its sign.
pub open spec fn rate_text(micros: int) -> Seq<char> {
    let m = if micros < 0 { -micros } else { micros };
    let q = m / 1000;
    let rem = m % 1000;
    let a = if rem > 500 || (rem == 500 && q % 2 == 1) { q + 1 } else { q };
    (if micros < 0 { "-"@ } else { ""@ }) + decimal((a / 1000) as nat) + "."@ + zero_padded(
        (a % 1000) as nat,
        3,
    )
}

/// The per-line suffix that shows a usage rate, e.g. `   (+ $0.045/GB processed)`.
pub open spec fn usage_text(usage: Option<UsageRate>) -> Seq<char> {
    match usage {
        Some(u) => "   (+ $"@ + rate_text(u.rate.0 as int) + "/"@ + u.unit@ + ")"@,
        None => Seq::empty(),
    }
}

/// `text` colored by direction: red raises cost, green lowers it, no color for an amount
/// under half a cent (which shows as $0.00), nor when color is off.
pub open spec fn colored(text: Seq<char>, micros: int, color: bool) -> Seq<char> {
    if !color || (-5000 < micros < 5000) {
        text
    } else {
        "\x1b["@ + (if micros > 0 { "31"@ } else { "32"@ }) + "m"@ + text + "\x1b[0m"@
    }
}

fn money(m: Money) -> (r: String)
    ensures
        r@ == money_text(m.0 as int),
{
    proof {
        reveal_strlit("-");
        reveal_strlit("+");
        reveal_strlit("$");
        reveal_strlit(".");
    }
    let x = m.0 as i128;
    let cents: i128 = if x >= 0 {
        (x + 5000) / 10000
    } else {
        -((-x + 5000) / 10000)
    };
    let a: u64 = if cents < 0 { (-cents) as u64 } else { cents as u64 };
    let mut out = String::new();
    if cents < 0 {
        out.append("-");
    } else {
        out.append("+");
    }
    out.append("$");
    push_decimal(&mut out, a / 100);
    out.append(".");
    push_zero_padded(&mut out, a % 100, 2);
    assert(out@ =~= money_text(m.0 as int));
    out
}

fn rate(m: Money) -> (r: String)
    ensures
        r@ == rate_text(m.0 as int),
{
    proof {
        reveal_strlit("-");
        reveal_strlit("");
        reveal_strlit(".");
    }
    let x = m.0 as i128;
    let mag: u64 = if x < 0 { (-x) as u64 } else { x as u64 };
    let q: u64 = mag / 1000;
    let rem: u64 = mag % 1000;
    let a: u64 = if rem > 500 || (rem == 500 && q % 2 == 1) { q + 1 } else { q };
    let mut out = String::new();
    if x < 0 {
        out.append("-");
    }
    push_decimal(&mut out, a / 1000);
    out.append(".");
    push_zero_padded(&mut out, a % 1000, 3);
    assert(out@ =~= rate_text(m.0 as int));
    out
}

fn usage_suffix(usage: &Option<UsageRate>) -> (r: String)
    ensures
        r@ == usage_text(*usage),
{
    match usage {
        Some(u) => {
            let mut out = String::new();
            out.append("   (+ $");
            let r = rate(u.rate);
            out.append(r.as_str());
            out.append("/");
            out.append(u.unit.as_str());
            out.append(")");
            assert(out@ =~= usage_text(*usage));
            out
        },
        None => String::new(),
    }
}

/// Color an amount by direction: see [`colored`].
fn colorize(text: &str, amount: i64, color: bool) -> (r: String)
    ensures
        r@ == colored(text@, amount as int, color),
{
    let mut out = String::new();
    if !color || (-5000 < amount && amount < 5000) {
        out.append(text);
        assert(out@ =~= colored(text@, amount as int, color));
        return out;
    }
    out.append("\x1b[");
    if amount > 0 {
        out.append("31");
    } else {
        out.append("32");
    }
    out.append("m");
    out.append(text);
    out.append("\x1b[0m");
    assert(out@ =~= colored(text@, amount as int, color));
    out
}

// --- text layout ---

/// The CHANGE cell of a line: its action glyph and address, e.g. `+ aws_instance.web`.
pub open spec fn change_label(line: CostLine) -> Seq<char> {
    seq![glyph(line.action)] + " "@ + line.address@
}

/// The longest CHANGE cell among `lines`, in characters.
pub open spec fn longest_label(lines: Seq<CostLine>) -> nat
    decreases lines.len(),
{
    if lines.len() == 0 {
        0
    } else {
        let rest = longest_label(lines.drop_last());
        let n = change_label(lines.last()).len();
        if n > rest { n } else { rest }
    }
}

/// The longest DETAIL cell among `lines`, in characters.
pub open spec fn longest_detail(lines: Seq<CostLine>) -> nat
    decreases lines.len(),
{
    if lines.len() == 0 {
        0
    } else {
        let rest = longest_detail(lines.drop_last());
        let n = lines.last().detail@.len();
        if n > rest { n } else { rest }
    }
}

/// The width of the CHANGE column: its longest cell, and at least the header's 6.
pub open spec fn change_width(lines: Seq<CostLine>) -> nat {
    if longest_label(lines) > 6 { longest_label(lines) } else { 6 }
}

/// The width of the DETAIL column: its longest cell, and at least the header's 6.
pub open spec fn detail_width(lines: Seq<CostLine>) -> nat {
    if longest_detail(lines) > 6 { longest_detail(lines) } else { 6 }
}

/// One table row of the text report.
pub open spec fn row_text(line: CostLine, wc: nat, wd: nat, color: bool) -> Seq<char> {
    "  "@ + pad_right(change_label(line), wc) + "  "@ + pad_right(line.detail@, wd) + "  "@ + colored(
        money_text(line.delta_monthly.0 as int),
        line.delta_monthly.0 as int,
        color,
    ) + usage_text(line.usage) + "\n"@
}

/// The table rows for `lines`, in order.
pub open spec fn rows_text(lines: Seq<CostLine>, wc: nat, wd: nat, color: bool) -> Seq<char>
    decreases lines.len(),
{
    if lines.len() == 0 {
        Seq::empty()
    } else {
        rows_text(lines.drop_last(), wc, wd, color) + row_text(lines.last(), wc, wd, color)
    }
}

/// The table of priced lines; nothing when there are none.
pub open spec fn table_text(lines: Seq<CostLine>, color: bool) -> Seq<char> {
    if lines.len() == 0 {
        Seq::empty()
    } else {
        let wc = change_width(lines);
        let wd = detail_width(lines);
        "\n"@ + "  "@ + pad_right("CHANGE"@, wc) + "  "@ + pad_right("DETAIL"@, wd) + "  Δ MONTHLY\n"@
            + rows_text(lines, wc, wd, color)
    }
}

/// The first line of the text report.
pub open spec fn header_text(source: Seq<char>, region: Seq<char>, catalog_date: Seq<char>) -> Seq<char> {
    "costctl: forecast for "@ + source + "  (prices: aws/"@ + region + ", catalog "@ + catalog_date
        + ")\n"@
}

/// The net line of the text report.
pub open spec fn net_text(net: int, color: bool) -> Seq<char> {
    "\n"@ + "  Net monthly change:  "@ + colored(money_text(net) + "/mo"@, net, color) + "\n"@
}

/// One not-estimated entry of the text report.
pub open spec fn not_estimated_row(ne: NotEstimated) -> Seq<char> {
    "    "@ + ne.address@ + " — "@ + reason_text(ne.reason) + "\n"@
}

/// The not-estimated entries, in order.
pub open spec fn not_estimated_rows(nes: Seq<NotEstimated>) -> Seq<char>
    decreases nes.len(),
{
    if nes.len() == 0 {
        Seq::empty()
    } else {
        not_estimated_rows(nes.drop_last()) + not_estimated_row(nes.last())
    }
}

/// The not-estimated section; nothing when every change was estimated.
pub open spec fn not_estimated_text(nes: Seq<NotEstimated>) -> Seq<char> {
    if nes.len() == 0 {
        Seq::empty()
    } else {
        "\n"@ + "  Not estimated ("@ + decimal(nes.len()) + "):\n"@ + not_estimated_rows(nes)
    }
}

/// The whole text report.
pub open spec fn report_text(report: Report, source: Seq<char>, region: Seq<char>, catalog_date: Seq<char>, color: bool) -> Seq<char> {
    header_text(source, region, catalog_date) + table_text(report.lines@, color) + net_text(
        report.net_monthly.0 as int,
        color,
    ) + not_estimated_text(report.not_estimated@)
}

fn change_cell(line: &CostLine) -> (r: String)
    ensures
        r@ == change_label(*line),
{
    let mut out = String::new();
    out.append(glyph_text(line.action));
    out.append(" ");
    out.append(line.address.as_str());
    proof {
        reveal_strlit(" ");
    }
    assert(out@ =~= change_label(*line));
    out
}

fn push_row(out: &mut String, label: &str, line: &CostLine, wc: usize, wd: usize, color: bool)
    requires
        label@ == change_label(*line),
    ensures
        final(out)@ == old(out)@ + row_text(*line, wc as nat, wd as nat, color),
{
    let amount = money(line.delta_monthly);
    let tinted = colorize(amount.as_str(), line.delta_monthly.0, color);
    let suffix = usage_suffix(&line.usage);
    let mut row = String::new();
    row.append("  ");
    push_padded(&mut row, label, wc);
    row.append("  ");
    push_padded(&mut row, line.detail.as_str(), wd);
    row.append("  ");
    row.append(tinted.as_str());
    row.append(suffix.as_str());
    row.append("\n");
    assert(row@ =~= row_text(*line, wc as nat, wd as nat, color));
    out.append(row.as_str());
}

/// Append the table of priced lines: see [`table_text`].
fn push_table(out: &mut String, lines: &Vec<CostLine>, color: bool)
    ensures
        final(out)@ == old(out)@ + table_text(lines@, color),
{
    let mut labels: Vec<String> = Vec::new();
    let mut wc: usize = 6;
    let mut wd: usize = 6;
    let mut i: usize = 0;
    while i < lines.len()
        invariant
            i <= lines@.len(),
            labels@.len() == i,
            forall|j: int| 0 <= j < i ==> (#[trigger] labels@[j])@ == change_label(lines@[j]),
            wc == (if longest_label(lines@.take(i as int)) > 6 { longest_label(lines@.take(i as int)) } else { 6 }),
            wd == (if longest_detail(lines@.take(i as int)) > 6 { longest_detail(lines@.take(i as int)) } else { 6 }),
        decreases lines@.len() - i,
    {
        assert(lines@.take(i + 1).drop_last() =~= lines@.take(i as int));
        let label = change_cell(&lines[i]);
        let n = label.unicode_len();
        if n > wc {
            wc = n;
        }
        let d = lines[i].detail.unicode_len();
        if d > wd {
            wd = d;
        }
        labels.push(label);
        i = i + 1;
    }
    assert(lines@.take(lines@.len() as int) =~= lines@);
    if lines.len() == 0 {
        assert(old(out)@ + table_text(lines@, color) =~= old(out)@);
        return;
    }
    proof {
        reveal_strlit("CHANGE");
        reveal_strlit("DETAIL");
    }
    let mut top = String::new();
    top.append("\n");
    top.append("  ");
    push_padded(&mut top, "CHANGE", wc);
    top.append("  ");
    push_padded(&mut top, "DETAIL", wd);
    top.append("  Δ MONTHLY\n");
    let mut body = String::new();
    let mut i: usize = 0;
    while i < lines.len()
        invariant
            i <= lines@.len(),
            labels@.len() == lines@.len(),
            forall|j: int| 0 <= j < lines@.len() ==> (#[trigger] labels@[j])@ == change_label(lines@[j]),
            body@ == rows_text(lines@.take(i as int), wc as nat, wd as nat, color),
        decreases lines@.len() - i,
    {
        assert(lines@.take(i + 1).drop_last() =~= lines@.take(i as int));
        push_row(&mut body, labels[i].as_str(), &lines[i], wc, wd, color);
        i = i + 1;
    }
    assert(lines@.take(lines@.len() as int) =~= lines@);
    out.append(top.as_str());
    out.append(body.as_str());
    assert(final(out)@ =~= old(out)@ + table_text(lines@, color));
}

/// Append the not-estimated section: see [`not_estimated_text`].
fn push_not_estimated(out: &mut String, nes: &Vec<NotEstimated>)
    ensures
        final(out)@ == old(out)@ + not_estimated_text(nes@),
{
    if nes.len() == 0 {
        assert(old(out)@ + not_estimated_text(nes@) =~= old(out)@);
        return;
    }
    let mut top = String::new();
    top.append("\n");
    top.append("  Not estimated (");
    push_decimal(&mut top, nes.len() as u64);
    top.append("):\n");
    let mut body = String::new();
    let mut i: usize = 0;
    while i < nes.len()
        invariant
            i <= nes@.len(),
            body@ == not_estimated_rows(nes@.take(i as int)),
        decreases nes@.len() - i,
    {
        assert(nes@.take(i + 1).drop_last() =~= nes@.take(i as int));
        let ghost before = body@;
        body.append("    ");
        body.append(nes[i].address.as_str());
        body.append(" — ");
        body.append(reason_message(nes[i].reason));
        body.append("\n");
        assert(body@ =~= before + not_estimated_row(nes@[i as int]));
        i = i + 1;
    }
    assert(nes@.take(nes@.len() as int) =~= nes@);
    out.append(top.as_str());
    out.append(body.as_str());
    assert(final(out)@ =~= old(out)@ + not_estimated_text(nes@));
}

/// Render the report as aligned, optionally-colored text.
pub fn render_text(report: &Report, meta: &RenderMeta, color: bool) -> (r: String)
    ensures
        r@ == report_text(*report, meta.source@, meta.region@, meta.catalog_date@, color),
{
    let mut out = String::new();
    out.append("costctl: forecast for ");
    out.append(meta.source);
    out.append("  (prices: aws/");
    out.append(meta.region);
    out.append(", catalog ");
    out.append(meta.catalog_date);
    out.append(")\n");
    let ghost head = header_text(meta.source@, meta.region@, meta.catalog_date@);
    assert(out@ =~= head);
    push_table(&mut out, &report.lines, color);
    let mut net = money(report.net_monthly);
    net.append("/mo");
    let tinted = colorize(net.as_str(), report.net_monthly.0, color);
    let mut net_line = String::new();
    net_line.append("\n");
    net_line.append("  Net monthly change:  ");
    net_line.append(tinted.as_str());
    net_line.append("\n");
    assert(net_line@ =~= net_text(report.net_monthly.0 as int, color));
    out.append(net_line.as_str());
    push_not_estimated(&mut out, &report.not_estimated);
    assert(out@ =~= report_text(*report, meta.source@, meta.region@, meta.catalog_date@, color));
    out
}

// --- JSON schema document (stable wire format, decoupled from internal types) ---

/// A usage rate in the JSON report.
pub struct JsonUsage<'a> {
    pub rate: Money,
    pub unit: &'a str,
}

/// A priced line in the JSON report.
pub struct JsonLine<'a> {
    pub address: &'a str,
    pub resource_type: &'a str,
    pub action: &'static str,
    pub detail: &'a str,
    pub delta_monthly: Money,
    /// Absent when the line has no usage rate.
    pub usage: Option<JsonUsage<'a>>,
}

/// A not-estimated change in the JSON report.
pub struct JsonNotEstimated<'a> {
    pub address: &'a str,
    pub resource_type: &'a str,
    pub reason: &'static str,
}

/// The JSON report document: what the stable schema holds for a report.
pub struct JsonReport<'a> {
    pub source: &'a str,
    pub region: &'a str,
    pub catalog_date: &'a str,
    pub currency: &'static str,
    pub net_monthly: Money,
    pub lines: Vec<JsonLine<'a>>,
    pub not_estimated: Vec<JsonNotEstimated<'a>>,
}

/// `j` is the JSON form of priced line `line`.
pub open spec fn json_line_of(j: JsonLine, line: CostLine) -> bool {
    &&& j.address@ == line.address@
    &&& j.resource_type@ == line.rtype@
    &&& j.action@ == action_name(line.action)
    &&& j.detail@ == line.detail@
    &&& j.delta_monthly == line.delta_monthly
    &&& match line.usage {
        Some(u) => j.usage matches Some(ju) && ju.rate == u.rate && ju.unit@ == u.unit@,
        None => j.usage is None,
    }
}

/// `j` is the JSON form of not-estimated change `ne`.
pub open spec fn json_not_estimated_of(j: JsonNotEstimated, ne: NotEstimated) -> bool {
    &&& j.address@ == ne.address@
    &&& j.resource_type@ == ne.rtype@
    &&& j.reason@ == reason_name(ne.reason)
}

fn json_line<'a>(line: &'a CostLine) -> (r: JsonLine<'a>)
    ensures
        json_line_of(r, *line),
{
    JsonLine {
        address: line.address.as_str(),
        resource_type: line.rtype.as_str(),
        action: action_str(line.action),
        detail: line.detail.as_str(),
        delta_monthly: line.delta_monthly,
        usage: match &line.usage {
            Some(u) => Some(JsonUsage { rate: u.rate, unit: u.unit.as_str() }),
            None => None,
        },
    }
}

/// The document of the stable JSON schema for a report: the header context, currency
/// `USD`, the net, one entry per priced line and one per not-estimated change, in order.
pub fn json_report<'a>(report: &'a Report, meta: &RenderMeta<'a>) -> (r: JsonReport<'a>)
    ensures
        r.source@ == meta.source@,
        r.region@ == meta.region@,
        r.catalog_date@ == meta.catalog_date@,
        r.currency@ == "USD"@,
        r.net_monthly == report.net_monthly,
        r.lines@.len() == report.lines@.len(),
        forall|i: int| 0 <= i < r.lines@.len() ==> json_line_of(#[trigger] r.lines@[i], report.lines@[i]),
        r.not_estimated@.len() == report.not_estimated@.len(),
        forall|i: int| 0 <= i < r.not_estimated@.len() ==> json_not_estimated_of(
            #[trigger] r.not_estimated@[i],
            report.not_estimated@[i],
        ),
{
    let mut lines: Vec<JsonLine<'a>> = Vec::new();
    let mut i: usize = 0;
    while i < report.lines.len()
        invariant
            i <= report.lines@.len(),
            lines@.len() == i,
            forall|j: int| 0 <= j < i ==> json_line_of(#[trigger] lines@[j], report.lines@[j]),
        decreases report.lines@.len() - i,
    {
        lines.push(json_line(&report.lines[i]));
        i = i + 1;
    }
    let mut not_estimated: Vec<JsonNotEstimated<'a>> = Vec::new();
    let mut i: usize = 0;
    while i < report.not_estimated.len()
        invariant
            i <= report.not_estimated@.len(),
            not_estimated@.len() == i,
            forall|j: int| 0 <= j < i ==> json_not_estimated_of(#[trigger] not_estimated@[j], report.not_estimated@[j]),
        decreases report.not_estimated@.len() - i,
    {
        let ne = &report.not_estimated[i];
        not_estimated.push(JsonNotEstimated {
            address: ne.address.as_str(),
            resource_type: ne.rtype.as_str(),
            reason: reason_str(ne.reason),
        });
        i = i + 1;
    }
    JsonReport {
        source: meta.source,
        region: meta.region,
        catalog_date: meta.catalog_date,
        currency: "USD",
        net_monthly: report.net_monthly,
        lines,
        not_estimated,
    }
}

} // verus!
