use costctl_core::cost::{CostLine, NotEstimated, NotEstimatedReason, Report};
use costctl_core::ir::Action;
use costctl_core::pricing::{Money, UsageRate};
use costctl_core::report::{
    action_glyph, action_str, json_report, reason_message, reason_str, render_text, RenderMeta,
};

fn usd(x: f64) -> Money {
    Money((x * 1e6).round() as i64)
}

fn meta() -> RenderMeta<'static> {
    RenderMeta { source: "plan.json", region: "us-east-1", catalog_date: "2026-06-10" }
}

fn sample() -> Report {
    Report {
        lines: vec![
            CostLine {
                address: "aws_instance.web".into(),
                rtype: "aws_instance".into(),
                action: Action::Create,
                detail: "t3.large".into(),
                delta_monthly: usd(60.0),
                usage: None,
            },
            CostLine {
                address: "aws_nat_gateway.main".into(),
                rtype: "aws_nat_gateway".into(),
                action: Action::Create,
                detail: "fixed".into(),
                delta_monthly: usd(32.85),
                usage: Some(UsageRate { rate: usd(0.045), unit: "GB processed".into() }),
            },
            CostLine {
                address: "aws_db_instance.legacy".into(),
                rtype: "aws_db_instance".into(),
                action: Action::Delete,
                detail: "db.t3.medium".into(),
                delta_monthly: usd(-49.64),
                usage: None,
            },
        ],
        net_monthly: usd(60.0 + 32.85 - 49.64),
        not_estimated: vec![NotEstimated {
            address: "aws_lambda.handler".into(),
            rtype: "aws_lambda".into(),
            reason: NotEstimatedReason::Unpriced,
        }],
    }
}

#[test]
fn text_shows_header_rows_net_and_not_estimated() {
    let out = render_text(&sample(), &meta(), false);
    assert!(out.contains("forecast for plan.json"));
    assert!(out.contains("aws/us-east-1, catalog 2026-06-10"));
    assert!(out.contains("+ aws_instance.web"));
    assert!(out.contains("t3.large"));
    assert!(out.contains("+$60.00"));
    assert!(out.contains("(+ $0.045/GB processed)")); // usage shown as a rate
    assert!(out.contains("- aws_db_instance.legacy"));
    assert!(out.contains("-$49.64"));
    assert!(out.contains("Net monthly change:  +$43.21/mo")); // fixed deltas only
    assert!(out.contains("Not estimated (1):"));
    assert!(out.contains("aws_lambda.handler — not in price catalog"));
}

#[test]
fn columns_align_and_plain_text_has_no_ansi() {
    let out = render_text(&sample(), &meta(), false);
    assert!(!out.contains('\x1b'));
    // Detail column is padded to a common width, so amounts start at the same column.
    // Compare display columns (char count), not byte offsets — glyphs can be multi-byte.
    let col = |needle: &str| {
        let line = out.lines().find(|l| l.contains(needle)).unwrap();
        line.chars().take_while(|&c| c != '$').count()
    };
    assert_eq!(col("aws_instance.web"), col("aws_db_instance.legacy"));
}

#[test]
fn color_enabled_emits_ansi() {
    assert!(render_text(&sample(), &meta(), true).contains("\x1b["));
}

#[test]
fn json_is_valid_and_stable() {
    let report = sample();
    let m = meta();
    let doc = json_report(&report, &m);
    assert_eq!(doc.currency, "USD");
    assert_eq!(doc.region, "us-east-1");
    assert!((doc.net_monthly.0 as f64 / 1e6 - 43.21).abs() < 1e-6);
    assert_eq!(doc.lines.len(), 3);
    assert_eq!(doc.lines[0].action, "create");
    assert_eq!(doc.lines[0].detail, "t3.large");
    assert_eq!(doc.lines[1].usage.as_ref().unwrap().unit, "GB processed");
    assert!(doc.lines[0].usage.is_none()); // omitted when absent
    assert_eq!(doc.not_estimated[0].reason, "unpriced");
}

#[test]
fn replace_row_aligns_with_multibyte_glyph() {
    // `±` is multi-byte; alignment must hold by display column, not byte offset.
    let line = |addr: &str, action, detail: &str, delta| CostLine {
        address: addr.into(),
        rtype: "aws_instance".into(),
        action,
        detail: detail.into(),
        delta_monthly: usd(delta),
        usage: None,
    };
    let report = Report {
        lines: vec![
            line("aws_instance.a", Action::Create, "t3.large", 60.0),
            line("aws_instance.b", Action::Replace, "t3.small", -45.0),
        ],
        net_monthly: usd(15.0),
        not_estimated: vec![],
    };
    let out = render_text(&report, &meta(), false);
    let col = |needle: &str| {
        let l = out.lines().find(|l| l.contains(needle)).unwrap();
        l.chars().take_while(|&c| c != '$').count()
    };
    assert!(out.contains("± aws_instance.b"));
    assert_eq!(col("aws_instance.a"), col("aws_instance.b"));
}

#[test]
fn json_action_and_reason_strings_are_stable() {
    let line = |action| CostLine {
        address: "x.y".into(),
        rtype: "aws_instance".into(),
        action,
        detail: "t3.large".into(),
        delta_monthly: usd(1.0),
        usage: None,
    };
    let report = Report {
        lines: vec![
            line(Action::Create),
            line(Action::Update),
            line(Action::Delete),
            line(Action::Replace),
        ],
        net_monthly: usd(4.0),
        not_estimated: vec![
            NotEstimated {
                address: "a".into(),
                rtype: "t".into(),
                reason: NotEstimatedReason::ValueUnknown,
            },
            NotEstimated { address: "b".into(), rtype: "t".into(), reason: NotEstimatedReason::Unpriced },
        ],
    };
    let m = meta();
    let doc = json_report(&report, &m);
    let actions: Vec<&str> = doc.lines.iter().map(|l| l.action).collect();
    assert_eq!(actions, ["create", "update", "delete", "replace"]);
    let reasons: Vec<&str> = doc.not_estimated.iter().map(|n| n.reason).collect();
    assert_eq!(reasons, ["value_unknown", "unpriced"]);
}

#[test]
fn full_text_report_matches_the_layout() {
    let out = render_text(&sample(), &meta(), false);
    let expected = [
        "costctl: forecast for plan.json  (prices: aws/us-east-1, catalog 2026-06-10)",
        "",
        "  CHANGE                    DETAIL        Δ MONTHLY",
        "  + aws_instance.web        t3.large      +$60.00",
        "  + aws_nat_gateway.main    fixed         +$32.85   (+ $0.045/GB processed)",
        "  - aws_db_instance.legacy  db.t3.medium  -$49.64",
        "",
        "  Net monthly change:  +$43.21/mo",
        "",
        "  Not estimated (1):",
        "    aws_lambda.handler — not in price catalog",
        "",
    ]
    .join("\n");
    assert_eq!(out, expected);
}

#[test]
fn empty_report_has_only_header_and_net() {
    let report = Report { lines: vec![], net_monthly: Money(0), not_estimated: vec![] };
    let out = render_text(&report, &meta(), true);
    assert_eq!(
        out,
        "costctl: forecast for plan.json  (prices: aws/us-east-1, catalog 2026-06-10)\n\n  Net monthly change:  +$0.00/mo\n"
    );
}

#[test]
fn amounts_round_to_cents_half_away_from_zero() {
    let one = |micros: i64| {
        let report = Report { lines: vec![], net_monthly: Money(micros), not_estimated: vec![] };
        render_text(&report, &meta(), false)
    };
    assert!(one(4_999).contains("+$0.00/mo"));
    assert!(one(-4_999).contains("+$0.00/mo")); // never "-$0.00"
    assert!(one(5_000).contains("+$0.01/mo"));
    assert!(one(-5_000).contains("-$0.01/mo"));
    assert!(one(203_376_000).contains("+$203.38/mo"));
    assert!(one(-1_234_567_890).contains("-$1234.57/mo"));
}

#[test]
fn color_marks_increase_red_and_decrease_green() {
    let net = |micros: i64| {
        let report = Report { lines: vec![], net_monthly: Money(micros), not_estimated: vec![] };
        render_text(&report, &meta(), true)
    };
    assert!(net(1_000_000).contains("\x1b[31m+$1.00/mo\x1b[0m"));
    assert!(net(-1_000_000).contains("\x1b[32m-$1.00/mo\x1b[0m"));
    assert!(!net(4_000).contains('\x1b')); // shows as $0.00: not tinted
}

#[test]
fn names_and_glyphs_are_stable() {
    assert_eq!(action_glyph(Action::Create), '+');
    assert_eq!(action_glyph(Action::Delete), '-');
    assert_eq!(action_glyph(Action::Update), '~');
    assert_eq!(action_glyph(Action::Replace), '±');
    assert_eq!(action_glyph(Action::NoOp), ' ');
    assert_eq!(action_str(Action::NoOp), "no-op");
    assert_eq!(reason_str(NotEstimatedReason::ValueUnknown), "value_unknown");
    assert_eq!(reason_message(NotEstimatedReason::ValueUnknown), "value computed at apply");
}

#[test]
fn rate_rounds_an_exact_tie_to_the_even_thousandth() {
    let with_rate = |micros: i64| {
        let mut r = sample();
        r.lines[1].usage = Some(UsageRate { rate: Money(micros), unit: "GB".into() });
        render_text(&r, &meta(), false)
    };
    assert!(with_rate(62_500).contains("(+ $0.062/GB)"));
    assert!(with_rate(63_500).contains("(+ $0.064/GB)"));
    assert!(with_rate(62_501).contains("(+ $0.063/GB)"));
    assert!(with_rate(1_999_600).contains("(+ $2.000/GB)"));
}
