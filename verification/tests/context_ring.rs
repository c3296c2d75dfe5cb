use ui::context_ring::{
    context_accessible_label, context_tooltip_text, context_usage_percentage,
    context_usage_ratio, context_usage_severity, ContextUsage, ContextUsageSeverity,
};

fn usage(used: u64, size: u64, estimated: bool) -> ContextUsage {
    ContextUsage {
        used,
        size,
        estimated,
    }
}

fn ratio_value(u: &ContextUsage) -> f32 {
    let r = context_usage_ratio(u);
    r.numerator as f32 / r.denominator as f32
}

#[test]
fn context_usage_calculations_and_thresholds() {
    let normal = usage(42_000, 200_000, false);
    assert_eq!(context_usage_percentage(&normal), 21);
    assert_eq!(context_usage_severity(&normal), ContextUsageSeverity::Normal);
    assert_eq!(context_tooltip_text(&normal), "42K / 200K context used (21%)");
    assert_eq!(
        context_accessible_label(&normal),
        "Context usage: 21%, 42K of 200K"
    );

    let warning = usage(168_000, 200_000, false);
    assert_eq!(context_usage_percentage(&warning), 84);
    assert_eq!(
        context_usage_severity(&warning),
        ContextUsageSeverity::Warning
    );
    assert_eq!(
        context_tooltip_text(&warning),
        "168K / 200K context used (84%) — warning"
    );
    assert_eq!(
        context_accessible_label(&warning),
        "Context usage warning: 84%, 168K of 200K"
    );

    let critical = usage(194_000, 200_000, false);
    assert_eq!(context_usage_percentage(&critical), 97);
    assert_eq!(
        context_usage_severity(&critical),
        ContextUsageSeverity::Critical
    );
    assert_eq!(
        context_tooltip_text(&critical),
        "194K / 200K context used (97%) — critical"
    );
    assert_eq!(
        context_accessible_label(&critical),
        "Context usage critical: 97%, 194K of 200K"
    );

    let estimated = usage(13_667, 200_000, true);
    assert_eq!(
        context_tooltip_text(&estimated),
        "~13.7K / 200K context used (7%)"
    );
    assert_eq!(
        context_accessible_label(&estimated),
        "Context usage: 7%, ~13.7K of 200K"
    );
}

#[test]
fn severity_thresholds_follow_the_rounded_percentage() {
    let at_80 = usage(160_000, 200_000, false);
    assert_eq!(context_usage_percentage(&at_80), 80);
    assert_eq!(context_usage_severity(&at_80), ContextUsageSeverity::Warning);

    let at_94 = usage(188_000, 200_000, false);
    assert_eq!(context_usage_percentage(&at_94), 94);
    assert_eq!(context_usage_severity(&at_94), ContextUsageSeverity::Warning);

    let at_95 = usage(190_000, 200_000, false);
    assert_eq!(context_usage_percentage(&at_95), 95);
    assert_eq!(
        context_usage_severity(&at_95),
        ContextUsageSeverity::Critical
    );

    let rounds_to_80 = usage(159_999, 200_000, false);
    assert_eq!(context_usage_percentage(&rounds_to_80), 80);
    assert_eq!(
        context_usage_severity(&rounds_to_80),
        ContextUsageSeverity::Warning
    );

    let rounds_to_95 = usage(189_999, 200_000, false);
    assert_eq!(context_usage_percentage(&rounds_to_95), 95);
    assert_eq!(
        context_usage_severity(&rounds_to_95),
        ContextUsageSeverity::Critical
    );

    let at_79 = usage(158_600, 200_000, false);
    assert_eq!(context_usage_percentage(&at_79), 79);
    assert_eq!(context_usage_severity(&at_79), ContextUsageSeverity::Normal);
}

#[test]
fn ratio_edges_zero_window_and_overfull_gauge() {
    let zero = usage(0, 0, false);
    assert_eq!(ratio_value(&zero), 0.0);
    assert_eq!(context_usage_percentage(&zero), 0);
    assert_eq!(context_usage_severity(&zero), ContextUsageSeverity::Normal);

    let overfull = usage(318_000, 200_000, false);
    assert_eq!(ratio_value(&overfull), 1.0);
    assert_eq!(context_usage_percentage(&overfull), 100);
    assert_eq!(
        context_usage_severity(&overfull),
        ContextUsageSeverity::Critical
    );
}

#[test]
fn ratio_is_the_exact_clamped_fraction() {
    let r = context_usage_ratio(&usage(42_000, 200_000, false));
    assert_eq!((r.numerator, r.denominator), (42_000, 200_000));
    let r = context_usage_ratio(&usage(318_000, 200_000, false));
    assert_eq!((r.numerator, r.denominator), (200_000, 200_000));
    let r = context_usage_ratio(&usage(5, 0, true));
    assert_eq!((r.numerator, r.denominator), (0, 1));
}

#[test]
fn zero_window_with_use_reads_empty() {
    let u = usage(12_345, 0, false);
    assert_eq!(context_usage_percentage(&u), 0);
    assert_eq!(context_usage_severity(&u), ContextUsageSeverity::Normal);
    assert_eq!(context_tooltip_text(&u), "12.3K / 0 context used (0%)");
}

#[test]
fn exactly_full_window_is_critical() {
    let u = usage(200_000, 200_000, false);
    assert_eq!(context_usage_percentage(&u), 100);
    assert_eq!(context_usage_severity(&u), ContextUsageSeverity::Critical);
    let huge = usage(u64::MAX, u64::MAX, false);
    assert_eq!(context_usage_percentage(&huge), 100);
    let over = usage(u64::MAX, 1, false);
    assert_eq!(context_usage_percentage(&over), 100);
}

#[test]
fn half_percent_rounds_up() {
    // 1 of 200 is exactly 0.5%.
    assert_eq!(context_usage_percentage(&usage(1, 200, false)), 1);
    // 1 of 201 is just under 0.5%.
    assert_eq!(context_usage_percentage(&usage(1, 201, false)), 0);
    // 159 of 200 is exactly 79.5%, which shows as 80% and warns.
    let edge = usage(159, 200, false);
    assert_eq!(context_usage_percentage(&edge), 80);
    assert_eq!(context_usage_severity(&edge), ContextUsageSeverity::Warning);
}

#[test]
fn more_use_of_the_same_window_never_reads_lower() {
    let size = 7_919;
    let mut last_pct = 0;
    let mut last_rank = 0;
    for used in 0..=8_500u64 {
        let u = usage(used, size, false);
        let pct = context_usage_percentage(&u);
        let rank = match context_usage_severity(&u) {
            ContextUsageSeverity::Normal => 0,
            ContextUsageSeverity::Warning => 1,
            ContextUsageSeverity::Critical => 2,
        };
        assert!(pct >= last_pct);
        assert!(rank >= last_rank);
        assert!(pct <= 100);
        last_pct = pct;
        last_rank = rank;
    }
    assert_eq!(last_pct, 100);
}

#[test]
fn severity_depends_only_on_the_shown_percentage() {
    // Different windows, same shown percentage, same band.
    let a = usage(95, 100, false);
    let b = usage(189_999, 200_000, true);
    assert_eq!(context_usage_percentage(&a), context_usage_percentage(&b));
    assert_eq!(context_usage_severity(&a), context_usage_severity(&b));
}

#[test]
fn only_estimates_carry_the_marker() {
    for &(used, size) in &[(0u64, 0u64), (13_667, 200_000), (190_000, 200_000), (5, 9)] {
        let plain = usage(used, size, false);
        let est = usage(used, size, true);
        assert!(!context_tooltip_text(&plain).contains('~'));
        assert!(!context_accessible_label(&plain).contains('~'));
        assert!(context_tooltip_text(&est).starts_with('~'));
        assert!(context_accessible_label(&est).contains('~'));
        assert_eq!(
            context_tooltip_text(&est),
            format!("~{}", context_tooltip_text(&plain))
        );
    }
}

#[test]
fn label_and_tooltip_for_a_critical_estimate() {
    let u = usage(1_950_000, 2_000_000, true);
    assert_eq!(
        context_tooltip_text(&u),
        "~2M / 2M context used (98%) — critical"
    );
    assert_eq!(
        context_accessible_label(&u),
        "Context usage critical: 98%, ~2M of 2M"
    );
}
