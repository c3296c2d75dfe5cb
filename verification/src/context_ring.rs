//! Context-window usage: the share of the active window in use (`used /
//! size`), rounded to a whole percentage, its severity band (normal below
//! 80%, warning from 80% to 94%, critical from 95%), and the tooltip and
//! accessible-label texts that show them.

use vstd::prelude::*;
use vstd::string::StringExecFns;
use crate::decimal::{decimal_digits, digit_char, push_decimal};
use crate::tokens::{
    format_tokens, is_nearest_tenths, shows_tokens, tenths_text, KILO_TENTH, MEGA_TENTH,
};

verus! {

/// How much of a context window is in use, as the harness reports it.
#[derive(Debug, Clone, Copy, PartialEq, Eq)]
pub struct ContextUsage {
    /// Tokens in use.
    pub used: u64,
    /// Size of the window in tokens; zero when unknown.
    pub size: u64,
    /// Whether `used` is a harness-side estimate rather than a measurement.
    pub estimated: bool,
}

/// Severity band of a usage percentage.
#[derive(Debug, Clone, Copy, PartialEq, Eq, Structural)]
pub enum ContextUsageSeverity {
    Normal,
    Warning,
    Critical,
}

/// The share of the window in use, as an exact fraction in `[0, 1]`.
#[derive(Debug, Clone, Copy, PartialEq, Eq)]
pub struct UsageRatio {
    pub numerator: u64,
    pub denominator: u64,
}

/// Lowest percentage shown as a warning.
pub const WARNING_PERCENT: u32 = 80;

/// Lowest percentage shown as critical.
pub const CRITICAL_PERCENT: u32 = 95;

/// The fraction of the window in use: `used / size` clamped to at most one
/// (a report of more than the window is a full window), and zero for a
/// window of unknown (zero) size.
pub open spec fn usage_ratio(u: ContextUsage) -> (nat, nat) {
    if u.size == 0 {
        (0, 1)
    } else if u.used <= u.size {
        (u.used as nat, u.size as nat)
    } else {
        (u.size as nat, u.size as nat)
    }
}

/// `100 * num / den` rounded to the nearest integer, halves rounded up.
pub open spec fn rounded_percent(num: nat, den: nat) -> nat
    recommends
        den > 0,
{
    (200 * num + den) / (2 * den)
}

/// The whole percentage of the window in use.
pub open spec fn usage_percent(u: ContextUsage) -> nat {
    rounded_percent(usage_ratio(u).0, usage_ratio(u).1)
}

/// The severity band of a whole percentage.
pub open spec fn severity_for_percent(p: nat) -> ContextUsageSeverity {
    if p >= CRITICAL_PERCENT {
        ContextUsageSeverity::Critical
    } else if p >= WARNING_PERCENT {
        ContextUsageSeverity::Warning
    } else {
        ContextUsageSeverity::Normal
    }
}

/// The severity of a usage, taken from the rounded percentage that the
/// texts show.
pub open spec fn usage_severity(u: ContextUsage) -> ContextUsageSeverity {
    severity_for_percent(usage_percent(u))
}

/// The `~` that marks an estimate, or nothing.
pub open spec fn estimate_marker(estimated: bool) -> Seq<char> {
    if estimated {
        "~"@
    } else {
        Seq::empty()
    }
}

/// The state words that end the tooltip.
pub open spec fn tooltip_state(s: ContextUsageSeverity) -> Seq<char> {
    match s {
        ContextUsageSeverity::Normal => Seq::empty(),
        ContextUsageSeverity::Warning => " — warning"@,
        ContextUsageSeverity::Critical => " — critical"@,
    }
}

/// The tooltip, given the readings `used` and `size` of the two token
/// counts: `{~}{used} / {size} context used ({pct}%){state}`.
pub open spec fn tooltip_text(u: ContextUsage, used: Seq<char>, size: Seq<char>) -> Seq<char> {
    estimate_marker(u.estimated) + used + " / "@ + size + " context used ("@ + decimal_digits(
        usage_percent(u),
    ) + "%)"@ + tooltip_state(usage_severity(u))
}

/// `s` is the tooltip of `u`, with compact readings of its token counts.
pub open spec fn is_tooltip_text(u: ContextUsage, s: Seq<char>) -> bool {
    exists|used: Seq<char>, size: Seq<char>|
        #![trigger shows_tokens(u.used as nat, used), shows_tokens(u.size as nat, size)]
        shows_tokens(u.used as nat, used) && shows_tokens(u.size as nat, size) && s
            == tooltip_text(u, used, size)
}

/// The opening words of the accessible label.
pub open spec fn label_heading(s: ContextUsageSeverity) -> Seq<char> {
    match s {
        ContextUsageSeverity::Normal => "Context usage: "@,
        ContextUsageSeverity::Warning => "Context usage warning: "@,
        ContextUsageSeverity::Critical => "Context usage critical: "@,
    }
}

/// The accessible label, given the readings `used` and `size` of the two
/// token counts: `Context usage{ state}: {pct}%, {~}{used} of {size}`.
pub open spec fn accessible_label(u: ContextUsage, used: Seq<char>, size: Seq<char>) -> Seq<
    char,
> {
    label_heading(usage_severity(u)) + decimal_digits(usage_percent(u)) + "%, "@
        + estimate_marker(u.estimated) + used + " of "@ + size
}

/// `s` is the accessible label of `u`, with compact readings of its token
/// counts.
pub open spec fn is_accessible_label(u: ContextUsage, s: Seq<char>) -> bool {
    exists|used: Seq<char>, size: Seq<char>|
        #![trigger shows_tokens(u.used as nat, used), shows_tokens(u.size as nat, size)]
        shows_tokens(u.used as nat, used) && shows_tokens(u.size as nat, size) && s
            == accessible_label(u, used, size)
}

/// The fraction of the window in use; a zero-size window counts as empty
/// and an overfull one as full.
pub fn context_usage_ratio(usage: &ContextUsage) -> (r: UsageRatio)
    ensures
        (r.numerator as nat, r.denominator as nat) == usage_ratio(*usage),
        r.denominator > 0,
        r.numerator <= r.denominator,
{
    if usage.size == 0 {
        UsageRatio { numerator: 0, denominator: 1 }
    } else if usage.used <= usage.size {
        UsageRatio { numerator: usage.used, denominator: usage.size }
    } else {
        UsageRatio { numerator: usage.size, denominator: usage.size }
    }
}

/// Computes `rounded_percent(num, den)` for a fraction in `[0, 1]`.
fn percent_of(num: u64, den: u64) -> (p: u32)
    requires
        0 < den,
        num <= den,
    ensures
        p as nat == rounded_percent(num as nat, den as nat),
        p <= 100,
{
    let n: u128 = (num as u128) * 200 + (den as u128);
    let d: u128 = (den as u128) * 2;
    let q: u128 = n / d;
    assert(q <= 100) by (nonlinear_arith)
        requires
            q == n / d,
            n < 101 * d,
            d > 0,
    ;
    q as u32
}

/// The whole percentage of the window in use, between 0 and 100.
pub fn context_usage_percentage(usage: &ContextUsage) -> (p: u32)
    ensures
        p as nat == usage_percent(*usage),
        p <= 100,
{
    let r = context_usage_ratio(usage);
    percent_of(r.numerator, r.denominator)
}

/// The severity band of the rounded percentage, so that the ring's color
/// always agrees with the percentage the texts show.
pub fn context_usage_severity(usage: &ContextUsage) -> (s: ContextUsageSeverity)
    ensures
        s == usage_severity(*usage),
{
    let pct: u32 = context_usage_percentage(usage);
    if pct >= CRITICAL_PERCENT {
        ContextUsageSeverity::Critical
    } else if pct >= WARNING_PERCENT {
        ContextUsageSeverity::Warning
    } else {
        ContextUsageSeverity::Normal
    }
}

/// The hover tooltip, e.g. `~13.7K / 200K context used (7%)` or
/// `168K / 200K context used (84%) — warning`.
pub fn context_tooltip_text(usage: &ContextUsage) -> (s: String)
    ensures
        is_tooltip_text(*usage, s@),
{
    let used = format_tokens(usage.used);
    let size = format_tokens(usage.size);
    let pct: u32 = context_usage_percentage(usage);
    let mut s = String::new();
    if usage.estimated {
        s.append("~");
    }
    s.append(used.as_str());
    s.append(" / ");
    s.append(size.as_str());
    s.append(" context used (");
    push_decimal(&mut s, pct as u64);
    s.append("%)");
    match context_usage_severity(usage) {
        ContextUsageSeverity::Normal => {},
        ContextUsageSeverity::Warning => s.append(" — warning"),
        ContextUsageSeverity::Critical => s.append(" — critical"),
    }
    assert(s@ == tooltip_text(*usage, used@, size@));
    s
}

/// The accessible label, e.g. `Context usage warning: 84%, 168K of 200K`.
pub fn context_accessible_label(usage: &ContextUsage) -> (s: String)
    ensures
        is_accessible_label(*usage, s@),
{
    let used = format_tokens(usage.used);
    let size = format_tokens(usage.size);
    let pct: u32 = context_usage_percentage(usage);
    let mut s = String::new();
    match context_usage_severity(usage) {
        ContextUsageSeverity::Normal => s.append("Context usage: "),
        ContextUsageSeverity::Warning => s.append("Context usage warning: "),
        ContextUsageSeverity::Critical => s.append("Context usage critical: "),
    }
    push_decimal(&mut s, pct as u64);
    s.append("%, ");
    if usage.estimated {
        s.append("~");
    }
    s.append(used.as_str());
    s.append(" of ");
    s.append(size.as_str());
    assert(s@ == accessible_label(*usage, used@, size@));
    s
}


/// `s` holds no `c`.
pub open spec fn lacks(s: Seq<char>, c: char) -> bool {
    forall|i: int| 0 <= i < s.len() ==> s[i] != c
}

proof fn lemma_lacks_concat(a: Seq<char>, b: Seq<char>, c: char)
    requires
        lacks(a, c),
        lacks(b, c),
    ensures
        lacks(a + b, c),
{
    assert forall|i: int| 0 <= i < (a + b).len() implies (a + b)[i] != c by {
        if i < a.len() {
            assert((a + b)[i] == a[i]);
        } else {
            assert((a + b)[i] == b[i - a.len()]);
        }
    }
}

proof fn lemma_decimal_lacks_tilde(n: nat)
    ensures
        lacks(decimal_digits(n), '~'),
    decreases n,
{
    if n >= 10 {
        lemma_decimal_lacks_tilde(n / 10);
        let d = decimal_digits(n / 10);
        assert(decimal_digits(n) == d.push(digit_char(n % 10)));
        assert forall|i: int| 0 <= i < decimal_digits(n).len() implies decimal_digits(n)[i] != '~' by {
            if i < d.len() {
                assert(decimal_digits(n)[i] == d[i]);
            }
        }
    }
}

proof fn lemma_shown_tokens_lack_tilde(t: nat, w: Seq<char>)
    requires
        shows_tokens(t, w),
    ensures
        lacks(w, '~'),
{
    if t >= 1000 {
        let tenth: nat = if t >= 1_000_000 {
            MEGA_TENTH as nat
        } else {
            KILO_TENTH as nat
        };
        let unit: char = if t >= 1_000_000 { 'M' } else { 'K' };
        let r: nat = choose|r: nat| #[trigger]
            is_nearest_tenths(t, tenth, r) && w == tenths_text(r).push(unit);
        lemma_decimal_lacks_tilde(r / 10);
        let v = tenths_text(r);
        if r % 10 != 0 {
            lemma_lacks_concat(
                decimal_digits(r / 10),
                seq!['.', digit_char(r % 10)],
                '~',
            );
        }
        assert forall|i: int| 0 <= i < v.push(unit).len() implies v.push(unit)[i] != '~' by {
            if i < v.len() {
                assert(v.push(unit)[i] == v[i]);
            }
        }
    } else {
        lemma_decimal_lacks_tilde(t);
    }
}

/// An estimate, and only an estimate, carries the `~` marker, in the
/// tooltip and in the accessible label alike.
pub proof fn lemma_estimate_marks_both_texts(u: ContextUsage, tip: Seq<char>, label: Seq<char>)
    requires
        is_tooltip_text(u, tip),
        is_accessible_label(u, label),
    ensures
        tip.contains('~') <==> u.estimated,
        label.contains('~') <==> u.estimated,
{
    let (tu, ts) = choose|used: Seq<char>, size: Seq<char>|
        #![trigger shows_tokens(u.used as nat, used), shows_tokens(u.size as nat, size)]
        shows_tokens(u.used as nat, used) && shows_tokens(u.size as nat, size) && tip
            == tooltip_text(u, used, size);
    let (lu, ls) = choose|used: Seq<char>, size: Seq<char>|
        #![trigger shows_tokens(u.used as nat, used), shows_tokens(u.size as nat, size)]
        shows_tokens(u.used as nat, used) && shows_tokens(u.size as nat, size) && label
            == accessible_label(u, used, size);
    lemma_marker_in_texts(u, tu, ts, lu, ls);
}

proof fn lemma_marker_in_texts(
    u: ContextUsage,
    used: Seq<char>,
    size: Seq<char>,
    lused: Seq<char>,
    lsize: Seq<char>,
)
    requires
        shows_tokens(u.used as nat, used),
        shows_tokens(u.size as nat, size),
        shows_tokens(u.used as nat, lused),
        shows_tokens(u.size as nat, lsize),
    ensures
        tooltip_text(u, used, size).contains('~') <==> u.estimated,
        accessible_label(u, lused, lsize).contains('~') <==> u.estimated,
{
    reveal_strlit("~");
    reveal_strlit(" / ");
    reveal_strlit(" context used (");
    reveal_strlit("%)");
    reveal_strlit(" — warning");
    reveal_strlit(" — critical");
    reveal_strlit("Context usage: ");
    reveal_strlit("Context usage warning: ");
    reveal_strlit("Context usage critical: ");
    reveal_strlit("%, ");
    reveal_strlit(" of ");
    let m = estimate_marker(u.estimated);
    let pct = decimal_digits(usage_percent(u));
    let state = tooltip_state(usage_severity(u));
    let head = label_heading(usage_severity(u));
    lemma_shown_tokens_lack_tilde(u.used as nat, used);
    lemma_shown_tokens_lack_tilde(u.size as nat, size);
    lemma_shown_tokens_lack_tilde(u.used as nat, lused);
    lemma_shown_tokens_lack_tilde(u.size as nat, lsize);
    lemma_decimal_lacks_tilde(usage_percent(u));
    let tip_rest = used + " / "@ + size + " context used ("@ + pct + "%)"@ + state;
    assert(lacks(" / "@, '~'));
    assert(lacks(" context used ("@, '~'));
    assert(lacks("%)"@, '~'));
    assert(lacks(state, '~'));
    lemma_lacks_concat(used, " / "@, '~');
    lemma_lacks_concat(used + " / "@, size, '~');
    lemma_lacks_concat(used + " / "@ + size, " context used ("@, '~');
    lemma_lacks_concat(used + " / "@ + size + " context used ("@, pct, '~');
    lemma_lacks_concat(used + " / "@ + size + " context used ("@ + pct, "%)"@, '~');
    lemma_lacks_concat(used + " / "@ + size + " context used ("@ + pct + "%)"@, state, '~');
    assert(tooltip_text(u, used, size) =~= m + tip_rest);
    let label_front = head + pct + "%, "@;
    let label_back = lused + " of "@ + lsize;
    assert(lacks(head, '~'));
    assert(lacks("%, "@, '~'));
    assert(lacks(" of "@, '~'));
    lemma_lacks_concat(head, pct, '~');
    lemma_lacks_concat(head + pct, "%, "@, '~');
    lemma_lacks_concat(lused, " of "@, '~');
    lemma_lacks_concat(lused + " of "@, lsize, '~');
    assert(accessible_label(u, lused, lsize) =~= label_front + m + label_back);
    if u.estimated {
        assert(tooltip_text(u, used, size)[0] == '~');
        assert(accessible_label(u, lused, lsize)[label_front.len() as int] == '~');
    } else {
        assert(m =~= Seq::<char>::empty());
        assert(tooltip_text(u, used, size) =~= tip_rest);
        assert(accessible_label(u, lused, lsize) =~= label_front + label_back);
        lemma_lacks_concat(label_front, label_back, '~');
    }
}


/// Position of a severity band, lowest first.
pub open spec fn severity_rank(s: ContextUsageSeverity) -> nat {
    match s {
        ContextUsageSeverity::Normal => 0,
        ContextUsageSeverity::Warning => 1,
        ContextUsageSeverity::Critical => 2,
    }
}

/// The percentage is the whole number nearest to `100 * used / size` (with
/// `used` clamped to `size`), a half rounding up.
pub proof fn lemma_percent_is_nearest(u: ContextUsage)
    requires
        u.size > 0,
    ensures
        u.size * (2 * usage_percent(u)) <= 200 * usage_ratio(u).0 + u.size,
        200 * usage_ratio(u).0 + u.size < u.size * (2 * usage_percent(u) + 2),
{
    let num: nat = usage_ratio(u).0;
    let den: nat = u.size as nat;
    let p: nat = usage_percent(u);
    let n: nat = 200 * num + den;
    let d: nat = 2 * den;
    assert(usage_ratio(u).1 == den);
    assert(p == n / d);
    assert(n == d * (n / d) + n % d && 0 <= n % d < d) by (nonlinear_arith)
        requires
            d > 0,
    ;
    assert(den * (2 * p) == d * p) by (nonlinear_arith)
        requires
            d == 2 * den,
    ;
    assert(den * (2 * p + 2) == d * p + d) by (nonlinear_arith)
        requires
            d == 2 * den,
    ;
}

/// The percentage never exceeds 100.
pub proof fn lemma_percent_at_most_hundred(u: ContextUsage)
    ensures
        usage_percent(u) <= 100,
{
    let num: nat = usage_ratio(u).0;
    let den: nat = usage_ratio(u).1;
    let n: nat = 200 * num + den;
    let d: nat = 2 * den;
    assert(n / d <= 100) by (nonlinear_arith)
        requires
            n < 101 * d,
            d > 0,
    ;
}

/// A window of unknown (zero) size reads as empty and normal, never as a
/// division by zero.
pub proof fn lemma_zero_window_reads_empty(u: ContextUsage)
    requires
        u.size == 0,
    ensures
        usage_percent(u) == 0,
        usage_severity(u) == ContextUsageSeverity::Normal,
{
    assert(usage_ratio(u) == (0nat, 1nat));
    assert((200 * 0nat + 1) / (2 * 1nat) == 0) by (nonlinear_arith);
}

/// A report of at least the whole window reads as a full ring: 100% and
/// critical, never more.
pub proof fn lemma_overfull_reads_full(u: ContextUsage)
    requires
        u.size > 0,
        u.used >= u.size,
    ensures
        usage_percent(u) == 100,
        usage_severity(u) == ContextUsageSeverity::Critical,
{
    let s: nat = u.size as nat;
    assert(usage_ratio(u) == (s, s));
    assert((200 * s + s) / (2 * s) == 100) by (nonlinear_arith)
        requires
            s > 0,
    ;
}

/// Using more of the same window never lowers the percentage or the
/// severity band.
pub proof fn lemma_more_use_never_reads_lower(a: ContextUsage, b: ContextUsage)
    requires
        a.size == b.size,
        a.used <= b.used,
    ensures
        usage_percent(a) <= usage_percent(b),
        severity_rank(usage_severity(a)) <= severity_rank(usage_severity(b)),
{
    if a.size > 0 {
        let den: nat = a.size as nat;
        let na: nat = usage_ratio(a).0;
        let nb: nat = usage_ratio(b).0;
        assert(na <= nb);
        vstd::arithmetic::div_mod::lemma_div_is_ordered(
            (200 * na + den) as int,
            (200 * nb + den) as int,
            (2 * den) as int,
        );
    }
}

/// The severity is a function of the percentage shown: two usages that
/// read the same percentage have the same severity, so the ring's color
/// never disagrees with the number in the tooltip and the label.
pub proof fn lemma_severity_follows_shown_percent(a: ContextUsage, b: ContextUsage)
    requires
        usage_percent(a) == usage_percent(b),
    ensures
        usage_severity(a) == usage_severity(b),
{
}


/// For a known window, the ratio is `used / size` exactly while the window
/// is not overfull, and a full window (one) once `used` reaches `size`; an
/// unknown (zero-size) window reads zero.
pub proof fn lemma_ratio_is_used_over_size(u: ContextUsage)
    ensures
        usage_ratio(u).1 > 0,
        u.size == 0 ==> usage_ratio(u).0 == 0,
        0 < u.size && u.used <= u.size ==> usage_ratio(u).0 * u.size == u.used * usage_ratio(u).1,
        0 < u.size && u.used >= u.size ==> usage_ratio(u).0 == usage_ratio(u).1,
{
}

/// The percentage is the whole number nearest to `100 * used / size`, with
/// `used` clamped to `size` and a half rounding up.
pub proof fn lemma_percent_of_used_over_size(u: ContextUsage)
    requires
        u.size > 0,
    ensures
        u.used <= u.size ==> u.size * (2 * usage_percent(u)) <= 200 * u.used + u.size
            && 200 * u.used + u.size < u.size * (2 * usage_percent(u) + 2),
        u.used > u.size ==> usage_percent(u) == 100,
{
    lemma_ratio_is_used_over_size(u);
    if u.used <= u.size {
        assert(usage_ratio(u) == (u.used as nat, u.size as nat));
        lemma_percent_is_nearest(u);
    } else {
        lemma_overfull_reads_full(u);
    }
}

/// The severity bands: critical from 95%, warning from 80% to 94%, normal
/// below 80%, on the rounded percentage.
pub proof fn lemma_severity_bands(u: ContextUsage)
    ensures
        usage_severity(u) == ContextUsageSeverity::Critical <==> usage_percent(u) >= 95,
        usage_severity(u) == ContextUsageSeverity::Warning <==> 80 <= usage_percent(u) < 95,
        usage_severity(u) == ContextUsageSeverity::Normal <==> usage_percent(u) < 80,
{
}

/// A tooltip of `u` reads `{~}{used} / {size} context used ({pct}%)`, the
/// `~` exactly for an estimate, followed by ` — warning` in the warning
/// band and ` — critical` in the critical band, whatever the estimate
/// flag, where `used` and `size` are compact readings of the two counts and
/// `pct` is the rounded percentage.
pub proof fn lemma_tooltip_says(u: ContextUsage, s: Seq<char>)
    requires
        is_tooltip_text(u, s),
    ensures
        exists|used: Seq<char>, size: Seq<char>|
            #![trigger shows_tokens(u.used as nat, used), shows_tokens(u.size as nat, size)]
            shows_tokens(u.used as nat, used) && shows_tokens(u.size as nat, size) && s == (if u.estimated {
                "~"@
            } else {
                Seq::<char>::empty()
            }) + used + " / "@ + size + " context used ("@ + decimal_digits(usage_percent(u))
                + "%)"@ + (if usage_severity(u) == ContextUsageSeverity::Warning {
                " — warning"@
            } else if usage_severity(u) == ContextUsageSeverity::Critical {
                " — critical"@
            } else {
                Seq::<char>::empty()
            }),
{
    let (a, b) = choose|used: Seq<char>, size: Seq<char>|
        #![trigger shows_tokens(u.used as nat, used), shows_tokens(u.size as nat, size)]
        shows_tokens(u.used as nat, used) && shows_tokens(u.size as nat, size) && s
            == tooltip_text(u, used, size);
    assert(shows_tokens(u.used as nat, a) && shows_tokens(u.size as nat, b));
}

/// An accessible label of `u` reads `{heading}{pct}%, {~}{used} of {size}`,
/// the heading being `Context usage warning: ` in the warning band,
/// `Context usage critical: ` in the critical band and `Context usage: `
/// otherwise, whatever the estimate flag, and the `~` marking exactly an
/// estimate.
pub proof fn lemma_label_says(u: ContextUsage, s: Seq<char>)
    requires
        is_accessible_label(u, s),
    ensures
        exists|used: Seq<char>, size: Seq<char>|
            #![trigger shows_tokens(u.used as nat, used), shows_tokens(u.size as nat, size)]
            shows_tokens(u.used as nat, used) && shows_tokens(u.size as nat, size) && s == (if usage_severity(u)
                == ContextUsageSeverity::Warning {
                "Context usage warning: "@
            } else if usage_severity(u) == ContextUsageSeverity::Critical {
                "Context usage critical: "@
            } else {
                "Context usage: "@
            }) + decimal_digits(usage_percent(u)) + "%, "@ + (if u.estimated {
                "~"@
            } else {
                Seq::<char>::empty()
            }) + used + " of "@ + size,
{
    let (a, b) = choose|used: Seq<char>, size: Seq<char>|
        #![trigger shows_tokens(u.used as nat, used), shows_tokens(u.size as nat, size)]
        shows_tokens(u.used as nat, used) && shows_tokens(u.size as nat, size) && s
            == accessible_label(u, used, size);
    assert(shows_tokens(u.used as nat, a) && shows_tokens(u.size as nat, b));
}

} // verus!
