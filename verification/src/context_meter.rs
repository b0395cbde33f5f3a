//! Context-window usage: how much of the model's window a conversation has
//! consumed, the band it falls in, and the compact token counts the meter
//! reads out. The band changes as the window fills (comfortable below 65%,
//! elevated to 85%, critical from there) and is always stated in numbers
//! too, so the level never depends on color alone.

use vstd::prelude::*;
use crate::ids::opt_view;
use crate::attachment::{round_div, round_div_even, round_half_even, tenths_text};
use crate::binary64::{NUMERATOR_LIMIT, UNIT, double_units, round_quotient};
use crate::text::{decimal, push_decimal, push_tenths};

verus! {

/// How full the context window is, in the three bands people act on.
#[derive(Debug, Clone, Copy, PartialEq, Eq, Structural)]
pub enum UsageLevel {
    /// Plenty of room.
    Comfortable,
    /// Worth keeping an eye on.
    Elevated,
    /// Close to the limit; the application should offer a remedy.
    Critical,
}

/// How the meter draws its value.
#[derive(Debug, Clone, Copy, PartialEq, Eq, Structural)]
pub enum ContextMeterVariant {
    /// A small ring next to the percentage.
    Ring,
    /// A horizontal bar with the percentage.
    Bar,
    /// Text only: `42% · 84.3K / 200K`.
    Text,
}

impl Default for ContextMeterVariant {
    fn default() -> (r: Self)
        ensures
            r == ContextMeterVariant::Ring,
    {
        ContextMeterVariant::Ring
    }
}

/// A token count in thousands or millions as binary64 computes it, in
/// units of 2^-52: the count converted, then divided by `scale`, each step
/// rounded as binary64 rounds.
pub open spec fn scaled_tokens(tokens: nat, scale: nat) -> nat {
    double_units(double_units(tokens * (UNIT as nat), 1), scale)
}

/// A token count read compactly: the count itself below a thousand; in
/// thousands below a million, with one decimal below a hundred thousand
/// (`84.3K`) and as a whole number from there (`200K`); in millions from a
/// million, with one decimal below ten (`1.2M`) and as a whole number from
/// there (`12M`). Which form is used, and the digits, follow the binary64
/// quotient ([`scaled_tokens`]) rounded to the nearest, an exact half to
/// the even neighbour: `100,500` reads `100K` (100.5 is exact in binary),
/// `1,250` reads `1.2K`, and `1,150` reads `1.1K` (1.15 is held just below
/// the half).
pub open spec fn format_tokens_spec(tokens: nat) -> Seq<char> {
    if tokens >= 1_000_000 {
        let m = scaled_tokens(tokens, 1_000_000);
        if m >= 10 * UNIT {
            decimal(round_div_even(m, UNIT as nat)) + "M"@
        } else {
            tenths_text(round_div_even(10 * m, UNIT as nat)) + "M"@
        }
    } else if tokens >= 1_000 {
        let k = scaled_tokens(tokens, 1_000);
        if k >= 100 * UNIT {
            decimal(round_div_even(k, UNIT as nat)) + "K"@
        } else {
            tenths_text(round_div_even(10 * k, UNIT as nat)) + "K"@
        }
    } else {
        decimal(tokens)
    }
}

/// The binary64 quotient of a token count by `scale`; see [`scaled_tokens`].
fn tokens_quotient(tokens: u64, scale: u128) -> (r: u128)
    requires
        scale == 1_000 || scale == 1_000_000,
    ensures
        r == scaled_tokens(tokens as nat, scale as nat),
        r * scale <= 4 * (tokens as int) * UNIT + 3 * scale,
{
    let t: u128 = tokens as u128;
    let v = round_quotient(t * UNIT, 1);
    assert(v < NUMERATOR_LIMIT) by (nonlinear_arith)
        requires
            v <= 2 * t * UNIT + 1,
            t < 0x1_0000_0000_0000_0000,
    ;
    let r = round_quotient(v, scale);
    assert(r * scale <= 4 * t * UNIT + 3 * scale) by (nonlinear_arith)
        requires
            r * scale <= 2 * v + scale,
            v <= 2 * t * UNIT + 1,
            scale >= 1,
    ;
    r
}

/// Formats a token count compactly: `912`, `84.3K`, `1.2M`.
pub fn format_tokens(tokens: u64) -> (r: String)
    ensures
        r@ == format_tokens_spec(tokens as nat),
{
    let mut s = String::new();
    if tokens >= 1_000_000 {
        let m = tokens_quotient(tokens, 1_000_000);
        if m >= 10 * UNIT {
            let whole = round_half_even(m, UNIT);
            assert(m / UNIT < 0x1_0000_0000_0000) by (nonlinear_arith)
                requires
                    m * 1_000_000 <= 4 * (tokens as int) * UNIT + 3_000_000,
                    tokens < 0x1_0000_0000_0000_0000,
            ;
            push_decimal(&mut s, whole as u64);
        } else {
            let tenths = round_half_even(10 * m, UNIT);
            assert(((10 * m) as int) / (UNIT as int) < 100) by (nonlinear_arith)
                requires
                    m < 10 * UNIT,
            ;
            push_tenths(&mut s, tenths as u64);
        }
        s.append("M");
    } else if tokens >= 1_000 {
        let k = tokens_quotient(tokens, 1_000);
        if k >= 100 * UNIT {
            let whole = round_half_even(k, UNIT);
            assert(k / UNIT < 0x1_0000_0000) by (nonlinear_arith)
                requires
                    k * 1_000 <= 4 * (tokens as int) * UNIT + 3_000,
                    tokens < 1_000_000,
            ;
            push_decimal(&mut s, whole as u64);
        } else {
            let tenths = round_half_even(10 * k, UNIT);
            assert(((10 * k) as int) / (UNIT as int) < 1000) by (nonlinear_arith)
                requires
                    k < 100 * UNIT,
            ;
            push_tenths(&mut s, tenths as u64);
        }
        s.append("K");
    } else {
        push_decimal(&mut s, tokens);
    }
    s
}

/// Used tokens as a whole percentage of the window: none of an empty
/// window, all of an overfull one, and otherwise rounded to the nearest,
/// halves up.
pub open spec fn percent_spec(used: nat, limit: nat) -> nat {
    if limit == 0 {
        0
    } else if used >= limit {
        100
    } else {
        round_div(100 * used, limit)
    }
}

/// The band a usage falls in: critical from 85% of the window, elevated
/// from 65%, comfortable below; an empty window is comfortable.
pub open spec fn level_spec(used: nat, limit: nat) -> UsageLevel {
    if limit == 0 {
        UsageLevel::Comfortable
    } else if 100 * used >= 85 * limit {
        UsageLevel::Critical
    } else if 100 * used >= 65 * limit {
        UsageLevel::Elevated
    } else {
        UsageLevel::Comfortable
    }
}

/// The order of the bands, calmest first.
pub open spec fn level_rank(level: UsageLevel) -> int {
    match level {
        UsageLevel::Comfortable => 0,
        UsageLevel::Elevated => 1,
        UsageLevel::Critical => 2,
    }
}

/// The bands turn at 65% and 85% of any window: a window used below 65%
/// is comfortable, from 65% up to below 85% elevated, and from 85%
/// critical; an empty window is comfortable.
pub proof fn lemma_usage_band_thresholds(used: nat, limit: nat)
    ensures
        limit == 0 ==> level_spec(used, limit) == UsageLevel::Comfortable,
        limit > 0 && 100 * used < 65 * limit ==> level_spec(used, limit) == UsageLevel::Comfortable,
        limit > 0 && 65 * limit <= 100 * used < 85 * limit ==> level_spec(used, limit) == UsageLevel::Elevated,
        limit > 0 && 85 * limit <= 100 * used ==> level_spec(used, limit) == UsageLevel::Critical,
        level_spec(65 * limit, 100 * limit) == (if limit > 0 {
            UsageLevel::Elevated
        } else {
            UsageLevel::Comfortable
        }),
        limit > 0 ==> level_spec(64 * limit, 100 * limit) == UsageLevel::Comfortable,
        limit > 0 ==> level_spec(85 * limit, 100 * limit) == UsageLevel::Critical,
        limit > 0 ==> level_spec(84 * limit, 100 * limit) == UsageLevel::Elevated,
{
}

/// The meter only escalates as the window fills: more tokens used of the
/// same window never read as a calmer band or a smaller percentage, and
/// the percentage never exceeds a hundred.
pub proof fn lemma_usage_rises_monotonically(a: nat, b: nat, limit: nat)
    requires
        a <= b,
    ensures
        level_rank(level_spec(a, limit)) <= level_rank(level_spec(b, limit)),
        percent_spec(a, limit) <= percent_spec(b, limit),
        percent_spec(b, limit) <= 100,
{
    if limit > 0 {
        if b < limit {
            vstd::arithmetic::div_mod::lemma_div_is_ordered((200 * a + limit) as int, (200 * b + limit) as int, (2 * limit) as int);
            assert(percent_spec(b, limit) <= 100) by (nonlinear_arith)
                requires
                    b < limit,
                    percent_spec(b, limit) == (200 * b + limit) / (2 * limit),
            ;
        } else if a < limit {
            assert(percent_spec(a, limit) <= 100) by (nonlinear_arith)
                requires
                    a < limit,
                    percent_spec(a, limit) == (200 * a + limit) / (2 * limit),
            ;
        }
    }
}

/// Application-measured token usage for one context window.
#[derive(Debug, Clone, PartialEq, Eq)]
pub struct ContextUsage {
    used: u64,
    limit: u64,
    input: Option<u64>,
    output: Option<u64>,
    reasoning: Option<u64>,
    cached: Option<u64>,
    cost: Option<String>,
}

impl Default for ContextUsage {
    /// No tokens used of an empty window, with no breakdown.
    fn default() -> (r: Self)
        ensures
            r.used_spec() == 0,
            r.limit_spec() == 0,
            r.input_spec() is None,
            r.output_spec() is None,
            r.reasoning_spec() is None,
            r.cached_spec() is None,
            r.cost_view() is None,
    {
        ContextUsage::new(0, 0)
    }
}

/// One labelled line of the hover breakdown.
#[derive(Debug, Clone, PartialEq, Eq)]
pub struct BreakdownRow {
    /// What the line measures (`Used`, `Input`, `Cost`, ...).
    pub label: String,
    /// The value read out.
    pub value: String,
}

/// The `used / limit` readout.
pub open spec fn ratio_text_spec(used: nat, limit: nat) -> Seq<char> {
    format_tokens_spec(used) + " / "@ + format_tokens_spec(limit)
}

/// A breakdown line as characters.
pub open spec fn row_view(r: BreakdownRow) -> (Seq<char>, Seq<char>) {
    (r.label@, r.value@)
}

/// An optional breakdown line for a token count.
pub open spec fn token_line(label: Seq<char>, tokens: Option<u64>) -> Seq<(Seq<char>, Seq<char>)> {
    match tokens {
        Some(t) => seq![(label, format_tokens_spec(t as nat))],
        None => seq![],
    }
}

impl ContextUsage {
    /// The consumed token count.
    pub closed spec fn used_spec(self) -> u64 {
        self.used
    }

    /// The window size in tokens.
    pub closed spec fn limit_spec(self) -> u64 {
        self.limit
    }

    /// Input tokens, when recorded.
    pub closed spec fn input_spec(self) -> Option<u64> {
        self.input
    }

    /// Output tokens, when recorded.
    pub closed spec fn output_spec(self) -> Option<u64> {
        self.output
    }

    /// Reasoning tokens, when recorded.
    pub closed spec fn reasoning_spec(self) -> Option<u64> {
        self.reasoning
    }

    /// Cached tokens, when recorded.
    pub closed spec fn cached_spec(self) -> Option<u64> {
        self.cached
    }

    /// The cost line, when recorded.
    pub closed spec fn cost_view(self) -> Option<Seq<char>> {
        opt_view(self.cost)
    }

    /// Creates a usage snapshot from consumed tokens and the window size.
    pub fn new(used: u64, limit: u64) -> (r: Self)
        ensures
            r.used_spec() == used,
            r.limit_spec() == limit,
            r.input_spec() is None,
            r.output_spec() is None,
            r.reasoning_spec() is None,
            r.cached_spec() is None,
            r.cost_view() is None,
    {
        ContextUsage { used, limit, input: None, output: None, reasoning: None, cached: None, cost: None }
    }

    /// Records input (prompt) tokens for the breakdown.
    pub fn input(self, tokens: u64) -> (r: Self)
        ensures
            r.input_spec() == Some(tokens),
            r.used_spec() == self.used_spec(),
            r.limit_spec() == self.limit_spec(),
            r.output_spec() == self.output_spec(),
            r.reasoning_spec() == self.reasoning_spec(),
            r.cached_spec() == self.cached_spec(),
            r.cost_view() == self.cost_view(),
    {
        ContextUsage { input: Some(tokens), ..self }
    }

    /// Records output (completion) tokens for the breakdown.
    pub fn output(self, tokens: u64) -> (r: Self)
        ensures
            r.output_spec() == Some(tokens),
            r.used_spec() == self.used_spec(),
            r.limit_spec() == self.limit_spec(),
            r.input_spec() == self.input_spec(),
            r.reasoning_spec() == self.reasoning_spec(),
            r.cached_spec() == self.cached_spec(),
            r.cost_view() == self.cost_view(),
    {
        ContextUsage { output: Some(tokens), ..self }
    }

    /// Records reasoning tokens for the breakdown.
    pub fn reasoning(self, tokens: u64) -> (r: Self)
        ensures
            r.reasoning_spec() == Some(tokens),
            r.used_spec() == self.used_spec(),
            r.limit_spec() == self.limit_spec(),
            r.input_spec() == self.input_spec(),
            r.output_spec() == self.output_spec(),
            r.cached_spec() == self.cached_spec(),
            r.cost_view() == self.cost_view(),
    {
        ContextUsage { reasoning: Some(tokens), ..self }
    }

    /// Records cached (prompt-cache hit) tokens for the breakdown.
    pub fn cached(self, tokens: u64) -> (r: Self)
        ensures
            r.cached_spec() == Some(tokens),
            r.used_spec() == self.used_spec(),
            r.limit_spec() == self.limit_spec(),
            r.input_spec() == self.input_spec(),
            r.output_spec() == self.output_spec(),
            r.reasoning_spec() == self.reasoning_spec(),
            r.cost_view() == self.cost_view(),
    {
        ContextUsage { cached: Some(tokens), ..self }
    }

    /// Records an application-formatted cost line (for example `$0.42`).
    pub fn cost(self, cost: &str) -> (r: Self)
        ensures
            r.cost_view() == Some(cost@),
            r.used_spec() == self.used_spec(),
            r.limit_spec() == self.limit_spec(),
            r.input_spec() == self.input_spec(),
            r.output_spec() == self.output_spec(),
            r.reasoning_spec() == self.reasoning_spec(),
            r.cached_spec() == self.cached_spec(),
    {
        ContextUsage { cost: Some(cost.to_owned()), ..self }
    }

    /// The share of the window in use as a numerator and denominator: the
    /// used count clamped to the window, over the window. An empty window
    /// is `0 / 0` and reads as nothing used.
    pub fn fraction_parts(&self) -> (r: (u64, u64))
        ensures
            r.1 == self.limit_spec(),
            r.0 == if self.used_spec() > self.limit_spec() { self.limit_spec() } else { self.used_spec() },
    {
        if self.used > self.limit {
            (self.limit, self.limit)
        } else {
            (self.used, self.limit)
        }
    }

    /// Used tokens as a whole percentage.
    pub fn percent(&self) -> (r: u8)
        ensures
            r as nat == percent_spec(self.used_spec() as nat, self.limit_spec() as nat),
            r <= 100,
    {
        if self.limit == 0 {
            return 0;
        }
        if self.used >= self.limit {
            return 100;
        }
        let u: u128 = self.used as u128;
        let l: u128 = self.limit as u128;
        let p: u128 = (200 * u + l) / (2 * l);
        assert(p <= 100) by (nonlinear_arith)
            requires
                p == (200 * u + l) / (2 * l),
                u < l,
        ;
        p as u8
    }

    /// The band the current usage falls in.
    pub fn level(&self) -> (r: UsageLevel)
        ensures
            r == level_spec(self.used_spec() as nat, self.limit_spec() as nat),
    {
        if self.limit == 0 {
            return UsageLevel::Comfortable;
        }
        let u: u128 = self.used as u128;
        let l: u128 = self.limit as u128;
        if 100 * u >= 85 * l {
            UsageLevel::Critical
        } else if 100 * u >= 65 * l {
            UsageLevel::Elevated
        } else {
            UsageLevel::Comfortable
        }
    }

    /// Returns the consumed token count.
    pub fn used(&self) -> (r: u64)
        ensures
            r == self.used_spec(),
    {
        self.used
    }

    /// Returns the window size in tokens.
    pub fn limit(&self) -> (r: u64)
        ensures
            r == self.limit_spec(),
    {
        self.limit
    }

    /// Whether there is anything to show beyond the used count.
    pub fn has_breakdown(&self) -> (r: bool)
        ensures
            r == (self.input_spec() is Some || self.output_spec() is Some || self.reasoning_spec() is Some
                || self.cached_spec() is Some || self.cost_view() is Some),
    {
        self.input.is_some() || self.output.is_some() || self.reasoning.is_some() || self.cached.is_some()
            || self.cost.is_some()
    }

    /// The `used / limit` readout, such as `84.3K / 200K`.
    pub fn ratio_text(&self) -> (r: String)
        ensures
            r@ == ratio_text_spec(self.used_spec() as nat, self.limit_spec() as nat),
    {
        let mut s = format_tokens(self.used);
        s.append(" / ");
        let limit = format_tokens(self.limit);
        s.append(limit.as_str());
        s
    }

    /// The description read with the meter: `84.3K of 200K tokens used, 42%`.
    pub fn summary(&self) -> (r: String)
        ensures
            r@ == format_tokens_spec(self.used_spec() as nat) + " of "@ + format_tokens_spec(self.limit_spec() as nat)
                + " tokens used, "@ + decimal(percent_spec(self.used_spec() as nat, self.limit_spec() as nat)) + "%"@,
    {
        let mut s = format_tokens(self.used);
        s.append(" of ");
        let limit = format_tokens(self.limit);
        s.append(limit.as_str());
        s.append(" tokens used, ");
        let p = self.percent();
        push_decimal(&mut s, p as u64);
        s.append("%");
        s
    }

    /// The hover breakdown: the used ratio, then whichever of input,
    /// output, reasoning, cached, and cost were recorded, in that order.
    pub fn breakdown(&self) -> (r: Vec<BreakdownRow>)
        ensures
            r@.map_values(|row: BreakdownRow| row_view(row)) == seq![("Used"@, ratio_text_spec(self.used_spec() as nat, self.limit_spec() as nat))]
                + token_line("Input"@, self.input_spec()) + token_line("Output"@, self.output_spec())
                + token_line("Reasoning"@, self.reasoning_spec()) + token_line("Cached"@, self.cached_spec())
                + match self.cost_view() {
                    Some(c) => seq![("Cost"@, c)],
                    None => seq![],
                },
    {
        let mut rows: Vec<BreakdownRow> = Vec::new();
        rows.push(BreakdownRow { label: "Used".to_owned(), value: self.ratio_text() });
        let ghost expected = seq![("Used"@, ratio_text_spec(self.used_spec() as nat, self.limit_spec() as nat))];
        assert(rows@.map_values(|row: BreakdownRow| row_view(row)) =~= expected);
        push_token_line(&mut rows, "Input", self.input);
        push_token_line(&mut rows, "Output", self.output);
        push_token_line(&mut rows, "Reasoning", self.reasoning);
        push_token_line(&mut rows, "Cached", self.cached);
        let ghost before = rows@;
        if let Some(cost) = &self.cost {
            rows.push(BreakdownRow { label: "Cost".to_owned(), value: cost.clone() });
            assert(rows@.map_values(|row: BreakdownRow| row_view(row)) =~= before.map_values(|row: BreakdownRow| row_view(row)) + seq![("Cost"@, cost@)]);
        } else {
            assert(before.map_values(|row: BreakdownRow| row_view(row)) + seq![] =~= before.map_values(|row: BreakdownRow| row_view(row)));
        }
        rows
    }
}

fn push_token_line(rows: &mut Vec<BreakdownRow>, label: &str, tokens: Option<u64>)
    ensures
        final(rows)@.map_values(|row: BreakdownRow| row_view(row)) == old(rows)@.map_values(|row: BreakdownRow| row_view(row))
            + token_line(label@, tokens),
{
    let ghost before = rows@;
    match tokens {
        Some(t) => {
            rows.push(BreakdownRow { label: label.to_owned(), value: format_tokens(t) });
            assert(rows@.map_values(|row: BreakdownRow| row_view(row)) =~= before.map_values(|row: BreakdownRow| row_view(row))
                + token_line(label@, tokens));
        },
        None => {
            assert(before.map_values(|row: BreakdownRow| row_view(row)) + token_line(label@, tokens)
                =~= before.map_values(|row: BreakdownRow| row_view(row)));
        },
    }
}

/// The percentage readout next to the meter, such as `42%`.
pub fn percent_text(usage: &ContextUsage) -> (r: String)
    ensures
        r@ == decimal(percent_spec(usage.used_spec() as nat, usage.limit_spec() as nat)) + "%"@,
{
    let mut s = String::new();
    let p = usage.percent();
    push_decimal(&mut s, p as u64);
    s.append("%");
    s
}

} // verus!
