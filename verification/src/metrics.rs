//! The metrics reporter: throughput figures from what a stream gathered,
//! and the lines that show them.
//!
//! Times and rates are fixed-point numbers with two decimal places, held as
//! whole hundredths and rounded to the nearest hundredth, halves up. A rate
//! over no time at all is zero.

use crate::decimal::{decimal, fixed2, push_decimal, push_fixed2};
use crate::endpoint::{is_loopback_text, Endpoint, EndpointView};
use crate::stream::{MetricsView, RunMetrics};
use crate::text::{count_words, line_texts, word_count};
use vstd::arithmetic::div_mod::lemma_fundamental_div_mod_converse;
use vstd::prelude::*;
use vstd::string::StringExecFns;

verus! {

/// Nanoseconds in a hundredth of a second.
pub const NANOS_PER_HUNDREDTH: u128 = 10_000_000;

/// Nanoseconds in a second.
pub const NANOS_PER_SECOND: u128 = 1_000_000_000;

/// `n / d` rounded to the nearest whole number, halves up; zero when `d` is
/// zero.
pub open spec fn rounded_quotient(n: nat, d: nat) -> nat {
    if d == 0 {
        0
    } else {
        (2 * n + d) / (2 * d)
    }
}

/// Rounding to nearest goes one up from the whole quotient exactly when
/// twice the remainder reaches the divisor.
pub proof fn lemma_rounded_quotient(n: nat, d: nat)
    requires
        d > 0,
    ensures
        rounded_quotient(n, d) == n / d + if 2 * (n % d) >= d {
            1nat
        } else {
            0nat
        },
{
    let q = (n / d) as int;
    let r = (n % d) as int;
    assert(n == d * q + r) by {
        vstd::arithmetic::div_mod::lemma_fundamental_div_mod(n as int, d as int);
    }
    assert(0 <= r < d) by {
        vstd::arithmetic::div_mod::lemma_mod_pos_bound(n as int, d as int);
    }
    assert(0 <= q) by {
        vstd::arithmetic::div_mod::lemma_div_pos_is_pos(n as int, d as int);
    }
    if 2 * r >= d {
        assert(2 * n + d == (q + 1) * (2 * d) + (2 * r - d)) by (nonlinear_arith)
            requires
                n == d * q + r,
        ;
        lemma_fundamental_div_mod_converse((2 * n + d) as int, (2 * d) as int, q + 1, 2 * r - d);
    } else {
        assert(2 * n + d == q * (2 * d) + (2 * r + d)) by (nonlinear_arith)
            requires
                n == d * q + r,
        ;
        lemma_fundamental_div_mod_converse((2 * n + d) as int, (2 * d) as int, q, 2 * r + d);
    }
}

/// A rounded quotient is the whole number nearest to the true quotient: it
/// is off by half a unit at most.
pub proof fn lemma_rounded_quotient_is_nearest(n: nat, d: nat)
    requires
        d > 0,
    ensures
        2 * (rounded_quotient(n, d) * d - n) <= d,
        2 * (n - rounded_quotient(n, d) * d) < d,
{
    lemma_rounded_quotient(n, d);
    let q = (n / d) as int;
    let r = (n % d) as int;
    assert(n == d * q + r) by {
        vstd::arithmetic::div_mod::lemma_fundamental_div_mod(n as int, d as int);
    }
    assert(0 <= r < d) by {
        vstd::arithmetic::div_mod::lemma_mod_pos_bound(n as int, d as int);
    }
    if 2 * r >= d {
        assert((q + 1) * d == d * q + d) by (nonlinear_arith);
    } else {
        assert(q * d == d * q) by (nonlinear_arith);
    }
}

/// A rounded quotient never exceeds what was divided: rates and times stay
/// within the range of the numbers they are made of.
pub proof fn lemma_rounded_quotient_bounded(n: nat, d: nat)
    ensures
        rounded_quotient(n, d) <= n,
{
    if d > 0 {
        lemma_rounded_quotient(n, d);
        let q = (n / d) as int;
        let r = (n % d) as int;
        assert(n == d * q + r) by {
            vstd::arithmetic::div_mod::lemma_fundamental_div_mod(n as int, d as int);
        }
        assert(0 <= r < d) by {
            vstd::arithmetic::div_mod::lemma_mod_pos_bound(n as int, d as int);
        }
        assert(0 <= q) by {
            vstd::arithmetic::div_mod::lemma_div_pos_is_pos(n as int, d as int);
        }
        assert(q <= d * q) by (nonlinear_arith)
            requires
                d >= 1,
                q >= 0,
        ;
        if 2 * r >= d {
            assert(r >= 1);
        }
    }
}

/// `n / d` rounded to the nearest whole number, halves up; zero when `d` is
/// zero.
pub fn round_div(n: u128, d: u128) -> (q: u128)
    ensures
        q == rounded_quotient(n as nat, d as nat),
{
    if d == 0 {
        return 0;
    }
    let whole = n / d;
    let rest = n % d;
    proof {
        lemma_rounded_quotient(n as nat, d as nat);
        if d >= 2 {
            assert(whole <= n / 2) by (nonlinear_arith)
                requires
                    whole == n / d,
                    d >= 2,
            ;
        }
    }
    if rest >= d - rest {
        whole + 1
    } else {
        whole
    }
}

/// The tokens a stream produced: the server's count when it gave one, else
/// the number of whitespace-delimited words of the text, which stands in
/// for a true token count.
pub open spec fn total_tokens(m: MetricsView) -> nat {
    if m.eval_count > 0 {
        m.eval_count as nat
    } else {
        word_count(m.accumulated_text)
    }
}

/// `count` per second over `nanos` nanoseconds, in hundredths; zero over no
/// time.
pub open spec fn rate_hundredths(count: nat, nanos: nat) -> nat {
    rounded_quotient(count * 100 * NANOS_PER_SECOND as nat, nanos)
}

/// `nanos` nanoseconds as seconds, in hundredths.
pub open spec fn seconds_hundredths(nanos: nat) -> nat {
    rounded_quotient(nanos, NANOS_PER_HUNDREDTH as nat)
}

/// What the server itself reported of the generation.
#[derive(Clone, Copy, Debug, PartialEq, Eq)]
pub struct ServerFigures {
    /// The time the server spent generating, in hundredths of a second.
    pub eval_time_hundredths: u128,
    /// Tokens per second by the server's own count and time, in hundredths.
    pub tokens_per_second_hundredths: u128,
}

/// The figures shown for one stream.
#[derive(Clone, Copy, Debug, PartialEq, Eq)]
pub struct DisplayMetrics {
    /// Tokens generated.
    pub total_tokens: u64,
    /// Wall time of the stream, in hundredths of a second.
    pub total_time_hundredths: u128,
    /// Tokens per second of wall time, in hundredths.
    pub tokens_per_second_hundredths: u128,
    /// The server's own figures, when it reported a generation time.
    pub server: Option<ServerFigures>,
    /// The server's total time, in hundredths of a second, when it reported
    /// one.
    pub server_total_time_hundredths: Option<u128>,
}

/// The server's own figures: none unless it reported a generation time.
pub open spec fn server_figures(m: MetricsView) -> Option<ServerFigures> {
    if m.eval_duration_ns > 0 {
        Some(
            ServerFigures {
                eval_time_hundredths: seconds_hundredths(m.eval_duration_ns as nat) as u128,
                tokens_per_second_hundredths: rate_hundredths(
                    m.eval_count as nat,
                    m.eval_duration_ns as nat,
                ) as u128,
            },
        )
    } else {
        None
    }
}

/// The server's total time: none unless it reported one.
pub open spec fn server_total_time(m: MetricsView) -> Option<u128> {
    if m.total_duration_ns > 0 {
        Some(seconds_hundredths(m.total_duration_ns as nat) as u128)
    } else {
        None
    }
}

/// Turns what a stream gathered into the figures to show.
///
/// Nothing here can fail: a stream without a final chunk, without text or
/// without any time gone by gives zeros.
pub fn report(metrics: &RunMetrics) -> (shown: DisplayMetrics)
    ensures
        shown.total_tokens == total_tokens(metrics@),
        shown.total_time_hundredths == seconds_hundredths(metrics@.elapsed_ns as nat),
        shown.tokens_per_second_hundredths == rate_hundredths(
            total_tokens(metrics@),
            metrics@.elapsed_ns as nat,
        ),
        shown.server == server_figures(metrics@),
        shown.server_total_time_hundredths == server_total_time(metrics@),
        metrics@.elapsed_ns == 0 ==> shown.tokens_per_second_hundredths == 0,
        shown.tokens_per_second_hundredths <= total_tokens(metrics@) * 100 * NANOS_PER_SECOND,
        metrics@.eval_count == 0 ==> shown.total_tokens == word_count(
            metrics@.accumulated_text,
        ),
        metrics@.eval_count > 0 ==> shown.total_tokens == metrics@.eval_count,
{
    let tokens: u64 = if metrics.eval_count > 0 {
        metrics.eval_count
    } else {
        count_words(metrics.accumulated_text.as_str())
    };
    proof {
        lemma_rounded_quotient_bounded(
            tokens as nat * 100 * NANOS_PER_SECOND as nat,
            metrics.elapsed_ns as nat,
        );
    }
    let server = if metrics.eval_duration_ns > 0 {
        Some(
            ServerFigures {
                eval_time_hundredths: round_div(
                    metrics.eval_duration_ns as u128,
                    NANOS_PER_HUNDREDTH,
                ),
                tokens_per_second_hundredths: round_div(
                    metrics.eval_count as u128 * 100 * NANOS_PER_SECOND,
                    metrics.eval_duration_ns as u128,
                ),
            },
        )
    } else {
        None
    };
    let server_total = if metrics.total_duration_ns > 0 {
        Some(round_div(metrics.total_duration_ns as u128, NANOS_PER_HUNDREDTH))
    } else {
        None
    };
    DisplayMetrics {
        total_tokens: tokens,
        total_time_hundredths: round_div(metrics.elapsed_ns, NANOS_PER_HUNDREDTH),
        tokens_per_second_hundredths: round_div(
            tokens as u128 * 100 * NANOS_PER_SECOND,
            metrics.elapsed_ns,
        ),
        server,
        server_total_time_hundredths: server_total,
    }
}

/// The lines that show the server's own figures.
pub open spec fn server_lines(server: Option<ServerFigures>) -> Seq<Seq<char>> {
    match server {
        Some(figures) => seq![
            "Ollama eval time: "@ + fixed2(figures.eval_time_hundredths as nat) + "s"@,
            "Ollama tokens/sec: "@ + fixed2(figures.tokens_per_second_hundredths as nat),
        ],
        None => Seq::empty(),
    }
}

/// The line that shows the server's total time.
pub open spec fn server_total_lines(total: Option<u128>) -> Seq<Seq<char>> {
    match total {
        Some(hundredths) => seq!["Ollama total time: "@ + fixed2(hundredths as nat) + "s"@],
        None => Seq::empty(),
    }
}

/// The lines that show the figures of a stream, each under its fixed label:
/// total time, tokens generated and tokens per second; then, where the
/// server reported them, its generation time and rate, and its total time.
pub open spec fn figure_lines(shown: DisplayMetrics) -> Seq<Seq<char>> {
    seq![
        "Total time: "@ + fixed2(shown.total_time_hundredths as nat) + "s"@,
        "Tokens generated: "@ + decimal(shown.total_tokens as nat),
        "Tokens per second: "@ + fixed2(shown.tokens_per_second_hundredths as nat),
    ] + server_lines(shown.server) + server_total_lines(shown.server_total_time_hundredths)
}

/// The metrics block: a heading, the caller's own lines, the figures, and a
/// closing rule.
pub open spec fn metrics_block_text(shown: DisplayMetrics, context: Seq<Seq<char>>) -> Seq<
    Seq<char>,
> {
    seq!["--- Performance Metrics ---"@] + context + figure_lines(shown) + seq![
        "----------------------------"@,
    ]
}

/// `label`, then `hundredths` with two decimal places, then `unit`.
fn labelled_fixed2(label: &str, hundredths: u128, unit: &str) -> (line: String)
    ensures
        line@ == label@ + fixed2(hundredths as nat) + unit@,
{
    let mut line = String::from_str(label);
    push_fixed2(&mut line, hundredths);
    line.append(unit);
    line
}

/// The metrics block for `shown`, with the lines of `context` between the
/// heading and the figures.
pub fn metrics_block(shown: &DisplayMetrics, context: &Vec<String>) -> (lines: Vec<String>)
    ensures
        line_texts(lines@) == metrics_block_text(*shown, line_texts(context@)),
{
    let mut lines: Vec<String> = Vec::new();
    lines.push(String::from_str("--- Performance Metrics ---"));
    let mut i: usize = 0;
    while i < context.len()
        invariant
            i <= context@.len(),
            lines@.len() == i + 1,
            lines@[0]@ == "--- Performance Metrics ---"@,
            forall|k: int| 1 <= k <= i ==> (#[trigger] lines@[k])@ == context@[k - 1]@,
        decreases context@.len() - i,
    {
        lines.push(context[i].clone());
        i += 1;
    }
    assert(line_texts(lines@) =~= seq!["--- Performance Metrics ---"@] + line_texts(context@));
    let ghost head = line_texts(lines@);
    lines.push(labelled_fixed2("Total time: ", shown.total_time_hundredths, "s"));
    let mut tokens = String::from_str("Tokens generated: ");
    push_decimal(&mut tokens, shown.total_tokens as u128);
    lines.push(tokens);
    lines.push(labelled_fixed2("Tokens per second: ", shown.tokens_per_second_hundredths, ""));
    proof {
        reveal_strlit("");
        assert("Tokens per second: "@ + fixed2(shown.tokens_per_second_hundredths as nat) + ""@
            =~= "Tokens per second: "@ + fixed2(shown.tokens_per_second_hundredths as nat));
    }
    match shown.server {
        Some(figures) => {
            lines.push(labelled_fixed2("Ollama eval time: ", figures.eval_time_hundredths, "s"));
            lines.push(
                labelled_fixed2("Ollama tokens/sec: ", figures.tokens_per_second_hundredths, ""),
            );
            proof {
                assert("Ollama tokens/sec: "@ + fixed2(
                    figures.tokens_per_second_hundredths as nat,
                ) + ""@ =~= "Ollama tokens/sec: "@ + fixed2(
                    figures.tokens_per_second_hundredths as nat,
                ));
            }
        },
        None => {},
    }
    match shown.server_total_time_hundredths {
        Some(hundredths) => {
            lines.push(labelled_fixed2("Ollama total time: ", hundredths, "s"));
        },
        None => {},
    }
    assert(line_texts(lines@) =~= head + figure_lines(*shown));
    lines.push(String::from_str("----------------------------"));
    assert(line_texts(lines@) =~= metrics_block_text(*shown, line_texts(context@)));
    lines
}

/// How a connection is called in the metrics block.
pub open spec fn connection_label(used: EndpointView) -> Seq<char> {
    if is_loopback_text(used.host) {
        "Local"@
    } else {
        "Remote"@
    }
}

/// The lines that an image analysis puts before its figures: the image's
/// file name, and whether the local or a remote server answered.
pub open spec fn image_context_text(filename: Seq<char>, used: EndpointView) -> Seq<Seq<char>> {
    seq!["Image: "@ + filename, "Connection: "@ + connection_label(used)]
}

/// The lines that an image analysis puts before its figures.
pub fn image_context(filename: &str, used: &Endpoint) -> (lines: Vec<String>)
    ensures
        line_texts(lines@) == image_context_text(filename@, used@),
{
    let mut image = String::from_str("Image: ");
    image.append(filename);
    let mut connection = String::from_str("Connection: ");
    if used.is_loopback() {
        connection.append("Local");
    } else {
        connection.append("Remote");
    }
    let mut lines: Vec<String> = Vec::new();
    lines.push(image);
    lines.push(connection);
    assert(line_texts(lines@) =~= image_context_text(filename@, used@));
    lines
}

/// The figures that an image analysis shows: all but the server's total
/// time.
pub open spec fn image_figures(shown: DisplayMetrics) -> DisplayMetrics {
    DisplayMetrics { server_total_time_hundredths: None, ..shown }
}

/// The metrics block of an image analysis: the image's file name and the
/// connection come before the figures, and the server's total time is not
/// among them.
pub fn image_metrics_block(shown: &DisplayMetrics, filename: &str, used: &Endpoint) -> (lines: Vec<
    String,
>)
    ensures
        line_texts(lines@) == metrics_block_text(
            image_figures(*shown),
            image_context_text(filename@, used@),
        ),
{
    let figures = DisplayMetrics {
        total_tokens: shown.total_tokens,
        total_time_hundredths: shown.total_time_hundredths,
        tokens_per_second_hundredths: shown.tokens_per_second_hundredths,
        server: shown.server,
        server_total_time_hundredths: None,
    };
    let context = image_context(filename, used);
    metrics_block(&figures, &context)
}

} // verus!
