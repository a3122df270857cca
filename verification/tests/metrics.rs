use ollama_client::endpoint::Endpoint;
use ollama_client::metrics::{
    image_context, image_metrics_block, metrics_block, report, round_div, DisplayMetrics,
    ServerFigures,
};
use ollama_client::decimal::fixed2_string;
use ollama_client::stream::RunMetrics;

fn gathered(text: &str, elapsed_ns: u128, eval_count: u64, eval_ns: u64, total_ns: u64) -> RunMetrics {
    RunMetrics {
        elapsed_ns,
        accumulated_text: String::from(text),
        eval_count,
        eval_duration_ns: eval_ns,
        total_duration_ns: total_ns,
    }
}

#[test]
fn round_div_rounds_to_nearest_with_halves_up() {
    assert_eq!(round_div(0, 5), 0);
    assert_eq!(round_div(7, 1), 7);
    assert_eq!(round_div(10, 4), 3);
    assert_eq!(round_div(9, 4), 2);
    assert_eq!(round_div(11, 4), 3);
    assert_eq!(round_div(1, 3), 0);
    assert_eq!(round_div(2, 3), 1);
    assert_eq!(round_div(u128::MAX, 1), u128::MAX);
    assert_eq!(round_div(u128::MAX, u128::MAX), 1);
    assert_eq!(round_div(u128::MAX - 1, u128::MAX), 1);
    assert_eq!(round_div(u128::MAX / 2, u128::MAX), 0);
    assert_eq!(round_div(u128::MAX / 2 + 1, u128::MAX), 1);
}

#[test]
fn round_div_by_zero_is_zero() {
    assert_eq!(round_div(0, 0), 0);
    assert_eq!(round_div(123, 0), 0);
    assert_eq!(round_div(u128::MAX, 0), 0);
}

#[test]
fn tokens_per_second_is_zero_when_no_time_went_by() {
    let shown = report(&gathered("hello world foo", 0, 0, 0, 0));
    assert_eq!(shown.tokens_per_second_hundredths, 0);
    assert_eq!(shown.total_time_hundredths, 0);
    assert_eq!(shown.total_tokens, 3);
    let shown = report(&gathered("", 0, u64::MAX, 0, 0));
    assert_eq!(shown.tokens_per_second_hundredths, 0);
    assert_eq!(shown.total_tokens, u64::MAX);
}

#[test]
fn total_tokens_falls_back_to_the_word_count() {
    let shown = report(&gathered("hello world foo", 1_000_000_000, 0, 0, 0));
    assert_eq!(shown.total_tokens, 3);
    assert_eq!(shown.tokens_per_second_hundredths, 300);
    assert_eq!(shown.server, None);
    assert_eq!(shown.server_total_time_hundredths, None);
}

#[test]
fn total_tokens_is_the_server_count_when_there_is_one() {
    let shown = report(&gathered("hello world foo", 2_000_000_000, 10, 0, 0));
    assert_eq!(shown.total_tokens, 10);
    assert_eq!(shown.total_time_hundredths, 200);
    assert_eq!(shown.tokens_per_second_hundredths, 500);
}

#[test]
fn an_empty_stream_reports_zeros() {
    let shown = report(&gathered("", 0, 0, 0, 0));
    assert_eq!(
        shown,
        DisplayMetrics {
            total_tokens: 0,
            total_time_hundredths: 0,
            tokens_per_second_hundredths: 0,
            server: None,
            server_total_time_hundredths: None,
        }
    );
}

#[test]
fn rates_are_rounded_to_the_nearest_hundredth() {
    // 1 token in 3 s is 0.333..., 2 tokens in 3 s are 0.666..., 1 token in 8 s is 0.125.
    assert_eq!(report(&gathered("", 3_000_000_000, 1, 0, 0)).tokens_per_second_hundredths, 33);
    assert_eq!(report(&gathered("", 3_000_000_000, 2, 0, 0)).tokens_per_second_hundredths, 67);
    assert_eq!(report(&gathered("", 8_000_000_000, 1, 0, 0)).tokens_per_second_hundredths, 13);
    assert_eq!(report(&gathered("", 1, 1, 0, 0)).tokens_per_second_hundredths, 100_000_000_000);
}

#[test]
fn total_time_is_rounded_to_the_nearest_hundredth_of_a_second() {
    assert_eq!(report(&gathered("", 1_234_999_999, 0, 0, 0)).total_time_hundredths, 123);
    assert_eq!(report(&gathered("", 1_235_000_000, 0, 0, 0)).total_time_hundredths, 124);
    assert_eq!(report(&gathered("", 4_999_999, 0, 0, 0)).total_time_hundredths, 0);
    assert_eq!(report(&gathered("", 5_000_000, 0, 0, 0)).total_time_hundredths, 1);
}

#[test]
fn server_figures_come_with_a_server_reported_duration() {
    let shown = report(&gathered("a b", 4_000_000_000, 42, 1_500_000_000, 3_250_000_000));
    assert_eq!(
        shown.server,
        Some(ServerFigures { eval_time_hundredths: 150, tokens_per_second_hundredths: 2800 })
    );
    assert_eq!(shown.server_total_time_hundredths, Some(325));
    assert_eq!(shown.total_tokens, 42);
    assert_eq!(shown.tokens_per_second_hundredths, 1050);
}

#[test]
fn server_rate_uses_the_server_count_even_when_it_is_zero() {
    let shown = report(&gathered("one two", 1_000_000_000, 0, 2_000_000_000, 0));
    assert_eq!(shown.total_tokens, 2);
    assert_eq!(
        shown.server,
        Some(ServerFigures { eval_time_hundredths: 200, tokens_per_second_hundredths: 0 })
    );
}

#[test]
fn the_largest_inputs_do_not_overflow() {
    let shown = report(&gathered("", u128::MAX, u64::MAX, u64::MAX, u64::MAX));
    assert_eq!(shown.total_tokens, u64::MAX);
    assert_eq!(shown.tokens_per_second_hundredths, 0);
    assert_eq!(shown.total_time_hundredths, round_div(u128::MAX, 10_000_000));
    let server = shown.server.expect("a duration was reported");
    assert_eq!(server.tokens_per_second_hundredths, 100_000_000_000);
    let shown = report(&gathered("", 1, u64::MAX, 0, 0));
    assert_eq!(shown.tokens_per_second_hundredths, u64::MAX as u128 * 100_000_000_000);
}

#[test]
fn rates_agree_with_floating_point_to_two_decimals() {
    let cases: [(u64, u128); 6] = [
        (10, 2_000_000_000),
        (128, 3_700_000_000),
        (1, 3_000_000_000),
        (977, 12_345_678_901),
        (5, 250_000_000),
        (64, 1_000_000_007),
    ];
    for (tokens, nanos) in cases {
        let shown = report(&gathered("", nanos, tokens, 0, 0));
        let seconds = nanos as f64 / 1e9;
        let expected = format!("{:.2}", tokens as f64 / seconds);
        assert_eq!(fixed2_string(shown.tokens_per_second_hundredths), expected);
        assert_eq!(fixed2_string(shown.total_time_hundredths), format!("{:.2}", seconds));
    }
}

#[test]
fn the_metrics_block_has_fixed_labels() {
    let shown = report(&gathered("hello world foo", 1_500_000_000, 0, 0, 0));
    let lines = metrics_block(&shown, &vec![]);
    assert_eq!(
        lines,
        vec![
            "--- Performance Metrics ---",
            "Total time: 1.50s",
            "Tokens generated: 3",
            "Tokens per second: 2.00",
            "----------------------------",
        ]
    );
}

#[test]
fn the_metrics_block_shows_server_figures_when_present() {
    let shown = report(&gathered("a b", 4_000_000_000, 42, 1_500_000_000, 3_250_000_000));
    let lines = metrics_block(&shown, &vec![]);
    assert_eq!(
        lines,
        vec![
            "--- Performance Metrics ---",
            "Total time: 4.00s",
            "Tokens generated: 42",
            "Tokens per second: 10.50",
            "Ollama eval time: 1.50s",
            "Ollama tokens/sec: 28.00",
            "Ollama total time: 3.25s",
            "----------------------------",
        ]
    );
}

#[test]
fn the_metrics_block_puts_the_callers_lines_first() {
    let shown = report(&gathered("x", 1_000_000_000, 0, 0, 0));
    let context = image_context("cat.png", &Endpoint::local());
    assert_eq!(context, vec!["Image: cat.png", "Connection: Local"]);
    let lines = metrics_block(&shown, &context);
    assert_eq!(
        lines,
        vec![
            "--- Performance Metrics ---",
            "Image: cat.png",
            "Connection: Local",
            "Total time: 1.00s",
            "Tokens generated: 1",
            "Tokens per second: 1.00",
            "----------------------------",
        ]
    );
}

#[test]
fn a_remote_connection_is_called_remote() {
    let context = image_context("dog.jpg", &Endpoint::remote("192.168.0.7"));
    assert_eq!(context, vec!["Image: dog.jpg", "Connection: Remote"]);
}

#[test]
fn a_host_that_only_holds_a_loopback_name_is_called_remote() {
    let context = image_context("dog.jpg", &Endpoint::remote("10.127.0.0.10"));
    assert_eq!(context, vec!["Image: dog.jpg", "Connection: Remote"]);
    let context = image_context("dog.jpg", &Endpoint::remote("127.0.0.1"));
    assert_eq!(context, vec!["Image: dog.jpg", "Connection: Local"]);
}

#[test]
fn the_image_metrics_block_leaves_out_the_server_total_time() {
    let shown = report(&gathered("a b", 4_000_000_000, 42, 1_500_000_000, 3_250_000_000));
    assert_eq!(shown.server_total_time_hundredths, Some(325));
    let lines = image_metrics_block(&shown, "cat.png", &Endpoint::remote("192.168.0.7"));
    assert_eq!(
        lines,
        vec![
            "--- Performance Metrics ---",
            "Image: cat.png",
            "Connection: Remote",
            "Total time: 4.00s",
            "Tokens generated: 42",
            "Tokens per second: 10.50",
            "Ollama eval time: 1.50s",
            "Ollama tokens/sec: 28.00",
            "----------------------------",
        ]
    );
}

#[test]
fn the_image_metrics_block_without_server_figures() {
    let shown = report(&gathered("x", 1_000_000_000, 0, 0, 0));
    let lines = image_metrics_block(&shown, "cat.png", &Endpoint::local());
    assert_eq!(
        lines,
        vec![
            "--- Performance Metrics ---",
            "Image: cat.png",
            "Connection: Local",
            "Total time: 1.00s",
            "Tokens generated: 1",
            "Tokens per second: 1.00",
            "----------------------------",
        ]
    );
}
