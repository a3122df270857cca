use ollama_client::stream::{count_or_zero, StreamChunk, StreamExecutor};

fn text_chunk(text: &str) -> StreamChunk {
    StreamChunk {
        text: String::from(text),
        is_final: false,
        eval_count: None,
        eval_duration_ns: None,
        total_duration_ns: None,
    }
}

fn final_chunk(text: &str, eval_count: Option<u64>, eval_ns: Option<u64>, total_ns: Option<u64>) -> StreamChunk {
    StreamChunk {
        text: String::from(text),
        is_final: true,
        eval_count,
        eval_duration_ns: eval_ns,
        total_duration_ns: total_ns,
    }
}

#[test]
fn a_fresh_executor_has_gathered_nothing() {
    let metrics = StreamExecutor::start().finish(0);
    assert_eq!(metrics.accumulated_text, "");
    assert_eq!(metrics.elapsed_ns, 0);
    assert_eq!(metrics.eval_count, 0);
    assert_eq!(metrics.eval_duration_ns, 0);
    assert_eq!(metrics.total_duration_ns, 0);
}

#[test]
fn each_chunk_is_emitted_and_gathered_in_order() {
    let mut executor = StreamExecutor::start();
    assert_eq!(executor.on_chunk(&text_chunk("Hi")), "Hi");
    assert_eq!(executor.on_chunk(&text_chunk(" there")), " there");
    assert_eq!(executor.on_chunk(&text_chunk("")), "");
    assert_eq!(executor.on_chunk(&text_chunk("!")), "!");
    let metrics = executor.finish(5);
    assert_eq!(metrics.accumulated_text, "Hi there!");
    assert_eq!(metrics.elapsed_ns, 5);
}

#[test]
fn the_final_chunk_sets_the_counts() {
    let mut executor = StreamExecutor::start();
    executor.on_chunk(&text_chunk("a b"));
    executor.on_chunk(&final_chunk("", Some(12), Some(3_000_000_000), Some(4_000_000_000)));
    let metrics = executor.finish(1_000);
    assert_eq!(metrics.eval_count, 12);
    assert_eq!(metrics.eval_duration_ns, 3_000_000_000);
    assert_eq!(metrics.total_duration_ns, 4_000_000_000);
    assert_eq!(metrics.accumulated_text, "a b");
}

#[test]
fn counts_that_the_final_chunk_lacks_are_zero() {
    let mut executor = StreamExecutor::start();
    executor.on_chunk(&final_chunk("done", None, Some(7), None));
    let metrics = executor.finish(1);
    assert_eq!(metrics.eval_count, 0);
    assert_eq!(metrics.eval_duration_ns, 7);
    assert_eq!(metrics.total_duration_ns, 0);
    assert_eq!(metrics.accumulated_text, "done");
}

#[test]
fn a_chunk_that_is_not_final_sets_no_counts() {
    let mut executor = StreamExecutor::start();
    let mut stray = text_chunk("x");
    stray.eval_count = Some(99);
    stray.eval_duration_ns = Some(99);
    stray.total_duration_ns = Some(99);
    executor.on_chunk(&stray);
    let metrics = executor.finish(1);
    assert_eq!(metrics.eval_count, 0);
    assert_eq!(metrics.eval_duration_ns, 0);
    assert_eq!(metrics.total_duration_ns, 0);
}

#[test]
fn a_stream_without_a_final_chunk_leaves_the_counts_at_zero() {
    let mut executor = StreamExecutor::start();
    executor.on_chunk(&text_chunk("partial"));
    let metrics = executor.finish(10);
    assert_eq!(metrics.accumulated_text, "partial");
    assert_eq!(metrics.eval_count, 0);
    assert_eq!(metrics.eval_duration_ns, 0);
    assert_eq!(metrics.total_duration_ns, 0);
}

#[test]
fn metrics_at_leaves_the_executor_going() {
    let mut executor = StreamExecutor::start();
    executor.on_chunk(&text_chunk("one"));
    let early = executor.metrics_at(3);
    executor.on_chunk(&text_chunk(" two"));
    let late = executor.metrics_at(9);
    assert_eq!(early.accumulated_text, "one");
    assert_eq!(early.elapsed_ns, 3);
    assert_eq!(late.accumulated_text, "one two");
    assert_eq!(late.elapsed_ns, 9);
}

#[test]
fn count_or_zero_defaults_to_zero() {
    assert_eq!(count_or_zero(None), 0);
    assert_eq!(count_or_zero(Some(0)), 0);
    assert_eq!(count_or_zero(Some(17)), 17);
}

#[test]
fn a_cloned_chunk_is_the_same_chunk() {
    let chunk = final_chunk("x", Some(1), Some(2), Some(3));
    let copy = chunk.clone();
    assert_eq!(copy.text, "x");
    assert!(copy.is_final);
    assert_eq!(copy.eval_count, Some(1));
    assert_eq!(copy.eval_duration_ns, Some(2));
    assert_eq!(copy.total_duration_ns, Some(3));
}
