use ollama_client::endpoint::Endpoint;
use ollama_client::error::{AttemptFailure, ConnectionError, GenerationError, InvalidInput, StreamInterrupted};
use ollama_client::stream::RunMetrics;

#[test]
fn invalid_inputs_are_put_in_words() {
    assert_eq!(InvalidInput::EmptyImage { index: 2 }.message(), "Image 2 is empty");
    assert_eq!(
        InvalidInput::OversizedImage { index: 10 }.message(),
        "Image 10 is too large to encode"
    );
    assert_eq!(InvalidInput::SelectionNotACount.message(), "Invalid selection");
    assert_eq!(
        InvalidInput::SelectionOutOfRange { selection: 9, available: 2 }.message(),
        "Invalid image selection"
    );
}

#[test]
fn every_kind_of_error_has_its_message() {
    let invalid = GenerationError::InvalidInput(InvalidInput::EmptyImage { index: 0 });
    assert_eq!(invalid.message(), "Image 0 is empty");
    let connection = GenerationError::Connection(ConnectionError {
        earlier: None,
        last: AttemptFailure { endpoint: Endpoint::local(), message: String::from("refused") },
    });
    assert_eq!(connection.message(), "Connection failed. http://localhost:11434: refused");
    let interrupted = GenerationError::Interrupted(StreamInterrupted {
        endpoint: Endpoint::remote("h"),
        message: String::from("reset"),
        partial: RunMetrics {
            elapsed_ns: 1,
            accumulated_text: String::from("par"),
            eval_count: 0,
            eval_duration_ns: 0,
            total_duration_ns: 0,
        },
    });
    assert_eq!(interrupted.message(), "Stream interrupted. http://h:11434: reset");
}

#[test]
fn an_invalid_input_becomes_a_generation_error() {
    let error = GenerationError::from(InvalidInput::SelectionNotACount);
    assert!(matches!(
        error,
        GenerationError::InvalidInput(InvalidInput::SelectionNotACount)
    ));
    assert_eq!(error.message(), "Invalid selection");
}
