//! What can go wrong with a generation call.

use crate::decimal::{decimal, push_decimal};
use crate::endpoint::{url_text, Endpoint, EndpointView};
use crate::stream::{MetricsView, RunMetrics};
use vstd::prelude::*;
use vstd::string::StringExecFns;

verus! {

/// A request that cannot be built. It is reported at once and never retried.
#[derive(Clone, Copy, Debug, PartialEq, Eq, Structural)]
pub enum InvalidInput {
    /// The image at `index` holds no bytes.
    EmptyImage { index: usize },
    /// The image at `index` is too long for its encoded text to be held in
    /// memory.
    OversizedImage { index: usize },
    /// What was typed to choose an item is no count.
    SelectionNotACount,
    /// A choice among `available` items, counted from one, names none of them.
    SelectionOutOfRange { selection: usize, available: usize },
}

/// One endpoint that could not be connected to, with the transport's words.
#[derive(Debug)]
pub struct AttemptFailure {
    pub endpoint: Endpoint,
    pub message: String,
}

/// What an [`AttemptFailure`] stands for.
pub struct AttemptFailureView {
    pub endpoint: EndpointView,
    pub message: Seq<char>,
}

impl View for AttemptFailure {
    type V = AttemptFailureView;

    open spec fn view(&self) -> AttemptFailureView {
        AttemptFailureView { endpoint: self.endpoint@, message: self.message@ }
    }
}

/// No streaming call could be established. `last` is the attempt that
/// failed most recently; `earlier` is the attempt before it, if there was
/// one.
#[derive(Debug)]
pub struct ConnectionError {
    pub earlier: Option<AttemptFailure>,
    pub last: AttemptFailure,
}

/// What a [`ConnectionError`] stands for.
pub struct ConnectionErrorView {
    pub earlier: Option<AttemptFailureView>,
    pub last: AttemptFailureView,
}

impl View for ConnectionError {
    type V = ConnectionErrorView;

    open spec fn view(&self) -> ConnectionErrorView {
        ConnectionErrorView {
            earlier: match self.earlier {
                Some(f) => Some(f@),
                None => None,
            },
            last: self.last@,
        }
    }
}

/// An established stream broke off. The text and counts gathered until then
/// come along, so that they can still be reported.
#[derive(Debug)]
pub struct StreamInterrupted {
    pub endpoint: Endpoint,
    pub message: String,
    pub partial: RunMetrics,
}

/// What a [`StreamInterrupted`] stands for.
pub struct StreamInterruptedView {
    pub endpoint: EndpointView,
    pub message: Seq<char>,
    pub partial: MetricsView,
}

impl View for StreamInterrupted {
    type V = StreamInterruptedView;

    open spec fn view(&self) -> StreamInterruptedView {
        StreamInterruptedView {
            endpoint: self.endpoint@,
            message: self.message@,
            partial: self.partial@,
        }
    }
}

/// Why a generation call failed. Every kind leaves the caller free to try
/// again.
#[derive(Debug)]
pub enum GenerationError {
    InvalidInput(InvalidInput),
    Connection(ConnectionError),
    Interrupted(StreamInterrupted),
}

/// What a [`GenerationError`] stands for.
pub enum ErrorView {
    InvalidInput(InvalidInput),
    Connection(ConnectionErrorView),
    Interrupted(StreamInterruptedView),
}

impl View for GenerationError {
    type V = ErrorView;

    open spec fn view(&self) -> ErrorView {
        match self {
            GenerationError::InvalidInput(e) => ErrorView::InvalidInput(*e),
            GenerationError::Connection(e) => ErrorView::Connection(e@),
            GenerationError::Interrupted(e) => ErrorView::Interrupted(e@),
        }
    }
}

impl From<InvalidInput> for GenerationError {
    fn from(e: InvalidInput) -> (error: GenerationError) {
        GenerationError::InvalidInput(e)
    }
}

impl vstd::std_specs::convert::FromSpecImpl<InvalidInput> for GenerationError {
    open spec fn obeys_from_spec() -> bool {
        true
    }

    open spec fn from_spec(e: InvalidInput) -> GenerationError {
        GenerationError::InvalidInput(e)
    }
}

/// `url: message`, one failed attempt in words.
pub open spec fn attempt_text(f: AttemptFailureView) -> Seq<char> {
    url_text(f.endpoint) + ": "@ + f.message
}

/// A connection error in words: each endpoint tried, in the order tried,
/// with its own message.
pub open spec fn connection_error_text(e: ConnectionErrorView) -> Seq<char> {
    match e.earlier {
        None => "Connection failed. "@ + attempt_text(e.last),
        Some(first) => "Both connections failed. "@ + attempt_text(first) + ", "@ + attempt_text(
            e.last,
        ),
    }
}

/// An interruption in words.
pub open spec fn interruption_text(e: StreamInterruptedView) -> Seq<char> {
    "Stream interrupted. "@ + url_text(e.endpoint) + ": "@ + e.message
}

impl AttemptFailure {
    /// Appends `url: message` to `out`.
    fn push_text(&self, out: &mut String)
        ensures
            final(out)@ == old(out)@ + attempt_text(self@),
    {
        let url = self.endpoint.url();
        out.append(url.as_str());
        out.append(": ");
        out.append(self.message.as_str());
        assert(out@ =~= old(out)@ + attempt_text(self@));
    }
}

impl ConnectionError {
    /// The endpoints tried, first to last.
    pub fn tried(&self) -> (endpoints: Vec<Endpoint>)
        ensures
            endpoints@.len() == if self@.earlier is Some {
                2int
            } else {
                1int
            },
            endpoints@.last()@ == self@.last.endpoint,
            self@.earlier matches Some(first) ==> endpoints@[0]@ == first.endpoint,
    {
        let mut endpoints: Vec<Endpoint> = Vec::new();
        match &self.earlier {
            Some(first) => {
                endpoints.push(first.endpoint.clone());
            },
            None => {},
        }
        endpoints.push(self.last.endpoint.clone());
        endpoints
    }

    /// The error in words.
    pub fn message(&self) -> (text: String)
        ensures
            text@ == connection_error_text(self@),
    {
        match &self.earlier {
            None => {
                let mut text = String::from_str("Connection failed. ");
                self.last.push_text(&mut text);
                text
            },
            Some(first) => {
                let mut text = String::from_str("Both connections failed. ");
                first.push_text(&mut text);
                text.append(", ");
                self.last.push_text(&mut text);
                text
            },
        }
    }
}

impl StreamInterrupted {
    /// The error in words.
    pub fn message(&self) -> (text: String)
        ensures
            text@ == interruption_text(self@),
    {
        let mut text = String::from_str("Stream interrupted. ");
        let url = self.endpoint.url();
        text.append(url.as_str());
        text.append(": ");
        text.append(self.message.as_str());
        text
    }
}

/// An invalid input in words.
pub open spec fn invalid_input_text(e: InvalidInput) -> Seq<char> {
    match e {
        InvalidInput::EmptyImage { index } => "Image "@ + decimal(index as nat) + " is empty"@,
        InvalidInput::OversizedImage { index } => "Image "@ + decimal(index as nat)
            + " is too large to encode"@,
        InvalidInput::SelectionNotACount => "Invalid selection"@,
        InvalidInput::SelectionOutOfRange { selection, available } => "Invalid image selection"@,
    }
}

/// An error in words.
pub open spec fn error_text(e: ErrorView) -> Seq<char> {
    match e {
        ErrorView::InvalidInput(e) => invalid_input_text(e),
        ErrorView::Connection(e) => connection_error_text(e),
        ErrorView::Interrupted(e) => interruption_text(e),
    }
}

impl InvalidInput {
    /// The error in words.
    pub fn message(&self) -> (text: String)
        ensures
            text@ == invalid_input_text(*self),
    {
        match self {
            InvalidInput::EmptyImage { index } => {
                let mut text = String::from_str("Image ");
                push_decimal(&mut text, *index as u128);
                text.append(" is empty");
                text
            },
            InvalidInput::OversizedImage { index } => {
                let mut text = String::from_str("Image ");
                push_decimal(&mut text, *index as u128);
                text.append(" is too large to encode");
                text
            },
            InvalidInput::SelectionNotACount => String::from_str("Invalid selection"),
            InvalidInput::SelectionOutOfRange { selection, available } => String::from_str(
                "Invalid image selection",
            ),
        }
    }
}

impl GenerationError {
    /// The error in words.
    pub fn message(&self) -> (text: String)
        ensures
            text@ == error_text(self@),
    {
        match self {
            GenerationError::InvalidInput(e) => e.message(),
            GenerationError::Connection(e) => e.message(),
            GenerationError::Interrupted(e) => e.message(),
        }
    }
}

} // verus!
