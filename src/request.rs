//! The request/response contract: the documents that go in and out, the
//! transformation applied to the input text, and the metrics reported with it.
use vstd::prelude::*;
use vstd::string::StringExecFns;
use std::time::Instant;
use core::time::Duration;
use crate::tokens::{all_space, count_tokens, lemma_trim_empty_iff_all_space, token_count, trim, trim_spaces};

verus! {

/// The identifier of the model that answers, fixed when the agent is built.
pub const MODEL_ID: &'static str = "{{AGENT_ID}}";

/// The prefix that the transformation puts before the input text.
pub const RESULT_PREFIX: &'static str = "Processed: ";

/// The exit status of a run that produced a response.
pub const EXIT_SUCCESS: i32 = 0;

/// The exit status of a run that produced an error document.
pub const EXIT_FAILURE: i32 = 1;

/// A decoded request: the text to work on, which may be left out.
#[derive(Clone, Debug, PartialEq, Eq)]
pub struct InputData {
    pub text: Option<String>,
}

/// The metrics attached to every response. Timings are counted in whole
/// milliseconds, that is in seconds rounded to three decimal places.
#[derive(Clone, Debug, PartialEq, Eq)]
pub struct MentatMeta {
    pub tokens_input: Option<usize>,
    pub tokens_output: Option<usize>,
    pub millis: Option<u128>,
    pub model: String,
}

/// A successful response.
#[derive(Clone, Debug, PartialEq, Eq)]
pub struct OutputData {
    pub result: String,
    pub mentat_meta: MentatMeta,
}

/// A failed run's response: a message and metrics that are all absent.
#[derive(Clone, Debug, PartialEq, Eq)]
pub struct ErrorResponse {
    pub error: String,
    pub mentat_meta: MentatMeta,
}

/// The text of a request, the empty text where it was left out.
pub open spec fn input_text(input: InputData) -> Seq<char> {
    match input.text {
        Some(t) => t@,
        None => Seq::empty(),
    }
}

/// What the transformation makes of `text`.
pub open spec fn processed(text: Seq<char>) -> Seq<char> {
    RESULT_PREFIX@ + text
}

/// The number of whole milliseconds nearest to `nanos` nanoseconds, halves
/// rounded up.
pub open spec fn rounded_millis(nanos: int) -> int {
    (nanos + 500_000) / 1_000_000
}

/// The metrics of an error response: no counts, no timing, only the model.
pub open spec fn error_meta(m: MentatMeta) -> bool {
    &&& m.tokens_input is None
    &&& m.tokens_output is None
    &&& m.millis is None
    &&& m.model@ == MODEL_ID@
}

/// The model identifier as an owned string.
pub fn model_name() -> (r: String)
    ensures
        r@ == MODEL_ID@,
{
    String::from_str(MODEL_ID)
}

/// The transformation: the input text behind a fixed prefix. It is total.
pub fn transform(text: &str) -> (r: String)
    ensures
        r@ == processed(text@),
{
    let mut r = String::from_str(RESULT_PREFIX);
    r.append(text);
    r
}

/// Rounds a duration in nanoseconds to the nearest millisecond.
pub fn round_to_millis(nanos: u128) -> (r: u128)
    ensures
        r == rounded_millis(nanos as int),
{
    let q = nanos / 1_000_000;
    if nanos % 1_000_000 >= 500_000 {
        q + 1
    } else {
        q
    }
}

#[verifier::external_type_specification]
#[verifier::external_body]
pub struct ExInstant(Instant);

/// Relies on `Instant::now`: reads the monotonic clock. Nothing is known of
/// the value it reads.
pub assume_specification[ Instant::now ]() -> Instant;

/// Relies on `Instant::elapsed`: the time passed since the instant. Nothing is
/// known of the value it reads.
pub assume_specification[ Instant::elapsed ](self_: &Instant) -> Duration;

/// Relies on `Duration::as_nanos`: the whole length in nanoseconds. Durations
/// are only ever read here, never compared, so nothing more is stated.
pub assume_specification[ Duration::as_nanos ](self_: &Duration) -> u128;

/// Builds the successful response for `text`, once the transformation gave
/// `result` after `elapsed_nanos` nanoseconds.
pub fn build_output(text: &str, result: String, elapsed_nanos: u128) -> (r: OutputData)
    ensures
        r.result@ == result@,
        r.mentat_meta.tokens_input == Some(token_count(text@) as usize),
        r.mentat_meta.tokens_output == Some(token_count(result@) as usize),
        r.mentat_meta.millis == Some(rounded_millis(elapsed_nanos as int) as u128),
        r.mentat_meta.model@ == MODEL_ID@,
{
    let tokens_input = count_tokens(text);
    let tokens_output = count_tokens(result.as_str());
    OutputData {
        result,
        mentat_meta: MentatMeta {
            tokens_input: Some(tokens_input),
            tokens_output: Some(tokens_output),
            millis: Some(round_to_millis(elapsed_nanos)),
            model: model_name(),
        },
    }
}

/// Answers a request: transforms its text, timing the transformation, and
/// reports the token counts of the text and of the result.
pub fn process_request(input_data: InputData) -> (r: OutputData)
    ensures
        r.result@ == processed(input_text(input_data)),
        r.mentat_meta.tokens_input == Some(token_count(input_text(input_data)) as usize),
        r.mentat_meta.tokens_output == Some(
            token_count(processed(input_text(input_data))) as usize,
        ),
        r.mentat_meta.millis is Some,
        r.mentat_meta.model@ == MODEL_ID@,
{
    let start_time = Instant::now();
    let input_text = match input_data.text {
        Some(t) => t,
        None => String::new(),
    };
    let result = transform(input_text.as_str());
    let elapsed = start_time.elapsed();
    let nanos = elapsed.as_nanos();
    build_output(input_text.as_str(), result, nanos)
}

/// The response of a failed run, carrying `error_msg`.
pub fn create_error_response(error_msg: String) -> (r: ErrorResponse)
    ensures
        r.error == error_msg,
        error_meta(r.mentat_meta),
{
    ErrorResponse {
        error: error_msg,
        mentat_meta: MentatMeta {
            tokens_input: None,
            tokens_output: None,
            millis: None,
            model: model_name(),
        },
    }
}

/// The ways a run can fail. Each is final: the run answers with an error
/// document and ends with `EXIT_FAILURE`.
#[derive(Clone, Debug, PartialEq, Eq)]
pub enum Failure {
    /// Nothing but whitespace was received.
    EmptyInput,
    /// The input is not a well-formed request; the decoder's description.
    Decode(String),
    /// The response could not be encoded; the encoder's description.
    Encode(String),
}

/// The message that reports `f`.
pub open spec fn failure_message(f: Failure) -> Seq<char> {
    match f {
        Failure::EmptyInput => "No input received from stdin"@,
        Failure::Decode(d) => "Invalid JSON input: "@ + d@,
        Failure::Encode(d) => "JSON serialization error: "@ + d@,
    }
}

impl Failure {
    /// The human-readable message that reports this failure.
    pub fn message(&self) -> (r: String)
        ensures
            r@ == failure_message(*self),
    {
        match self {
            Failure::EmptyInput => String::from_str("No input received from stdin"),
            Failure::Decode(d) => {
                let mut r = String::from_str("Invalid JSON input: ");
                r.append(d.as_str());
                r
            },
            Failure::Encode(d) => {
                let mut r = String::from_str("JSON serialization error: ");
                r.append(d.as_str());
                r
            },
        }
    }

    /// The error document that reports this failure.
    pub fn response(&self) -> (r: ErrorResponse)
        ensures
            r.error@ == failure_message(*self),
            error_meta(r.mentat_meta),
    {
        create_error_response(self.message())
    }

    /// The exit status of a run that ends in this failure.
    pub fn exit_code(&self) -> (r: i32)
        ensures
            r == EXIT_FAILURE,
    {
        EXIT_FAILURE
    }
}

/// Checks the raw input before it is decoded: input that is empty once its
/// surrounding whitespace is removed is refused, anything else is handed on
/// trimmed.
pub fn accept_input(raw: &str) -> (r: Result<String, Failure>)
    ensures
        r is Ok <==> !all_space(raw@),
        r matches Ok(t) ==> t@ == trim(raw@),
        r matches Err(f) ==> f == Failure::EmptyInput,
{
    let trimmed = trim_spaces(raw);
    proof {
        lemma_trim_empty_iff_all_space(raw@);
    }
    if trimmed.as_str().is_empty() {
        Err(Failure::EmptyInput)
    } else {
        Ok(trimmed)
    }
}

} // verus!
