//! The response envelope, and the decisions of a request: what to do with an
//! upload, how to judge the run of the image tool, and what to answer.

use crate::codec::{
    decode_utf8_lossy, encode_standard, lossy_utf8, standard_decoding, standard_encoding,
};
use crate::command::{tuning_argument, tuning_text};
use crate::format::supported_image;
use crate::size::MAX_IMAGE_BYTES;
use crate::validate::{rejection_message, upload_verdict, validate_upload, Rejection};
use vstd::prelude::*;
use vstd::string::StringExecFns;

verus! {

/// The answer to one upload. The payload is present exactly when the request
/// succeeded.
#[derive(Debug)]
pub struct ProcessResponse {
    success: bool,
    message: String,
    image_data: Option<String>,
}

/// The mathematical value of a [`ProcessResponse`].
pub struct ResponseView {
    pub success: bool,
    pub message: Seq<char>,
    pub image_data: Option<Seq<char>>,
}

/// The invariant of a response: a payload exactly when it reports success.
pub open spec fn payload_iff_success(response: ResponseView) -> bool {
    response.image_data is Some <==> response.success
}

/// The response that reports a failure with `message`.
pub open spec fn failure_view(message: Seq<char>) -> ResponseView {
    ResponseView { success: false, message, image_data: None }
}

/// The response that carries a processed image, already encoded.
pub open spec fn processed_view(encoded: Seq<char>) -> ResponseView {
    ResponseView {
        success: true,
        message: "Image processed successfully"@,
        image_data: Some(encoded),
    }
}

impl View for ProcessResponse {
    type V = ResponseView;

    closed spec fn view(&self) -> ResponseView {
        ResponseView {
            success: self.success,
            message: self.message@,
            image_data: match self.image_data {
                Some(encoded) => Some(encoded@),
                None => None,
            },
        }
    }
}

impl ProcessResponse {
    #[verifier::type_invariant]
    spec fn consistent(self) -> bool {
        self.image_data is Some <==> self.success
    }

    /// A failed request, reported with `message`.
    pub fn failure(message: String) -> (response: ProcessResponse)
        ensures
            response@ == failure_view(message@),
    {
        ProcessResponse { success: false, message, image_data: None }
    }

    /// A successful request, carrying the processed image as base64 text.
    pub fn processed(encoded: String) -> (response: ProcessResponse)
        ensures
            response@ == processed_view(encoded@),
    {
        ProcessResponse {
            success: true,
            message: String::from_str("Image processed successfully"),
            image_data: Some(encoded),
        }
    }

    /// Whether the request succeeded.
    pub fn success(&self) -> (success: bool)
        ensures
            success == self@.success,
            payload_iff_success(self@),
    {
        proof {
            use_type_invariant(self);
        }
        self.success
    }

    /// The human-readable message.
    pub fn message(&self) -> (message: &str)
        ensures
            message@ == self@.message,
    {
        self.message.as_str()
    }

    /// The processed image as base64 text, where there is one.
    pub fn image_data(&self) -> (payload: Option<&str>)
        ensures
            match payload {
                Some(encoded) => self@.image_data == Some(encoded@),
                None => self@.image_data is None,
            },
            payload_iff_success(self@),
    {
        proof {
            use_type_invariant(self);
        }
        match &self.image_data {
            Some(encoded) => Some(encoded.as_str()),
            None => None,
        }
    }
}

/// How a run of the image tool ended.
#[derive(Debug)]
pub enum ToolOutcome {
    /// The temporary files could not be set up; the error's text is kept.
    SetupFailed(String),
    /// The tool could not be started; the error's text is kept.
    SpawnFailed(String),
    /// The tool ended with a nonzero status; what it wrote to its error
    /// stream is kept as raw bytes.
    Failed(Vec<u8>),
    /// The tool ended well but its output could not be read back.
    OutputUnreadable(String),
    /// The tool ended well and this is what it wrote.
    Produced(Vec<u8>),
}

/// Judges how the tool ended. A nonzero status is a failure, reported with
/// what the tool wrote to its error stream; after a zero status there is no
/// outcome yet, and the output is to be read back.
pub fn judge_exit(succeeded: bool, diagnostics: Vec<u8>) -> (outcome: Option<ToolOutcome>)
    ensures
        outcome == if succeeded {
            None
        } else {
            Some(ToolOutcome::Failed(diagnostics))
        },
{
    if succeeded {
        None
    } else {
        Some(ToolOutcome::Failed(diagnostics))
    }
}

/// Judges the attempt to read the tool's output back: the bytes are the
/// processed image, an error leaves the output unreadable.
pub fn judge_output(read: Result<Vec<u8>, String>) -> (outcome: ToolOutcome)
    ensures
        outcome == match read {
            Ok(bytes) => ToolOutcome::Produced(bytes),
            Err(detail) => ToolOutcome::OutputUnreadable(detail),
        },
{
    match read {
        Ok(bytes) => ToolOutcome::Produced(bytes),
        Err(detail) => ToolOutcome::OutputUnreadable(detail),
    }
}

/// The message for a tool that ended with a nonzero status, given the text
/// of its error stream.
pub open spec fn tool_error_text(diagnostics: Seq<char>) -> Seq<char> {
    "ImageMagick error: "@ + diagnostics
}

/// The response that each outcome of the tool becomes.
pub open spec fn outcome_response(outcome: ToolOutcome) -> ResponseView {
    match outcome {
        ToolOutcome::SetupFailed(detail) => failure_view(
            "Failed to prepare temporary files: "@ + detail@,
        ),
        ToolOutcome::SpawnFailed(detail) => failure_view(
            "Failed to execute ImageMagick: "@ + detail@,
        ),
        ToolOutcome::Failed(diagnostics) => failure_view(
            tool_error_text(lossy_utf8(diagnostics@)),
        ),
        ToolOutcome::OutputUnreadable(detail) => failure_view(
            "Failed to read processed image: "@ + detail@,
        ),
        ToolOutcome::Produced(bytes) => processed_view(standard_encoding(bytes@)),
    }
}

/// The outcome holds no processed image too long for its base64 text to be
/// addressed: one of more than a quarter of the address space.
pub open spec fn encodable(outcome: ToolOutcome) -> bool {
    outcome matches ToolOutcome::Produced(bytes) ==> bytes@.len() <= usize::MAX / 4
}

fn labelled(label: &str, detail: &str) -> (text: String)
    ensures
        text@ == label@ + detail@,
{
    let mut text = String::from_str(label);
    text.append(detail);
    text
}

/// The message for a tool that ended with a nonzero status.
pub fn tool_error_message(diagnostics: &str) -> (text: String)
    ensures
        text@ == tool_error_text(diagnostics@),
{
    labelled("ImageMagick error: ", diagnostics)
}

/// Turns the outcome of the tool's run into the response.
pub fn finish(outcome: ToolOutcome) -> (response: ProcessResponse)
    requires
        encodable(outcome),
    ensures
        response@ == outcome_response(outcome),
{
    match outcome {
        ToolOutcome::SetupFailed(detail) => ProcessResponse::failure(
            labelled("Failed to prepare temporary files: ", detail.as_str()),
        ),
        ToolOutcome::SpawnFailed(detail) => ProcessResponse::failure(
            labelled("Failed to execute ImageMagick: ", detail.as_str()),
        ),
        ToolOutcome::Failed(diagnostics) => {
            let shown = decode_utf8_lossy(diagnostics.as_slice());
            ProcessResponse::failure(tool_error_message(shown.as_str()))
        },
        ToolOutcome::OutputUnreadable(detail) => ProcessResponse::failure(
            labelled("Failed to read processed image: ", detail.as_str()),
        ),
        ToolOutcome::Produced(bytes) => ProcessResponse::processed(
            encode_standard(bytes.as_slice()),
        ),
    }
}

/// What a request leads to before any outside work: an immediate reply, or a
/// run of the image tool on the decoded image.
#[derive(Debug)]
pub enum Step {
    /// Answer at once; the tool is not run and no file is written.
    Reply(ProcessResponse),
    /// Run the tool on `image` with `tuning` as the multiplication operand.
    Run { image: Vec<u8>, tuning: String },
}

/// The mathematical value of a [`Step`].
pub enum StepView {
    Reply(ResponseView),
    Run { image: Seq<u8>, tuning: Seq<char> },
}

impl View for Step {
    type V = StepView;

    open spec fn view(&self) -> StepView {
        match self {
            Step::Reply(response) => StepView::Reply(response@),
            Step::Run { image, tuning } => StepView::Run { image: image@, tuning: tuning@ },
        }
    }
}

/// The step a request leads to: a rejected upload is answered with the
/// rejection's message, a valid one is run with the decoded image and the
/// tuning argument.
pub open spec fn first_step(image: Option<Seq<char>>, parsed_tuning: Option<Seq<char>>) -> StepView {
    match upload_verdict(image) {
        Err(rejection) => StepView::Reply(failure_view(rejection_message(rejection))),
        Ok(bytes) => StepView::Run { image: bytes, tuning: tuning_text(parsed_tuning) },
    }
}

/// The reply to an upload that was turned away.
pub fn reject(rejection: &Rejection) -> (response: ProcessResponse)
    ensures
        response@ == failure_view(rejection_message(rejection@)),
{
    ProcessResponse::failure(rejection.message())
}

/// Decides what a request leads to. `image` is the image field of the form,
/// `parsed_tuning` the tuning field where it held a number, written out
/// again.
pub fn begin(image: Option<&str>, parsed_tuning: Option<String>) -> (step: Step)
    ensures
        step@ == first_step(
            match image {
                Some(text) => Some(text@),
                None => None,
            },
            match parsed_tuning {
                Some(text) => Some(text@),
                None => None,
            },
        ),
{
    let tuning = tuning_argument(parsed_tuning);
    match validate_upload(image) {
        Err(rejection) => Step::Reply(reject(&rejection)),
        Ok(bytes) => Step::Run { image: bytes, tuning },
    }
}

/// Text that decodes to a supported image of at most ten mebibytes leads to
/// a run of the tool on exactly the decoded bytes.
pub proof fn lemma_valid_upload_runs(
    text: Seq<char>,
    bytes: Seq<u8>,
    parsed_tuning: Option<Seq<char>>,
)
    requires
        text.len() > 0,
        standard_decoding(text) == Ok::<Seq<u8>, Seq<char>>(bytes),
        bytes.len() <= MAX_IMAGE_BYTES,
        supported_image(bytes),
    ensures
        first_step(Some(text), parsed_tuning) == (StepView::Run {
            image: bytes,
            tuning: tuning_text(parsed_tuning),
        }),
{
}

/// Text that is not base64 is answered at once with the decoder's
/// description: the tool is never run on it.
pub proof fn lemma_undecodable_never_runs(
    text: Seq<char>,
    detail: Seq<char>,
    parsed_tuning: Option<Seq<char>>,
)
    requires
        text.len() > 0,
        standard_decoding(text) == Err::<Seq<u8>, Seq<char>>(detail),
    ensures
        first_step(Some(text), parsed_tuning) == StepView::Reply(
            failure_view("Failed to decode image: "@ + detail),
        ),
{
}

/// Whatever the request and whatever the tool did, the response carries a
/// payload exactly when it reports success.
pub proof fn lemma_outcome_payload_iff_success(outcome: ToolOutcome)
    ensures
        payload_iff_success(outcome_response(outcome)),
{
}

} // verus!
