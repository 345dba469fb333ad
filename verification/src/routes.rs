//! Request handling for PlantUML diagram generation.
//!
//! A request is handled in two steps with the engine's run between them.
//! The first step looks at the request and either answers it at once or
//! names the launch to make; the second turns what became of the launch into
//! the reply. Neither step keeps anything: each request is handled from its
//! own values alone.

use crate::encoding::{
    decode_plantuml, decoded, first_foreign, is_symbol, lemma_foreign_character_rejected,
};
use crate::error::{bytes_result, text_result, DiagramError, Fault};
use crate::plantuml::{
    launch, lemma_engine_failure_surfaces, rendered, DiagramFormat, EngineOutcome,
    EngineOutcomeView, Invocation, InvocationView, PlantUMLExecutor,
};
use crate::text::{
    concat_str, is_blank, lossy_text, str_is_blank, string_from_utf8, utf8_fault,
};
use vstd::prelude::*;
use vstd::utf8::*;

verus! {

/// The reply to a request.
#[derive(Debug, Clone, PartialEq, Eq)]
pub enum Reply {
    /// The rendered artifact with its MIME type; the status is 200.
    Artifact { content_type: &'static str, body: Vec<u8> },
    /// A failure: the status and the diagnostic, which is sent as the
    /// `error` member of a JSON object.
    Failure { status: u16, error: String },
}

/// The content of a [`Reply`].
pub enum ReplyView {
    Artifact { content_type: Seq<char>, body: Seq<u8> },
    Failure { status: u16, error: Seq<char> },
}

impl ReplyView {
    /// The HTTP status of the reply.
    pub open spec fn status(self) -> u16 {
        match self {
            ReplyView::Artifact { .. } => 200,
            ReplyView::Failure { status, .. } => status,
        }
    }
}

impl View for Reply {
    type V = ReplyView;

    open spec fn view(&self) -> ReplyView {
        match self {
            Reply::Artifact { content_type, body } => ReplyView::Artifact {
                content_type: content_type@,
                body: body@,
            },
            Reply::Failure { status, error } => ReplyView::Failure {
                status: *status,
                error: error@,
            },
        }
    }
}

impl Reply {
    /// The HTTP status of the reply.
    pub fn status(&self) -> (status: u16)
        ensures
            status == self@.status(),
    {
        match self {
            Reply::Artifact { .. } => 200,
            Reply::Failure { status, .. } => *status,
        }
    }
}

/// What to do next for a request.
#[derive(Debug, Clone, PartialEq, Eq)]
pub enum Step {
    /// Answer at once; the engine is not launched.
    Respond(Reply),
    /// Make this launch, and turn what becomes of it into the reply.
    Launch(Invocation),
}

/// The content of a [`Step`].
pub enum StepView {
    Respond(ReplyView),
    Launch(InvocationView),
}

impl View for Step {
    type V = StepView;

    open spec fn view(&self) -> StepView {
        match self {
            Step::Respond(reply) => StepView::Respond(reply@),
            Step::Launch(invocation) => StepView::Launch(invocation@),
        }
    }
}

/// The reply that refuses a request for `fault`.
pub open spec fn refusal(fault: Fault) -> ReplyView {
    ReplyView::Failure { status: fault.status(), error: fault.message() }
}

/// The reply that refuses an encoded diagram which does not decode.
pub open spec fn decoding_refusal(fault: Fault) -> ReplyView {
    ReplyView::Failure { status: 400, error: "Invalid PlantUML encoding: "@ + fault.message() }
}

/// The reply that reports a failed rendering.
pub open spec fn generation_failure(fault: Fault) -> ReplyView {
    ReplyView::Failure {
        status: fault.status(),
        error: "Diagram generation failed: "@ + fault.message(),
    }
}

/// The reply to a request for `format`, given the result of the rendering:
/// the artifact goes out under the MIME type of the format.
pub open spec fn reply_to(format: DiagramFormat, result: Result<Seq<u8>, Fault>) -> ReplyView {
    match result {
        Ok(bytes) => ReplyView::Artifact { content_type: format.mime(), body: bytes },
        Err(fault) => generation_failure(fault),
    }
}

/// The check on a diagram's source: it must hold more than whitespace.
pub open spec fn accepted_source(source: Seq<char>) -> Result<Seq<char>, Fault> {
    if is_blank(source) {
        Err(Fault::EmptyInput)
    } else {
        Ok(source)
    }
}

/// The diagram's source in a request body: the body must be UTF-8, and the
/// text that it holds must pass the check on a source.
pub open spec fn body_source(body: Seq<u8>) -> Result<Seq<char>, Fault> {
    if valid_utf8(body) {
        accepted_source(decode_utf8(body))
    } else {
        Err(Fault::InvalidUtf8(utf8_fault(body)))
    }
}

/// The first step, given the diagram's source or the reason why the request
/// holds none: a source is rendered by the engine at `jar`; a request
/// without one is refused, and no launch is made.
pub open spec fn first_step(
    source: Result<Seq<char>, Fault>,
    format: DiagramFormat,
    jar: Seq<char>,
) -> StepView {
    match source {
        Ok(text) => StepView::Launch(launch(jar, text, format)),
        Err(fault) => StepView::Respond(refusal(fault)),
    }
}

/// The first step for a diagram's source.
pub open spec fn source_step(source: Seq<char>, format: DiagramFormat, jar: Seq<char>) -> StepView {
    first_step(accepted_source(source), format, jar)
}

/// The first step for a request body.
pub open spec fn body_step(body: Seq<u8>, format: DiagramFormat, jar: Seq<char>) -> StepView {
    first_step(body_source(body), format, jar)
}

/// The first step for an encoded diagram: it must decode, and what it
/// decodes to is then the diagram's source.
pub open spec fn token_step(token: Seq<char>, format: DiagramFormat, jar: Seq<char>) -> StepView {
    match decoded(token) {
        Ok(source) => source_step(source, format, jar),
        Err(fault) => StepView::Respond(decoding_refusal(fault)),
    }
}

/// The reply that refuses a request for the failure `e`.
pub fn refuse(e: &DiagramError) -> (reply: Reply)
    ensures
        reply@ == refusal(e@),
{
    Reply::Failure { status: e.status_code(), error: e.message() }
}

/// Checks a diagram's source: one that is empty or whitespace only is
/// refused as `EmptyInput`.
pub fn check_source(source: String) -> (r: Result<String, DiagramError>)
    ensures
        text_result(r) == accepted_source(source@),
{
    if str_is_blank(source.as_str()) {
        Err(DiagramError::EmptyInput)
    } else {
        Ok(source)
    }
}

/// The diagram's source in a request body that was read as UTF-8: `parsed`
/// holds the text, or the reason why the body is none.
pub fn source_of_body(parsed: Result<String, String>) -> (r: Result<String, DiagramError>)
    ensures
        text_result(r) == (match parsed {
            Ok(text) => accepted_source(text@),
            Err(cause) => Err(Fault::InvalidUtf8(cause@)),
        }),
{
    match parsed {
        Ok(text) => check_source(text),
        Err(cause) => Err(DiagramError::InvalidUtf8(cause)),
    }
}

/// The first step, given the diagram's source or the reason why the request
/// holds none.
pub fn plan(
    executor: &PlantUMLExecutor,
    source: Result<String, DiagramError>,
    format: DiagramFormat,
) -> (step: Step)
    ensures
        step@ == first_step(text_result(source), format, executor.jar()),
{
    match source {
        Ok(text) => Step::Launch(executor.invocation(text.as_str(), format)),
        Err(e) => Step::Respond(refuse(&e)),
    }
}

/// The first step for a diagram that was sent encoded: `source` holds what
/// it decoded to, or why it did not decode.
pub fn plan_decoded(
    executor: &PlantUMLExecutor,
    source: Result<String, DiagramError>,
    format: DiagramFormat,
) -> (step: Step)
    ensures
        step@ == (match text_result(source) {
            Ok(text) => source_step(text, format, executor.jar()),
            Err(fault) => StepView::Respond(decoding_refusal(fault)),
        }),
{
    match source {
        Ok(text) => plan(executor, check_source(text), format),
        Err(e) => {
            let message = e.message();
            Step::Respond(
                Reply::Failure {
                    status: 400,
                    error: concat_str("Invalid PlantUML encoding: ", message.as_str()),
                },
            )
        },
    }
}

/// The reply to a request for `format`, given the result of the rendering.
pub fn diagram_reply(format: DiagramFormat, result: Result<Vec<u8>, DiagramError>) -> (reply: Reply)
    ensures
        reply@ == reply_to(format, bytes_result(result)),
{
    match result {
        Ok(body) => Reply::Artifact { content_type: format.content_type(), body },
        Err(e) => {
            let message = e.message();
            Reply::Failure {
                status: e.status_code(),
                error: concat_str("Diagram generation failed: ", message.as_str()),
            }
        },
    }
}

/// Generate diagram from PlantUML source: the first step for the request
/// body `body`.
pub fn generate_diagram(executor: &PlantUMLExecutor, body: Vec<u8>, format: DiagramFormat) -> (step:
    Step)
    ensures
        step@ == body_step(body@, format, executor.jar()),
{
    plan(executor, source_of_body(string_from_utf8(body)), format)
}

/// Render diagram from encoded URL parameter: the first step for the
/// encoded diagram `encoded`.
pub fn render_encoded(executor: &PlantUMLExecutor, encoded: String, format: DiagramFormat) -> (step:
    Step)
    ensures
        step@ == token_step(encoded@, format, executor.jar()),
{
    plan_decoded(executor, decode_plantuml(encoded.as_str()), format)
}

/// The second step for a request for `format`: the reply, given what became
/// of the launch.
pub fn complete_diagram(
    executor: &PlantUMLExecutor,
    format: DiagramFormat,
    outcome: EngineOutcome,
) -> (reply: Reply)
    ensures
        reply@ == reply_to(format, rendered(outcome@)),
        (outcome@ matches EngineOutcomeView::Exited { stderr, .. } ==> (valid_utf8(stderr)
            ==> lossy_text(stderr) == decode_utf8(stderr))),
{
    diagram_reply(format, executor.generate(outcome))
}

/// Generate SVG diagram from PlantUML source (POST).
pub fn generate_svg(executor: &PlantUMLExecutor, body: Vec<u8>) -> (step: Step)
    ensures
        step@ == body_step(body@, DiagramFormat::Svg, executor.jar()),
{
    generate_diagram(executor, body, DiagramFormat::Svg)
}

/// Generate PNG diagram from PlantUML source (POST).
pub fn generate_png(executor: &PlantUMLExecutor, body: Vec<u8>) -> (step: Step)
    ensures
        step@ == body_step(body@, DiagramFormat::Png, executor.jar()),
{
    generate_diagram(executor, body, DiagramFormat::Png)
}

/// Generate TXT syntax validation from PlantUML source (POST).
pub fn generate_txt(executor: &PlantUMLExecutor, body: Vec<u8>) -> (step: Step)
    ensures
        step@ == body_step(body@, DiagramFormat::Txt, executor.jar()),
{
    generate_diagram(executor, body, DiagramFormat::Txt)
}

/// Render SVG from encoded PlantUML URL parameter (GET).
pub fn render_encoded_svg(executor: &PlantUMLExecutor, encoded: String) -> (step: Step)
    ensures
        step@ == token_step(encoded@, DiagramFormat::Svg, executor.jar()),
{
    render_encoded(executor, encoded, DiagramFormat::Svg)
}

/// Render PNG from encoded PlantUML URL parameter (GET).
pub fn render_encoded_png(executor: &PlantUMLExecutor, encoded: String) -> (step: Step)
    ensures
        step@ == token_step(encoded@, DiagramFormat::Png, executor.jar()),
{
    render_encoded(executor, encoded, DiagramFormat::Png)
}

/// Whatever the source, an artifact goes out with status 200 under the MIME
/// type of the format that was asked for, and holds what the engine wrote.
pub proof fn lemma_artifact_reply(format: DiagramFormat, artifact: Seq<u8>)
    ensures
        reply_to(format, Ok(artifact)) == (ReplyView::Artifact {
            content_type: format.mime(),
            body: artifact,
        }),
        reply_to(format, Ok(artifact)).status() == 200,
        DiagramFormat::Svg.mime() == "image/svg+xml"@,
        DiagramFormat::Png.mime() == "image/png"@,
        DiagramFormat::Txt.mime() == "text/plain"@,
{
}

/// A source that is empty or whitespace only is refused as `EmptyInput`
/// with status 400, and no launch is asked for; so is a request body that
/// holds such a source.
pub proof fn lemma_blank_source_refused(source: Seq<char>, format: DiagramFormat, jar: Seq<char>)
    requires
        is_blank(source),
    ensures
        accepted_source(source) == Err::<Seq<char>, Fault>(Fault::EmptyInput),
        body_source(encode_utf8(source)) == Err::<Seq<char>, Fault>(Fault::EmptyInput),
        source_step(source, format, jar) == StepView::Respond(
            ReplyView::Failure { status: 400, error: "Empty PlantUML source"@ },
        ),
        body_step(encode_utf8(source), format, jar) == source_step(source, format, jar),
{
    lemma_body_of_text(source);
}

/// A request body that holds text as UTF-8 is handled as that text is.
pub proof fn lemma_body_of_text(source: Seq<char>)
    ensures
        body_source(encode_utf8(source)) == accepted_source(source),
{
    encode_utf8_valid_utf8(source);
    encode_utf8_decode_utf8(source);
}

/// A launch is asked for only for a source that holds more than
/// whitespace, and the engine is then given that source, as UTF-8, and the
/// selector of the format that was asked for.
pub proof fn lemma_launch_has_source(
    source: Seq<char>,
    format: DiagramFormat,
    jar: Seq<char>,
    launched: InvocationView,
)
    requires
        source_step(source, format, jar) == StepView::Launch(launched),
    ensures
        !is_blank(source),
        launched == launch(jar, source, format),
        launched.input == encode_utf8(source),
        launched.args[2] == format.flag(),
{
}

/// Where the engine exits with a failure, the reply is a failure whose
/// diagnostic ends with what the engine wrote to its standard error, as
/// text.
pub proof fn lemma_failure_reply_keeps_stderr(
    format: DiagramFormat,
    stdout: Seq<u8>,
    stderr: Seq<u8>,
)
    ensures
        (reply_to(format, rendered(EngineOutcomeView::Exited { success: false, stdout, stderr }))
            matches ReplyView::Failure { error, .. } && lossy_text(stderr).is_suffix_of(error)),
{
    lemma_engine_failure_surfaces(stdout, stderr);
    let fault = Fault::RenderFailed(lossy_text(stderr));
    let error = "Diagram generation failed: "@ + fault.message();
    assert(lossy_text(stderr) =~= error.subrange(
        error.len() - lossy_text(stderr).len(),
        error.len() as int,
    ));
}

/// An encoded diagram that holds a character outside PlantUML's alphabet is
/// refused with status 400 for its first such character, whatever format is
/// asked for, and no launch is asked for.
pub proof fn lemma_foreign_token_refused(
    token: Seq<char>,
    i: int,
    format: DiagramFormat,
    jar: Seq<char>,
)
    requires
        0 <= i < token.len(),
        !is_symbol(token[i]),
    ensures
        token_step(token, format, jar) == StepView::Respond(
            decoding_refusal(Fault::InvalidEncoding(first_foreign(token))),
        ),
        decoding_refusal(Fault::InvalidEncoding(first_foreign(token))).status() == 400,
{
    lemma_foreign_character_rejected(token, i);
}

} // verus!
