//! Output formats and the executor that drives the PlantUML engine.

use crate::error::{bytes_result, lemma_message_keeps_cause, text_result, DiagramError, Fault};
use crate::text::{lossy_text, string_from_utf8, string_from_utf8_lossy};
use vstd::prelude::*;
use vstd::utf8::*;

verus! {

/// Output format for PlantUML diagrams.
#[derive(Debug, Clone, Copy, PartialEq, Eq, Structural)]
pub enum DiagramFormat {
    /// Vector image.
    Svg,
    /// Raster image.
    Png,
    /// Plain text, used to check the syntax of a diagram.
    Txt,
}

impl DiagramFormat {
    /// The command-line selector that asks the engine for this format.
    pub open spec fn flag(self) -> Seq<char> {
        match self {
            DiagramFormat::Svg => "-tsvg"@,
            DiagramFormat::Png => "-tpng"@,
            DiagramFormat::Txt => "-txt"@,
        }
    }

    /// The MIME type of what the engine writes in this format.
    pub open spec fn mime(self) -> Seq<char> {
        match self {
            DiagramFormat::Svg => "image/svg+xml"@,
            DiagramFormat::Png => "image/png"@,
            DiagramFormat::Txt => "text/plain"@,
        }
    }

    pub fn as_flag(&self) -> (flag: &'static str)
        ensures
            flag@ == self.flag(),
    {
        match self {
            Self::Svg => "-tsvg",
            Self::Png => "-tpng",
            Self::Txt => "-txt",
        }
    }

    pub fn content_type(&self) -> (mime: &'static str)
        ensures
            mime@ == self.mime(),
    {
        match self {
            Self::Svg => "image/svg+xml",
            Self::Png => "image/png",
            Self::Txt => "text/plain",
        }
    }
}

/// What to launch for one rendering: the program, its arguments, and the
/// bytes to write to its standard input before closing it.
#[derive(Debug, Clone, PartialEq, Eq)]
pub struct Invocation {
    pub program: String,
    pub args: Vec<String>,
    pub input: Vec<u8>,
}

/// The content of an [`Invocation`].
pub struct InvocationView {
    pub program: Seq<char>,
    pub args: Seq<Seq<char>>,
    pub input: Seq<u8>,
}

impl View for Invocation {
    type V = InvocationView;

    open spec fn view(&self) -> InvocationView {
        InvocationView {
            program: self.program@,
            args: self.args.deep_view(),
            input: self.input@,
        }
    }
}

/// What became of one launch of the engine.
#[derive(Debug, Clone, PartialEq, Eq)]
pub enum EngineOutcome {
    /// The engine could not be started.
    LaunchFailed,
    /// The engine started, but the diagram could not be written to it.
    InputFailed,
    /// The engine started, but its exit could not be awaited.
    WaitFailed,
    /// The engine did not finish in time and was stopped.
    TimedOut,
    /// The engine ran to its end. `success` says whether its exit status was
    /// zero; `stdout` and `stderr` hold all that it wrote.
    Exited { success: bool, stdout: Vec<u8>, stderr: Vec<u8> },
}

/// The content of an [`EngineOutcome`].
pub enum EngineOutcomeView {
    LaunchFailed,
    InputFailed,
    WaitFailed,
    TimedOut,
    Exited { success: bool, stdout: Seq<u8>, stderr: Seq<u8> },
}

impl View for EngineOutcome {
    type V = EngineOutcomeView;

    open spec fn view(&self) -> EngineOutcomeView {
        match self {
            EngineOutcome::LaunchFailed => EngineOutcomeView::LaunchFailed,
            EngineOutcome::InputFailed => EngineOutcomeView::InputFailed,
            EngineOutcome::WaitFailed => EngineOutcomeView::WaitFailed,
            EngineOutcome::TimedOut => EngineOutcomeView::TimedOut,
            EngineOutcome::Exited { success, stdout, stderr } => EngineOutcomeView::Exited {
                success: *success,
                stdout: stdout@,
                stderr: stderr@,
            },
        }
    }
}

/// Where the engine is looked for when nothing else is configured.
pub open spec fn default_jar() -> Seq<char> {
    "/opt/plantuml/plantuml.jar"@
}

/// The launch that renders `source` in `format` with the engine at `jar`:
/// the engine is run in pipe mode, with the selector of the format and with
/// UTF-8 as its character set, and reads the source from its standard input.
pub open spec fn launch(jar: Seq<char>, source: Seq<char>, format: DiagramFormat) -> InvocationView {
    InvocationView {
        program: "java"@,
        args: seq!["-jar"@, jar, format.flag(), "-pipe"@, "-charset"@, "UTF-8"@],
        input: encode_utf8(source),
    }
}

/// What an engine that ran to its end has produced, given its diagnostics
/// as text. A failing exit status decides first; then an empty output, which
/// is how the engine reports a syntax error; anything else is the artifact.
pub open spec fn exit_result(success: bool, stdout: Seq<u8>, diagnostic: Seq<char>) -> Result<
    Seq<u8>,
    Fault,
> {
    if !success {
        Err(Fault::RenderFailed(diagnostic))
    } else if stdout.len() == 0 {
        Err(Fault::EmptyOutput(diagnostic))
    } else {
        Ok(stdout)
    }
}

/// The result of a rendering, given what became of the launch.
pub open spec fn rendered(outcome: EngineOutcomeView) -> Result<Seq<u8>, Fault> {
    match outcome {
        EngineOutcomeView::LaunchFailed => Err(Fault::EngineUnavailable),
        EngineOutcomeView::InputFailed => Err(Fault::InputFailed),
        EngineOutcomeView::WaitFailed => Err(Fault::WaitFailed),
        EngineOutcomeView::TimedOut => Err(Fault::Timeout),
        EngineOutcomeView::Exited { success, stdout, stderr } => exit_result(
            success,
            stdout,
            lossy_text(stderr),
        ),
    }
}

/// The validation report in a rendering's result: the artifact as UTF-8
/// text.
pub open spec fn report_of(result: Result<Seq<u8>, Fault>) -> Result<Seq<char>, Fault> {
    match result {
        Err(fault) => Err(fault),
        Ok(bytes) => if valid_utf8(bytes) {
            Ok(decode_utf8(bytes))
        } else {
            Err(Fault::InvalidValidationOutput)
        },
    }
}

/// An engine that exits with a failure gives `RenderFailed`, whatever it
/// wrote to its standard output, and the diagnostic of that error ends with
/// what the engine wrote to its standard error, as text.
pub proof fn lemma_engine_failure_surfaces(stdout: Seq<u8>, stderr: Seq<u8>)
    ensures
        rendered(EngineOutcomeView::Exited { success: false, stdout, stderr }) == Err::<
            Seq<u8>,
            Fault,
        >(Fault::RenderFailed(lossy_text(stderr))),
        lossy_text(stderr).is_suffix_of(Fault::RenderFailed(lossy_text(stderr)).message()),
{
    lemma_message_keeps_cause(lossy_text(stderr));
}

/// A rendering succeeds only for an engine that exited cleanly and wrote
/// something, and the artifact is then what it wrote: never nothing.
pub proof fn lemma_artifact_is_output(outcome: EngineOutcomeView, artifact: Seq<u8>)
    ensures
        rendered(outcome) == Ok::<Seq<u8>, Fault>(artifact) ==> artifact.len() > 0 && (outcome
            matches EngineOutcomeView::Exited { success, stdout, .. } && success && stdout
            == artifact),
{
}

/// Classifies the run of an engine that came to its end; `diagnostic` is
/// what it wrote to its standard error, as text.
pub fn classify_exit(success: bool, stdout: Vec<u8>, diagnostic: String) -> (r: Result<
    Vec<u8>,
    DiagramError,
>)
    ensures
        bytes_result(r) == exit_result(success, stdout@, diagnostic@),
{
    if !success {
        Err(DiagramError::RenderFailed(diagnostic))
    } else if stdout.len() == 0 {
        Err(DiagramError::EmptyOutput(diagnostic))
    } else {
        Ok(stdout)
    }
}

/// Reads a rendering's result as a validation report.
pub fn read_report(result: Result<Vec<u8>, DiagramError>) -> (r: Result<String, DiagramError>)
    ensures
        text_result(r) == report_of(bytes_result(result)),
{
    match result {
        Err(e) => Err(e),
        Ok(bytes) => match string_from_utf8(bytes) {
            Ok(text) => Ok(text),
            Err(_) => Err(DiagramError::InvalidValidationOutput),
        },
    }
}

/// PlantUML executor configuration.
#[derive(Debug, Clone, PartialEq, Eq)]
pub struct PlantUMLExecutor {
    jar_path: String,
}

impl PlantUMLExecutor {
    /// The path of the engine that this executor launches.
    pub closed spec fn jar(&self) -> Seq<char> {
        self.jar_path@
    }

    /// An executor for the engine at the configured path, or at the
    /// well-known one where nothing is configured.
    pub fn new(configured: Option<String>) -> (executor: Self)
        ensures
            executor.jar() == (match configured {
                Some(path) => path@,
                None => default_jar(),
            }),
    {
        let jar_path = match configured {
            Some(path) => path,
            None => "/opt/plantuml/plantuml.jar".to_owned(),
        };
        PlantUMLExecutor { jar_path }
    }

    /// The path of the engine that this executor launches.
    pub fn jar_path(&self) -> (path: &str)
        ensures
            path@ == self.jar(),
    {
        self.jar_path.as_str()
    }

    /// The launch that renders `source` in `format`. Each call gives a launch
    /// of its own: nothing is shared between renderings.
    pub fn invocation(&self, source: &str, format: DiagramFormat) -> (invocation: Invocation)
        ensures
            invocation@ == launch(self.jar(), source@, format),
    {
        let mut args: Vec<String> = Vec::new();
        args.push("-jar".to_owned());
        args.push(self.jar_path.clone());
        args.push(format.as_flag().to_owned());
        args.push("-pipe".to_owned());
        args.push("-charset".to_owned());
        args.push("UTF-8".to_owned());
        let invocation = Invocation {
            program: "java".to_owned(),
            args,
            input: source.as_bytes_vec(),
        };
        proof {
            assert(invocation.args.deep_view() =~= launch(self.jar(), source@, format).args);
        }
        invocation
    }

    /// The launch that checks the syntax of `source`: a rendering in the
    /// text format.
    pub fn validation(&self, source: &str) -> (invocation: Invocation)
        ensures
            invocation@ == launch(self.jar(), source@, DiagramFormat::Txt),
    {
        self.invocation(source, DiagramFormat::Txt)
    }

    /// Generate diagram from what became of the launch.
    ///
    /// The artifact is what the engine wrote to its standard output. An
    /// engine that reports failure, or that writes nothing, gives an error
    /// that carries what it wrote to its standard error, as text.
    pub fn generate(&self, outcome: EngineOutcome) -> (r: Result<Vec<u8>, DiagramError>)
        ensures
            bytes_result(r) == rendered(outcome@),
            (outcome@ matches EngineOutcomeView::Exited { stderr, .. } ==> (valid_utf8(stderr)
                ==> lossy_text(stderr) == decode_utf8(stderr))),
    {
        match outcome {
            EngineOutcome::LaunchFailed => Err(DiagramError::EngineUnavailable),
            EngineOutcome::InputFailed => Err(DiagramError::InputFailed),
            EngineOutcome::WaitFailed => Err(DiagramError::WaitFailed),
            EngineOutcome::TimedOut => Err(DiagramError::Timeout),
            EngineOutcome::Exited { success, stdout, stderr } => {
                let diagnostic = string_from_utf8_lossy(stderr.as_slice());
                classify_exit(success, stdout, diagnostic)
            },
        }
    }

    /// Validate PlantUML syntax: the report, given what became of the launch
    /// that checks the syntax.
    pub fn validate(&self, outcome: EngineOutcome) -> (r: Result<String, DiagramError>)
        ensures
            text_result(r) == report_of(rendered(outcome@)),
            (outcome@ matches EngineOutcomeView::Exited { stderr, .. } ==> (valid_utf8(stderr)
                ==> lossy_text(stderr) == decode_utf8(stderr))),
    {
        read_report(self.generate(outcome))
    }
}

impl Default for PlantUMLExecutor {
    /// The executor for the engine at the well-known path.
    fn default() -> (executor: Self)
        ensures
            executor.jar() == default_jar(),
    {
        Self::new(None)
    }
}

} // verus!
