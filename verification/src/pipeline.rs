//! Compile response pipeline: builds the backend compile request from an
//! inbound request, classifies the heterogeneous backend outcome, hands
//! binary artifacts to the extractor, and concludes the request from the
//! reaped completion and the delivered response.

use vstd::prelude::*;

use crate::errors::Error;
use crate::extractor::{extract, read_glue_file, resolve_glue_file};
use crate::manager::{JoinFault, PanicPayload, TaggedError};

verus! {

/// The closed set of languages a caller may select.
#[derive(Debug, Clone, Copy, PartialEq, Eq)]
pub enum ProgrammingLanguage {
    Rust,
    Cpp,
}

/// The Rust release channel of a language specification.
#[derive(Debug, Clone, Copy, PartialEq, Eq)]
pub enum RustChannel {
    Stable,
    Beta,
    Nightly,
}

/// The Rust edition of a language specification.
#[derive(Debug, Clone, Copy, PartialEq, Eq)]
pub enum RustEdition {
    Rust2015,
    Rust2018,
    Rust2021,
}

/// The C++ standard of a language specification.
#[derive(Debug, Clone, Copy, PartialEq, Eq)]
pub enum CppVersion {
    Cpp11,
    Cpp14,
    Cpp17,
    Cpp20,
}

/// The full language specification submitted to the backend.
#[derive(Debug, Clone, Copy, PartialEq, Eq)]
pub enum LanguageSpec {
    Rust { channel: RustChannel, edition: RustEdition },
    Cpp { version: CppVersion },
}

/// The specification each selectable language maps to: stable 2021-edition
/// Rust, or C++20.
pub open spec fn language_spec_of(l: ProgrammingLanguage) -> LanguageSpec {
    match l {
        ProgrammingLanguage::Rust => LanguageSpec::Rust {
            channel: RustChannel::Stable,
            edition: RustEdition::Rust2021,
        },
        ProgrammingLanguage::Cpp => LanguageSpec::Cpp { version: CppVersion::Cpp20 },
    }
}

impl From<ProgrammingLanguage> for LanguageSpec {
    fn from(value: ProgrammingLanguage) -> (r: Self) {
        match value {
            ProgrammingLanguage::Rust => LanguageSpec::Rust {
                channel: RustChannel::Stable,
                edition: RustEdition::Rust2021,
            },
            ProgrammingLanguage::Cpp => LanguageSpec::Cpp { version: CppVersion::Cpp20 },
        }
    }
}

impl vstd::std_specs::convert::FromSpecImpl<ProgrammingLanguage> for LanguageSpec {
    open spec fn obeys_from_spec() -> bool {
        true
    }

    open spec fn from_spec(v: ProgrammingLanguage) -> Self {
        language_spec_of(v)
    }
}

/// The compilation target. Submissions are always compiled for the fixed
/// sandboxed cross-compilation format; the target is not user-selectable.
#[derive(Debug, Clone, Copy, PartialEq, Eq)]
pub enum CompileTarget {
    Wasm,
}

/// The kind of library artifact a compile produces.
#[derive(Debug, Clone, Copy, PartialEq, Eq)]
pub enum LibraryType {
    Lib,
    Dylib,
    Cdylib,
}

/// The kind of crate the backend is asked to build.
#[derive(Debug, Clone, Copy, PartialEq, Eq)]
pub enum CrateType {
    Binary,
    Library(LibraryType),
}

/// The build mode the backend is asked to use.
#[derive(Debug, Clone, Copy, PartialEq, Eq)]
pub enum Mode {
    Debug,
    Release,
}

/// An inbound compile request: source text, an output package identifier and
/// a language selector.
#[derive(Debug, Clone, PartialEq, Eq)]
pub struct CompileCodeRequest {
    pub source_code: String,
    pub package_name: String,
    pub language: ProgrammingLanguage,
}

/// The request submitted to the backend's compile operation.
#[derive(Debug, Clone, PartialEq, Eq)]
pub struct CompileRequest {
    pub target: CompileTarget,
    pub language: LanguageSpec,
    pub crate_type: CrateType,
    pub mode: Mode,
    pub code: String,
    pub package_name: String,
}

/// Builds the backend compile request from an inbound request: always a
/// release-mode cdylib build of the caller's source for the fixed target,
/// with the language specification the selector maps to.
pub fn build_compile_request(req: CompileCodeRequest) -> (r: CompileRequest)
    ensures
        r.target is Wasm,
        r.mode is Release,
        r.crate_type == CrateType::Library(LibraryType::Cdylib),
        r.language == language_spec_of(req.language),
        r.code == req.source_code,
        r.package_name == req.package_name,
{
    CompileRequest {
        target: CompileTarget::Wasm,
        language: LanguageSpec::from(req.language),
        crate_type: CrateType::Library(LibraryType::Cdylib),
        mode: Mode::Release,
        code: req.source_code,
        package_name: req.package_name,
    }
}

/// The compiled artifact the backend reports on success: a binary archive or
/// plain text.
#[derive(Debug, Clone, PartialEq, Eq)]
pub enum CompiledCode {
    CodeBin(Vec<u8>),
    CodeStr(String),
}

/// What the backend's compile operation reports when it completes: whether
/// compilation succeeded, the exit detail when it did not, and the artifact.
#[derive(Debug, Clone, PartialEq, Eq)]
pub struct CompileResponseData {
    pub success: bool,
    pub exit_detail: String,
    pub code: CompiledCode,
}

/// The outcome of one backend compile call, as the caller observed it.
#[derive(Debug, Clone, PartialEq, Eq)]
pub enum CompileOutcome {
    /// The call completed and reported a compile response with its captured
    /// output streams.
    Completed { response: CompileResponseData, stdout: String, stderr: String },
    /// The call itself failed.
    BackendFailure { message: String },
}

/// A successful compile whose raw binary artifact is returned directly.
#[derive(Debug, Clone, PartialEq, Eq)]
pub struct CompileSuccess {
    pub result: Vec<u8>,
    pub stdout: String,
    pub stderr: String,
}

/// A successful compile returned as text.
#[derive(Debug, Clone, PartialEq, Eq)]
pub struct TextResponseSuccess {
    pub result: String,
    pub stdout: String,
    pub stderr: String,
}

/// A compile the backend rejected.
#[derive(Debug, Clone, PartialEq, Eq)]
pub struct CompileFailed {
    pub exit_detail: String,
    pub stdout: String,
    pub stderr: String,
}

/// The response value delivered to the caller.
#[derive(Debug, Clone, PartialEq, Eq)]
pub enum CompileCodeResponse {
    /// Binary artifact returned raw.
    Success(CompileSuccess),
    /// Text artifact, or the contents of the resolved glue file.
    TextSuccess(TextResponseSuccess),
    /// The backend rejected the compilation; an expected, user-actionable
    /// outcome.
    CompileError(CompileFailed),
    /// An infrastructure fault.
    InternalError(String),
    /// Reserved for cancelled work.
    CompileCancelled(String),
}

impl CompileCodeResponse {
    /// The fixed status classification of each response shape.
    pub open spec fn spec_status(&self) -> u16 {
        match self {
            CompileCodeResponse::Success(_) => 200,
            CompileCodeResponse::TextSuccess(_) => 200,
            CompileCodeResponse::CompileError(_) => 400,
            CompileCodeResponse::InternalError(_) => 500,
            CompileCodeResponse::CompileCancelled(_) => 200,
        }
    }

    /// The HTTP-equivalent status classification of this response.
    pub fn status(&self) -> (s: u16)
        ensures
            s == self.spec_status(),
    {
        match self {
            CompileCodeResponse::Success(_) => 200,
            CompileCodeResponse::TextSuccess(_) => 200,
            CompileCodeResponse::CompileError(_) => 400,
            CompileCodeResponse::InternalError(_) => 500,
            CompileCodeResponse::CompileCancelled(_) => 200,
        }
    }
}

/// The package-name-keyed directory extracted artifacts are written under.
/// The root is the caller's policy: the deployment passes the tree its
/// static-file layer serves.
pub fn package_directory(pkg_root: &String, package_name: &String) -> (d: String)
    ensures
        d@ == pkg_root@ + "/"@ + package_name@,
{
    let mut d = pkg_root.clone();
    d.append("/");
    d.append(package_name.as_str());
    d
}

/// How far extraction of a binary artifact got.
#[derive(Debug, Clone, PartialEq, Eq)]
pub enum ExtractionOutcome {
    /// The archive unpacked and the sole glue file was read; its contents.
    GlueText(String),
    /// The archive unpacked, but glue file resolution or reading failed; the
    /// diagnostic says how.
    ResolutionFailed(String),
    /// The archive did not unpack.
    UnpackFailed,
}

/// Runs extraction of a binary artifact against the filesystem: fully
/// replaces the package directory with the unpacked archive, then resolves
/// and reads the sole glue file. Which outcome comes back depends on the
/// archive bytes and the filesystem.
fn run_extraction(archive_bytes: &Vec<u8>, directory: &String) -> (e: ExtractionOutcome) {
    match extract(archive_bytes, directory) {
        Err(_) => ExtractionOutcome::UnpackFailed,
        Ok(()) => match resolve_glue_file(directory) {
            Err(err) => ExtractionOutcome::ResolutionFailed(err.message()),
            Ok(path) => match read_glue_file(&path) {
                Ok(text) => ExtractionOutcome::GlueText(text),
                Err(err) => ExtractionOutcome::ResolutionFailed(err.message()),
            },
        },
    }
}

/// Classifies a binary artifact after extraction ran: the glue file's text
/// on full success; an internal error when the archive unpacked but no
/// unique glue file could be resolved and read; and the raw binary artifact
/// as a fallback when the archive itself did not unpack. The last two are
/// deliberately distinct failure shapes.
pub fn response_for_binary(
    bytes: Vec<u8>,
    stdout: String,
    stderr: String,
    extraction: ExtractionOutcome,
) -> (r: CompileCodeResponse)
    ensures
        extraction matches ExtractionOutcome::GlueText(text) ==> r
            == CompileCodeResponse::TextSuccess(
            (TextResponseSuccess { result: text, stdout, stderr }),
        ),
        extraction matches ExtractionOutcome::ResolutionFailed(diag) ==> r
            == CompileCodeResponse::InternalError(diag),
        extraction is UnpackFailed ==> r == CompileCodeResponse::Success(
            (CompileSuccess { result: bytes, stdout, stderr }),
        ),
{
    match extraction {
        ExtractionOutcome::GlueText(text) => CompileCodeResponse::TextSuccess(
            TextResponseSuccess { result: text, stdout, stderr },
        ),
        ExtractionOutcome::ResolutionFailed(diag) => CompileCodeResponse::InternalError(diag),
        ExtractionOutcome::UnpackFailed => CompileCodeResponse::Success(
            CompileSuccess { result: bytes, stdout, stderr },
        ),
    }
}

/// Classifies a successful compile's artifact. A text artifact is returned
/// directly. A binary artifact is extracted into the directory keyed by
/// `package_name` under `pkg_root`; the response then follows
/// `response_for_binary`.
pub fn extract_code_response(
    code: CompiledCode,
    package_name: String,
    pkg_root: &String,
    stdout: String,
    stderr: String,
) -> (r: CompileCodeResponse)
    ensures
        code matches CompiledCode::CodeStr(text) ==> r == CompileCodeResponse::TextSuccess(
            (TextResponseSuccess { result: text, stdout, stderr }),
        ),
        code matches CompiledCode::CodeBin(bytes) ==> {
            ||| r == CompileCodeResponse::Success((CompileSuccess { result: bytes, stdout, stderr }))
            ||| (r matches CompileCodeResponse::TextSuccess(ts) && ts.stdout == stdout
                && ts.stderr == stderr)
            ||| r is InternalError
        },
{
    match code {
        CompiledCode::CodeStr(text) => CompileCodeResponse::TextSuccess(
            TextResponseSuccess { result: text, stdout, stderr },
        ),
        CompiledCode::CodeBin(bytes) => {
            let directory = package_directory(pkg_root, &package_name);
            let outcome = run_extraction(&bytes, &directory);
            response_for_binary(bytes, stdout, stderr, outcome)
        },
    }
}

/// How a backend compile outcome must be classified: a reported rejection
/// becomes a compile error with its exit detail and output streams; a
/// reported success keeps its artifact's classification (a text artifact
/// exactly, a binary artifact up to what the filesystem decides); a failure
/// of the call itself becomes an internal error, never a silent discard.
pub open spec fn outcome_classification(outcome: CompileOutcome, r: CompileCodeResponse) -> bool {
    match outcome {
        CompileOutcome::Completed { response, stdout, stderr } => {
            if !response.success {
                r == CompileCodeResponse::CompileError(
                    CompileFailed { exit_detail: response.exit_detail, stdout, stderr },
                )
            } else {
                match response.code {
                    CompiledCode::CodeStr(text) => r == CompileCodeResponse::TextSuccess(
                        TextResponseSuccess { result: text, stdout, stderr },
                    ),
                    CompiledCode::CodeBin(bytes) => {
                        ||| r == CompileCodeResponse::Success(
                            CompileSuccess { result: bytes, stdout, stderr },
                        )
                        ||| (r matches CompileCodeResponse::TextSuccess(ts) && ts.stdout == stdout
                            && ts.stderr == stderr)
                        ||| r is InternalError
                    },
                }
            }
        },
        CompileOutcome::BackendFailure { message } => {
            r matches CompileCodeResponse::InternalError(m) && m@
                == "Unknown problem with compile: "@ + message@
        },
    }
}

/// Classifies one backend compile outcome into the response value delivered
/// to the caller, as `outcome_classification` states. Binary artifacts are
/// materialized under `pkg_root`, keyed by `package_name`.
pub fn respond_to_compile_outcome(
    outcome: CompileOutcome,
    package_name: String,
    pkg_root: &String,
) -> (r: CompileCodeResponse)
    ensures
        outcome_classification(outcome, r),
{
    match outcome {
        CompileOutcome::Completed { response, stdout, stderr } => {
            let CompileResponseData { success, exit_detail, code } = response;
            if !success {
                CompileCodeResponse::CompileError(CompileFailed { exit_detail, stdout, stderr })
            } else {
                extract_code_response(code, package_name, pkg_root, stdout, stderr)
            }
        },
        CompileOutcome::BackendFailure { message } => {
            let mut m = String::from_str("Unknown problem with compile: ");
            m.append(message.as_str());
            CompileCodeResponse::InternalError(m)
        },
    }
}

/// How a reaped completion must be classified: a success passes through; an
/// application error is unwrapped from its metadata; a cooperative
/// cancellation is an intentional, silent discard; an abnormal termination
/// becomes a `TaskPanic` error carrying the extracted text when one could be
/// derived, and a fixed message otherwise.
pub open spec fn task_classification(
    task: Result<Result<(), TaggedError>, JoinFault>,
    r: Result<(), Error>,
) -> bool {
    match task {
        Ok(inner) => match inner {
            Ok(_) => r == Ok::<(), Error>(()),
            Err((e, meta)) => r == Err::<(), Error>(e),
        },
        Err(JoinFault::Cancelled) => r == Ok::<(), Error>(()),
        Err(JoinFault::Panicked(payload)) => match payload {
            PanicPayload::Text(t) => r == Err::<(), Error>(Error::TaskPanic { text: t }),
            PanicPayload::Unknown => r matches Err(e) && e matches Error::TaskPanic { text }
                && text@ == "An unknown panic occurred"@,
        },
    }
}

/// Classifies a reaped completion, as `task_classification` states.
pub fn handle_task_panic(task: Result<Result<(), TaggedError>, JoinFault>) -> (r: Result<
    (),
    Error,
>)
    ensures
        task_classification(task, r),
{
    match task {
        Ok(Ok(())) => Ok(()),
        Ok(Err((error, _meta))) => Err(error),
        Err(JoinFault::Cancelled) => Ok(()),
        Err(JoinFault::Panicked(PanicPayload::Text(text))) => Err(Error::TaskPanic { text }),
        Err(JoinFault::Panicked(PanicPayload::Unknown)) => Err(
            Error::TaskPanic { text: String::from_str("An unknown panic occurred") },
        ),
    }
}

/// How a delivered value concludes a request once the completion raised no
/// error: the delivered response is returned, and its absence — the channel
/// failed — is itself reported, not ignored.
pub open spec fn delivery_conclusion(
    received: Option<CompileCodeResponse>,
    r: CompileCodeResponse,
) -> bool {
    match received {
        Some(resp) => r == resp,
        None => r matches CompileCodeResponse::InternalError(m) && m@
            == "Failed to receive result from channel"@,
    }
}

/// How a request must be concluded from the reaped completion and the value
/// received over the single-use delivery channel: no completion at all is an
/// internal fault; an application error or abnormal termination is reported
/// as an internal error carrying its diagnostic; a success or a silent
/// cancellation concludes with the delivered value.
pub open spec fn request_conclusion(
    joined: Option<Result<Result<(), TaggedError>, JoinFault>>,
    received: Option<CompileCodeResponse>,
    r: CompileCodeResponse,
) -> bool {
    match joined {
        None => r matches CompileCodeResponse::InternalError(m) && m@
            == "No compile task to await! Not sure how..."@,
        Some(task) => match task {
            Ok(inner) => match inner {
                Ok(_) => delivery_conclusion(received, r),
                Err((e, meta)) => r matches CompileCodeResponse::InternalError(m) && m@
                    == "Task panic occurred: "@ + e.spec_message(),
            },
            Err(JoinFault::Cancelled) => delivery_conclusion(received, r),
            Err(JoinFault::Panicked(payload)) => match payload {
                PanicPayload::Text(t) => r matches CompileCodeResponse::InternalError(m) && m@
                    == "Task panic occurred: "@ + ("The worker panicked: "@ + t@),
                PanicPayload::Unknown => r matches CompileCodeResponse::InternalError(m) && m@
                    == "Task panic occurred: "@ + ("The worker panicked: "@
                    + "An unknown panic occurred"@),
            },
        },
    }
}

/// Concludes a request from the reaped completion and the value received
/// over the delivery channel, as `request_conclusion` states.
pub fn finish_request(
    joined: Option<Result<Result<(), TaggedError>, JoinFault>>,
    received: Option<CompileCodeResponse>,
) -> (r: CompileCodeResponse)
    ensures
        request_conclusion(joined, received, r),
{
    match joined {
        None => CompileCodeResponse::InternalError(
            String::from_str("No compile task to await! Not sure how..."),
        ),
        Some(task) => match handle_task_panic(task) {
            Ok(()) => match received {
                Some(resp) => resp,
                None => CompileCodeResponse::InternalError(
                    String::from_str("Failed to receive result from channel"),
                ),
            },
            Err(error) => {
                let msg = error.message();
                let mut m = String::from_str("Task panic occurred: ");
                m.append(msg.as_str());
                CompileCodeResponse::InternalError(m)
            },
        },
    }
}

} // verus!
