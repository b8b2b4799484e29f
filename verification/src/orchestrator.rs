//! One inspection from request to answer, as a machine: it is handed what
//! happened and says what is to be done next. Whoever drives it holds the
//! lock on the workspace, talks to the language server, runs the compiler
//! and reads the files.

use crate::artifacts::{assembly_target, select_artifacts, tag_assembly, with_extension};
use crate::client::DefinitionDetails;
use crate::context::{
    clone_opt, clone_strings, provenance_of, target_dir_of, ContextModel, InspectionContext,
    InspectionProvenance, InspectionResult, ProvenanceModel, ResultModel,
};
use crate::encoding::{lemma_utf8_len_is_encoded_len, utf8_len};
use crate::env::str_eq;
use crate::errors::{
    artifact_too_large, artifact_unreadable, artifact_unreadable_error, enforce_artifact_limit,
    mcp_error, plain_error, ErrorCode, ErrorModel, ToolError,
};
use crate::extract::{assembly_models, AssemblyModel, TargetedAssembly};
use crate::handler::{
    assembly_of, check_compiler_run, check_gate, compiler_request, definition_of, finish,
    finished, found_identity, gate_of, llvm_ir_of, locate_assembly, locate_llvm_ir, locate_mir,
    lookup_model, make_compiler_request, mir_of, output_model, position_required,
    require_position, resolve_definition, resolve_identity, resolve_normalized_symbol,
    resolve_types, run_error, stderr_diagnostic, stderr_note, symbol_of, text_model, types_of,
    CompilerOutcome, DetailsModel, Gate, GateModel,
};
use crate::inspection::{InspectionView, ViewModel};
use crate::lines::{join, join_strings, rows, strs};
use crate::normalized::{opt_text, NormalizedSymbol, SymbolModel};
use crate::runner::{RequestModel, RunRequest, RunResult};
use crate::text::to_chars;
use vstd::prelude::*;
use vstd::string::StringExecFns;

verus! {

/// What is asked of an inspection.
#[derive(Debug)]
pub struct InspectionRequest {
    pub view: String,
    pub file_path: String,
    pub line: Option<u32>,
    pub character: Option<u32>,
    pub symbol_name: Option<String>,
    pub opt_level: Option<String>,
    pub target: Option<String>,
}

/// What an [`InspectionRequest`] holds, as plain values.
pub struct AskModel {
    pub view: Seq<char>,
    pub file_path: Seq<char>,
    pub line: Option<u32>,
    pub character: Option<u32>,
    pub symbol_name: Option<Seq<char>>,
    pub opt_level: Option<Seq<char>>,
    pub target: Option<Seq<char>>,
}

impl View for InspectionRequest {
    type V = AskModel;

    open spec fn view(&self) -> AskModel {
        AskModel {
            view: self.view@,
            file_path: self.file_path@,
            line: self.line,
            character: self.character,
            symbol_name: opt_text(self.symbol_name),
            opt_level: opt_text(self.opt_level),
            target: opt_text(self.target),
        }
    }
}

/// How the work for a view goes.
#[derive(Debug, Clone, Copy, PartialEq, Eq, Structural)]
pub enum ViewKind {
    /// Only the language server is asked, for the definition.
    Definition,
    /// Only the language server is asked, for definition and types.
    Types,
    /// The compiler prints MIR.
    Mir,
    /// The compiler writes files of LLVM IR.
    LlvmIr,
    /// The compiler writes files of assembly.
    Assembly,
    /// The view has no way to be produced.
    Unsupported,
}

/// How the work for the view `name` goes.
pub open spec fn kind_of_view(name: Seq<char>) -> ViewKind {
    if name == "def"@ {
        ViewKind::Definition
    } else if name == "types"@ {
        ViewKind::Types
    } else if name == "mir"@ {
        ViewKind::Mir
    } else if name == "llvm-ir"@ {
        ViewKind::LlvmIr
    } else if name == "asm"@ {
        ViewKind::Assembly
    } else {
        ViewKind::Unsupported
    }
}

/// How the work for the view `name` goes.
pub fn view_kind(name: &str) -> (kind: ViewKind)
    ensures
        kind == kind_of_view(name@),
{
    if str_eq(name, "def") {
        ViewKind::Definition
    } else if str_eq(name, "types") {
        ViewKind::Types
    } else if str_eq(name, "mir") {
        ViewKind::Mir
    } else if str_eq(name, "llvm-ir") {
        ViewKind::LlvmIr
    } else if str_eq(name, "asm") {
        ViewKind::Assembly
    } else {
        ViewKind::Unsupported
    }
}

/// Where an inspection stands.
#[derive(Debug, Clone, Copy, PartialEq, Eq, Structural)]
pub enum Stage {
    /// It waits for the lock on the workspace.
    Locking,
    /// It waits for the definition from the language server.
    Resolving,
    /// It waits for the type hierarchy from the language server.
    FetchingTypes,
    /// It waits for the compiler.
    Compiling,
    /// It waits for the text of a file.
    Reading,
    /// It is over.
    Finished,
}

/// What the driver of an inspection is to do next.
#[derive(Debug)]
pub enum Step {
    /// Take the lock on the workspace; then report `LockAcquired`.
    AcquireLock,
    /// Ask the language server for the definition at this position.
    ResolveDefinition { file_path: String, line: u32, character: u32 },
    /// Ask the language server for the type hierarchy at this position.
    FetchTypeHierarchy { file_path: String, line: u32, character: u32 },
    /// Run the compiler into `target_dir`, for at most `timeout_seconds`.
    RunCompiler { request: RunRequest, target_dir: String, timeout_seconds: u64 },
    /// Read the file at `path`.
    ReadArtifact { path: String },
    /// Release the lock, if it is held, and hand this to the caller.
    Done(Result<InspectionResult, ToolError>),
}

/// What a [`Step`] holds, as plain values.
pub enum StepModel {
    AcquireLock,
    ResolveDefinition { file_path: Seq<char>, line: u32, character: u32 },
    FetchTypeHierarchy { file_path: Seq<char>, line: u32, character: u32 },
    RunCompiler {
        request: RequestModel,
        env: Map<Seq<char>, Seq<char>>,
        target_dir: Seq<char>,
        timeout_seconds: u64,
    },
    ReadArtifact { path: Seq<char> },
    Done(Result<ResultModel, ErrorModel>),
}

/// The model of an answer or an error.
pub open spec fn answer_model(answer: Result<InspectionResult, ToolError>) -> Result<
    ResultModel,
    ErrorModel,
> {
    match answer {
        Ok(result) => Ok(result@),
        Err(error) => Err(error@),
    }
}

impl View for Step {
    type V = StepModel;

    open spec fn view(&self) -> StepModel {
        match self {
            Step::AcquireLock => StepModel::AcquireLock,
            Step::ResolveDefinition { file_path, line, character } => {
                StepModel::ResolveDefinition {
                    file_path: file_path@,
                    line: *line,
                    character: *character,
                }
            },
            Step::FetchTypeHierarchy { file_path, line, character } => {
                StepModel::FetchTypeHierarchy {
                    file_path: file_path@,
                    line: *line,
                    character: *character,
                }
            },
            Step::RunCompiler { request, target_dir, timeout_seconds } => StepModel::RunCompiler {
                request: request@,
                env: request.env.map(),
                target_dir: target_dir@,
                timeout_seconds: *timeout_seconds,
            },
            Step::ReadArtifact { path } => StepModel::ReadArtifact { path: path@ },
            Step::Done(answer) => StepModel::Done(answer_model(*answer)),
        }
    }
}

/// What happened since the last step.
#[derive(Debug)]
pub enum Event {
    /// The lock on the workspace was taken.
    LockAcquired,
    /// The language server answered the request for the definition.
    DefinitionResolved(Result<Option<DefinitionDetails>, String>),
    /// The language server answered the request for the type hierarchy.
    TypeHierarchyFetched(Result<String, String>),
    /// The run of the compiler is over.
    CompilerFinished(CompilerOutcome),
    /// The file was read, or could not be read for the reason given.
    ArtifactRead(Result<String, String>),
}

/// What a run of the compiler gave, as plain values.
pub struct RunModel {
    pub status: Option<i32>,
    pub success: bool,
    pub stdout: Seq<char>,
    pub stderr: Seq<char>,
    pub artifacts: Seq<Seq<char>>,
    pub command: Seq<Seq<char>>,
}

impl View for RunResult {
    type V = RunModel;

    open spec fn view(&self) -> RunModel {
        RunModel {
            status: self.status,
            success: self.success,
            stdout: self.stdout@,
            stderr: self.stderr@,
            artifacts: strs(self.artifacts@),
            command: strs(self.command@),
        }
    }
}

/// The state of an inspection.
#[derive(Debug)]
pub struct Inspection {
    pub stage: Stage,
    pub kind: ViewKind,
    pub view: Option<InspectionView>,
    pub request: InspectionRequest,
    pub context: InspectionContext,
    pub provenance: InspectionProvenance,
    pub diagnostics: Vec<String>,
    pub lookup: Result<Option<DefinitionDetails>, String>,
    pub symbol: Option<NormalizedSymbol>,
    pub pending: Vec<String>,
    pub texts: Vec<String>,
    pub assemblies: Vec<TargetedAssembly>,
}

/// What an [`Inspection`] holds, as plain values.
pub struct InspectionModel {
    pub stage: Stage,
    pub kind: ViewKind,
    pub view: Option<ViewModel>,
    pub request: AskModel,
    pub context: ContextModel,
    pub provenance: ProvenanceModel,
    pub diagnostics: Seq<Seq<char>>,
    pub lookup: Result<Option<DetailsModel>, Seq<char>>,
    pub symbol: Option<SymbolModel>,
    pub pending: Seq<Seq<char>>,
    pub texts: Seq<Seq<char>>,
    pub assemblies: Seq<AssemblyModel>,
}

impl View for Inspection {
    type V = InspectionModel;

    open spec fn view(&self) -> InspectionModel {
        InspectionModel {
            stage: self.stage,
            kind: self.kind,
            view: match self.view {
                Some(view) => Some(view@),
                None => None,
            },
            request: self.request@,
            context: self.context@,
            provenance: self.provenance@,
            diagnostics: strs(self.diagnostics@),
            lookup: lookup_model(self.lookup),
            symbol: match self.symbol {
                Some(symbol) => Some(symbol.model()),
                None => None,
            },
            pending: strs(self.pending@),
            texts: strs(self.texts@),
            assemblies: assembly_models(self.assemblies@),
        }
    }
}

/// The error for an event that does not belong to the stage.
pub open spec fn out_of_turn() -> ErrorModel {
    plain_error(ErrorCode::InternalError, "Event does not belong to the stage of the inspection"@)
}

/// The error for a view that has no way to be produced.
pub open spec fn unsupported_view(name: Seq<char>) -> ErrorModel {
    plain_error(ErrorCode::InvalidParams, "Unsupported inspection view `"@ + name + "`"@)
}

/// The extensions of the files that hold what a view of `kind` shows.
pub open spec fn extensions_for(kind: ViewKind) -> Seq<Seq<char>> {
    match kind {
        ViewKind::LlvmIr => seq!["ll"@],
        ViewKind::Assembly => seq!["s"@, "asm"@],
        _ => Seq::empty(),
    }
}

/// What a message calls a file that holds what a view of `kind` shows.
pub open spec fn artifact_word(kind: ViewKind) -> Seq<char> {
    if kind == ViewKind::Assembly {
        "assembly artifact"@
    } else {
        "artifact"@
    }
}

/// The state that an inspection of `request` in `context` begins in, and
/// its first step.
///
/// A view that is not known or not offered ends the inspection with an
/// error, a view that is offered but cannot run ends it with an answer
/// that holds a diagnostic and no text. For any other view the lock on
/// the workspace is taken first.
pub open spec fn begun(context: ContextModel, request: AskModel) -> (InspectionModel, StepModel) {
    let state = InspectionModel {
        stage: Stage::Finished,
        kind: ViewKind::Unsupported,
        view: None,
        request,
        context,
        provenance: provenance_of(context),
        diagnostics: Seq::empty(),
        lookup: Ok(None),
        symbol: None,
        pending: Seq::empty(),
        texts: Seq::empty(),
        assemblies: Seq::empty(),
    };
    match gate_of(context, request.view) {
        Err(error) => (state, StepModel::Done(Err(error))),
        Ok(GateModel::SoftFail(result)) => (state, StepModel::Done(Ok(result))),
        Ok(GateModel::Run(view)) => (
            InspectionModel {
                stage: Stage::Locking,
                kind: kind_of_view(view.name),
                view: Some(view),
                ..state
            },
            StepModel::AcquireLock,
        ),
    }
}

/// The state `state` brought to its end with `answer`.
pub open spec fn ended(state: InspectionModel, answer: Result<ResultModel, ErrorModel>) -> (
    InspectionModel,
    StepModel,
) {
    (InspectionModel { stage: Stage::Finished, ..state }, StepModel::Done(answer))
}

/// The answer that holds `text` for the symbol `symbol`.
pub open spec fn answered(state: InspectionModel, symbol: Option<Seq<char>>, text: Seq<char>)
    -> ResultModel {
    finished(
        state.view->Some_0.name,
        symbol,
        text,
        state.diagnostics,
        state.provenance,
        state.context.limits,
    )
}

/// The end of `state` with the text `output`, or with its error.
pub open spec fn ended_with(
    state: InspectionModel,
    symbol: Option<Seq<char>>,
    output: Result<Seq<char>, ErrorModel>,
) -> (InspectionModel, StepModel) {
    match output {
        Ok(text) => ended(state, Ok(answered(state, symbol, text))),
        Err(error) => ended(state, Err(error)),
    }
}

/// After the lock was taken: the record says so, and the definition is
/// asked for at the position of the request. A request without a position
/// ends with an error.
pub open spec fn after_lock(state: InspectionModel) -> (InspectionModel, StepModel) {
    let locked = InspectionModel {
        provenance: ProvenanceModel { workspace_locked: true, ..state.provenance },
        ..state
    };
    if state.request.line is Some && state.request.character is Some {
        (
            InspectionModel { stage: Stage::Resolving, ..locked },
            StepModel::ResolveDefinition {
                file_path: state.request.file_path,
                line: state.request.line->Some_0,
                character: state.request.character->Some_0,
            },
        )
    } else {
        ended(locked, Err(position_required()))
    }
}

/// After the language server answered with `lookup`.
///
/// The view `def` ends with the line that tells where the definition is.
/// The view `types` asks for the type hierarchy next. Any other view
/// needs a function: the compiler is run with what the view emits and
/// prints. Where the definition cannot be made out, the inspection ends
/// with the error.
pub open spec fn after_definition(
    state: InspectionModel,
    lookup: Result<Option<DetailsModel>, Seq<char>>,
) -> (InspectionModel, StepModel) {
    let ask = state.request;
    let line = ask.line->Some_0;
    let character = ask.character->Some_0;
    let kept = InspectionModel { lookup, ..state };
    match state.kind {
        ViewKind::Definition => match definition_of(
            lookup,
            ask.file_path,
            line,
            character,
            ask.symbol_name,
        ) {
            Ok(resolved) => ended(
                kept,
                Ok(answered(kept, Some(resolved.symbol->Some_0.item_name), resolved.text)),
            ),
            Err(error) => ended(kept, Err(error)),
        },
        ViewKind::Types => match found_identity(lookup, ask.file_path, line, character) {
            Ok(_) => (
                InspectionModel { stage: Stage::FetchingTypes, ..kept },
                StepModel::FetchTypeHierarchy { file_path: ask.file_path, line, character },
            ),
            Err(error) => ended(kept, Err(error)),
        },
        _ => match symbol_of(
            lookup,
            ask.file_path,
            line,
            character,
            ask.symbol_name,
            ask.target,
        ) {
            Ok(symbol) => (
                InspectionModel { stage: Stage::Compiling, symbol: Some(symbol), ..kept },
                StepModel::RunCompiler {
                    request: compiler_request(state.view->Some_0, ask.opt_level, ask.target),
                    env: state.context.env,
                    target_dir: target_dir_of(state.context.env),
                    timeout_seconds: state.context.limits.timeout_seconds,
                },
            ),
            Err(error) => ended(kept, Err(error)),
        },
    }
}

/// After the language server answered the request for the type hierarchy.
pub open spec fn after_types(state: InspectionModel, hierarchy: Result<Seq<char>, Seq<char>>) -> (
    InspectionModel,
    StepModel,
) {
    let ask = state.request;
    match types_of(
        state.lookup,
        hierarchy,
        ask.file_path,
        ask.line->Some_0,
        ask.character->Some_0,
        ask.symbol_name,
    ) {
        Ok(resolved) => ended(
            state,
            Ok(answered(state, Some(resolved.symbol->Some_0.item_name), resolved.text)),
        ),
        Err(error) => ended(state, Err(error)),
    }
}

/// The diagnostics with the note for the compiler's error stream, where
/// there is one.
pub open spec fn noted(diagnostics: Seq<Seq<char>>, note: Option<Seq<char>>) -> Seq<Seq<char>> {
    match note {
        Some(text) => diagnostics.push(text),
        None => diagnostics,
    }
}

/// After the compiler ended with success and gave `run`.
///
/// The record takes the command, joined by spaces, and the diagnostics
/// take what the compiler wrote to its error stream. MIR is then found
/// in what the compiler printed. For LLVM IR and assembly the new files
/// with the right extension are read one after the other; where there is
/// none, the inspection ends with the error that says so.
pub open spec fn after_run(state: InspectionModel, run: RunModel) -> (InspectionModel, StepModel) {
    let recorded = InspectionModel {
        provenance: ProvenanceModel {
            command: Some(join(run.command, " "@)),
            ..state.provenance
        },
        diagnostics: noted(state.diagnostics, stderr_note(run.stderr, state.context.limits)),
        ..state
    };
    let symbol = state.symbol->Some_0;
    let pending = with_extension(run.artifacts, extensions_for(state.kind));
    match state.kind {
        ViewKind::Mir => ended_with(recorded, Some(symbol.item_name), mir_of(run.stdout, symbol)),
        ViewKind::LlvmIr => if pending.len() == 0 {
            ended(recorded, Err(llvm_ir_of(Seq::empty(), symbol)->Err_0))
        } else {
            (
                InspectionModel { stage: Stage::Reading, pending, ..recorded },
                StepModel::ReadArtifact { path: pending[0] },
            )
        },
        ViewKind::Assembly => if pending.len() == 0 {
            ended(recorded, Err(assembly_of(Seq::empty(), symbol, None)->Err_0))
        } else {
            (
                InspectionModel { stage: Stage::Reading, pending, ..recorded },
                StepModel::ReadArtifact { path: pending[0] },
            )
        },
        _ => ended(recorded, Err(unsupported_view(state.view->Some_0.name))),
    }
}

/// After the compiler came to its end with `outcome`.
pub open spec fn after_compiler(state: InspectionModel, outcome: CompilerOutcome) -> (
    InspectionModel,
    StepModel,
) {
    match run_error(outcome) {
        Some(error) => ended(state, Err(error)),
        None => after_run(state, outcome->Finished_0@),
    }
}

/// The number of files read so far.
pub open spec fn files_read(state: InspectionModel) -> int {
    if state.kind == ViewKind::Assembly {
        state.assemblies.len() as int
    } else {
        state.texts.len() as int
    }
}

/// After the next file was read and holds `content`.
///
/// A file larger than the limit on output ends the inspection with an
/// error. The text is kept, assembly with the target it was built for.
/// Then the next file is read, and after the last the symbol is found in
/// what was read.
pub open spec fn after_file(state: InspectionModel, content: Seq<char>) -> (
    InspectionModel,
    StepModel,
) {
    let path = state.pending[files_read(state)];
    let limit = state.context.limits.max_output_bytes;
    let symbol = state.symbol->Some_0;
    if utf8_len(content) > limit {
        ended(state, Err(artifact_too_large(path, utf8_len(content) as usize, limit)))
    } else {
        let kept = if state.kind == ViewKind::Assembly {
            InspectionModel {
                assemblies: state.assemblies.push(
                    AssemblyModel {
                        target: assembly_target(path, state.request.target),
                        content,
                    },
                ),
                ..state
            }
        } else {
            InspectionModel { texts: state.texts.push(content), ..state }
        };
        if files_read(kept) < kept.pending.len() {
            (kept, StepModel::ReadArtifact { path: kept.pending[files_read(kept)] })
        } else if state.kind == ViewKind::Assembly {
            ended_with(
                kept,
                Some(symbol.item_name),
                assembly_of(kept.assemblies, symbol, state.request.target),
            )
        } else {
            ended_with(kept, Some(symbol.item_name), llvm_ir_of(kept.texts, symbol))
        }
    }
}

/// Whether `state` is one that the machine itself can be in: it waits for
/// something only with what the wait needs at hand.
pub open spec fn coherent(state: InspectionModel) -> bool {
    &&& state.stage != Stage::Finished ==> state.view is Some && state.kind == kind_of_view(
        state.view->Some_0.name,
    )
    &&& (state.stage == Stage::Resolving || state.stage == Stage::FetchingTypes || state.stage
        == Stage::Compiling || state.stage == Stage::Reading) ==> state.request.line is Some
        && state.request.character is Some && state.provenance.workspace_locked
    &&& (state.stage == Stage::Compiling || state.stage == Stage::Reading) ==> state.symbol
        is Some
    &&& (state.stage != Stage::Reading && state.stage != Stage::Finished) ==> state.texts.len()
        == 0 && state.assemblies.len() == 0
    &&& state.stage == Stage::Reading ==> (state.kind == ViewKind::LlvmIr || state.kind
        == ViewKind::Assembly) && 0 <= files_read(state) < state.pending.len()
}

/// The state after `event`, and the step that follows. An event that does
/// not belong to the stage ends the inspection with an error, and so does
/// any event in a state that the machine itself cannot be in.
pub open spec fn advanced(state: InspectionModel, event: Event) -> (InspectionModel, StepModel) {
    if coherent(state) {
        advanced_in_turn(state, event)
    } else {
        ended(state, Err(out_of_turn()))
    }
}

/// The state after `event` and the step that follows, for a state that
/// the machine itself can be in.
pub open spec fn advanced_in_turn(state: InspectionModel, event: Event) -> (
    InspectionModel,
    StepModel,
) {
    match (state.stage, event) {
        (Stage::Locking, Event::LockAcquired) => after_lock(state),
        (Stage::Resolving, Event::DefinitionResolved(lookup)) => after_definition(
            state,
            lookup_model(lookup),
        ),
        (Stage::FetchingTypes, Event::TypeHierarchyFetched(hierarchy)) => after_types(
            state,
            text_model(hierarchy),
        ),
        (Stage::Compiling, Event::CompilerFinished(outcome)) => after_compiler(state, outcome),
        (Stage::Reading, Event::ArtifactRead(Ok(content))) => after_file(state, content@),
        (Stage::Reading, Event::ArtifactRead(Err(reason))) => ended(
            state,
            Err(
                artifact_unreadable(
                    artifact_word(state.kind),
                    state.pending[files_read(state)],
                    reason@,
                ),
            ),
        ),
        _ => ended(state, Err(out_of_turn())),
    }
}

/// The compiler is run, and files are read, only while the lock on the
/// workspace is held: whenever the machine asks for either, the lock was
/// reported as taken and the record says so.
pub proof fn lemma_work_under_lock(state: InspectionModel, event: Event)
    requires
        advanced(state, event).1 is RunCompiler || advanced(state, event).1 is ReadArtifact,
    ensures
        state.provenance.workspace_locked,
        advanced(state, event).0.provenance.workspace_locked,
{
}

/// The machine first asks for the lock, and asks the language server for
/// nothing before the lock was reported as taken.
pub proof fn lemma_lock_comes_first(context: ContextModel, request: AskModel, event: Event)
    ensures
        begun(context, request).1 is AcquireLock || begun(context, request).1 is Done,
        begun(context, request).1 is AcquireLock && !(event is LockAcquired) ==> advanced(
            begun(context, request).0,
            event,
        ).1 is Done,
{
}

impl Inspection {
    /// Whether the state is one that the machine itself can be in.
    pub open spec fn wf(&self) -> bool {
        coherent(self@)
    }

    /// Begins the inspection of `request` in `context`.
    pub fn begin(context: InspectionContext, request: InspectionRequest) -> (out: (
        Inspection,
        Step,
    ))
        ensures
            (out.0@, out.1@) == begun(context@, request@),
            out.0.wf(),
    {
        let gate = check_gate(&context, request.view.as_str());
        let provenance = context.provenance();
        let mut state = Inspection {
            stage: Stage::Finished,
            kind: ViewKind::Unsupported,
            view: None,
            request,
            context,
            provenance,
            diagnostics: Vec::new(),
            lookup: Ok(None),
            symbol: None,
            pending: Vec::new(),
            texts: Vec::new(),
            assemblies: Vec::new(),
        };
        proof {
            assert(strs(state.diagnostics@) =~= Seq::<Seq<char>>::empty());
            assert(strs(state.pending@) =~= Seq::<Seq<char>>::empty());
            assert(strs(state.texts@) =~= Seq::<Seq<char>>::empty());
            assert(assembly_models(state.assemblies@) =~= Seq::<AssemblyModel>::empty());
        }
        match gate {
            Err(error) => (state, Step::Done(Err(error))),
            Ok(Gate::SoftFail(result)) => (state, Step::Done(Ok(result))),
            Ok(Gate::Run(view)) => {
                state.stage = Stage::Locking;
                state.kind = view_kind(view.name);
                state.view = Some(view);
                (state, Step::AcquireLock)
            },
        }
    }

    /// Ends the inspection with `answer`.
    fn end(self, answer: Result<InspectionResult, ToolError>) -> (out: (Inspection, Step))
        ensures
            (out.0@, out.1@) == ended(self@, answer_model(answer)),
            out.0.wf(),
    {
        let mut state = self;
        state.stage = Stage::Finished;
        (state, Step::Done(answer))
    }

    /// Ends the inspection with the text `output` for `symbol`, or with
    /// the error of `output`.
    fn end_with(self, symbol: Option<String>, output: Result<String, ToolError>) -> (out: (
        Inspection,
        Step,
    ))
        requires
            self.view is Some,
        ensures
            (out.0@, out.1@) == ended_with(
                self@,
                opt_text(symbol),
                output_model(output),
            ),
            out.0.wf(),
    {
        let mut state = self;
        state.stage = Stage::Finished;
        match output {
            Ok(text) => {
                let view = match state.view {
                    Some(view) => view,
                    None => { return (state, Step::Done(Err(out_of_turn_error()))); },
                };
                let diagnostics = clone_strings(&state.diagnostics);
                let provenance = copy_provenance(&state.provenance);
                let answer = finish(
                    view.name,
                    symbol,
                    text.as_str(),
                    diagnostics,
                    provenance,
                    state.context.limits(),
                );
                (state, Step::Done(Ok(answer)))
            },
            Err(error) => (state, Step::Done(Err(error))),
        }
    }

    /// Whether the state is one that the machine itself can be in.
    pub fn is_coherent(&self) -> (b: bool)
        ensures
            b == self.wf(),
    {
        let waiting = match self.stage {
            Stage::Finished => false,
            _ => true,
        };
        let placed = match self.stage {
            Stage::Resolving => true,
            Stage::FetchingTypes => true,
            Stage::Compiling => true,
            Stage::Reading => true,
            _ => false,
        };
        let searching = match self.stage {
            Stage::Compiling => true,
            Stage::Reading => true,
            _ => false,
        };
        let reading = match self.stage {
            Stage::Reading => true,
            _ => false,
        };
        let known = match &self.view {
            Some(view) => self.kind == view_kind(view.name),
            None => false,
        };
        if waiting && !known {
            return false;
        }
        if placed && !(self.request.line.is_some() && self.request.character.is_some()
            && self.provenance.workspace_locked) {
            return false;
        }
        if searching && self.symbol.is_none() {
            return false;
        }
        if waiting && !reading && !(self.texts.len() == 0 && self.assemblies.len() == 0) {
            return false;
        }
        if reading {
            let read = match self.kind {
                ViewKind::LlvmIr => self.texts.len(),
                ViewKind::Assembly => self.assemblies.len(),
                _ => { return false; },
            };
            if read >= self.pending.len() {
                return false;
            }
        }
        true
    }

    /// Takes `event` and says what is to be done next.
    pub fn step(self, event: Event) -> (out: (Inspection, Step))
        ensures
            (out.0@, out.1@) == advanced(self@, event),
            out.0.wf(),
    {
        if !self.is_coherent() {
            return self.end(Err(out_of_turn_error()));
        }
        match (self.stage, event) {
            (Stage::Locking, Event::LockAcquired) => self.on_lock(),
            (Stage::Resolving, Event::DefinitionResolved(lookup)) => self.on_definition(lookup),
            (Stage::FetchingTypes, Event::TypeHierarchyFetched(hierarchy)) => self.on_types(
                hierarchy,
            ),
            (Stage::Compiling, Event::CompilerFinished(outcome)) => self.on_compiler(outcome),
            (Stage::Reading, Event::ArtifactRead(read)) => self.on_file(read),
            _ => self.end(Err(out_of_turn_error())),
        }
    }

    fn on_lock(self) -> (out: (Inspection, Step))
        requires
            self.wf(),
            self.stage == Stage::Locking,
        ensures
            (out.0@, out.1@) == after_lock(self@),
            out.0.wf(),
    {
        let mut state = self;
        state.provenance.workspace_locked = true;
        match require_position(state.request.line, state.request.character) {
            Ok((line, character)) => {
                state.stage = Stage::Resolving;
                let file_path = state.request.file_path.clone();
                (state, Step::ResolveDefinition { file_path, line, character })
            },
            Err(error) => state.end(Err(error)),
        }
    }

    fn on_definition(self, lookup: Result<Option<DefinitionDetails>, String>) -> (out: (
        Inspection,
        Step,
    ))
        requires
            self.wf(),
            self.stage == Stage::Resolving,
        ensures
            (out.0@, out.1@) == after_definition(self@, lookup_model(lookup)),
            out.0.wf(),
    {
        let mut state = self;
        let (line, character) = match (state.request.line, state.request.character) {
            (Some(line), Some(character)) => (line, character),
            _ => { return state.end(Err(out_of_turn_error())); },
        };
        let view = match state.view {
            Some(view) => view,
            None => { return state.end(Err(out_of_turn_error())); },
        };
        state.lookup = lookup;
        match state.kind {
            ViewKind::Definition => {
                let resolved = resolve_definition(
                    &state.lookup,
                    state.request.file_path.as_str(),
                    line,
                    character,
                    &state.request.symbol_name,
                );
                match resolved {
                    Ok(resolved) => {
                        let symbol = match &resolved.symbol {
                            Some(identity) => Some(identity.item_name.clone()),
                            None => None,
                        };
                        state.end_with(symbol, Ok(resolved.text))
                    },
                    Err(error) => state.end(Err(error)),
                }
            },
            ViewKind::Types => {
                let identity = resolve_identity(
                    &state.lookup,
                    state.request.file_path.as_str(),
                    line,
                    character,
                );
                match identity {
                    Ok(_) => {
                        state.stage = Stage::FetchingTypes;
                        let file_path = state.request.file_path.clone();
                        (state, Step::FetchTypeHierarchy { file_path, line, character })
                    },
                    Err(error) => state.end(Err(error)),
                }
            },
            _ => {
                let symbol = resolve_normalized_symbol(
                    &state.lookup,
                    state.request.file_path.as_str(),
                    line,
                    character,
                    &state.request.symbol_name,
                    &state.request.target,
                );
                match symbol {
                    Ok(symbol) => {
                        let request = make_compiler_request(
                            &state.context,
                            &view,
                            &state.request.opt_level,
                            &state.request.target,
                        );
                        let target_dir = state.context.target_dir();
                        let timeout_seconds = state.context.limits().timeout();
                        state.symbol = Some(symbol);
                        state.stage = Stage::Compiling;
                        (state, Step::RunCompiler { request, target_dir, timeout_seconds })
                    },
                    Err(error) => state.end(Err(error)),
                }
            },
        }
    }

    fn on_types(self, hierarchy: Result<String, String>) -> (out: (Inspection, Step))
        requires
            self.wf(),
            self.stage == Stage::FetchingTypes,
        ensures
            (out.0@, out.1@) == after_types(self@, text_model(hierarchy)),
            out.0.wf(),
    {
        let state = self;
        let (line, character) = match (state.request.line, state.request.character) {
            (Some(line), Some(character)) => (line, character),
            _ => { return state.end(Err(out_of_turn_error())); },
        };
        let resolved = resolve_types(
            &state.lookup,
            &hierarchy,
            state.request.file_path.as_str(),
            line,
            character,
            &state.request.symbol_name,
        );
        match resolved {
            Ok(resolved) => {
                let symbol = match &resolved.symbol {
                    Some(identity) => Some(identity.item_name.clone()),
                    None => None,
                };
                state.end_with(symbol, Ok(resolved.text))
            },
            Err(error) => state.end(Err(error)),
        }
    }

    fn on_compiler(self, outcome: CompilerOutcome) -> (out: (Inspection, Step))
        requires
            self.wf(),
            self.stage == Stage::Compiling,
        ensures
            (out.0@, out.1@) == after_compiler(self@, outcome),
            out.0.wf(),
    {
        let mut state = self;
        let run = match check_compiler_run(outcome) {
            Ok(run) => run,
            Err(error) => { return state.end(Err(error)); },
        };
        let view = match state.view {
            Some(view) => view,
            None => { return state.end(Err(out_of_turn_error())); },
        };
        let command = join_strings(&run.command, " ");
        state.provenance.command = Some(command);
        let ghost before = strs(state.diagnostics@);
        match stderr_diagnostic(run.stderr.as_str(), state.context.limits()) {
            Some(note) => {
                state.diagnostics.push(note);
                assert(strs(state.diagnostics@) == before.push(note@));
            },
            None => {},
        }
        let item_name = match &state.symbol {
            Some(symbol) => symbol.item_name.clone(),
            None => { return state.end(Err(out_of_turn_error())); },
        };
        match state.kind {
            ViewKind::Mir => {
                let output = match &state.symbol {
                    Some(symbol) => locate_mir(run.stdout.as_str(), symbol),
                    None => Err(out_of_turn_error()),
                };
                state.end_with(Some(item_name), output)
            },
            ViewKind::LlvmIr => {
                let wanted = extension_list(ViewKind::LlvmIr);
                let pending = select_artifacts(&run.artifacts, &wanted);
                if pending.len() == 0 {
                    let output = match &state.symbol {
                        Some(symbol) => locate_llvm_ir(&pending, symbol),
                        None => Err(out_of_turn_error()),
                    };
                    match output {
                        Err(error) => state.end(Err(error)),
                        Ok(_) => state.end(Err(out_of_turn_error())),
                    }
                } else {
                    let path = pending[0].clone();
                    state.pending = pending;
                    state.stage = Stage::Reading;
                    (state, Step::ReadArtifact { path })
                }
            },
            ViewKind::Assembly => {
                let wanted = extension_list(ViewKind::Assembly);
                let pending = select_artifacts(&run.artifacts, &wanted);
                if pending.len() == 0 {
                    let none: Vec<TargetedAssembly> = Vec::new();
                    let output = match copy_symbol(&state.symbol) {
                        Some(symbol) => locate_assembly(&none, symbol, &None),
                        None => Err(out_of_turn_error()),
                    };
                    match output {
                        Err(error) => state.end(Err(error)),
                        Ok(_) => state.end(Err(out_of_turn_error())),
                    }
                } else {
                    let path = pending[0].clone();
                    state.pending = pending;
                    state.stage = Stage::Reading;
                    (state, Step::ReadArtifact { path })
                }
            },
            _ => {
                let mut message = String::from_str("Unsupported inspection view `");
                message.append(view.name);
                message.append("`");
                state.end(Err(mcp_error(ErrorCode::InvalidParams, message)))
            },
        }
    }

    fn on_file(self, read: Result<String, String>) -> (out: (Inspection, Step))
        requires
            self.wf(),
            self.stage == Stage::Reading,
        ensures
            (out.0@, out.1@) == advanced_in_turn(self@, Event::ArtifactRead(read)),
            out.0.wf(),
    {
        let mut state = self;
        let assembly = state.kind == ViewKind::Assembly;
        let index = if assembly {
            state.assemblies.len()
        } else {
            state.texts.len()
        };
        let path = state.pending[index].clone();
        let ghost pending = state.pending;
        assert(index < pending.len());
        let content = match read {
            Ok(content) => content,
            Err(reason) => {
                let what = if assembly {
                    "assembly artifact"
                } else {
                    "artifact"
                };
                let error = artifact_unreadable_error(what, path.as_str(), reason.as_str());
                return state.end(Err(error));
            },
        };
        let size = content.as_str().as_bytes().len();
        proof {
            lemma_utf8_len_is_encoded_len(content@);
        }
        match enforce_artifact_limit(path.as_str(), size, state.context.limits()) {
            Ok(()) => {},
            Err(error) => { return state.end(Err(error)); },
        }
        if assembly {
            let ghost before = assembly_models(state.assemblies@);
            let tagged = tag_assembly(path.as_str(), content, &state.request.target);
            state.assemblies.push(tagged);
            assert(assembly_models(state.assemblies@) == before.push(tagged@));
        } else {
            let ghost before = strs(state.texts@);
            state.texts.push(content);
            assert(strs(state.texts@) == before.push(content@));
        }
        assert(state.pending == pending);
        if index + 1 < state.pending.len() {
            let next = state.pending[index + 1].clone();
            return (state, Step::ReadArtifact { path: next });
        }
        let item_name = match &state.symbol {
            Some(symbol) => symbol.item_name.clone(),
            None => { return state.end(Err(out_of_turn_error())); },
        };
        let output = if assembly {
            match copy_symbol(&state.symbol) {
                Some(symbol) => locate_assembly(&state.assemblies, symbol, &state.request.target),
                None => Err(out_of_turn_error()),
            }
        } else {
            match &state.symbol {
                Some(symbol) => locate_llvm_ir(&state.texts, symbol),
                None => Err(out_of_turn_error()),
            }
        };
        state.end_with(Some(item_name), output)
    }
}

/// The error for an event that does not belong to the stage.
fn out_of_turn_error() -> (error: ToolError)
    ensures
        error@ == out_of_turn(),
{
    mcp_error(
        ErrorCode::InternalError,
        String::from_str("Event does not belong to the stage of the inspection"),
    )
}

/// A copy of `record`.
fn copy_provenance(record: &InspectionProvenance) -> (copy: InspectionProvenance)
    ensures
        copy@ == record@,
{
    InspectionProvenance {
        workspace_root: record.workspace_root.clone(),
        target_dir: record.target_dir.clone(),
        env: record.env.duplicate(),
        gating_mode: record.gating_mode,
        toolchain_channel: record.toolchain_channel,
        workspace_locked: record.workspace_locked,
        rustc_verbose_version: clone_opt(&record.rustc_verbose_version),
        rust_analyzer_version: clone_opt(&record.rust_analyzer_version),
        command: clone_opt(&record.command),
        truncation: record.truncation,
    }
}

/// A copy of an optional symbol.
fn copy_symbol(symbol: &Option<NormalizedSymbol>) -> (copy: Option<NormalizedSymbol>)
    ensures
        copy is Some <==> symbol is Some,
        copy matches Some(c) ==> c.model() == symbol->Some_0.model(),
{
    match symbol {
        Some(s) => Some(
            NormalizedSymbol {
                def_name: s.def_name.clone(),
                item_name: s.item_name.clone(),
                mangled: clone_opt(&s.mangled),
                target: clone_opt(&s.target),
                mangled_prefix: s.mangled_prefix.clone(),
            },
        ),
        None => None,
    }
}

/// The extensions of the files that hold what a view of `kind` shows.
fn extension_list(kind: ViewKind) -> (list: Vec<Vec<char>>)
    ensures
        rows(list@) == extensions_for(kind),
{
    let mut list: Vec<Vec<char>> = Vec::new();
    match kind {
        ViewKind::LlvmIr => {
            list.push(to_chars("ll"));
        },
        ViewKind::Assembly => {
            list.push(to_chars("s"));
            list.push(to_chars("asm"));
        },
        _ => {},
    }
    assert(rows(list@) =~= extensions_for(kind));
    list
}

} // verus!
