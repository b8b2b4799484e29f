use rust_mcp_server::client::DefinitionDetails;
use rust_mcp_server::context::{InspectionContext, InspectionResult, ToolchainDetails};
use rust_mcp_server::errors::{ErrorCode, ErrorData, ToolError};
use rust_mcp_server::handler::{
    check_compiler_run, finish, resolve_definition, resolve_normalized_symbol, resolve_types,
    stderr_diagnostic, CompilerOutcome,
};
use rust_mcp_server::inspection::{GatingMode, InspectionLimits, ToolchainChannel};
use rust_mcp_server::orchestrator::{
    view_kind, Event, Inspection, InspectionRequest, Stage, Step, ViewKind,
};
use rust_mcp_server::parameters::{
    InspectAsmParams, InspectLlvmIrParams, InspectMirParams, InspectParams,
};
use rust_mcp_server::protocol::{Location, Position, Range, SymbolPathSegment};
use rust_mcp_server::runner::RunResult;

fn context(channel: ToolchainChannel, gating_mode: GatingMode) -> InspectionContext {
    InspectionContext::new(
        "/work/demo",
        ToolchainDetails { channel, rustc_verbose_version: None },
        None,
        gating_mode,
    )
}

fn request(view: &str) -> InspectionRequest {
    InspectionRequest {
        view: view.to_string(),
        file_path: "/work/demo/src/main.rs".to_string(),
        line: Some(3),
        character: Some(8),
        symbol_name: None,
        opt_level: None,
        target: None,
    }
}

fn details(kind: u32) -> DefinitionDetails {
    DefinitionDetails {
        location: Location {
            uri: "file:///work/demo/src/utils.rs".to_string(),
            range: Range {
                start: Position { line: 6, character: 11 },
                end: Position { line: 6, character: 19 },
            },
        },
        symbol_path: vec![
            SymbolPathSegment { name: "utils".to_string(), kind: 2 },
            SymbolPathSegment { name: "do_thing".to_string(), kind },
        ],
    }
}

fn found(kind: u32) -> Result<Option<DefinitionDetails>, String> {
    Ok(Some(details(kind)))
}

fn run(stdout: &str, stderr: &str, artifacts: &[&str]) -> RunResult {
    RunResult {
        status: Some(0),
        success: true,
        stdout: stdout.to_string(),
        stderr: stderr.to_string(),
        artifacts: artifacts.iter().map(|s| s.to_string()).collect(),
        command: vec!["cargo".to_string(), "rustc".to_string(), "--offline".to_string(), "--".to_string()],
    }
}

fn done(step: Step) -> Result<InspectionResult, ToolError> {
    match step {
        Step::Done(answer) => answer,
        other => panic!("the inspection is not over: {:?}", other),
    }
}

/// Drives an inspection to the point where it waits for the compiler.
fn compiling(view: &str, channel: ToolchainChannel, ask: InspectionRequest) -> Inspection {
    let (state, step) = Inspection::begin(context(channel, GatingMode::Strict), ask);
    assert!(matches!(step, Step::AcquireLock), "{}", view);
    let (state, step) = state.step(Event::LockAcquired);
    assert!(matches!(step, Step::ResolveDefinition { .. }));
    let (state, step) = state.step(Event::DefinitionResolved(found(12)));
    assert!(matches!(step, Step::RunCompiler { .. }));
    assert_eq!(state.stage, Stage::Compiling);
    state
}

const LLVM: &str = "define void @_ZN4demo5utils8do_thing17h1234abcdE() {\n  ret void\n}\n";

#[test]
fn view_names_tell_how_the_work_goes() {
    assert_eq!(view_kind("def"), ViewKind::Definition);
    assert_eq!(view_kind("types"), ViewKind::Types);
    assert_eq!(view_kind("mir"), ViewKind::Mir);
    assert_eq!(view_kind("llvm-ir"), ViewKind::LlvmIr);
    assert_eq!(view_kind("asm"), ViewKind::Assembly);
    assert_eq!(view_kind("MIR"), ViewKind::Unsupported);
    assert_eq!(view_kind(""), ViewKind::Unsupported);
}

#[test]
fn tools_pin_their_views() {
    let ask = InspectMirParams {
        file_path: "f.rs".to_string(),
        line: Some(1),
        character: None,
        symbol_name: Some("n".to_string()),
        opt_level: Some("2".to_string()),
        target: Some("t".to_string()),
    }
    .into_request();
    assert_eq!(ask.view, "mir");
    assert_eq!(ask.file_path, "f.rs");
    assert_eq!((ask.line, ask.character), (Some(1), None));
    assert_eq!(ask.symbol_name.as_deref(), Some("n"));
    assert_eq!(ask.opt_level.as_deref(), Some("2"));
    assert_eq!(ask.target.as_deref(), Some("t"));
    let ask = InspectLlvmIrParams {
        file_path: "f.rs".to_string(),
        line: None,
        character: None,
        symbol_name: None,
        opt_level: None,
        target: None,
    }
    .into_request();
    assert_eq!(ask.view, "llvm-ir");
    let ask = InspectAsmParams {
        file_path: "f.rs".to_string(),
        line: None,
        character: Some(2),
        symbol_name: None,
        opt_level: None,
        target: None,
    }
    .into_request();
    assert_eq!(ask.view, "asm");
    assert_eq!((ask.line, ask.character), (None, Some(2)));
    let ask = InspectParams {
        view: "types".to_string(),
        file_path: "f.rs".to_string(),
        line: 4,
        character: 5,
        symbol_name: None,
        opt_level: None,
        target: None,
        gating_mode: Some("lenient".to_string()),
    }
    .into_request();
    assert_eq!(ask.view, "types");
    assert_eq!((ask.line, ask.character), (Some(4), Some(5)));
}

#[test]
fn unknown_view_ends_at_once() {
    let (state, step) =
        Inspection::begin(context(ToolchainChannel::Stable, GatingMode::Strict), request("hir"));
    assert_eq!(state.stage, Stage::Finished);
    let error = done(step).expect_err("unknown view");
    assert_eq!(error.code, ErrorCode::InvalidParams);
    assert_eq!(error.message, "Unknown inspection view `hir`");
}

#[test]
fn inspect_mir_on_stable_strict_is_invalid_params() {
    let (state, step) =
        Inspection::begin(context(ToolchainChannel::Stable, GatingMode::Strict), request("mir"));
    assert_eq!(state.stage, Stage::Finished);
    let error = done(step).expect_err("not offered");
    assert_eq!(error.code, ErrorCode::InvalidParams);
    assert!(error.message.contains("mir"));
    assert!(error.message.contains("Strict"));
    assert!(matches!(error.data, ErrorData::Nothing));
}

#[test]
fn inspect_mir_on_stable_lenient_fails_softly() {
    let (state, step) =
        Inspection::begin(context(ToolchainChannel::Stable, GatingMode::Lenient), request("mir"));
    assert_eq!(state.stage, Stage::Finished);
    let answer = done(step).expect("a soft failure is an answer");
    assert_eq!(answer.view, "mir");
    assert_eq!(answer.text, "");
    assert!(!answer.truncated);
    assert_eq!(answer.diagnostics, vec!["View 'mir' requires nightly"]);
    assert!(!answer.provenance.workspace_locked);
}

#[test]
fn position_is_required_once_the_lock_is_held() {
    let mut ask = request("def");
    ask.character = None;
    let (state, step) =
        Inspection::begin(context(ToolchainChannel::Stable, GatingMode::Strict), ask);
    assert!(matches!(step, Step::AcquireLock));
    let (state, step) = state.step(Event::LockAcquired);
    assert_eq!(state.stage, Stage::Finished);
    assert!(state.provenance.workspace_locked);
    let error = done(step).expect_err("no position");
    assert_eq!(error.code, ErrorCode::InvalidParams);
    assert_eq!(error.message, "Both line and character are required to resolve a symbol");
}

#[test]
fn def_view_tells_where_the_definition_is() {
    let (state, step) =
        Inspection::begin(context(ToolchainChannel::Stable, GatingMode::Strict), request("def"));
    assert_eq!(state.stage, Stage::Locking);
    assert!(matches!(step, Step::AcquireLock));
    let (state, step) = state.step(Event::LockAcquired);
    match &step {
        Step::ResolveDefinition { file_path, line, character } => {
            assert_eq!(file_path, "/work/demo/src/main.rs");
            assert_eq!((*line, *character), (3, 8));
        }
        other => panic!("unexpected {:?}", other),
    }
    let (state, step) = state.step(Event::DefinitionResolved(found(23)));
    assert_eq!(state.stage, Stage::Finished);
    let answer = done(step).expect("answer");
    assert_eq!(answer.view, "def");
    assert_eq!(answer.symbol.as_deref(), Some("do_thing"));
    assert_eq!(answer.text, "Definition: file:///work/demo/src/utils.rs:7:12 (utils::do_thing)");
    assert!(!answer.truncated);
    assert!(answer.diagnostics.is_empty());
    assert!(answer.provenance.workspace_locked);
    assert!(answer.provenance.command.is_none());
    assert!(answer.provenance.truncation.is_none());
}

#[test]
fn def_view_goes_by_the_name_given() {
    let mut ask = request("def");
    ask.symbol_name = Some("renamed".to_string());
    let (state, _) = Inspection::begin(context(ToolchainChannel::Stable, GatingMode::Strict), ask);
    let (state, _) = state.step(Event::LockAcquired);
    let (_, step) = state.step(Event::DefinitionResolved(found(12)));
    let answer = done(step).expect("answer");
    assert_eq!(answer.symbol.as_deref(), Some("renamed"));
    assert_eq!(answer.text, "Definition: file:///work/demo/src/utils.rs:7:12 (utils::do_thing)");
}

#[test]
fn missing_definition_is_resource_not_found() {
    for lookup in [Ok(None), Ok(Some(DefinitionDetails { symbol_path: Vec::new(), ..details(12) }))] {
        let (state, _) = Inspection::begin(
            context(ToolchainChannel::Stable, GatingMode::Strict),
            request("def"),
        );
        let (state, _) = state.step(Event::LockAcquired);
        let (_, step) = state.step(Event::DefinitionResolved(lookup));
        let error = done(step).expect_err("not found");
        assert_eq!(error.code, ErrorCode::ResourceNotFound);
        assert_eq!(error.message, "No symbol found at /work/demo/src/main.rs:3:8");
        match error.data {
            ErrorData::Position { file_path, line, character } => {
                assert_eq!(file_path, "/work/demo/src/main.rs");
                assert_eq!((line, character), (3, 8));
            }
            other => panic!("unexpected {:?}", other),
        }
    }
}

#[test]
fn failure_of_the_language_server_is_an_internal_error() {
    let (state, _) =
        Inspection::begin(context(ToolchainChannel::Stable, GatingMode::Strict), request("asm"));
    let (state, _) = state.step(Event::LockAcquired);
    let (_, step) = state.step(Event::DefinitionResolved(Err("broken pipe".to_string())));
    let error = done(step).expect_err("failed");
    assert_eq!(error.code, ErrorCode::InternalError);
    assert_eq!(error.message, "Failed to resolve symbol: broken pipe");
}

#[test]
fn types_view_adds_the_hierarchy() {
    let (state, _) =
        Inspection::begin(context(ToolchainChannel::Stable, GatingMode::Strict), request("types"));
    let (state, _) = state.step(Event::LockAcquired);
    let (state, step) = state.step(Event::DefinitionResolved(found(23)));
    assert_eq!(state.stage, Stage::FetchingTypes);
    match &step {
        Step::FetchTypeHierarchy { file_path, line, character } => {
            assert_eq!(file_path, "/work/demo/src/main.rs");
            assert_eq!((*line, *character), (3, 8));
        }
        other => panic!("unexpected {:?}", other),
    }
    let (_, step) =
        state.step(Event::TypeHierarchyFetched(Ok("Widget: Debug + Clone".to_string())));
    let answer = done(step).expect("answer");
    assert_eq!(answer.view, "types");
    assert_eq!(
        answer.text,
        "Types: file:///work/demo/src/utils.rs:7:12 (utils::do_thing)\nWidget: Debug + Clone"
    );
    assert_eq!(answer.symbol.as_deref(), Some("do_thing"));
}

#[test]
fn types_view_fails_where_the_hierarchy_does() {
    let (state, _) =
        Inspection::begin(context(ToolchainChannel::Stable, GatingMode::Strict), request("types"));
    let (state, _) = state.step(Event::LockAcquired);
    let (state, _) = state.step(Event::DefinitionResolved(found(23)));
    let (_, step) = state.step(Event::TypeHierarchyFetched(Err("timed out".to_string())));
    let error = done(step).expect_err("failed");
    assert_eq!(error.code, ErrorCode::InternalError);
    assert_eq!(error.message, "Failed to fetch type hierarchy: timed out");
    // Where the definition is not found, the hierarchy is not asked for.
    let (state, _) =
        Inspection::begin(context(ToolchainChannel::Stable, GatingMode::Strict), request("types"));
    let (state, _) = state.step(Event::LockAcquired);
    let (state, step) = state.step(Event::DefinitionResolved(Ok(None)));
    assert_eq!(state.stage, Stage::Finished);
    assert_eq!(done(step).expect_err("not found").code, ErrorCode::ResourceNotFound);
}

#[test]
fn compiler_views_need_a_function() {
    let (state, _) =
        Inspection::begin(context(ToolchainChannel::Stable, GatingMode::Strict), request("asm"));
    let (state, _) = state.step(Event::LockAcquired);
    let (state, step) = state.step(Event::DefinitionResolved(found(23)));
    assert_eq!(state.stage, Stage::Finished);
    let error = done(step).expect_err("no function");
    assert_eq!(error.code, ErrorCode::InvalidParams);
    assert_eq!(error.message, "Item at position is not a function (found Type)");
    assert!(matches!(error.data, ErrorData::Kind { .. }));
}

#[test]
fn compiler_is_asked_for_what_the_view_emits() {
    let mut ask = request("llvm-ir");
    ask.opt_level = Some("2".to_string());
    ask.target = Some("x86_64-unknown-linux-gnu".to_string());
    let (state, _) = Inspection::begin(context(ToolchainChannel::Stable, GatingMode::Strict), ask);
    let (state, _) = state.step(Event::LockAcquired);
    let (state, step) = state.step(Event::DefinitionResolved(found(6)));
    match step {
        Step::RunCompiler { request, target_dir, timeout_seconds } => {
            assert_eq!(target_dir, "target/mcp-inspections");
            assert_eq!(timeout_seconds, 60);
            assert!(request.manifest_path.is_none());
            assert!(request.package.is_none());
            assert_eq!(request.target_triple.as_deref(), Some("x86_64-unknown-linux-gnu"));
            assert_eq!(request.opt_level.as_deref(), Some("2"));
            assert_eq!(request.emit.as_deref(), Some("llvm-ir"));
            assert!(request.unpretty.is_none());
            assert!(request.additional_rustc_args.is_empty());
            assert_eq!(
                request.env.get("CARGO_TARGET_DIR").map(|s| s.as_str()),
                Some("target/mcp-inspections")
            );
        }
        other => panic!("unexpected {:?}", other),
    }
    let symbol = state.symbol.as_ref().expect("symbol");
    assert_eq!(symbol.def_name, "demo::utils::do_thing");
    assert_eq!(symbol.target.as_deref(), Some("x86_64-unknown-linux-gnu"));
    assert!(state.provenance.workspace_locked);
}

#[test]
fn mir_is_taken_from_what_the_compiler_printed() {
    let state = compiling("mir", ToolchainChannel::Nightly, request("mir"));
    let stdout = "fn demo::utils::do_thing() -> () {\n    bb0: { return; }\n}\n\nfn demo::utils::other() -> () {\n}\n";
    let (state, step) = state.step(Event::CompilerFinished(CompilerOutcome::Finished(run(
        stdout,
        "warning: unused variable\n",
        &[],
    ))));
    assert_eq!(state.stage, Stage::Finished);
    let answer = done(step).expect("answer");
    assert_eq!(answer.view, "mir");
    assert_eq!(answer.symbol.as_deref(), Some("do_thing"));
    assert_eq!(answer.text, "fn demo::utils::do_thing() -> () {\n    bb0: { return; }\n}");
    assert_eq!(answer.diagnostics, vec!["Compiler stderr:\nwarning: unused variable\n"]);
    assert_eq!(answer.provenance.command.as_deref(), Some("cargo rustc --offline --"));
    assert!(answer.provenance.workspace_locked);
    assert!(!answer.truncated);
}

#[test]
fn mir_that_is_not_there_is_resource_not_found() {
    let state = compiling("mir", ToolchainChannel::Nightly, request("mir"));
    let (_, step) = state.step(Event::CompilerFinished(CompilerOutcome::Finished(run(
        "fn unrelated() {}\n",
        "",
        &[],
    ))));
    let error = done(step).expect_err("not found");
    assert_eq!(error.code, ErrorCode::ResourceNotFound);
    assert!(error.message.starts_with(
        "Unable to locate MIR for symbol: No MIR match found for `demo::utils::do_thing`"
    ));
}

#[test]
fn compiler_failure_carries_status_output_and_command() {
    let state = compiling("asm", ToolchainChannel::Stable, request("asm"));
    let failed = RunResult { status: Some(101), success: false, ..run("out", "error: boom", &[]) };
    let (state, step) = state.step(Event::CompilerFinished(CompilerOutcome::Finished(failed)));
    assert_eq!(state.stage, Stage::Finished);
    let error = done(step).expect_err("failed");
    assert_eq!(error.code, ErrorCode::InternalError);
    assert_eq!(error.message, "Compiler run failed");
    match error.data {
        ErrorData::CompilerFailure { status, stdout, stderr, command } => {
            assert_eq!(status, Some(101));
            assert_eq!(stdout, "out");
            assert_eq!(stderr, "error: boom");
            assert_eq!(command, vec!["cargo", "rustc", "--offline", "--"]);
        }
        other => panic!("unexpected {:?}", other),
    }
}

#[test]
fn compiler_timeout_is_an_error_of_its_own() {
    let state = compiling("asm", ToolchainChannel::Stable, request("asm"));
    let (_, step) = state.step(Event::CompilerFinished(CompilerOutcome::TimedOut(1)));
    let error = done(step).expect_err("timeout");
    assert_eq!(error.code, ErrorCode::InternalError);
    assert_eq!(
        error.message,
        "Compiler run timed out after 1 seconds. Try narrowing the request or limiting emitted artifacts."
    );
    assert!(matches!(error.data, ErrorData::Timeout { timeout_seconds: 1 }));
    let state = compiling("asm", ToolchainChannel::Stable, request("asm"));
    let (_, step) =
        state.step(Event::CompilerFinished(CompilerOutcome::Failed("cargo: not found".to_string())));
    let error = done(step).expect_err("failed");
    assert_eq!(error.code, ErrorCode::InternalError);
    assert_eq!(error.message, "cargo: not found");
}

#[test]
fn llvm_ir_is_read_from_the_new_files() {
    let state = compiling("llvm-ir", ToolchainChannel::Stable, request("llvm-ir"));
    let artifacts = [
        "target/mcp-inspections/debug/deps/demo.d",
        "target/mcp-inspections/debug/deps/demo.ll",
        "target/mcp-inspections/debug/deps/dep.LL",
    ];
    let (state, step) =
        state.step(Event::CompilerFinished(CompilerOutcome::Finished(run("", "  \n", &artifacts))));
    assert_eq!(state.stage, Stage::Reading);
    match &step {
        Step::ReadArtifact { path } => {
            assert_eq!(path, "target/mcp-inspections/debug/deps/demo.ll")
        }
        other => panic!("unexpected {:?}", other),
    }
    let (state, step) = state.step(Event::ArtifactRead(Ok(LLVM.to_string())));
    assert_eq!(state.stage, Stage::Reading);
    match &step {
        Step::ReadArtifact { path } => assert_eq!(path, "target/mcp-inspections/debug/deps/dep.LL"),
        other => panic!("unexpected {:?}", other),
    }
    let (state, step) =
        state.step(Event::ArtifactRead(Ok("define void @other() {\n}\n".to_string())));
    assert_eq!(state.stage, Stage::Finished);
    let answer = done(step).expect("answer");
    assert_eq!(answer.view, "llvm-ir");
    assert_eq!(
        answer.text,
        "define void @_ZN4demo5utils8do_thing17h1234abcdE() {\n  ret void\n}"
    );
    assert_eq!(answer.symbol.as_deref(), Some("do_thing"));
    assert!(answer.diagnostics.is_empty());
}

#[test]
fn no_files_of_llvm_ir_is_an_internal_error() {
    let state = compiling("llvm-ir", ToolchainChannel::Stable, request("llvm-ir"));
    let (state, step) = state.step(Event::CompilerFinished(CompilerOutcome::Finished(run(
        "",
        "",
        &["target/mcp-inspections/debug/deps/demo.s"],
    ))));
    assert_eq!(state.stage, Stage::Finished);
    let error = done(step).expect_err("none");
    assert_eq!(error.code, ErrorCode::InternalError);
    assert_eq!(error.message, "No LLVM IR artifacts were produced by the compiler");
    let state = compiling("asm", ToolchainChannel::Stable, request("asm"));
    let (_, step) = state.step(Event::CompilerFinished(CompilerOutcome::Finished(run(
        "",
        "",
        &["target/mcp-inspections/debug/deps/demo.ll"],
    ))));
    let error = done(step).expect_err("none");
    assert_eq!(error.code, ErrorCode::InternalError);
    assert_eq!(error.message, "No assembly artifacts were produced by the compiler");
}

#[test]
fn file_that_cannot_be_read_ends_the_inspection() {
    let state = compiling("llvm-ir", ToolchainChannel::Stable, request("llvm-ir"));
    let (state, _) = state.step(Event::CompilerFinished(CompilerOutcome::Finished(run(
        "",
        "",
        &["out/demo.ll"],
    ))));
    let (_, step) = state.step(Event::ArtifactRead(Err("permission denied".to_string())));
    let error = done(step).expect_err("unreadable");
    assert_eq!(error.code, ErrorCode::InternalError);
    assert_eq!(error.message, "Failed to read artifact out/demo.ll: permission denied");
    assert!(matches!(error.data, ErrorData::Artifact { .. }));
    let state = compiling("asm", ToolchainChannel::Stable, request("asm"));
    let (state, _) =
        state.step(Event::CompilerFinished(CompilerOutcome::Finished(run("", "", &["out/demo.s"]))));
    let (_, step) = state.step(Event::ArtifactRead(Err("gone".to_string())));
    let error = done(step).expect_err("unreadable");
    assert_eq!(error.message, "Failed to read assembly artifact out/demo.s: gone");
}

#[test]
fn file_over_the_limit_ends_the_inspection() {
    let tight = context(ToolchainChannel::Stable, GatingMode::Strict).with_limits(
        InspectionLimits { timeout_seconds: 5, max_output_bytes: 16, max_output_lines: 100 },
    );
    let (state, _) = Inspection::begin(tight, request("llvm-ir"));
    let (state, _) = state.step(Event::LockAcquired);
    let (state, step) = state.step(Event::DefinitionResolved(found(12)));
    assert!(matches!(step, Step::RunCompiler { timeout_seconds: 5, .. }));
    let (state, _) = state.step(Event::CompilerFinished(CompilerOutcome::Finished(run(
        "",
        "",
        &["out/demo.ll", "out/never-read.ll"],
    ))));
    let (state, step) = state.step(Event::ArtifactRead(Ok(LLVM.to_string())));
    assert_eq!(state.stage, Stage::Finished);
    let error = done(step).expect_err("too large");
    assert_eq!(error.code, ErrorCode::InternalError);
    assert!(error.message.starts_with(&format!(
        "Artifact out/demo.ll exceeded the size limit ({} bytes > 16 bytes)",
        LLVM.len()
    )));
    match error.data {
        ErrorData::ArtifactLimit { artifact, limit_bytes, observed_bytes } => {
            assert_eq!(artifact, "out/demo.ll");
            assert_eq!(limit_bytes, 16);
            assert_eq!(observed_bytes, LLVM.len());
        }
        other => panic!("unexpected {:?}", other),
    }
}

#[test]
fn assembly_is_searched_under_the_target_of_its_path() {
    let state = compiling("asm", ToolchainChannel::Stable, request("asm"));
    let artifacts = [
        "target/mcp-inspections/aarch64-unknown-linux-gnu/debug/deps/demo.s",
        "target/mcp-inspections/debug/deps/demo.asm",
    ];
    let (state, step) =
        state.step(Event::CompilerFinished(CompilerOutcome::Finished(run("", "", &artifacts))));
    assert!(matches!(step, Step::ReadArtifact { .. }));
    let (state, step) = state.step(Event::ArtifactRead(Ok(
        "_ZN4demo5utils8do_thing17h1E:\n    ret\n".to_string(),
    )));
    assert!(matches!(step, Step::ReadArtifact { .. }));
    let (state, step) = state.step(Event::ArtifactRead(Ok(
        "_ZN4demo5utils8do_thing17h2E:\n    retq\n".to_string(),
    )));
    assert_eq!(state.assemblies.len(), 2);
    assert_eq!(state.assemblies[0].target, "aarch64-unknown-linux-gnu");
    assert_eq!(state.assemblies[1].target, "unknown");
    let answer = done(step).expect("answer");
    // No target was asked for: the search goes under that of the first file.
    assert_eq!(answer.text, "_ZN4demo5utils8do_thing17h1E:\n    ret");
    assert_eq!(answer.view, "asm");
}

#[test]
fn assembly_for_a_target_that_was_not_built_is_not_found() {
    let mut ask = request("asm");
    ask.target = Some("x86_64-unknown-linux-gnu".to_string());
    let state = compiling("asm", ToolchainChannel::Stable, ask);
    let (state, _) = state.step(Event::CompilerFinished(CompilerOutcome::Finished(run(
        "",
        "",
        &["target/mcp-inspections/aarch64-unknown-linux-gnu/debug/deps/demo.s"],
    ))));
    let (_, step) = state.step(Event::ArtifactRead(Ok(
        "_ZN4demo5utils8do_thing17h1E:\n    ret\n".to_string(),
    )));
    let error = done(step).expect_err("not built");
    assert_eq!(error.code, ErrorCode::ResourceNotFound);
    assert_eq!(
        error.message,
        "Unable to locate assembly for symbol: No assembly artifacts available for target x86_64-unknown-linux-gnu"
    );
}

#[test]
fn answer_is_cut_down_to_the_limits() {
    let tight = context(ToolchainChannel::Nightly, GatingMode::Strict).with_limits(
        InspectionLimits { timeout_seconds: 60, max_output_bytes: 1000, max_output_lines: 2 },
    );
    let (state, _) = Inspection::begin(tight, request("mir"));
    let (state, _) = state.step(Event::LockAcquired);
    let (state, _) = state.step(Event::DefinitionResolved(found(12)));
    let stdout = "fn demo::utils::do_thing() -> () {\n    bb0: {\n        return;\n    }\n}\n";
    let (_, step) = state.step(Event::CompilerFinished(CompilerOutcome::Finished(run(
        stdout,
        "w1\nw2\nw3\n",
        &[],
    ))));
    let answer = done(step).expect("answer");
    assert!(answer.truncated);
    assert_eq!(
        answer.text,
        "fn demo::utils::do_thing() -> () {\n    bb0: {\n[truncated after 2 lines/46 bytes; original 5/69; limits 2/1000]"
    );
    assert_eq!(
        answer.diagnostics,
        vec![
            "Compiler stderr (truncated):\nw1\nw2\n[truncated after 2 lines/6 bytes; original 3/9; limits 2/1000]",
            "Output truncated to 2 lines/46 bytes from 5 lines/69 bytes",
        ]
    );
    let summary = answer.provenance.truncation.expect("summary");
    assert_eq!(summary.kept_lines, 2);
    assert_eq!(summary.original_lines, 5);
}

#[test]
fn events_out_of_turn_end_the_inspection() {
    let (state, _) =
        Inspection::begin(context(ToolchainChannel::Stable, GatingMode::Strict), request("def"));
    let (state, step) = state.step(Event::DefinitionResolved(found(12)));
    assert_eq!(state.stage, Stage::Finished);
    let error = done(step).expect_err("out of turn");
    assert_eq!(error.code, ErrorCode::InternalError);
    assert_eq!(error.message, "Event does not belong to the stage of the inspection");
    // Nothing follows the end.
    let (state, step) = state.step(Event::LockAcquired);
    assert_eq!(state.stage, Stage::Finished);
    assert_eq!(done(step).expect_err("over").code, ErrorCode::InternalError);
    // A state that the machine cannot be in is not worked on.
    let (mut state, _) =
        Inspection::begin(context(ToolchainChannel::Stable, GatingMode::Strict), request("asm"));
    state.stage = Stage::Reading;
    assert!(!state.is_coherent());
    let (_, step) = state.step(Event::ArtifactRead(Ok(String::new())));
    assert_eq!(done(step).expect_err("incoherent").code, ErrorCode::InternalError);
}

#[test]
fn compiler_runs_only_after_the_lock() {
    for view in ["mir", "llvm-ir", "asm"] {
        let (state, step) = Inspection::begin(
            context(ToolchainChannel::Nightly, GatingMode::Strict),
            request(view),
        );
        assert!(matches!(step, Step::AcquireLock));
        assert!(!state.provenance.workspace_locked);
        let (state, step) = state.step(Event::LockAcquired);
        assert!(matches!(step, Step::ResolveDefinition { .. }));
        assert!(state.provenance.workspace_locked);
        let (state, step) = state.step(Event::DefinitionResolved(found(12)));
        assert!(matches!(step, Step::RunCompiler { .. }));
        assert!(state.provenance.workspace_locked);
    }
}

#[test]
fn pieces_of_the_handler_work_alone() {
    let limits = InspectionLimits::default();
    assert_eq!(stderr_diagnostic("", &limits), None);
    assert_eq!(stderr_diagnostic(" \n\t", &limits), None);
    assert_eq!(stderr_diagnostic("warn", &limits), Some("Compiler stderr:\nwarn".to_string()));
    let ok = check_compiler_run(CompilerOutcome::Finished(run("o", "e", &["a"]))).expect("ok");
    assert_eq!((ok.stdout.as_str(), ok.stderr.as_str()), ("o", "e"));
    let lookup = found(12);
    let resolved =
        resolve_definition(&lookup, "/f.rs", 1, 2, &Some("x".to_string())).expect("resolved");
    let identity = resolved.symbol.expect("identity");
    assert_eq!(identity.crate_name, "demo");
    assert_eq!(identity.modules, vec!["utils"]);
    assert_eq!(identity.item_name, "x");
    let resolved = resolve_types(&lookup, &Ok("T".to_string()), "/f.rs", 1, 2, &None).expect("types");
    assert_eq!(resolved.text, "Types: file:///work/demo/src/utils.rs:7:12 (utils::do_thing)\nT");
    let symbol = resolve_normalized_symbol(&lookup, "/f.rs", 1, 2, &Some("x".to_string()), &None)
        .expect("symbol");
    assert_eq!(symbol.def_name, "demo::utils::x");
    assert_eq!(symbol.item_name, "x");
    assert_eq!(symbol.mangled_prefix(), "_ZN4demo5utils1x");
    assert!(symbol.target.is_none());
    let record = context(ToolchainChannel::Stable, GatingMode::Strict).provenance();
    let answer = finish("def", None, "short", vec!["d".to_string()], record, &limits);
    assert_eq!(answer.text, "short");
    assert_eq!(answer.diagnostics, vec!["d"]);
    assert!(!answer.truncated);
}
