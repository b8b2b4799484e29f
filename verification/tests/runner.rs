use rust_mcp_server::env::EnvMap;
use rust_mcp_server::runner::{
    diff_paths, join_path, CompilerRunner, ProcessOutcome, RunRequest, RunResult, RunnerError,
};
use std::path::Path;

fn strings(items: &[&str]) -> Vec<String> {
    items.iter().map(|s| s.to_string()).collect()
}

#[test]
fn runner_builds_into_its_own_directory() {
    assert_eq!(CompilerRunner::new().target_dir, "target/mcp-inspections");
    assert_eq!(CompilerRunner::default().target_dir, "target/mcp-inspections");
    assert_eq!(CompilerRunner::with_target_dir("/tmp/out").target_dir, "/tmp/out");
}

#[test]
fn bare_request_still_has_the_separator() {
    let runner = CompilerRunner::new();
    let command = runner.command_line(&RunRequest::default());
    assert_eq!(command, strings(&["cargo", "rustc", "--offline", "--"]));
}

#[test]
fn full_request_orders_its_flags() {
    let runner = CompilerRunner::new();
    let request = RunRequest {
        manifest_path: Some("demo/Cargo.toml".to_string()),
        package: Some("demo".to_string()),
        target_triple: Some("x86_64-unknown-linux-gnu".to_string()),
        opt_level: Some("3".to_string()),
        emit: Some("llvm-ir".to_string()),
        unpretty: Some("mir".to_string()),
        additional_rustc_args: strings(&["-Cdebuginfo=0", "--cfg", "demo"]),
        env: EnvMap::new(),
    };
    assert_eq!(
        runner.command_line(&request),
        strings(&[
            "cargo",
            "rustc",
            "--offline",
            "--manifest-path",
            "demo/Cargo.toml",
            "--package",
            "demo",
            "--target",
            "x86_64-unknown-linux-gnu",
            "--",
            "-Copt-level=3",
            "--emit=llvm-ir",
            "-Zunpretty=mir",
            "-Cdebuginfo=0",
            "--cfg",
            "demo",
        ])
    );
}

#[test]
fn flags_after_the_separator_come_without_those_before() {
    let runner = CompilerRunner::new();
    let mut request = RunRequest::default();
    request.emit = Some("asm".to_string());
    assert_eq!(
        runner.command_line(&request),
        strings(&["cargo", "rustc", "--offline", "--", "--emit=asm"])
    );
    let mut request = RunRequest::default();
    request.target_triple = Some("wasm32-unknown-unknown".to_string());
    assert_eq!(
        runner.command_line(&request),
        strings(&["cargo", "rustc", "--offline", "--target", "wasm32-unknown-unknown", "--"])
    );
}

#[test]
fn child_environment_points_at_the_runner_directory() {
    let runner = CompilerRunner::with_target_dir("/tmp/isolated");
    let mut request = RunRequest::default();
    request.env.insert("RUSTFLAGS", "-Awarnings");
    request.env.insert("CARGO_TARGET_DIR", "/somewhere/else");
    let env = runner.child_env(&request);
    assert_eq!(env.get("CARGO_TARGET_DIR").map(|s| s.as_str()), Some("/tmp/isolated"));
    assert_eq!(env.get("RUSTFLAGS").map(|s| s.as_str()), Some("-Awarnings"));
    assert_eq!(env.len(), 2);
    assert_eq!(request.env.get("CARGO_TARGET_DIR").map(|s| s.as_str()), Some("/somewhere/else"));
}

#[test]
fn env_map_keeps_one_value_for_each_name() {
    let mut env = EnvMap::new();
    assert_eq!(env.len(), 0);
    assert!(env.get("A").is_none());
    env.insert("A", "1");
    env.insert("B", "2");
    env.insert("A", "3");
    assert_eq!(env.len(), 2);
    assert_eq!(env.get("A").map(|s| s.as_str()), Some("3"));
    assert_eq!(env.get("B").map(|s| s.as_str()), Some("2"));
    assert!(env.get("a").is_none());
    let (name, value) = env.entry(0);
    assert_eq!((name.as_str(), value.as_str()), ("A", "3"));
    let copy = env.duplicate();
    env.insert("B", "changed");
    assert_eq!(copy.get("B").map(|s| s.as_str()), Some("2"));
}

#[test]
fn join_path_is_std_join() {
    let cases = [
        ("target/mcp-inspections", "debug/deps/demo.ll"),
        ("target/mcp-inspections/", "debug/deps/demo.ll"),
        ("", "demo.s"),
        ("/abs", "x"),
        ("rel", "/absolute/path"),
        ("/", "x"),
        ("a", ""),
    ];
    for (root, path) in cases {
        let expected = Path::new(root).join(path);
        assert_eq!(join_path(root, path), expected.to_str().expect("utf-8"), "{:?} {:?}", root, path);
    }
}

#[test]
fn diff_keeps_what_is_new_under_the_root() {
    let before = strings(&["debug/a.ll", "debug/b.s"]);
    let after = strings(&["debug/c.ll", "debug/a.ll", "x86/debug/d.s", "debug/b.s"]);
    let added = diff_paths(&before, &after, "/work/target/mcp-inspections");
    assert_eq!(
        added,
        strings(&[
            "/work/target/mcp-inspections/debug/c.ll",
            "/work/target/mcp-inspections/x86/debug/d.s",
        ])
    );
    for path in &added {
        assert!(Path::new(path).is_absolute());
        assert!(path.starts_with("/work/target/mcp-inspections/"));
        let relative = &path["/work/target/mcp-inspections/".len()..];
        assert!(after.iter().any(|p| p == relative));
        assert!(!before.iter().any(|p| p == relative));
    }
}

#[test]
fn diff_of_a_first_run_is_everything() {
    let after = strings(&["a", "b"]);
    assert_eq!(diff_paths(&Vec::new(), &after, "/root"), strings(&["/root/a", "/root/b"]));
    assert!(diff_paths(&after, &after, "/root").is_empty());
    assert!(diff_paths(&after, &Vec::new(), "/root").is_empty());
}

#[test]
fn a_run_that_timed_out_gives_the_timeout_and_nothing_else() {
    let runner = CompilerRunner::new();
    let result = runner.conclude(
        &RunRequest::default(),
        1,
        ProcessOutcome::TimedOut,
        "/work/demo",
        &Vec::new(),
        &strings(&["debug/half-written.ll"]),
    );
    let error = result.expect_err("a timeout is no result");
    assert_eq!(error, RunnerError::Timeout(1));
    assert_eq!(error.to_string(), "compiler run exceeded the 1s timeout");
    assert_eq!(RunnerError::Timeout(60).to_string(), "compiler run exceeded the 60s timeout");
}

#[test]
fn a_run_that_ended_gives_status_output_and_new_files() {
    let runner = CompilerRunner::with_target_dir("out");
    let mut request = RunRequest::default();
    request.emit = Some("llvm-ir".to_string());
    let result = runner
        .conclude(
            &request,
            60,
            ProcessOutcome::Exited {
                status: Some(101),
                success: false,
                stdout: "printed".to_string(),
                stderr: "error[E0425]".to_string(),
            },
            "/work/demo",
            &strings(&["old.ll"]),
            &strings(&["old.ll", "new.ll"]),
        )
        .expect("a run that ended has a result");
    assert_eq!(result.status, Some(101));
    assert!(!result.success);
    assert_eq!(result.stdout, "printed");
    assert_eq!(result.stderr, "error[E0425]");
    assert_eq!(result.artifacts, strings(&["/work/demo/out/new.ll"]));
    assert_eq!(result.command, strings(&["cargo", "rustc", "--offline", "--", "--emit=llvm-ir"]));
}

fn ended(runner: &CompilerRunner, working_dir: &str, before: &[&str], after: &[&str]) -> RunResult {
    runner
        .conclude(
            &RunRequest::default(),
            60,
            ProcessOutcome::Exited {
                status: Some(0),
                success: true,
                stdout: String::new(),
                stderr: String::new(),
            },
            working_dir,
            &strings(before),
            &strings(after),
        )
        .expect("a run that ended has a result")
}

#[test]
fn artifacts_are_absolute_whatever_the_target_directory() {
    let after = ["debug/deps/demo.ll", "x86_64-unknown-linux-gnu/debug/deps/demo.s"];
    let run = ended(&CompilerRunner::new(), "/work/demo", &[], &after);
    assert_eq!(
        run.artifacts,
        strings(&[
            "/work/demo/target/mcp-inspections/debug/deps/demo.ll",
            "/work/demo/target/mcp-inspections/x86_64-unknown-linux-gnu/debug/deps/demo.s",
        ])
    );
    let run = ended(&CompilerRunner::with_target_dir("/tmp/out"), "/work/demo", &[], &after);
    assert_eq!(
        run.artifacts,
        strings(&[
            "/tmp/out/debug/deps/demo.ll",
            "/tmp/out/x86_64-unknown-linux-gnu/debug/deps/demo.s",
        ])
    );
    let run = ended(&CompilerRunner::with_target_dir("out/"), "/work/demo/", &[], &after);
    assert_eq!(
        run.artifacts,
        strings(&[
            "/work/demo/out/debug/deps/demo.ll",
            "/work/demo/out/x86_64-unknown-linux-gnu/debug/deps/demo.s",
        ])
    );
    for (working_dir, target_dir) in [
        ("/", "target/mcp-inspections"),
        ("/work", ""),
        ("work", "out"),
        ("", "out"),
        ("", ""),
        ("/a/b", "/c"),
    ] {
        let runner = CompilerRunner::with_target_dir(target_dir);
        assert!(Path::new(&runner.absolute_target_dir(working_dir)).is_absolute());
        let run = ended(&runner, working_dir, &["old"], &["old", "new", "/elsewhere/x"]);
        assert_eq!(run.artifacts.len(), 2);
        for path in &run.artifacts {
            assert!(Path::new(path).is_absolute(), "{:?} {:?} {:?}", working_dir, target_dir, path);
        }
    }
    assert_eq!(
        CompilerRunner::new().absolute_target_dir("/work/demo"),
        "/work/demo/target/mcp-inspections"
    );
    assert_eq!(
        CompilerRunner::new().absolute_target_dir("/work/demo"),
        Path::new("/work/demo").join("target/mcp-inspections").to_str().expect("utf-8")
    );
}

#[test]
fn no_artifact_is_given_twice() {
    let after = ["a.ll", "b.ll", "a.ll", "c.ll", "b.ll", "a.ll"];
    let run = ended(&CompilerRunner::new(), "/w", &["c.ll"], &after);
    assert_eq!(
        run.artifacts,
        strings(&["/w/target/mcp-inspections/a.ll", "/w/target/mcp-inspections/b.ll"])
    );
    let added = diff_paths(&Vec::new(), &strings(&["x", "/r/x", "x", "y"]), "/r");
    assert_eq!(added, strings(&["/r/x", "/r/y"]));
}
