use rust_mcp_server::context::{
    default_gating_mode_from_env, detect_rust_analyzer_version, detect_toolchain_channel,
    detect_toolchain_details, rust_analyzer_path, InspectionContext, ToolchainDetails,
};
use rust_mcp_server::inspection::{GatingMode, InspectionLimits, ToolchainChannel};
use rust_mcp_server::truncate::TruncationSummary;

const STABLE: &str = "rustc 1.80.0 (051478957 2024-07-21)\nbinary: rustc\ncommit-hash: 0514789\nhost: x86_64-unknown-linux-gnu\nrelease: 1.80.0\nLLVM version: 18.1.7\n";

const NIGHTLY: &str = "rustc 1.82.0-nightly (abc 2024-08-01)\nbinary: rustc\nhost: x86_64-unknown-linux-gnu\nrelease: 1.82.0-nightly\nLLVM version: 19.1.0\n";

const DEV: &str = "rustc 1.82.0-dev\nbinary: rustc\r\nrelease: 1.82.0-dev\r\n";

#[test]
fn channel_is_read_off_the_release_line() {
    assert_eq!(detect_toolchain_channel(Some(STABLE)), ToolchainChannel::Stable);
    assert_eq!(detect_toolchain_channel(Some(NIGHTLY)), ToolchainChannel::Nightly);
    assert_eq!(detect_toolchain_channel(Some(DEV)), ToolchainChannel::Dev);
    assert_eq!(detect_toolchain_channel(None), ToolchainChannel::Stable);
    assert_eq!(detect_toolchain_channel(Some("")), ToolchainChannel::Stable);
}

#[test]
fn only_release_lines_decide_the_channel() {
    // The first line names nightly, but is no release line.
    assert_eq!(
        detect_toolchain_channel(Some("rustc 1.82.0-nightly\nrelease: 1.82.0\n")),
        ToolchainChannel::Stable
    );
    // The prefix must stand at the start of the line.
    assert_eq!(
        detect_toolchain_channel(Some(" release: 1.82.0-nightly\n")),
        ToolchainChannel::Stable
    );
    // Nightly goes before dev on one line.
    assert_eq!(
        detect_toolchain_channel(Some("release: dev-nightly\n")),
        ToolchainChannel::Nightly
    );
    // A release line that decides nothing is passed over.
    assert_eq!(
        detect_toolchain_channel(Some("release: 1.0\nrelease: 2.0-dev\nrelease: nightly\n")),
        ToolchainChannel::Dev
    );
    assert_eq!(detect_toolchain_channel(Some("release:nightly")), ToolchainChannel::Nightly);
}

#[test]
fn details_keep_the_verbose_version() {
    let details = detect_toolchain_details(Some(NIGHTLY.to_string()));
    assert_eq!(details.channel, ToolchainChannel::Nightly);
    assert_eq!(details.rustc_verbose_version.as_deref(), Some(NIGHTLY));
    let details = detect_toolchain_details(None);
    assert_eq!(details.channel, ToolchainChannel::Stable);
    assert!(details.rustc_verbose_version.is_none());
}

#[test]
fn analyzer_version_is_trimmed_and_not_empty() {
    assert_eq!(
        detect_rust_analyzer_version(Some("rust-analyzer 1.80.0 (0514789 2024-07-21)\n")),
        Some("rust-analyzer 1.80.0 (0514789 2024-07-21)".to_string())
    );
    assert_eq!(detect_rust_analyzer_version(Some("  \n")), None);
    assert_eq!(detect_rust_analyzer_version(Some("")), None);
    assert_eq!(detect_rust_analyzer_version(None), None);
}

#[test]
fn analyzer_is_found_where_configured_or_under_home() {
    assert_eq!(rust_analyzer_path(Some("/opt/ra"), Some("/home/dev")), "/opt/ra");
    assert_eq!(rust_analyzer_path(Some("/opt/ra"), None), "/opt/ra");
    assert_eq!(rust_analyzer_path(None, Some("/home/dev")), "/home/dev/.cargo/bin/rust-analyzer");
    assert_eq!(rust_analyzer_path(None, None), "./.cargo/bin/rust-analyzer");
}

#[test]
fn gating_mode_defaults_to_strict() {
    assert_eq!(default_gating_mode_from_env(None), GatingMode::Strict);
    assert_eq!(default_gating_mode_from_env(Some("lenient")), GatingMode::Lenient);
    assert_eq!(default_gating_mode_from_env(Some("LENIENT")), GatingMode::Lenient);
    assert_eq!(default_gating_mode_from_env(Some("strict")), GatingMode::Strict);
    assert_eq!(default_gating_mode_from_env(Some("whatever")), GatingMode::Strict);
    assert_eq!(default_gating_mode_from_env(Some("")), GatingMode::Strict);
}

#[test]
fn context_begins_with_defaults() {
    let context = InspectionContext::new(
        "/work/demo",
        ToolchainDetails {
            channel: ToolchainChannel::Nightly,
            rustc_verbose_version: Some(NIGHTLY.to_string()),
        },
        None,
        GatingMode::Lenient,
    );
    assert_eq!(*context.limits(), InspectionLimits::default());
    assert_eq!(context.gating_mode(), GatingMode::Lenient);
    assert_eq!(context.toolchain_channel(), ToolchainChannel::Nightly);
    assert_eq!(context.workspace_root(), "/work/demo");
    assert_eq!(context.target_dir(), "target/mcp-inspections");
    assert_eq!(context.env().len(), 1);
    assert_eq!(
        context.env().get("CARGO_TARGET_DIR").map(|s| s.as_str()),
        Some("target/mcp-inspections")
    );
    let strict = context.duplicate().with_gating_mode(GatingMode::Strict);
    assert_eq!(strict.gating_mode(), GatingMode::Strict);
    assert_eq!(context.gating_mode(), GatingMode::Lenient);
    let tight = context.duplicate().with_limits(InspectionLimits {
        timeout_seconds: 1,
        max_output_bytes: 10,
        max_output_lines: 2,
    });
    assert_eq!(tight.limits().timeout(), 1);
}

#[test]
fn provenance_begins_unlocked_and_can_be_filled() {
    let context = InspectionContext::new(
        "/work/demo",
        ToolchainDetails { channel: ToolchainChannel::Stable, rustc_verbose_version: None },
        Some("rust-analyzer 1.0".to_string()),
        GatingMode::Strict,
    );
    let record = context.provenance();
    assert_eq!(record.workspace_root, "/work/demo");
    assert_eq!(record.target_dir, "target/mcp-inspections");
    assert_eq!(record.gating_mode, GatingMode::Strict);
    assert_eq!(record.toolchain_channel, ToolchainChannel::Stable);
    assert!(!record.workspace_locked);
    assert!(record.rustc_verbose_version.is_none());
    assert_eq!(record.rust_analyzer_version.as_deref(), Some("rust-analyzer 1.0"));
    assert!(record.command.is_none());
    assert!(record.truncation.is_none());
    assert_eq!(record.env.len(), 1);
    let summary = TruncationSummary {
        original_bytes: 9,
        original_lines: 3,
        kept_bytes: 6,
        kept_lines: 2,
        max_bytes: 8,
        max_lines: 5,
    };
    let record = record.with_command("cargo rustc --offline --").with_truncation(Some(summary));
    assert_eq!(record.command.as_deref(), Some("cargo rustc --offline --"));
    assert!(!record.workspace_locked);
    assert_eq!(record.truncation, Some(summary));
    assert_eq!(record.workspace_root, "/work/demo");
}
