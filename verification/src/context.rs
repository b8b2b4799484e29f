//! What an inspection knows of its surroundings, and the record of how a
//! result was produced.

use crate::env::EnvMap;
use crate::inspection::{gating_mode_named, GatingMode, InspectionLimits, ToolchainChannel};
use crate::lines::{lines, rows, split_lines, strs};
use crate::normalized::opt_text;
use crate::text::{
    contains, contains_chars, copy_range, from_chars, starts_with, str_matches_at, to_chars, trim,
    trim_chars,
};
use crate::truncate::TruncationSummary;
use vstd::prelude::*;
use vstd::string::StringExecFns;

verus! {

/// The directory that inspections build into, relative to the workspace.
pub open spec fn default_target_dir() -> Seq<char> {
    "target/mcp-inspections"@
}

/// A copy of an optional string.
pub fn clone_opt(o: &Option<String>) -> (copy: Option<String>)
    ensures
        opt_text(copy) == opt_text(*o),
{
    match o {
        Some(s) => Some(s.clone()),
        None => None,
    }
}

/// A copy of a vector of strings.
pub fn clone_strings(v: &Vec<String>) -> (copy: Vec<String>)
    ensures
        strs(copy@) == strs(v@),
{
    let mut copy: Vec<String> = Vec::new();
    let mut i: usize = 0;
    while i < v.len()
        invariant
            i <= v.len(),
            strs(copy@) == strs(v@).take(i as int),
        decreases v.len() - i,
    {
        let ghost before = strs(copy@);
        copy.push(v[i].clone());
        assert(strs(copy@) == before.push(v@[i as int]@));
        assert(strs(v@).take(i + 1) == strs(v@).take(i as int).push(v@[i as int]@));
        i += 1;
    }
    assert(strs(v@).take(v.len() as int) == strs(v@));
    copy
}

/// How a result was produced: where, with which toolchain and settings,
/// by which command, and whether it was cut.
#[derive(Debug)]
pub struct InspectionProvenance {
    pub workspace_root: String,
    pub target_dir: String,
    pub env: EnvMap,
    pub gating_mode: GatingMode,
    pub toolchain_channel: ToolchainChannel,
    pub workspace_locked: bool,
    pub rustc_verbose_version: Option<String>,
    pub rust_analyzer_version: Option<String>,
    pub command: Option<String>,
    pub truncation: Option<TruncationSummary>,
}

/// What an [`InspectionProvenance`] holds, as plain values.
pub struct ProvenanceModel {
    pub workspace_root: Seq<char>,
    pub target_dir: Seq<char>,
    pub env: Map<Seq<char>, Seq<char>>,
    pub gating_mode: GatingMode,
    pub toolchain_channel: ToolchainChannel,
    pub workspace_locked: bool,
    pub rustc_verbose_version: Option<Seq<char>>,
    pub rust_analyzer_version: Option<Seq<char>>,
    pub command: Option<Seq<char>>,
    pub truncation: Option<TruncationSummary>,
}

impl View for InspectionProvenance {
    type V = ProvenanceModel;

    open spec fn view(&self) -> ProvenanceModel {
        ProvenanceModel {
            workspace_root: self.workspace_root@,
            target_dir: self.target_dir@,
            env: self.env.map(),
            gating_mode: self.gating_mode,
            toolchain_channel: self.toolchain_channel,
            workspace_locked: self.workspace_locked,
            rustc_verbose_version: opt_text(self.rustc_verbose_version),
            rust_analyzer_version: opt_text(self.rust_analyzer_version),
            command: opt_text(self.command),
            truncation: self.truncation,
        }
    }
}

impl InspectionProvenance {
    /// The record with `command` as the command that was run.
    pub fn with_command(self, command: &str) -> (record: Self)
        ensures
            record@ == (ProvenanceModel { command: Some(command@), ..self@ }),
    {
        let mut record = self;
        record.command = Some(String::from_str(command));
        record
    }

    /// The record with `truncation` as the account of what was cut.
    pub fn with_truncation(self, truncation: Option<TruncationSummary>) -> (record: Self)
        ensures
            record@ == (ProvenanceModel { truncation, ..self@ }),
    {
        let mut record = self;
        record.truncation = truncation;
        record
    }
}

/// The answer to an inspection.
#[derive(Debug)]
pub struct InspectionResult {
    pub view: String,
    pub symbol: Option<String>,
    pub text: String,
    pub truncated: bool,
    pub diagnostics: Vec<String>,
    pub provenance: InspectionProvenance,
}

/// What an [`InspectionResult`] holds, as plain values.
pub struct ResultModel {
    pub view: Seq<char>,
    pub symbol: Option<Seq<char>>,
    pub text: Seq<char>,
    pub truncated: bool,
    pub diagnostics: Seq<Seq<char>>,
    pub provenance: ProvenanceModel,
}

impl View for InspectionResult {
    type V = ResultModel;

    open spec fn view(&self) -> ResultModel {
        ResultModel {
            view: self.view@,
            symbol: opt_text(self.symbol),
            text: self.text@,
            truncated: self.truncated,
            diagnostics: strs(self.diagnostics@),
            provenance: self.provenance@,
        }
    }
}

/// What can be inspected here, and within which limits.
#[derive(Debug)]
pub struct InspectionCapabilities {
    pub toolchain_channel: ToolchainChannel,
    pub gating_mode: GatingMode,
    pub views: Vec<String>,
    pub limits: InspectionLimits,
    pub diagnostics: Vec<String>,
    pub provenance: InspectionProvenance,
}

/// What an [`InspectionCapabilities`] holds, as plain values.
pub struct CapabilitiesModel {
    pub toolchain_channel: ToolchainChannel,
    pub gating_mode: GatingMode,
    pub views: Seq<Seq<char>>,
    pub limits: InspectionLimits,
    pub diagnostics: Seq<Seq<char>>,
    pub provenance: ProvenanceModel,
}

impl View for InspectionCapabilities {
    type V = CapabilitiesModel;

    open spec fn view(&self) -> CapabilitiesModel {
        CapabilitiesModel {
            toolchain_channel: self.toolchain_channel,
            gating_mode: self.gating_mode,
            views: strs(self.views@),
            limits: self.limits,
            diagnostics: strs(self.diagnostics@),
            provenance: self.provenance@,
        }
    }
}

/// The channel that the lines from `i` on tell of: the first line that
/// begins with `release:` and then names `nightly` or `dev` decides, and
/// `nightly` goes before `dev`. Where no line decides, the channel is stable.
pub open spec fn channel_from(all: Seq<Seq<char>>, i: int) -> ToolchainChannel
    decreases all.len() - i,
{
    if i < 0 || i >= all.len() {
        ToolchainChannel::Stable
    } else if starts_with(all[i], "release:"@) && contains(all[i].skip(8), "nightly"@) {
        ToolchainChannel::Nightly
    } else if starts_with(all[i], "release:"@) && contains(all[i].skip(8), "dev"@) {
        ToolchainChannel::Dev
    } else {
        channel_from(all, i + 1)
    }
}

/// The channel of the compiler whose verbose version is `text`.
pub open spec fn channel_of(text: Option<Seq<char>>) -> ToolchainChannel {
    match text {
        Some(t) => channel_from(lines(t), 0),
        None => ToolchainChannel::Stable,
    }
}

/// The channel of the compiler and its verbose version.
#[derive(Debug, Clone)]
pub struct ToolchainDetails {
    pub channel: ToolchainChannel,
    pub rustc_verbose_version: Option<String>,
}

/// The channel of the compiler, read off its verbose version. Where the
/// compiler could not be asked, `verbose_version` is `None` and the
/// channel is stable.
pub fn detect_toolchain_channel(verbose_version: Option<&str>) -> (channel: ToolchainChannel)
    ensures
        channel == channel_of(
            match verbose_version {
                Some(t) => Some(t@),
                None => None,
            },
        ),
{
    let text = match verbose_version {
        Some(text) => text,
        None => { return ToolchainChannel::Stable; },
    };
    let chars = to_chars(text);
    let all = split_lines(chars.as_slice());
    let ghost model = rows(all@);
    let nightly = to_chars("nightly");
    let dev = to_chars("dev");
    proof {
        reveal_strlit("release:");
    }
    let mut i: usize = 0;
    while i < all.len()
        invariant
            i <= all.len(),
            model == rows(all@),
            model == lines(text@),
            verbose_version == Some(text),
            nightly@ == "nightly"@,
            dev@ == "dev"@,
            "release:"@.len() == 8,
            channel_from(model, 0) == channel_from(model, i as int),
        decreases all.len() - i,
    {
        let line = &all[i];
        assert(model[i as int] == line@);
        if str_matches_at(line.as_slice(), "release:", 0) {
            let release = copy_range(line.as_slice(), 8, line.len());
            assert(release@ == line@.skip(8));
            if contains_chars(release.as_slice(), nightly.as_slice()) {
                return ToolchainChannel::Nightly;
            }
            if contains_chars(release.as_slice(), dev.as_slice()) {
                return ToolchainChannel::Dev;
            }
        }
        i += 1;
    }
    ToolchainChannel::Stable
}

/// The channel of the compiler and its verbose version, from what the
/// compiler printed when asked for it; `None` where it could not be asked.
pub fn detect_toolchain_details(verbose_version: Option<String>) -> (details: ToolchainDetails)
    ensures
        details.channel == channel_of(opt_text(verbose_version)),
        opt_text(details.rustc_verbose_version) == opt_text(verbose_version),
{
    let channel = match &verbose_version {
        Some(text) => detect_toolchain_channel(Some(text.as_str())),
        None => detect_toolchain_channel(None),
    };
    ToolchainDetails { channel, rustc_verbose_version: verbose_version }
}

/// The version of the language server: what it printed when asked,
/// trimmed; none where it could not be asked or printed nothing.
pub open spec fn analyzer_version_of(output: Option<Seq<char>>) -> Option<Seq<char>> {
    match output {
        Some(text) => if trim(text).len() > 0 {
            Some(trim(text))
        } else {
            None
        },
        None => None,
    }
}

/// The version of the language server, from what it printed when asked for
/// it; `None` where it could not be asked.
pub fn detect_rust_analyzer_version(output: Option<&str>) -> (version: Option<String>)
    ensures
        opt_text(version) == analyzer_version_of(
            match output {
                Some(t) => Some(t@),
                None => None,
            },
        ),
{
    match output {
        Some(text) => {
            let chars = to_chars(text);
            let trimmed = trim_chars(chars.as_slice());
            if trimmed.len() > 0 {
                Some(from_chars(trimmed.as_slice()))
            } else {
                None
            }
        },
        None => None,
    }
}

/// Where the language server is found: at `configured` where that is
/// given, else under `home`, or under `.` where no home is known.
pub open spec fn analyzer_path_of(configured: Option<Seq<char>>, home: Option<Seq<char>>) -> Seq<
    char,
> {
    match configured {
        Some(path) => path,
        None => (match home {
            Some(dir) => dir,
            None => "."@,
        }) + "/.cargo/bin/rust-analyzer"@,
    }
}

/// Where the language server is found. `configured` is the value of
/// `RUST_ANALYZER_PATH`, `home` that of `HOME`, each where it is set.
pub fn rust_analyzer_path(configured: Option<&str>, home: Option<&str>) -> (path: String)
    ensures
        path@ == analyzer_path_of(
            match configured {
                Some(t) => Some(t@),
                None => None,
            },
            match home {
                Some(t) => Some(t@),
                None => None,
            },
        ),
{
    match configured {
        Some(path) => String::from_str(path),
        None => {
            let mut path = match home {
                Some(dir) => String::from_str(dir),
                None => String::from_str("."),
            };
            path.append("/.cargo/bin/rust-analyzer");
            path
        },
    }
}

/// The gating mode that `value` asks for: the mode it names, and strict
/// where it names none or is not given.
pub open spec fn default_gating_mode(value: Option<Seq<char>>) -> GatingMode {
    match value {
        Some(text) => match gating_mode_named(text) {
            Some(mode) => mode,
            None => GatingMode::Strict,
        },
        None => GatingMode::Strict,
    }
}

/// The gating mode to begin with. `value` is the value of
/// `MCP_GATING_MODE`, where it is set.
pub fn default_gating_mode_from_env(value: Option<&str>) -> (mode: GatingMode)
    ensures
        mode == default_gating_mode(
            match value {
                Some(t) => Some(t@),
                None => None,
            },
        ),
{
    match value {
        Some(text) => match GatingMode::parse(text) {
            Some(mode) => mode,
            None => GatingMode::Strict,
        },
        None => GatingMode::Strict,
    }
}

/// What an inspection knows of its surroundings.
#[derive(Debug)]
pub struct InspectionContext {
    limits: InspectionLimits,
    gating_mode: GatingMode,
    toolchain_channel: ToolchainChannel,
    workspace_root: String,
    rustc_verbose_version: Option<String>,
    rust_analyzer_version: Option<String>,
    env: EnvMap,
}

/// What an [`InspectionContext`] holds, as plain values.
pub struct ContextModel {
    pub limits: InspectionLimits,
    pub gating_mode: GatingMode,
    pub toolchain_channel: ToolchainChannel,
    pub workspace_root: Seq<char>,
    pub rustc_verbose_version: Option<Seq<char>>,
    pub rust_analyzer_version: Option<Seq<char>>,
    pub env: Map<Seq<char>, Seq<char>>,
}

/// The directory that a context with the environment `env` builds into:
/// the value of `CARGO_TARGET_DIR`, or `target/mcp-inspections`.
pub open spec fn target_dir_of(env: Map<Seq<char>, Seq<char>>) -> Seq<char> {
    if env.dom().contains("CARGO_TARGET_DIR"@) {
        env["CARGO_TARGET_DIR"@]
    } else {
        default_target_dir()
    }
}

/// The record that a context begins an inspection with: nothing locked, no
/// command, nothing cut.
pub open spec fn provenance_of(context: ContextModel) -> ProvenanceModel {
    ProvenanceModel {
        workspace_root: context.workspace_root,
        target_dir: target_dir_of(context.env),
        env: context.env,
        gating_mode: context.gating_mode,
        toolchain_channel: context.toolchain_channel,
        workspace_locked: false,
        rustc_verbose_version: context.rustc_verbose_version,
        rust_analyzer_version: context.rust_analyzer_version,
        command: None,
        truncation: None,
    }
}

impl View for InspectionContext {
    type V = ContextModel;

    closed spec fn view(&self) -> ContextModel {
        ContextModel {
            limits: self.limits,
            gating_mode: self.gating_mode,
            toolchain_channel: self.toolchain_channel,
            workspace_root: self.workspace_root@,
            rustc_verbose_version: opt_text(self.rustc_verbose_version),
            rust_analyzer_version: opt_text(self.rust_analyzer_version),
            env: self.env.map(),
        }
    }
}

impl InspectionContext {
    /// The context of the workspace at `workspace_root`, with the default
    /// limits, and `CARGO_TARGET_DIR` set to `target/mcp-inspections`.
    pub fn new(
        workspace_root: &str,
        toolchain: ToolchainDetails,
        rust_analyzer_version: Option<String>,
        gating_mode: GatingMode,
    ) -> (context: Self)
        ensures
            context@ == (ContextModel {
                limits: InspectionLimits {
                    timeout_seconds: 60,
                    max_output_bytes: 2097152,
                    max_output_lines: 20000,
                },
                gating_mode,
                toolchain_channel: toolchain.channel,
                workspace_root: workspace_root@,
                rustc_verbose_version: opt_text(toolchain.rustc_verbose_version),
                rust_analyzer_version: opt_text(rust_analyzer_version),
                env: Map::<Seq<char>, Seq<char>>::empty().insert(
                    "CARGO_TARGET_DIR"@,
                    default_target_dir(),
                ),
            }),
    {
        let mut env = EnvMap::new();
        env.insert("CARGO_TARGET_DIR", "target/mcp-inspections");
        InspectionContext {
            limits: InspectionLimits::default(),
            gating_mode,
            toolchain_channel: toolchain.channel,
            workspace_root: String::from_str(workspace_root),
            rustc_verbose_version: toolchain.rustc_verbose_version,
            rust_analyzer_version,
            env,
        }
    }

    /// The context with `gating_mode` in place of its own.
    pub fn with_gating_mode(self, gating_mode: GatingMode) -> (context: Self)
        ensures
            context@ == (ContextModel { gating_mode, ..self@ }),
    {
        let mut context = self;
        context.gating_mode = gating_mode;
        context
    }

    /// The context with `limits` in place of its own.
    pub fn with_limits(self, limits: InspectionLimits) -> (context: Self)
        ensures
            context@ == (ContextModel { limits, ..self@ }),
    {
        let mut context = self;
        context.limits = limits;
        context
    }

    /// A copy of the context.
    pub fn duplicate(&self) -> (context: Self)
        ensures
            context@ == self@,
    {
        InspectionContext {
            limits: self.limits,
            gating_mode: self.gating_mode,
            toolchain_channel: self.toolchain_channel,
            workspace_root: self.workspace_root.clone(),
            rustc_verbose_version: clone_opt(&self.rustc_verbose_version),
            rust_analyzer_version: clone_opt(&self.rust_analyzer_version),
            env: self.env.duplicate(),
        }
    }

    /// The limits on an inspection.
    pub fn limits(&self) -> (limits: &InspectionLimits)
        ensures
            *limits == self@.limits,
    {
        &self.limits
    }

    /// The gating mode.
    pub fn gating_mode(&self) -> (mode: GatingMode)
        ensures
            mode == self@.gating_mode,
    {
        self.gating_mode
    }

    /// The channel of the compiler.
    pub fn toolchain_channel(&self) -> (channel: ToolchainChannel)
        ensures
            channel == self@.toolchain_channel,
    {
        self.toolchain_channel
    }

    /// The environment that the compiler is run with.
    pub fn env(&self) -> (env: &EnvMap)
        ensures
            env.map() == self@.env,
    {
        &self.env
    }

    /// The directory that inspections build into.
    pub fn target_dir(&self) -> (dir: String)
        ensures
            dir@ == target_dir_of(self@.env),
    {
        match self.env.get("CARGO_TARGET_DIR") {
            Some(value) => value.clone(),
            None => String::from_str("target/mcp-inspections"),
        }
    }

    /// The root of the workspace.
    pub fn workspace_root(&self) -> (root: &str)
        ensures
            root@ == self@.workspace_root,
    {
        self.workspace_root.as_str()
    }

    /// The record that an inspection begins with.
    pub fn provenance(&self) -> (record: InspectionProvenance)
        ensures
            record@ == provenance_of(self@),
    {
        InspectionProvenance {
            workspace_root: self.workspace_root.clone(),
            target_dir: self.target_dir(),
            env: self.env.duplicate(),
            gating_mode: self.gating_mode,
            toolchain_channel: self.toolchain_channel,
            workspace_locked: false,
            rustc_verbose_version: clone_opt(&self.rustc_verbose_version),
            rust_analyzer_version: clone_opt(&self.rust_analyzer_version),
            command: None,
            truncation: None,
        }
    }
}

} // verus!
