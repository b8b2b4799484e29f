//! Views, gating and limits: which inspections a toolchain can be asked
//! for, and how much output one may return.

use crate::encoding::{chars_eq_ignore_case, eq_ignore_case};
use crate::text::to_chars;
use vstd::prelude::*;

verus! {

/// Whether views that need a nightly toolchain are shown on a stable one.
#[derive(Debug, Clone, Copy, PartialEq, Eq, Structural)]
pub enum GatingMode {
    /// Views that cannot run are hidden.
    Strict,
    /// Views that cannot run are shown, with a diagnostic.
    Lenient,
}

impl Default for GatingMode {
    fn default() -> (mode: Self)
        ensures
            mode == GatingMode::Strict,
    {
        GatingMode::Strict
    }
}

/// The mode that `s` names, without regard to case.
pub open spec fn gating_mode_named(s: Seq<char>) -> Option<GatingMode> {
    if eq_ignore_case(s, "lenient"@) {
        Some(GatingMode::Lenient)
    } else if eq_ignore_case(s, "strict"@) {
        Some(GatingMode::Strict)
    } else {
        None
    }
}

impl GatingMode {
    /// Reads a mode from its name, `strict` or `lenient` in any case.
    pub fn parse(s: &str) -> (mode: Option<GatingMode>)
        ensures
            mode == gating_mode_named(s@),
    {
        let chars = to_chars(s);
        let lenient = to_chars("lenient");
        let strict = to_chars("strict");
        if chars_eq_ignore_case(chars.as_slice(), lenient.as_slice()) {
            Some(GatingMode::Lenient)
        } else if chars_eq_ignore_case(chars.as_slice(), strict.as_slice()) {
            Some(GatingMode::Strict)
        } else {
            None
        }
    }

    /// The mode's name as it is written in messages.
    pub fn label(self) -> (name: &'static str)
        ensures
            name@ == gating_mode_label(self),
    {
        match self {
            GatingMode::Strict => "Strict",
            GatingMode::Lenient => "Lenient",
        }
    }
}

/// The mode's name as it is written in messages.
pub open spec fn gating_mode_label(mode: GatingMode) -> Seq<char> {
    match mode {
        GatingMode::Strict => "Strict"@,
        GatingMode::Lenient => "Lenient"@,
    }
}

impl std::str::FromStr for GatingMode {
    type Err = ();

    /// Reads a mode from its name, `strict` or `lenient` in any case; any
    /// other text is an error.
    fn from_str(s: &str) -> (mode: Result<Self, ()>)
        ensures
            mode == (match gating_mode_named(s@) {
                Some(named) => Ok::<GatingMode, ()>(named),
                None => Err::<GatingMode, ()>(()),
            }),
    {
        match GatingMode::parse(s) {
            Some(mode) => Ok(mode),
            None => Err(()),
        }
    }
}

/// The release channel of the compiler.
#[derive(Debug, Clone, Copy, PartialEq, Eq, Structural)]
pub enum ToolchainChannel {
    Stable,
    Nightly,
    Dev,
}

impl ToolchainChannel {
    /// Whether the channel accepts what only a nightly compiler accepts.
    pub open spec fn nightly_like(self) -> bool {
        self == ToolchainChannel::Nightly || self == ToolchainChannel::Dev
    }

    /// Whether the channel accepts what only a nightly compiler accepts.
    #[verifier::when_used_as_spec(nightly_like)]
    pub fn is_nightly_like(self) -> (b: bool)
        ensures
            b == self.nightly_like(),
    {
        match self {
            ToolchainChannel::Stable => false,
            ToolchainChannel::Nightly => true,
            ToolchainChannel::Dev => true,
        }
    }

    /// The channel's name as it is written in messages.
    pub fn label(self) -> (name: &'static str)
        ensures
            name@ == channel_label(self),
    {
        match self {
            ToolchainChannel::Stable => "Stable",
            ToolchainChannel::Nightly => "Nightly",
            ToolchainChannel::Dev => "Dev",
        }
    }
}

/// The channel's name as it is written in messages.
pub open spec fn channel_label(channel: ToolchainChannel) -> Seq<char> {
    match channel {
        ToolchainChannel::Stable => "Stable"@,
        ToolchainChannel::Nightly => "Nightly"@,
        ToolchainChannel::Dev => "Dev"@,
    }
}

/// Bounds on one inspection: how long the compiler may run and how much
/// text may be returned.
#[derive(Debug, Clone, Copy, PartialEq, Eq, Structural)]
pub struct InspectionLimits {
    pub timeout_seconds: u64,
    pub max_output_bytes: usize,
    pub max_output_lines: usize,
}

pub const DEFAULT_TIMEOUT_SECONDS: u64 = 60;

pub const DEFAULT_MAX_OUTPUT_BYTES: usize = 2097152;

pub const DEFAULT_MAX_OUTPUT_LINES: usize = 20000;

impl Default for InspectionLimits {
    fn default() -> (limits: Self)
        ensures
            limits == (InspectionLimits {
                timeout_seconds: 60,
                max_output_bytes: 2097152,
                max_output_lines: 20000,
            }),
    {
        InspectionLimits {
            timeout_seconds: DEFAULT_TIMEOUT_SECONDS,
            max_output_bytes: DEFAULT_MAX_OUTPUT_BYTES,
            max_output_lines: DEFAULT_MAX_OUTPUT_LINES,
        }
    }
}

impl InspectionLimits {
    /// The time the compiler may run, in seconds.
    pub fn timeout(&self) -> (seconds: u64)
        ensures
            seconds == self.timeout_seconds,
    {
        self.timeout_seconds
    }
}

/// A named inspection: what it shows, whether it needs a nightly compiler,
/// and the compiler flags that produce it.
#[derive(Debug, Clone, Copy)]
pub struct InspectionView {
    pub name: &'static str,
    pub description: &'static str,
    pub requires_nightly: bool,
    pub emit: Option<&'static str>,
    pub unpretty: Option<&'static str>,
}

/// What an [`InspectionView`] holds, as plain values.
pub struct ViewModel {
    pub name: Seq<char>,
    pub description: Seq<char>,
    pub requires_nightly: bool,
    pub emit: Option<Seq<char>>,
    pub unpretty: Option<Seq<char>>,
}

/// The text of an optional string.
pub open spec fn opt_str(o: Option<&'static str>) -> Option<Seq<char>> {
    match o {
        Some(s) => Some(s@),
        None => None,
    }
}

impl View for InspectionView {
    type V = ViewModel;

    open spec fn view(&self) -> ViewModel {
        ViewModel {
            name: self.name@,
            description: self.description@,
            requires_nightly: self.requires_nightly,
            emit: opt_str(self.emit),
            unpretty: opt_str(self.unpretty),
        }
    }
}

/// The views on offer, in the order in which they are listed.
pub open spec fn curated_views() -> Seq<ViewModel> {
    seq![
        ViewModel {
            name: "def"@,
            description: "Definition location and symbol identity"@,
            requires_nightly: false,
            emit: None,
            unpretty: None,
        },
        ViewModel {
            name: "types"@,
            description: "Type hierarchy for the symbol"@,
            requires_nightly: false,
            emit: None,
            unpretty: None,
        },
        ViewModel {
            name: "llvm-ir"@,
            description: "Lowered LLVM IR for a symbol"@,
            requires_nightly: false,
            emit: Some("llvm-ir"@),
            unpretty: None,
        },
        ViewModel {
            name: "asm"@,
            description: "Assembly for a symbol"@,
            requires_nightly: false,
            emit: Some("asm"@),
            unpretty: None,
        },
        ViewModel {
            name: "mir"@,
            description: "MIR for a symbol"@,
            requires_nightly: true,
            emit: None,
            unpretty: Some("mir"@),
        },
    ]
}

/// The models of a vector's views.
pub open spec fn view_models(v: Seq<InspectionView>) -> Seq<ViewModel> {
    v.map_values(|view: InspectionView| view@)
}

/// The index of the first of `views` whose name is `name` but for case, or
/// the number of views where none is.
pub open spec fn view_index(views: Seq<ViewModel>, name: Seq<char>) -> int
    decreases views.len(),
{
    if views.len() == 0 || eq_ignore_case(views[0].name, name) {
        0
    } else {
        1 + view_index(views.drop_first(), name)
    }
}

/// The curated view that `name` names, without regard to case.
pub open spec fn find_view(name: Seq<char>) -> Option<ViewModel> {
    let i = view_index(curated_views(), name);
    if 0 <= i < curated_views().len() {
        Some(curated_views()[i])
    } else {
        None
    }
}

impl InspectionView {
    /// The views on offer: `def`, `types`, `llvm-ir`, `asm` and `mir`.
    pub fn curated() -> (views: Vec<InspectionView>)
        ensures
            view_models(views@) == curated_views(),
    {
        let mut views: Vec<InspectionView> = Vec::new();
        views.push(
            InspectionView {
                name: "def",
                description: "Definition location and symbol identity",
                requires_nightly: false,
                emit: None,
                unpretty: None,
            },
        );
        views.push(
            InspectionView {
                name: "types",
                description: "Type hierarchy for the symbol",
                requires_nightly: false,
                emit: None,
                unpretty: None,
            },
        );
        views.push(
            InspectionView {
                name: "llvm-ir",
                description: "Lowered LLVM IR for a symbol",
                requires_nightly: false,
                emit: Some("llvm-ir"),
                unpretty: None,
            },
        );
        views.push(
            InspectionView {
                name: "asm",
                description: "Assembly for a symbol",
                requires_nightly: false,
                emit: Some("asm"),
                unpretty: None,
            },
        );
        views.push(
            InspectionView {
                name: "mir",
                description: "MIR for a symbol",
                requires_nightly: true,
                emit: None,
                unpretty: Some("mir"),
            },
        );
        assert(view_models(views@) =~= curated_views());
        views
    }

    /// The curated view named `name`, without regard to case.
    pub fn find(name: &str) -> (found: Option<InspectionView>)
        ensures
            found is Some <==> find_view(name@) is Some,
            found matches Some(view) ==> Some(view@) == find_view(name@),
    {
        let wanted = to_chars(name);
        let views = InspectionView::curated();
        let ghost models = curated_views();
        let mut i: usize = 0;
        assert(models.skip(0) == models);
        while i < views.len()
            invariant
                i <= views.len(),
                models == curated_views(),
                view_models(views@) == models,
                wanted@ == name@,
                view_index(models, name@) == i + view_index(models.skip(i as int), name@),
            decreases views.len() - i,
        {
            let view = views[i];
            let own = to_chars(view.name);
            proof {
                assert(models.skip(i as int)[0] == models[i as int]);
                assert(models[i as int] == views@[i as int]@);
                assert(models.skip(i as int).drop_first() == models.skip(i + 1));
            }
            if chars_eq_ignore_case(own.as_slice(), wanted.as_slice()) {
                return Some(view);
            }
            i += 1;
        }
        None
    }
}

/// Whether `view` is offered on `channel` under `gating_mode`: a view that
/// needs a nightly compiler is offered on a channel that is like nightly,
/// or under lenient gating.
pub open spec fn view_advertised(
    requires_nightly: bool,
    channel: ToolchainChannel,
    gating_mode: GatingMode,
) -> bool {
    requires_nightly ==> (channel.nightly_like() || gating_mode == GatingMode::Lenient)
}

/// Whether `view` can run on `channel`: a view that needs a nightly
/// compiler runs only on a channel that is like nightly.
pub open spec fn view_runnable(requires_nightly: bool, channel: ToolchainChannel) -> bool {
    requires_nightly ==> channel.nightly_like()
}

/// Whether `view` is offered on `channel` under `gating_mode`.
pub fn is_view_advertised(
    view: &InspectionView,
    channel: ToolchainChannel,
    gating_mode: GatingMode,
) -> (offered: bool)
    ensures
        offered == view_advertised(view.requires_nightly, channel, gating_mode),
{
    if view.requires_nightly && !channel.is_nightly_like() && gating_mode == GatingMode::Strict {
        return false;
    }
    true
}

/// Whether `view` can run on `channel`.
pub fn is_view_runnable(view: &InspectionView, channel: ToolchainChannel) -> (runnable: bool)
    ensures
        runnable == view_runnable(view.requires_nightly, channel),
{
    !(view.requires_nightly && !channel.is_nightly_like())
}

/// What strict gating offers, lenient gating offers too.
pub proof fn lemma_strict_advertised_is_lenient_advertised(
    requires_nightly: bool,
    channel: ToolchainChannel,
)
    requires
        view_advertised(requires_nightly, channel, GatingMode::Strict),
    ensures
        view_advertised(requires_nightly, channel, GatingMode::Lenient),
{
}

/// What runs on a stable compiler runs on a nightly one.
pub proof fn lemma_stable_runnable_is_nightly_runnable(requires_nightly: bool)
    requires
        view_runnable(requires_nightly, ToolchainChannel::Stable),
    ensures
        view_runnable(requires_nightly, ToolchainChannel::Nightly),
{
}

/// What can run is offered, whatever the gating.
pub proof fn lemma_runnable_is_advertised(
    requires_nightly: bool,
    channel: ToolchainChannel,
    gating_mode: GatingMode,
)
    requires
        view_runnable(requires_nightly, channel),
    ensures
        view_advertised(requires_nightly, channel, gating_mode),
{
}

} // verus!
