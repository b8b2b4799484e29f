//! The decisions of the tool calls: what is on offer, whether a view may
//! be asked for, how a definition becomes a symbol, and how the output of
//! the compiler becomes an answer.

use crate::artifacts::{choose_search_target, search_target};
use crate::blocks::ArtifactKind;
use crate::client::{path_names, place_text, push_place, DefinitionDetails};
use crate::context::{
    clone_opt, provenance_of, CapabilitiesModel, ContextModel, InspectionCapabilities,
    InspectionContext, InspectionProvenance, InspectionResult, ProvenanceModel, ResultModel,
};
use crate::errors::{
    compiler_failure, compiler_failure_error, compiler_timeout, compiler_timeout_error, mcp_error,
    non_function, non_function_error, plain_error, prefixed_error, symbol_not_found,
    symbol_not_found_error, ErrorCode, ErrorModel, ToolError,
};
use crate::extract::{
    assembly_models, extract_asm, extract_llvm_ir, extract_mir, extracted, extracted_asm,
    outcome_of, AssemblyModel, ExtractError, Outcome, TargetedAssembly,
};
use crate::inspection::{
    channel_label, curated_views, find_view, gating_mode_label, gating_mode_named,
    is_view_advertised, is_view_runnable, opt_str, view_advertised, view_models, view_runnable,
    GatingMode, InspectionLimits, InspectionView, ToolchainChannel, ViewModel,
};
use crate::lines::{join, join_strings, strs};
use crate::normalized::{normalized, opt_text, NormalizedSymbol, SymbolModel};
use crate::protocol::{path_model, LocationModel, SegmentModel};
use crate::runner::{RequestModel, RunRequest, RunResult};
use crate::symbol::{
    identity_from_definition, identity_of, segment_names, IdentityModel, SymbolIdentity,
};
use crate::text::{to_chars, trim, trim_chars};
use crate::truncate::{truncate_with_limits, truncation_note, truncation_note_text, truncation_of};
use vstd::prelude::*;
use vstd::string::StringExecFns;

verus! {

/// The text of an optional string slice.
pub open spec fn opt_slice(o: Option<&str>) -> Option<Seq<char>> {
    match o {
        Some(s) => Some(s@),
        None => None,
    }
}

/// The names of those of `views` that are offered on `channel` under
/// `gating_mode`, in order.
pub open spec fn advertised_names(
    views: Seq<ViewModel>,
    channel: ToolchainChannel,
    gating_mode: GatingMode,
) -> Seq<Seq<char>>
    decreases views.len(),
{
    if views.len() == 0 {
        Seq::empty()
    } else {
        let before = advertised_names(views.drop_last(), channel, gating_mode);
        if view_advertised(views.last().requires_nightly, channel, gating_mode) {
            before.push(views.last().name)
        } else {
            before
        }
    }
}

/// The note that the view `name` cannot run here.
pub open spec fn nightly_note(name: Seq<char>) -> Seq<char> {
    "View '"@ + name + "' requires nightly"@
}

/// The notes for those of `views` that need a nightly compiler, in order.
pub open spec fn nightly_notes(views: Seq<ViewModel>) -> Seq<Seq<char>>
    decreases views.len(),
{
    if views.len() == 0 {
        Seq::empty()
    } else {
        let before = nightly_notes(views.drop_last());
        if views.last().requires_nightly {
            before.push(nightly_note(views.last().name))
        } else {
            before
        }
    }
}

/// What is on offer in `context`: the views that are advertised, the
/// limits, and, under lenient gating on a channel that is not like
/// nightly, a note for each view that needs a nightly compiler.
pub open spec fn capabilities_of(context: ContextModel) -> CapabilitiesModel {
    CapabilitiesModel {
        toolchain_channel: context.toolchain_channel,
        gating_mode: context.gating_mode,
        views: advertised_names(curated_views(), context.toolchain_channel, context.gating_mode),
        limits: context.limits,
        diagnostics: if context.gating_mode == GatingMode::Lenient
            && !context.toolchain_channel.nightly_like() {
            nightly_notes(curated_views())
        } else {
            Seq::empty()
        },
        provenance: provenance_of(context),
    }
}

/// The note that the view `name` cannot run here.
fn make_nightly_note(name: &str) -> (note: String)
    ensures
        note@ == nightly_note(name@),
{
    let mut note = String::from_str("View '");
    note.append(name);
    note.append("' requires nightly");
    note
}

/// What is on offer in `context`.
pub fn capabilities(context: &InspectionContext) -> (offer: InspectionCapabilities)
    ensures
        offer@ == capabilities_of(context@),
{
    let curated = InspectionView::curated();
    let channel = context.toolchain_channel();
    let gating_mode = context.gating_mode();
    let noted = gating_mode == GatingMode::Lenient && !channel.is_nightly_like();
    let ghost models = curated_views();
    let mut views: Vec<String> = Vec::new();
    let mut diagnostics: Vec<String> = Vec::new();
    let mut i: usize = 0;
    while i < curated.len()
        invariant
            i <= curated.len(),
            models == curated_views(),
            view_models(curated@) == models,
            strs(views@) == advertised_names(models.take(i as int), channel, gating_mode),
            strs(diagnostics@) == (if noted {
                nightly_notes(models.take(i as int))
            } else {
                Seq::empty()
            }),
        decreases curated.len() - i,
    {
        let view = &curated[i];
        proof {
            assert(models.take(i + 1).drop_last() == models.take(i as int));
            assert(models.take(i + 1).last() == curated@[i as int]@);
        }
        if is_view_advertised(view, channel, gating_mode) {
            let ghost before = strs(views@);
            views.push(String::from_str(view.name));
            assert(strs(views@) == before.push(view.name@));
        }
        if noted && view.requires_nightly {
            let ghost before = strs(diagnostics@);
            diagnostics.push(make_nightly_note(view.name));
            assert(strs(diagnostics@) == before.push(nightly_note(view.name@)));
        }
        i += 1;
    }
    assert(models.take(curated.len() as int) == models);
    InspectionCapabilities {
        toolchain_channel: channel,
        gating_mode,
        views,
        limits: *context.limits(),
        diagnostics,
        provenance: context.provenance(),
    }
}

/// The context of one request: `base` with the gating mode that
/// `gating_override` names, where it names one.
pub fn inspection_context(base: &InspectionContext, gating_override: Option<&str>) -> (context:
    InspectionContext)
    ensures
        context@ == (match opt_slice(gating_override) {
            Some(text) => match gating_mode_named(text) {
                Some(mode) => ContextModel { gating_mode: mode, ..base@ },
                None => base@,
            },
            None => base@,
        }),
{
    let context = base.duplicate();
    match gating_override {
        Some(text) => match GatingMode::parse(text) {
            Some(mode) => context.with_gating_mode(mode),
            None => context,
        },
        None => context,
    }
}

/// Whether a view may be asked for, and whether asking can give anything.
#[derive(Debug)]
pub enum Gate {
    /// The view runs here.
    Run(InspectionView),
    /// The view is offered but cannot run here: this is the answer.
    SoftFail(InspectionResult),
}

/// What a [`Gate`] holds, as plain values.
pub enum GateModel {
    Run(ViewModel),
    SoftFail(ResultModel),
}

impl View for Gate {
    type V = GateModel;

    open spec fn view(&self) -> GateModel {
        match self {
            Gate::Run(view) => GateModel::Run(view@),
            Gate::SoftFail(result) => GateModel::SoftFail(result@),
        }
    }
}

/// The error for a view that is not known.
pub open spec fn unknown_view(name: Seq<char>) -> ErrorModel {
    plain_error(ErrorCode::InvalidParams, "Unknown inspection view `"@ + name + "`"@)
}

/// The error for a view that is not offered.
pub open spec fn view_unavailable(name: Seq<char>, gating_mode: GatingMode, channel: ToolchainChannel)
    -> ErrorModel {
    plain_error(
        ErrorCode::InvalidParams,
        "View `"@ + name + "` is not available under "@ + gating_mode_label(gating_mode)
            + " gating for "@ + channel_label(channel),
    )
}

/// The answer for a view that is offered but cannot run: no text, and the
/// note that the view needs a nightly compiler.
pub open spec fn soft_fail(name: Seq<char>, context: ContextModel) -> ResultModel {
    ResultModel {
        view: name,
        symbol: None,
        text: Seq::empty(),
        truncated: false,
        diagnostics: seq![nightly_note(name)],
        provenance: provenance_of(context),
    }
}

/// Whether the view `view_name` may be asked for in `context`.
pub open spec fn gate_of(context: ContextModel, view_name: Seq<char>) -> Result<
    GateModel,
    ErrorModel,
> {
    match find_view(view_name) {
        None => Err(unknown_view(view_name)),
        Some(view) => if !view_advertised(
            view.requires_nightly,
            context.toolchain_channel,
            context.gating_mode,
        ) {
            Err(view_unavailable(view.name, context.gating_mode, context.toolchain_channel))
        } else if !view_runnable(view.requires_nightly, context.toolchain_channel) {
            Ok(GateModel::SoftFail(soft_fail(view.name, context)))
        } else {
            Ok(GateModel::Run(view))
        },
    }
}

/// The model of a gate or its error.
pub open spec fn gate_model(result: Result<Gate, ToolError>) -> Result<GateModel, ErrorModel> {
    match result {
        Ok(gate) => Ok(gate@),
        Err(error) => Err(error@),
    }
}

/// Decides whether the view `view_name` may be asked for in `context`.
///
/// A name that is no view's, and a view that is not offered, are errors
/// of the request. A view that is offered but cannot run gives an answer
/// without text, with a diagnostic. Any other view runs.
pub fn check_gate(context: &InspectionContext, view_name: &str) -> (result: Result<Gate, ToolError>)
    ensures
        gate_model(result) == gate_of(context@, view_name@),
{
    let view = match InspectionView::find(view_name) {
        Some(view) => view,
        None => {
            let mut message = String::from_str("Unknown inspection view `");
            message.append(view_name);
            message.append("`");
            return Err(mcp_error(ErrorCode::InvalidParams, message));
        },
    };
    let channel = context.toolchain_channel();
    let gating_mode = context.gating_mode();
    if !is_view_advertised(&view, channel, gating_mode) {
        let mut message = String::from_str("View `");
        message.append(view.name);
        message.append("` is not available under ");
        message.append(gating_mode.label());
        message.append(" gating for ");
        message.append(channel.label());
        return Err(mcp_error(ErrorCode::InvalidParams, message));
    }
    if !is_view_runnable(&view, channel) {
        let mut diagnostics: Vec<String> = Vec::new();
        diagnostics.push(make_nightly_note(view.name));
        assert(strs(diagnostics@) == seq![nightly_note(view.name@)]);
        return Ok(
            Gate::SoftFail(
                InspectionResult {
                    view: String::from_str(view.name),
                    symbol: None,
                    text: String::new(),
                    truncated: false,
                    diagnostics,
                    provenance: context.provenance(),
                },
            ),
        );
    }
    Ok(Gate::Run(view))
}

/// The error for a request that does not say where the symbol is.
pub open spec fn position_required() -> ErrorModel {
    plain_error(
        ErrorCode::InvalidParams,
        "Both line and character are required to resolve a symbol"@,
    )
}

/// The position that a request names: both line and character are needed.
pub fn require_position(line: Option<u32>, character: Option<u32>) -> (result: Result<
    (u32, u32),
    ToolError,
>)
    ensures
        line is Some && character is Some ==> result == Ok::<(u32, u32), ToolError>(
            (line->Some_0, character->Some_0),
        ),
        line is None || character is None ==> result is Err && result->Err_0@
            == position_required(),
{
    match (line, character) {
        (Some(line), Some(character)) => Ok((line, character)),
        _ => Err(
            mcp_error(
                ErrorCode::InvalidParams,
                String::from_str("Both line and character are required to resolve a symbol"),
            ),
        ),
    }
}

/// What the language server said of a definition: the details, none where
/// the symbol has no definition, or the reason it could not say.
pub struct DetailsModel {
    pub location: LocationModel,
    pub symbol_path: Seq<SegmentModel>,
}

impl View for DefinitionDetails {
    type V = DetailsModel;

    open spec fn view(&self) -> DetailsModel {
        DetailsModel { location: self.location@, symbol_path: path_model(self.symbol_path@) }
    }
}

/// The model of the answer to a request for a definition.
pub open spec fn lookup_model(lookup: Result<Option<DefinitionDetails>, String>) -> Result<
    Option<DetailsModel>,
    Seq<char>,
> {
    match lookup {
        Ok(Some(details)) => Ok(Some(details@)),
        Ok(None) => Ok(None),
        Err(reason) => Err(reason@),
    }
}

/// The identity of the symbol that `lookup` found for the position
/// `line`, `character` of `file_path`.
pub open spec fn found_identity(
    lookup: Result<Option<DetailsModel>, Seq<char>>,
    file_path: Seq<char>,
    line: u32,
    character: u32,
) -> Result<IdentityModel, ErrorModel> {
    match lookup {
        Err(reason) => Err(
            plain_error(ErrorCode::InternalError, "Failed to resolve symbol: "@ + reason),
        ),
        Ok(None) => Err(symbol_not_found(file_path, line, character)),
        Ok(Some(details)) => match identity_of(details.location.uri, details.symbol_path) {
            Some(identity) => Ok(identity),
            None => Err(symbol_not_found(file_path, line, character)),
        },
    }
}

/// The model of an identity or an error.
pub open spec fn identity_model(result: Result<SymbolIdentity, ToolError>) -> Result<
    IdentityModel,
    ErrorModel,
> {
    match result {
        Ok(identity) => Ok(identity@),
        Err(error) => Err(error@),
    }
}

/// The identity of the symbol that `lookup` found.
///
/// Where the language server failed, the error says why. Where it found
/// no definition, or the definition belongs to no crate, the error is
/// that no symbol stands at the position.
pub fn resolve_identity(
    lookup: &Result<Option<DefinitionDetails>, String>,
    file_path: &str,
    line: u32,
    character: u32,
) -> (result: Result<SymbolIdentity, ToolError>)
    ensures
        identity_model(result) == found_identity(
            lookup_model(*lookup),
            file_path@,
            line,
            character,
        ),
{
    match lookup {
        Err(reason) => Err(
            prefixed_error(ErrorCode::InternalError, "Failed to resolve symbol: ", reason.as_str()),
        ),
        Ok(None) => Err(symbol_not_found_error(file_path, line, character)),
        Ok(Some(details)) => match identity_from_definition(
            details.location.uri.as_str(),
            &details.symbol_path,
        ) {
            Some(identity) => Ok(identity),
            None => Err(symbol_not_found_error(file_path, line, character)),
        },
    }
}

/// `identity` with `name` as the name of the item, where a name is given.
pub open spec fn renamed(identity: IdentityModel, name: Option<Seq<char>>) -> IdentityModel {
    match name {
        Some(item_name) => IdentityModel { item_name, ..identity },
        None => identity,
    }
}

/// `identity` with `name` as the name of the item, where a name is given.
pub fn rename_item(identity: SymbolIdentity, name: &Option<String>) -> (out: SymbolIdentity)
    ensures
        out@ == renamed(identity@, opt_text(*name)),
{
    match name {
        Some(item_name) => {
            let mut out = identity;
            out.item_name = item_name.clone();
            out
        },
        None => identity,
    }
}

/// The line that tells where a definition is: `label`, the place, and in
/// brackets the names of the path joined by `::`.
pub open spec fn located_text(label: Seq<char>, details: DetailsModel) -> Seq<char> {
    label + place_text(details.location) + " ("@ + join(
        segment_names(details.symbol_path),
        "::"@,
    ) + ")"@
}

/// The line that tells where a definition is.
pub fn describe_location(label: &str, details: &DefinitionDetails) -> (text: String)
    ensures
        text@ == located_text(label@, details@),
{
    let mut text = String::from_str(label);
    push_place(&mut text, &details.location);
    text.append(" (");
    let names = path_names(&details.symbol_path);
    let joined = join_strings(&names, "::");
    text.append(joined.as_str());
    text.append(")");
    text
}

/// A definition that was found: the symbol and the text that tells of it.
#[derive(Debug)]
pub struct ResolvedDefinition {
    pub symbol: Option<SymbolIdentity>,
    pub text: String,
}

/// What a [`ResolvedDefinition`] holds, as plain values.
pub struct ResolvedModel {
    pub symbol: Option<IdentityModel>,
    pub text: Seq<char>,
}

impl View for ResolvedDefinition {
    type V = ResolvedModel;

    open spec fn view(&self) -> ResolvedModel {
        ResolvedModel {
            symbol: match self.symbol {
                Some(identity) => Some(identity@),
                None => None,
            },
            text: self.text@,
        }
    }
}

/// The model of a resolved definition or an error.
pub open spec fn resolved_model(result: Result<ResolvedDefinition, ToolError>) -> Result<
    ResolvedModel,
    ErrorModel,
> {
    match result {
        Ok(resolved) => Ok(resolved@),
        Err(error) => Err(error@),
    }
}

/// What the view `def` shows for `lookup`: the identity of the symbol,
/// under `symbol_name` where one is given, and the line
/// `Definition: uri:line:column (path)`.
pub open spec fn definition_of(
    lookup: Result<Option<DetailsModel>, Seq<char>>,
    file_path: Seq<char>,
    line: u32,
    character: u32,
    symbol_name: Option<Seq<char>>,
) -> Result<ResolvedModel, ErrorModel> {
    match found_identity(lookup, file_path, line, character) {
        Err(error) => Err(error),
        Ok(identity) => Ok(
            ResolvedModel {
                symbol: Some(renamed(identity, symbol_name)),
                text: located_text("Definition: "@, lookup->Ok_0->Some_0),
            },
        ),
    }
}

/// What the view `def` shows for the definition that `lookup` found.
pub fn resolve_definition(
    lookup: &Result<Option<DefinitionDetails>, String>,
    file_path: &str,
    line: u32,
    character: u32,
    symbol_name: &Option<String>,
) -> (result: Result<ResolvedDefinition, ToolError>)
    ensures
        resolved_model(result) == definition_of(
            lookup_model(*lookup),
            file_path@,
            line,
            character,
            opt_text(*symbol_name),
        ),
{
    let identity = match resolve_identity(lookup, file_path, line, character) {
        Ok(identity) => identity,
        Err(error) => { return Err(error); },
    };
    match lookup {
        Ok(Some(details)) => Ok(
            ResolvedDefinition {
                symbol: Some(rename_item(identity, symbol_name)),
                text: describe_location("Definition: ", details),
            },
        ),
        _ => Err(symbol_not_found_error(file_path, line, character)),
    }
}

/// What the view `types` shows for `lookup` and the type hierarchy
/// `hierarchy`: the identity of the symbol, and the line
/// `Types: uri:line:column (path)` with the hierarchy under it. Where the
/// hierarchy could not be had, the error says why.
pub open spec fn types_of(
    lookup: Result<Option<DetailsModel>, Seq<char>>,
    hierarchy: Result<Seq<char>, Seq<char>>,
    file_path: Seq<char>,
    line: u32,
    character: u32,
    symbol_name: Option<Seq<char>>,
) -> Result<ResolvedModel, ErrorModel> {
    match found_identity(lookup, file_path, line, character) {
        Err(error) => Err(error),
        Ok(identity) => match hierarchy {
            Err(reason) => Err(
                plain_error(
                    ErrorCode::InternalError,
                    "Failed to fetch type hierarchy: "@ + reason,
                ),
            ),
            Ok(type_info) => Ok(
                ResolvedModel {
                    symbol: Some(renamed(identity, symbol_name)),
                    text: located_text("Types: "@, lookup->Ok_0->Some_0) + seq!['\n'] + type_info,
                },
            ),
        },
    }
}

/// The text of a result or the reason of its failure.
pub open spec fn text_model(result: Result<String, String>) -> Result<Seq<char>, Seq<char>> {
    match result {
        Ok(text) => Ok(text@),
        Err(reason) => Err(reason@),
    }
}

/// What the view `types` shows for the definition that `lookup` found
/// and the type hierarchy that the language server gave.
pub fn resolve_types(
    lookup: &Result<Option<DefinitionDetails>, String>,
    hierarchy: &Result<String, String>,
    file_path: &str,
    line: u32,
    character: u32,
    symbol_name: &Option<String>,
) -> (result: Result<ResolvedDefinition, ToolError>)
    ensures
        resolved_model(result) == types_of(
            lookup_model(*lookup),
            text_model(*hierarchy),
            file_path@,
            line,
            character,
            opt_text(*symbol_name),
        ),
{
    let identity = match resolve_identity(lookup, file_path, line, character) {
        Ok(identity) => identity,
        Err(error) => { return Err(error); },
    };
    let type_info = match hierarchy {
        Ok(type_info) => type_info,
        Err(reason) => {
            return Err(
                prefixed_error(
                    ErrorCode::InternalError,
                    "Failed to fetch type hierarchy: ",
                    reason.as_str(),
                ),
            );
        },
    };
    match lookup {
        Ok(Some(details)) => {
            let mut text = describe_location("Types: ", details);
            let ghost line = text@;
            text.push('\n');
            text.append(type_info.as_str());
            assert(text@ == line + seq!['\n'] + type_info@);
            Ok(ResolvedDefinition { symbol: Some(rename_item(identity, symbol_name)), text })
        },
        _ => Err(symbol_not_found_error(file_path, line, character)),
    }
}

/// The names under which the symbol that `lookup` found is searched for
/// in compiler output: the symbol must be a function; it goes by
/// `symbol_name` where one is given, and is searched under `target` where
/// one is given.
pub open spec fn symbol_of(
    lookup: Result<Option<DetailsModel>, Seq<char>>,
    file_path: Seq<char>,
    line: u32,
    character: u32,
    symbol_name: Option<Seq<char>>,
    target: Option<Seq<char>>,
) -> Result<SymbolModel, ErrorModel> {
    match found_identity(lookup, file_path, line, character) {
        Err(error) => Err(error),
        Ok(identity) => if !identity.kind.function_like() {
            Err(non_function(identity.kind))
        } else {
            Ok(SymbolModel { target, ..normalized(renamed(identity, symbol_name)) })
        },
    }
}

/// The model of a symbol or an error.
pub open spec fn symbol_model(result: Result<NormalizedSymbol, ToolError>) -> Result<
    SymbolModel,
    ErrorModel,
> {
    match result {
        Ok(symbol) => Ok(symbol.model()),
        Err(error) => Err(error@),
    }
}

/// The names under which the symbol that `lookup` found is searched for
/// in compiler output.
pub fn resolve_normalized_symbol(
    lookup: &Result<Option<DefinitionDetails>, String>,
    file_path: &str,
    line: u32,
    character: u32,
    symbol_name: &Option<String>,
    target: &Option<String>,
) -> (result: Result<NormalizedSymbol, ToolError>)
    ensures
        symbol_model(result) == symbol_of(
            lookup_model(*lookup),
            file_path@,
            line,
            character,
            opt_text(*symbol_name),
            opt_text(*target),
        ),
{
    let identity = match resolve_identity(lookup, file_path, line, character) {
        Ok(identity) => identity,
        Err(error) => { return Err(error); },
    };
    if !identity.kind.is_function() {
        return Err(non_function_error(&identity));
    }
    let identity = rename_item(identity, symbol_name);
    let symbol = NormalizedSymbol::from_identity(&identity);
    match target {
        Some(triple) => Ok(symbol.with_target(triple.as_str())),
        None => Ok(symbol),
    }
}

/// The request to the compiler for `view`: the target and the
/// optimization level that were asked for, and what the view emits and
/// prints.
pub open spec fn compiler_request(
    view: ViewModel,
    opt_level: Option<Seq<char>>,
    target: Option<Seq<char>>,
) -> RequestModel {
    RequestModel {
        manifest_path: None,
        package: None,
        target_triple: target,
        opt_level,
        emit: view.emit,
        unpretty: view.unpretty,
        additional_rustc_args: Seq::empty(),
    }
}

/// A copy of an optional static string.
fn own_opt(o: Option<&'static str>) -> (copy: Option<String>)
    ensures
        opt_text(copy) == opt_str(o),
{
    match o {
        Some(s) => Some(String::from_str(s)),
        None => None,
    }
}

/// The request to the compiler for `view`, with the environment of `context`.
pub fn make_compiler_request(
    context: &InspectionContext,
    view: &InspectionView,
    opt_level: &Option<String>,
    target: &Option<String>,
) -> (request: RunRequest)
    ensures
        request@ == compiler_request(view@, opt_text(*opt_level), opt_text(*target)),
        request.env.map() == context@.env,
{
    let request = RunRequest {
        manifest_path: None,
        package: None,
        target_triple: clone_opt(target),
        opt_level: clone_opt(opt_level),
        emit: own_opt(view.emit),
        unpretty: own_opt(view.unpretty),
        additional_rustc_args: Vec::new(),
        env: context.env().duplicate(),
    };
    assert(request@.additional_rustc_args =~= Seq::<Seq<char>>::empty());
    request
}

/// How a run of the compiler came out.
#[derive(Debug)]
pub enum CompilerOutcome {
    /// The compiler ended, with or without success.
    Finished(RunResult),
    /// The compiler ran longer than this many seconds.
    TimedOut(u64),
    /// The compiler could not be run; the text says why.
    Failed(String),
}

/// The error of a run that gave no usable result, or none.
pub open spec fn run_error(outcome: CompilerOutcome) -> Option<ErrorModel> {
    match outcome {
        CompilerOutcome::Finished(result) => if result.success {
            None
        } else {
            Some(
                compiler_failure(
                    result.status,
                    result.stdout@,
                    result.stderr@,
                    strs(result.command@),
                ),
            )
        },
        CompilerOutcome::TimedOut(seconds) => Some(compiler_timeout(seconds)),
        CompilerOutcome::Failed(reason) => Some(plain_error(ErrorCode::InternalError, reason@)),
    }
}

/// The result of a run, where the compiler ended with success; else the
/// error: the timeout, the reason it could not run, or its failure with
/// status, output and command.
pub fn check_compiler_run(outcome: CompilerOutcome) -> (result: Result<RunResult, ToolError>)
    ensures
        run_error(outcome) is None ==> result is Ok && outcome == CompilerOutcome::Finished(
            result->Ok_0,
        ),
        run_error(outcome) matches Some(error) ==> result is Err && result->Err_0@ == error,
{
    match outcome {
        CompilerOutcome::Finished(result) => {
            if !result.success {
                return Err(compiler_failure_error(&result));
            }
            Ok(result)
        },
        CompilerOutcome::TimedOut(seconds) => Err(compiler_timeout_error(seconds)),
        CompilerOutcome::Failed(reason) => Err(mcp_error(ErrorCode::InternalError, reason)),
    }
}

/// The diagnostic for what the compiler wrote to its error stream:
/// nothing where that is empty or white space; else the text, cut down to
/// `limits`, under a heading that says whether it was cut.
pub open spec fn stderr_note(stderr: Seq<char>, limits: InspectionLimits) -> Option<Seq<char>> {
    if trim(stderr).len() == 0 {
        None
    } else {
        let cut = truncation_of(stderr, limits);
        Some(
            (if cut.1 {
                "Compiler stderr (truncated):\n"@
            } else {
                "Compiler stderr:\n"@
            }) + cut.0,
        )
    }
}

/// The diagnostic for what the compiler wrote to its error stream.
pub fn stderr_diagnostic(stderr: &str, limits: &InspectionLimits) -> (note: Option<String>)
    ensures
        opt_text(note) == stderr_note(stderr@, *limits),
{
    let chars = to_chars(stderr);
    let trimmed = trim_chars(chars.as_slice());
    if trimmed.len() == 0 {
        return None;
    }
    let (text, truncated, _) = truncate_with_limits(stderr, limits);
    let mut note = if truncated {
        String::from_str("Compiler stderr (truncated):\n")
    } else {
        String::from_str("Compiler stderr:\n")
    };
    note.append(text.as_str());
    Some(note)
}

/// What the output of the compiler holds for a symbol, or the error of
/// the search.
pub open spec fn located(found: Outcome, what: Seq<char>) -> Result<Seq<char>, ErrorModel> {
    match found {
        Outcome::Found(text) => Ok(text),
        Outcome::NoArtifactsForTarget(message) => Err(
            plain_error(
                ErrorCode::ResourceNotFound,
                "Unable to locate "@ + what + " for symbol: "@ + message,
            ),
        ),
        Outcome::NoMatch(message) => Err(
            plain_error(
                ErrorCode::ResourceNotFound,
                "Unable to locate "@ + what + " for symbol: "@ + message,
            ),
        ),
        Outcome::Ambiguous(message) => Err(
            plain_error(
                ErrorCode::ResourceNotFound,
                "Unable to locate "@ + what + " for symbol: "@ + message,
            ),
        ),
    }
}

/// The model of a text or an error.
pub open spec fn output_model(result: Result<String, ToolError>) -> Result<Seq<char>, ErrorModel> {
    match result {
        Ok(text) => Ok(text@),
        Err(error) => Err(error@),
    }
}

/// The text found, or the error that the search for `what` failed.
fn locate(found: Result<String, ExtractError>, what: &str) -> (result: Result<String, ToolError>)
    ensures
        output_model(result) == located(outcome_of(found), what@),
{
    match found {
        Ok(text) => Ok(text),
        Err(error) => {
            let mut message = String::from_str("Unable to locate ");
            message.append(what);
            message.append(" for symbol: ");
            message.append(error.to_string().as_str());
            Err(mcp_error(ErrorCode::ResourceNotFound, message))
        },
    }
}

/// The MIR of `symbol` in what the compiler printed.
pub open spec fn mir_of(stdout: Seq<char>, symbol: SymbolModel) -> Result<Seq<char>, ErrorModel> {
    located(extracted(ArtifactKind::Mir, seq![stdout], symbol), "MIR"@)
}

/// The MIR of `symbol` in `stdout`, what the compiler printed.
pub fn locate_mir(stdout: &str, symbol: &NormalizedSymbol) -> (result: Result<String, ToolError>)
    ensures
        output_model(result) == mir_of(stdout@, symbol.model()),
{
    let mut outputs: Vec<String> = Vec::new();
    outputs.push(String::from_str(stdout));
    assert(strs(outputs@) == seq![stdout@]);
    locate(extract_mir(outputs.as_slice(), symbol), "MIR")
}

/// The LLVM IR of `symbol` in the files `texts`; where there is no file,
/// the error says so.
pub open spec fn llvm_ir_of(texts: Seq<Seq<char>>, symbol: SymbolModel) -> Result<
    Seq<char>,
    ErrorModel,
> {
    if texts.len() == 0 {
        Err(
            plain_error(
                ErrorCode::InternalError,
                "No LLVM IR artifacts were produced by the compiler"@,
            ),
        )
    } else {
        located(extracted(ArtifactKind::LlvmIr, texts, symbol), "LLVM IR"@)
    }
}

/// The LLVM IR of `symbol` in the files `texts`.
pub fn locate_llvm_ir(texts: &Vec<String>, symbol: &NormalizedSymbol) -> (result: Result<
    String,
    ToolError,
>)
    ensures
        output_model(result) == llvm_ir_of(strs(texts@), symbol.model()),
{
    if texts.len() == 0 {
        return Err(
            mcp_error(
                ErrorCode::InternalError,
                String::from_str("No LLVM IR artifacts were produced by the compiler"),
            ),
        );
    }
    locate(extract_llvm_ir(texts.as_slice(), symbol), "LLVM IR")
}

/// The assembly of `symbol` in `assemblies`, searched under the target
/// asked for, else under that of the first assembly; where there is no
/// assembly, the error says so.
pub open spec fn assembly_of(
    assemblies: Seq<AssemblyModel>,
    symbol: SymbolModel,
    target: Option<Seq<char>>,
) -> Result<Seq<char>, ErrorModel> {
    if assemblies.len() == 0 {
        Err(
            plain_error(
                ErrorCode::InternalError,
                "No assembly artifacts were produced by the compiler"@,
            ),
        )
    } else {
        let triple = search_target(target, assemblies);
        located(
            extracted_asm(assemblies, SymbolModel { target: Some(triple), ..symbol }, triple),
            "assembly"@,
        )
    }
}

/// The assembly of `symbol` in `assemblies`.
pub fn locate_assembly(
    assemblies: &Vec<TargetedAssembly>,
    symbol: NormalizedSymbol,
    target: &Option<String>,
) -> (result: Result<String, ToolError>)
    ensures
        output_model(result) == assembly_of(
            assembly_models(assemblies@),
            symbol.model(),
            opt_text(*target),
        ),
{
    if assemblies.len() == 0 {
        return Err(
            mcp_error(
                ErrorCode::InternalError,
                String::from_str("No assembly artifacts were produced by the compiler"),
            ),
        );
    }
    let triple = choose_search_target(target, assemblies);
    let symbol = symbol.with_target(triple.as_str());
    locate(extract_asm(assemblies.as_slice(), &symbol, triple.as_str()), "assembly")
}

/// The answer of an inspection: `text` cut down to `limits`, the
/// diagnostics with a note where the text was cut, and the record with
/// the account of what was cut.
pub open spec fn finished(
    view: Seq<char>,
    symbol: Option<Seq<char>>,
    text: Seq<char>,
    diagnostics: Seq<Seq<char>>,
    provenance: ProvenanceModel,
    limits: InspectionLimits,
) -> ResultModel {
    let cut = truncation_of(text, limits);
    ResultModel {
        view,
        symbol,
        text: cut.0,
        truncated: cut.1,
        diagnostics: match cut.2 {
            Some(summary) => diagnostics.push(truncation_note_text(summary)),
            None => diagnostics,
        },
        provenance: ProvenanceModel { truncation: cut.2, ..provenance },
    }
}

/// The answer of an inspection.
pub fn finish(
    view: &str,
    symbol: Option<String>,
    text: &str,
    diagnostics: Vec<String>,
    provenance: InspectionProvenance,
    limits: &InspectionLimits,
) -> (result: InspectionResult)
    ensures
        result@ == finished(
            view@,
            opt_text(symbol),
            text@,
            strs(diagnostics@),
            provenance@,
            *limits,
        ),
{
    let (text, truncated, truncation) = truncate_with_limits(text, limits);
    let mut diagnostics = diagnostics;
    let ghost before = strs(diagnostics@);
    match &truncation {
        Some(summary) => {
            diagnostics.push(truncation_note(summary));
            assert(strs(diagnostics@) == before.push(truncation_note_text(*summary)));
        },
        None => {},
    }
    InspectionResult {
        view: String::from_str(view),
        symbol,
        text,
        truncated,
        diagnostics,
        provenance: provenance.with_truncation(truncation),
    }
}

} // verus!
