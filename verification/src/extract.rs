//! Picking, out of compiler output, the one block that belongs to a symbol.
//!
//! Blocks are matched in tiers, the best key first: the mangled name, the
//! mangled prefix, the path of the definition, the name of the item. The
//! first tier that matches anything decides: one match is the answer, more
//! than one is an error, and later tiers are not looked at.

use crate::blocks::{
    block_models, blocks_of, split_blocks, ArtifactKind, Block, BlockModel,
};
use crate::lines::{join, join_strings, strs};
use crate::normalized::{NormalizedSymbol, SymbolModel};
use crate::text::{contains, contains_chars, copy_range, from_chars, to_chars};
use vstd::prelude::*;
use vstd::string::StringExecFns;

verus! {

/// Assembly text and the target triple it was built for.
#[derive(Debug, Clone)]
pub struct TargetedAssembly {
    pub target: String,
    pub content: String,
}

/// Why no block was picked. Each variant holds its message.
#[derive(Debug, Clone)]
pub enum ExtractError {
    /// No assembly was built for the target asked for.
    NoArtifactsForTarget(String),
    /// No block matched in any tier.
    NoMatch(String),
    /// More than one block matched in the tier that decided.
    Ambiguous(String),
}

/// How an extraction ends: the text of the block found, or the message of
/// the error.
pub enum Outcome {
    Found(Seq<char>),
    NoArtifactsForTarget(Seq<char>),
    NoMatch(Seq<char>),
    Ambiguous(Seq<char>),
}

/// How `result` ends.
pub open spec fn outcome_of(result: Result<String, ExtractError>) -> Outcome {
    match result {
        Ok(text) => Outcome::Found(text@),
        Err(ExtractError::NoArtifactsForTarget(message)) => Outcome::NoArtifactsForTarget(
            message@,
        ),
        Err(ExtractError::NoMatch(message)) => Outcome::NoMatch(message@),
        Err(ExtractError::Ambiguous(message)) => Outcome::Ambiguous(message@),
    }
}

impl ExtractError {
    /// The message of the error.
    pub open spec fn text(&self) -> Seq<char> {
        match self {
            ExtractError::NoArtifactsForTarget(message) => message@,
            ExtractError::NoMatch(message) => message@,
            ExtractError::Ambiguous(message) => message@,
        }
    }

    /// The message of the error.
    pub fn to_string(&self) -> (message: String)
        ensures
            message@ == self.text(),
    {
        match self {
            ExtractError::NoArtifactsForTarget(message) => message.clone(),
            ExtractError::NoMatch(message) => message.clone(),
            ExtractError::Ambiguous(message) => message.clone(),
        }
    }
}

/// Whether the mangled name of `symbol` is known and occurs in `header`.
pub open spec fn mangled_in(symbol: SymbolModel, header: Seq<char>) -> bool {
    symbol.mangled matches Some(mangled) && contains(header, mangled)
}

/// Whether the mangled prefix of `symbol` is not empty and occurs in `header`.
pub open spec fn prefix_in(symbol: SymbolModel, header: Seq<char>) -> bool {
    symbol.mangled_prefix.len() > 0 && contains(header, symbol.mangled_prefix)
}

/// The tier in which `block` matches `symbol`, or 0 where it does not match.
///
/// MIR: 1 where the text holds the path of the definition, else 2 where it
/// holds the name of the item. LLVM IR and assembly: 1 where the name of
/// the block holds the mangled name, else 2 where it holds the mangled
/// prefix, else 3 where the text holds the path of the definition or, for
/// assembly, the name of the item.
pub open spec fn tier_of(kind: ArtifactKind, symbol: SymbolModel, block: BlockModel) -> nat {
    match kind {
        ArtifactKind::Mir => {
            if contains(block.content, symbol.def_name) {
                1
            } else if contains(block.content, symbol.item_name) {
                2
            } else {
                0
            }
        },
        ArtifactKind::LlvmIr => {
            if mangled_in(symbol, block.header) {
                1
            } else if prefix_in(symbol, block.header) {
                2
            } else if contains(block.content, symbol.def_name) {
                3
            } else {
                0
            }
        },
        ArtifactKind::Assembly => {
            if mangled_in(symbol, block.header) {
                1
            } else if prefix_in(symbol, block.header) {
                2
            } else if contains(block.content, symbol.def_name) || contains(
                block.content,
                symbol.item_name,
            ) {
                3
            } else {
                0
            }
        },
    }
}

/// Those of `blocks` that match `symbol` in `tier`, in order.
pub open spec fn in_tier(
    kind: ArtifactKind,
    symbol: SymbolModel,
    blocks: Seq<BlockModel>,
    tier: nat,
) -> Seq<BlockModel>
    decreases blocks.len(),
{
    if blocks.len() == 0 {
        Seq::empty()
    } else {
        let before = in_tier(kind, symbol, blocks.drop_last(), tier);
        if tier_of(kind, symbol, blocks.last()) == tier {
            before.push(blocks.last())
        } else {
            before
        }
    }
}

/// The tier that decides: the first in which any block matches, and the
/// last tier where none matches at all.
pub open spec fn deciding_tier(kind: ArtifactKind, symbol: SymbolModel, blocks: Seq<BlockModel>)
    -> nat {
    if in_tier(kind, symbol, blocks, 1).len() > 0 {
        1
    } else if in_tier(kind, symbol, blocks, 2).len() > 0 {
        2
    } else {
        3
    }
}

/// What a message calls the output of `kind` when `tier` decided.
pub open spec fn what_label(kind: ArtifactKind, tier: nat) -> Seq<char> {
    match kind {
        ArtifactKind::Mir => "MIR"@,
        ArtifactKind::LlvmIr => if tier == 2 {
            "LLVM IR (prefix)"@
        } else {
            "LLVM IR"@
        },
        ArtifactKind::Assembly => if tier == 2 {
            "assembly (prefix)"@
        } else {
            "assembly"@
        },
    }
}

/// The names that were looked for, as a message lists them.
pub open spec fn looked_for(symbol: SymbolModel) -> Seq<Seq<char>> {
    let base = seq![
        "def-name `"@ + symbol.def_name + "`"@,
        "item name `"@ + symbol.item_name + "`"@,
    ];
    match symbol.mangled {
        Some(mangled) => base.push("mangled `"@ + mangled + "`"@),
        None => if symbol.mangled_prefix.len() > 0 {
            base.push("mangled prefix `"@ + symbol.mangled_prefix + "`"@)
        } else {
            base
        },
    }
}

/// The message for a search that matched nothing.
pub open spec fn no_match_message(what: Seq<char>, symbol: SymbolModel) -> Seq<char> {
    "No "@ + what + " match found for `"@ + symbol.def_name + "` (looked for "@ + join(
        looked_for(symbol),
        ", "@,
    ) + ")"@
}

/// The message for a search that matched the blocks named `headers`.
pub open spec fn ambiguous_message(what: Seq<char>, def_name: Seq<char>, headers: Seq<Seq<char>>)
    -> Seq<char> {
    "Multiple "@ + what + " candidates matched `"@ + def_name + "`: "@ + join(headers, ", "@)
}

/// The message for a search in assembly that was not built for `target`.
pub open spec fn no_target_message(target: Seq<char>) -> Seq<char> {
    "No assembly artifacts available for target "@ + target
}

/// The names of `blocks`.
pub open spec fn headers_of(blocks: Seq<BlockModel>) -> Seq<Seq<char>> {
    blocks.map_values(|block: BlockModel| block.header)
}

/// What the candidates `matches` give: the text of the only one, or the
/// error that names none or several.
pub open spec fn selected(what: Seq<char>, symbol: SymbolModel, matches: Seq<BlockModel>)
    -> Outcome {
    if matches.len() == 0 {
        Outcome::NoMatch(no_match_message(what, symbol))
    } else if matches.len() > 1 {
        Outcome::Ambiguous(ambiguous_message(what, symbol.def_name, headers_of(matches)))
    } else {
        Outcome::Found(matches[0].content)
    }
}

/// The blocks of all `outputs`, in order.
pub open spec fn all_blocks(kind: ArtifactKind, outputs: Seq<Seq<char>>) -> Seq<BlockModel>
    decreases outputs.len(),
{
    if outputs.len() == 0 {
        Seq::empty()
    } else {
        all_blocks(kind, outputs.drop_last()) + blocks_of(kind, outputs.last())
    }
}

/// What a search for `symbol` among `blocks` gives.
pub open spec fn picked(kind: ArtifactKind, symbol: SymbolModel, blocks: Seq<BlockModel>)
    -> Outcome {
    let tier = deciding_tier(kind, symbol, blocks);
    selected(what_label(kind, tier), symbol, in_tier(kind, symbol, blocks, tier))
}

/// What a search for `symbol` in `outputs`, which are output of `kind`, gives.
pub open spec fn extracted(kind: ArtifactKind, outputs: Seq<Seq<char>>, symbol: SymbolModel)
    -> Outcome {
    picked(kind, symbol, all_blocks(kind, outputs))
}

/// The names of a symbol as characters.
struct SymbolChars {
    def_name: Vec<char>,
    item_name: Vec<char>,
    mangled: Option<Vec<char>>,
    mangled_prefix: Vec<char>,
}

impl SymbolChars {
    spec fn describes(&self, symbol: SymbolModel) -> bool {
        &&& self.def_name@ == symbol.def_name
        &&& self.item_name@ == symbol.item_name
        &&& self.mangled_prefix@ == symbol.mangled_prefix
        &&& match self.mangled {
            Some(mangled) => symbol.mangled == Some(mangled@),
            None => symbol.mangled is None,
        }
    }

    fn of(symbol: &NormalizedSymbol) -> (chars: SymbolChars)
        ensures
            chars.describes(symbol.model()),
    {
        SymbolChars {
            def_name: to_chars(symbol.def_name.as_str()),
            item_name: to_chars(symbol.item_name.as_str()),
            mangled: match &symbol.mangled {
                Some(mangled) => Some(to_chars(mangled.as_str())),
                None => None,
            },
            mangled_prefix: to_chars(symbol.mangled_prefix.as_str()),
        }
    }
}

/// Decides [`mangled_in`].
fn header_has_mangled(names: &SymbolChars, header: &Vec<char>, Ghost(symbol): Ghost<SymbolModel>)
    -> (b: bool)
    requires
        names.describes(symbol),
    ensures
        b == mangled_in(symbol, header@),
{
    match &names.mangled {
        Some(mangled) => contains_chars(header.as_slice(), mangled.as_slice()),
        None => false,
    }
}

/// Decides [`prefix_in`].
fn header_has_prefix(names: &SymbolChars, header: &Vec<char>, Ghost(symbol): Ghost<SymbolModel>)
    -> (b: bool)
    requires
        names.describes(symbol),
    ensures
        b == prefix_in(symbol, header@),
{
    names.mangled_prefix.len() > 0 && contains_chars(
        header.as_slice(),
        names.mangled_prefix.as_slice(),
    )
}

/// Computes [`tier_of`].
fn block_tier(
    kind: ArtifactKind,
    names: &SymbolChars,
    block: &Block,
    Ghost(symbol): Ghost<SymbolModel>,
) -> (tier: u8)
    requires
        names.describes(symbol),
    ensures
        tier == tier_of(kind, symbol, block@),
{
    match kind {
        ArtifactKind::Mir => {
            if contains_chars(block.content.as_slice(), names.def_name.as_slice()) {
                1
            } else if contains_chars(block.content.as_slice(), names.item_name.as_slice()) {
                2
            } else {
                0
            }
        },
        ArtifactKind::LlvmIr => {
            if header_has_mangled(names, &block.header, Ghost(symbol)) {
                1
            } else if header_has_prefix(names, &block.header, Ghost(symbol)) {
                2
            } else if contains_chars(block.content.as_slice(), names.def_name.as_slice()) {
                3
            } else {
                0
            }
        },
        ArtifactKind::Assembly => {
            if header_has_mangled(names, &block.header, Ghost(symbol)) {
                1
            } else if header_has_prefix(names, &block.header, Ghost(symbol)) {
                2
            } else if contains_chars(block.content.as_slice(), names.def_name.as_slice())
                || contains_chars(block.content.as_slice(), names.item_name.as_slice()) {
                3
            } else {
                0
            }
        },
    }
}

/// What a message calls the output of `kind` when `tier` decided.
fn label_for(kind: ArtifactKind, tier: u8) -> (what: &'static str)
    ensures
        what@ == what_label(kind, tier as nat),
{
    match kind {
        ArtifactKind::Mir => "MIR",
        ArtifactKind::LlvmIr => if tier == 2 {
            "LLVM IR (prefix)"
        } else {
            "LLVM IR"
        },
        ArtifactKind::Assembly => if tier == 2 {
            "assembly (prefix)"
        } else {
            "assembly"
        },
    }
}

/// `open`, `text` and `close` in one string.
fn quoted(open: &str, text: &str, close: &str) -> (out: String)
    ensures
        out@ == open@ + text@ + close@,
{
    let mut out = String::from_str(open);
    out.append(text);
    out.append(close);
    out
}

/// The message for a search that matched nothing.
fn make_no_match_message(what: &str, symbol: &NormalizedSymbol) -> (message: String)
    ensures
        message@ == no_match_message(what@, symbol.model()),
{
    let mut names: Vec<String> = Vec::new();
    names.push(quoted("def-name `", symbol.def_name.as_str(), "`"));
    names.push(quoted("item name `", symbol.item_name.as_str(), "`"));
    match &symbol.mangled {
        Some(mangled) => {
            names.push(quoted("mangled `", mangled.as_str(), "`"));
        },
        None => {
            if symbol.mangled_prefix.as_str().unicode_len() > 0 {
                names.push(quoted("mangled prefix `", symbol.mangled_prefix.as_str(), "`"));
            }
        },
    }
    assert(strs(names@) == looked_for(symbol.model()));
    let listed = join_strings(&names, ", ");
    let mut message = String::from_str("No ");
    message.append(what);
    message.append(" match found for `");
    message.append(symbol.def_name.as_str());
    message.append("` (looked for ");
    message.append(listed.as_str());
    message.append(")");
    message
}

/// The message for a search that matched the blocks named `headers`.
fn make_ambiguous_message(what: &str, def_name: &str, headers: &Vec<String>) -> (message: String)
    ensures
        message@ == ambiguous_message(what@, def_name@, strs(headers@)),
{
    let listed = join_strings(headers, ", ");
    let mut message = String::from_str("Multiple ");
    message.append(what);
    message.append(" candidates matched `");
    message.append(def_name);
    message.append("`: ");
    message.append(listed.as_str());
    message
}

/// Picks the block of `symbol` out of `blocks`.
fn pick(kind: ArtifactKind, blocks: &Vec<Block>, symbol: &NormalizedSymbol) -> (result: Result<
    String,
    ExtractError,
>)
    ensures
        outcome_of(result) == picked(kind, symbol.model(), block_models(blocks@)),
{
    let ghost model = symbol.model();
    let ghost all = block_models(blocks@);
    let names = SymbolChars::of(symbol);
    let mut tiers: Vec<u8> = Vec::new();
    let mut first_tier_hit = false;
    let mut second_tier_hit = false;
    let mut i: usize = 0;
    while i < blocks.len()
        invariant
            i <= blocks.len(),
            all == block_models(blocks@),
            names.describes(model),
            tiers.len() == i,
            forall|k: int| 0 <= k < i ==> #[trigger] tiers@[k] == tier_of(kind, model, all[k]),
            first_tier_hit == (in_tier(kind, model, all.take(i as int), 1).len() > 0),
            second_tier_hit == (in_tier(kind, model, all.take(i as int), 2).len() > 0),
        decreases blocks.len() - i,
    {
        let tier = block_tier(kind, &names, &blocks[i], Ghost(model));
        proof {
            assert(all.take(i + 1).drop_last() == all.take(i as int));
            assert(all.take(i + 1).last() == blocks@[i as int]@);
        }
        tiers.push(tier);
        if tier == 1 {
            first_tier_hit = true;
        }
        if tier == 2 {
            second_tier_hit = true;
        }
        i += 1;
    }
    assert(all.take(blocks.len() as int) == all);
    let tier: u8 = if first_tier_hit {
        1
    } else if second_tier_hit {
        2
    } else {
        3
    };
    assert(tier == deciding_tier(kind, model, all));
    let mut matches: Vec<Block> = Vec::new();
    let mut j: usize = 0;
    while j < blocks.len()
        invariant
            j <= blocks.len(),
            all == block_models(blocks@),
            tiers.len() == blocks.len(),
            forall|k: int|
                0 <= k < tiers.len() ==> #[trigger] tiers@[k] == tier_of(kind, model, all[k]),
            block_models(matches@) == in_tier(kind, model, all.take(j as int), tier as nat),
        decreases blocks.len() - j,
    {
        proof {
            assert(all.take(j + 1).drop_last() == all.take(j as int));
            assert(all.take(j + 1).last() == blocks@[j as int]@);
        }
        if tiers[j] == tier {
            let ghost before = block_models(matches@);
            let block = &blocks[j];
            let copy = Block {
                header: copy_range(block.header.as_slice(), 0, block.header.len()),
                content: copy_range(block.content.as_slice(), 0, block.content.len()),
            };
            proof {
                assert(block.header@.subrange(0, block.header.len() as int) == block.header@);
                assert(block.content@.subrange(0, block.content.len() as int) == block.content@);
            }
            matches.push(copy);
            assert(block_models(matches@) == before.push(all[j as int]));
        }
        j += 1;
    }
    assert(all.take(blocks.len() as int) == all);
    select_unique_match(&matches, label_for(kind, tier), symbol)
}

/// The text of the only one of `matches`, or the error that names none or
/// several. `what` is what the message calls the output searched.
pub fn select_unique_match(matches: &Vec<Block>, what: &str, symbol: &NormalizedSymbol) -> (result:
    Result<String, ExtractError>)
    ensures
        outcome_of(result) == selected(what@, symbol.model(), block_models(matches@)),
{
    if matches.len() == 0 {
        return Err(ExtractError::NoMatch(make_no_match_message(what, symbol)));
    }
    if matches.len() > 1 {
        let ghost all = block_models(matches@);
        let mut headers: Vec<String> = Vec::new();
        let mut i: usize = 0;
        while i < matches.len()
            invariant
                i <= matches.len(),
                all == block_models(matches@),
                strs(headers@) == headers_of(all.take(i as int)),
            decreases matches.len() - i,
        {
            let ghost before = strs(headers@);
            headers.push(from_chars(matches[i].header.as_slice()));
            proof {
                assert(strs(headers@) == before.push(all[i as int].header));
                assert(headers_of(all.take(i + 1)) == headers_of(all.take(i as int)).push(
                    all[i as int].header,
                ));
            }
            i += 1;
        }
        assert(all.take(matches.len() as int) == all);
        return Err(
            ExtractError::Ambiguous(
                make_ambiguous_message(what, symbol.def_name.as_str(), &headers),
            ),
        );
    }
    Ok(from_chars(matches[0].content.as_slice()))
}

/// Appends the blocks of `text` to `blocks`.
fn push_blocks(blocks: &mut Vec<Block>, kind: ArtifactKind, text: &str)
    ensures
        block_models(final(blocks)@) == block_models(old(blocks)@) + blocks_of(kind, text@),
{
    let ghost before = block_models(blocks@);
    let mut more = split_blocks(kind, text);
    let ghost added = block_models(more@);
    blocks.append(&mut more);
    assert(block_models(blocks@) == before + added);
}

/// The blocks of all `outputs`, in order.
fn collect_blocks(kind: ArtifactKind, outputs: &[String]) -> (blocks: Vec<Block>)
    ensures
        block_models(blocks@) == all_blocks(kind, strs(outputs@)),
{
    let ghost texts = strs(outputs@);
    let mut blocks: Vec<Block> = Vec::new();
    let mut i: usize = 0;
    while i < outputs.len()
        invariant
            i <= outputs.len(),
            texts == strs(outputs@),
            block_models(blocks@) == all_blocks(kind, texts.take(i as int)),
        decreases outputs.len() - i,
    {
        proof {
            assert(texts.take(i + 1).drop_last() == texts.take(i as int));
            assert(texts.take(i + 1).last() == outputs@[i as int]@);
        }
        push_blocks(&mut blocks, kind, outputs[i].as_str());
        i += 1;
    }
    assert(texts.take(outputs.len() as int) == texts);
    blocks
}

/// The MIR of `symbol` out of `mir_outputs`.
///
/// A block that holds the path of the definition wins over one that only
/// holds the name of the item.
pub fn extract_mir(mir_outputs: &[String], symbol: &NormalizedSymbol) -> (result: Result<
    String,
    ExtractError,
>)
    ensures
        outcome_of(result) == extracted(ArtifactKind::Mir, strs(mir_outputs@), symbol.model()),
{
    let blocks = collect_blocks(ArtifactKind::Mir, mir_outputs);
    pick(ArtifactKind::Mir, &blocks, symbol)
}

/// The LLVM IR of `symbol` out of `llvm_outputs`.
///
/// A definition whose name holds the mangled name wins over one whose name
/// holds the mangled prefix, and that over one whose text holds the path
/// of the definition.
pub fn extract_llvm_ir(llvm_outputs: &[String], symbol: &NormalizedSymbol) -> (result: Result<
    String,
    ExtractError,
>)
    ensures
        outcome_of(result) == extracted(
            ArtifactKind::LlvmIr,
            strs(llvm_outputs@),
            symbol.model(),
        ),
{
    let blocks = collect_blocks(ArtifactKind::LlvmIr, llvm_outputs);
    pick(ArtifactKind::LlvmIr, &blocks, symbol)
}

/// What an assembly holds, as plain values.
pub struct AssemblyModel {
    pub target: Seq<char>,
    pub content: Seq<char>,
}

impl View for TargetedAssembly {
    type V = AssemblyModel;

    open spec fn view(&self) -> AssemblyModel {
        AssemblyModel { target: self.target@, content: self.content@ }
    }
}

/// The models of a slice's assemblies.
pub open spec fn assembly_models(v: Seq<TargetedAssembly>) -> Seq<AssemblyModel> {
    v.map_values(|assembly: TargetedAssembly| assembly@)
}

/// The texts of those of `assemblies` that were built for `target`, in order.
pub open spec fn built_for(assemblies: Seq<AssemblyModel>, target: Seq<char>) -> Seq<Seq<char>>
    decreases assemblies.len(),
{
    if assemblies.len() == 0 {
        Seq::empty()
    } else {
        let before = built_for(assemblies.drop_last(), target);
        if assemblies.last().target == target {
            before.push(assemblies.last().content)
        } else {
            before
        }
    }
}

/// What a search for `symbol` in the assembly built for `target` gives.
pub open spec fn extracted_asm(
    assemblies: Seq<AssemblyModel>,
    symbol: SymbolModel,
    target: Seq<char>,
) -> Outcome {
    if built_for(assemblies, target).len() == 0 {
        Outcome::NoArtifactsForTarget(no_target_message(target))
    } else {
        extracted(ArtifactKind::Assembly, built_for(assemblies, target), symbol)
    }
}

/// The assembly of `symbol` out of those of `assemblies` that were built
/// for `target_triple`.
///
/// Where none was built for it, the search fails with
/// `No assembly artifacts available for target` and the triple. Otherwise
/// a block whose label holds the mangled name wins over one whose label
/// holds the mangled prefix, and that over one whose text holds the path
/// of the definition or the name of the item.
pub fn extract_asm(assemblies: &[TargetedAssembly], symbol: &NormalizedSymbol, target_triple: &str)
    -> (result: Result<String, ExtractError>)
    ensures
        outcome_of(result) == extracted_asm(
            assembly_models(assemblies@),
            symbol.model(),
            target_triple@,
        ),
{
    let ghost models = assembly_models(assemblies@);
    let wanted = String::from_str(target_triple);
    let mut blocks: Vec<Block> = Vec::new();
    let mut found_target = false;
    let mut i: usize = 0;
    while i < assemblies.len()
        invariant
            i <= assemblies.len(),
            models == assembly_models(assemblies@),
            wanted@ == target_triple@,
            found_target == (built_for(models.take(i as int), target_triple@).len() > 0),
            block_models(blocks@) == all_blocks(
                ArtifactKind::Assembly,
                built_for(models.take(i as int), target_triple@),
            ),
        decreases assemblies.len() - i,
    {
        proof {
            assert(models.take(i + 1).drop_last() == models.take(i as int));
            assert(models.take(i + 1).last() == assemblies@[i as int]@);
        }
        if assemblies[i].target == wanted {
            let ghost texts = built_for(models.take(i as int), target_triple@);
            found_target = true;
            push_blocks(&mut blocks, ArtifactKind::Assembly, assemblies[i].content.as_str());
            assert(texts.push(assemblies@[i as int].content@).drop_last() == texts);
        }
        i += 1;
    }
    assert(models.take(assemblies.len() as int) == models);
    if !found_target {
        let mut message = String::from_str("No assembly artifacts available for target ");
        message.append(target_triple);
        return Err(ExtractError::NoArtifactsForTarget(message));
    }
    pick(ArtifactKind::Assembly, &blocks, symbol)
}

/// Every block of a tier is one of the blocks and matches in that tier.
pub proof fn lemma_in_tier_members(
    kind: ArtifactKind,
    symbol: SymbolModel,
    blocks: Seq<BlockModel>,
    tier: nat,
    k: int,
)
    requires
        0 <= k < in_tier(kind, symbol, blocks, tier).len(),
    ensures
        exists|j: int|
            0 <= j < blocks.len() && #[trigger] blocks[j] == in_tier(kind, symbol, blocks, tier)[k]
                && tier_of(kind, symbol, blocks[j]) == tier,
    decreases blocks.len(),
{
    if blocks.len() > 0 {
        let before = in_tier(kind, symbol, blocks.drop_last(), tier);
        if k < before.len() {
            lemma_in_tier_members(kind, symbol, blocks.drop_last(), tier, k);
            let j = choose|j: int|
                0 <= j < blocks.drop_last().len() && #[trigger] blocks.drop_last()[j] == before[k]
                    && tier_of(kind, symbol, blocks.drop_last()[j]) == tier;
            assert(blocks[j] == blocks.drop_last()[j]);
        } else {
            assert(blocks[blocks.len() - 1] == in_tier(kind, symbol, blocks, tier)[k]);
        }
    }
}

/// A tier in which no block matches is empty.
pub proof fn lemma_in_tier_empty(
    kind: ArtifactKind,
    symbol: SymbolModel,
    blocks: Seq<BlockModel>,
    tier: nat,
)
    requires
        forall|j: int| 0 <= j < blocks.len() ==> tier_of(kind, symbol, #[trigger] blocks[j]) != tier,
    ensures
        in_tier(kind, symbol, blocks, tier).len() == 0,
    decreases blocks.len(),
{
    if blocks.len() > 0 {
        assert forall|j: int| 0 <= j < blocks.drop_last().len() implies tier_of(
            kind,
            symbol,
            #[trigger] blocks.drop_last()[j],
        ) != tier by {
            assert(blocks.drop_last()[j] == blocks[j]);
        }
        lemma_in_tier_empty(kind, symbol, blocks.drop_last(), tier);
        assert(tier_of(kind, symbol, blocks[blocks.len() - 1]) != tier);
    }
}

/// A tier in which one block matches, and no other, holds that block alone.
pub proof fn lemma_in_tier_single(
    kind: ArtifactKind,
    symbol: SymbolModel,
    blocks: Seq<BlockModel>,
    tier: nat,
    i: int,
)
    requires
        0 <= i < blocks.len(),
        tier_of(kind, symbol, blocks[i]) == tier,
        forall|j: int|
            0 <= j < blocks.len() && j != i ==> tier_of(kind, symbol, #[trigger] blocks[j]) != tier,
    ensures
        in_tier(kind, symbol, blocks, tier) == seq![blocks[i]],
    decreases blocks.len(),
{
    let rest = blocks.drop_last();
    if i == blocks.len() - 1 {
        assert forall|j: int| 0 <= j < rest.len() implies tier_of(kind, symbol, #[trigger] rest[j])
            != tier by {
            assert(rest[j] == blocks[j]);
        }
        lemma_in_tier_empty(kind, symbol, rest, tier);
        assert(in_tier(kind, symbol, blocks, tier) == seq![blocks[i]]);
    } else {
        assert forall|j: int| 0 <= j < rest.len() && j != i implies tier_of(
            kind,
            symbol,
            #[trigger] rest[j],
        ) != tier by {
            assert(rest[j] == blocks[j]);
        }
        assert(rest[i] == blocks[i]);
        lemma_in_tier_single(kind, symbol, rest, tier, i);
        assert(tier_of(kind, symbol, blocks[blocks.len() - 1]) != tier);
    }
}

/// A block whose name holds the mangled name of the symbol, where no
/// other block's does, is what the search gives, whatever else matches by
/// prefix or by name.
pub proof fn lemma_exact_match_wins(
    kind: ArtifactKind,
    symbol: SymbolModel,
    blocks: Seq<BlockModel>,
    i: int,
)
    requires
        kind != ArtifactKind::Mir,
        0 <= i < blocks.len(),
        mangled_in(symbol, blocks[i].header),
        forall|j: int|
            0 <= j < blocks.len() && j != i ==> !mangled_in(symbol, (#[trigger] blocks[j]).header),
    ensures
        picked(kind, symbol, blocks) == Outcome::Found(blocks[i].content),
{
    assert(tier_of(kind, symbol, blocks[i]) == 1);
    assert forall|j: int| 0 <= j < blocks.len() && j != i implies tier_of(
        kind,
        symbol,
        #[trigger] blocks[j],
    ) != 1 by {
        assert(!mangled_in(symbol, blocks[j].header));
    }
    lemma_in_tier_single(kind, symbol, blocks, 1, i);
}

/// Where several blocks match in the tier that decides, the search is
/// ambiguous; where one does, it is found; where none does, nothing is.
pub proof fn lemma_candidates_decide(kind: ArtifactKind, symbol: SymbolModel, blocks: Seq<BlockModel>)
    ensures
        ({
            let matches = in_tier(kind, symbol, blocks, deciding_tier(kind, symbol, blocks));
            &&& matches.len() > 1 ==> picked(kind, symbol, blocks) is Ambiguous
            &&& matches.len() == 1 ==> picked(kind, symbol, blocks) == Outcome::Found(
                matches[0].content,
            )
            &&& matches.len() == 0 ==> picked(kind, symbol, blocks) is NoMatch
        }),
{
}

/// Where a block matches in the first tier, what the search finds is a
/// block of the first tier: blocks that match only in a later tier are
/// never returned.
pub proof fn lemma_first_tier_excludes_others(
    kind: ArtifactKind,
    symbol: SymbolModel,
    blocks: Seq<BlockModel>,
    i: int,
)
    requires
        0 <= i < blocks.len(),
        tier_of(kind, symbol, blocks[i]) == 1,
    ensures
        deciding_tier(kind, symbol, blocks) == 1,
        picked(kind, symbol, blocks) matches Outcome::Found(text) ==> exists|j: int|
            0 <= j < blocks.len() && tier_of(kind, symbol, #[trigger] blocks[j]) == 1 && blocks[j].content
                == text,
{
    if in_tier(kind, symbol, blocks, 1).len() == 0 {
        lemma_tier_holds(kind, symbol, blocks, 1, i);
    }
    let matches = in_tier(kind, symbol, blocks, 1);
    if matches.len() == 1 {
        lemma_in_tier_members(kind, symbol, blocks, 1, 0);
    }
}

/// A block that matches in a tier is in that tier.
pub proof fn lemma_tier_holds(
    kind: ArtifactKind,
    symbol: SymbolModel,
    blocks: Seq<BlockModel>,
    tier: nat,
    i: int,
)
    requires
        0 <= i < blocks.len(),
        tier_of(kind, symbol, blocks[i]) == tier,
    ensures
        in_tier(kind, symbol, blocks, tier).len() > 0,
    decreases blocks.len(),
{
    if i < blocks.len() - 1 {
        assert(blocks.drop_last()[i] == blocks[i]);
        lemma_tier_holds(kind, symbol, blocks.drop_last(), tier, i);
    }
}

} // verus!
