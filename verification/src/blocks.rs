//! Compiler output cut into blocks, one for each item: MIR bodies, LLVM IR
//! definitions, and labelled stretches of assembly.

use crate::lines::{join, join_rows, lines, rows, split_lines};
use crate::text::{
    copy_range, find_char, from_chars, index_of_char, lemma_occurs_at_skip, skip_run, skip_run_back,
    skip_whitespace, skip_whitespace_back, starts_with, str_matches_at, strip_both, strip_end,
    to_chars, trim, trim_chars, trim_start,
};
use vstd::prelude::*;

verus! {

/// The kinds of compiler output that are cut into blocks.
#[derive(Debug, Clone, Copy, PartialEq, Eq, Structural)]
pub enum ArtifactKind {
    Mir,
    LlvmIr,
    Assembly,
}

/// A block of compiler output: the name it goes by and its text.
pub struct BlockModel {
    pub header: Seq<char>,
    pub content: Seq<char>,
}

/// A block of compiler output: the name it goes by and its text.
#[derive(Debug, Clone)]
pub struct Block {
    pub header: Vec<char>,
    pub content: Vec<char>,
}

impl View for Block {
    type V = BlockModel;

    open spec fn view(&self) -> BlockModel {
        BlockModel { header: self.header@, content: self.content@ }
    }
}

/// The models of a vector's blocks.
pub open spec fn block_models(v: Seq<Block>) -> Seq<BlockModel> {
    v.map_values(|b: Block| b@)
}

/// Whether `line` begins a MIR block: after white space it begins with
/// `fn `, `const `, `static ` or `promoted[`.
pub open spec fn mir_header(line: Seq<char>) -> bool {
    let rest = trim_start(line);
    ||| starts_with(rest, "fn "@)
    ||| starts_with(rest, "const "@)
    ||| starts_with(rest, "static "@)
    ||| starts_with(rest, "promoted["@)
}

/// Whether `line` begins an LLVM IR block: after white space it begins
/// with `define`.
pub open spec fn define_line(line: Seq<char>) -> bool {
    starts_with(trim_start(line), "define"@)
}

/// Whether `line` is a label of assembly: trimmed, it ends with a colon
/// and does not begin with `#`.
pub open spec fn label_line(line: Seq<char>) -> bool {
    let t = trim(line);
    t.len() > 0 && t.last() == ':' && t[0] != '#'
}

/// Whether `line` begins a block of output of `kind`.
pub open spec fn starts_block(kind: ArtifactKind, line: Seq<char>) -> bool {
    match kind {
        ArtifactKind::Mir => mir_header(line),
        ArtifactKind::LlvmIr => define_line(line),
        ArtifactKind::Assembly => label_line(line),
    }
}

/// The name that a `define` line defines: what stands between the first
/// `@` and the first `(` after it, without the double quotes around it.
/// A line without `@` defines no name.
pub open spec fn llvm_symbol_name(line: Seq<char>) -> Option<Seq<char>> {
    let at = index_of_char(line, '@');
    if 0 <= at < line.len() {
        let rest = line.skip(at + 1);
        Some(strip_both(rest.take(index_of_char(rest, '(')), '"'))
    } else {
        None
    }
}

/// The label that a label line of assembly holds: the trimmed line without
/// the colons at its end and without the double quotes around it.
pub open spec fn label_of(line: Seq<char>) -> Seq<char> {
    strip_both(strip_end(trim(line), ':'), '"')
}

/// The first line of `block`, trimmed; empty where the block has no line.
pub open spec fn first_line_trimmed(block: Seq<char>) -> Seq<char> {
    if lines(block).len() > 0 {
        trim(lines(block)[0])
    } else {
        Seq::empty()
    }
}

/// The first index from `from` on at which a line begins a block, or the
/// number of lines where none does.
pub open spec fn block_end(kind: ArtifactKind, all: Seq<Seq<char>>, from: int) -> int
    decreases all.len() - from,
{
    if from < 0 || from >= all.len() || starts_block(kind, all[from]) {
        from
    } else {
        block_end(kind, all, from + 1)
    }
}

/// The text of the block made of the lines `group`: the lines joined by
/// line feeds; a MIR block is trimmed as well.
pub open spec fn block_content(kind: ArtifactKind, group: Seq<Seq<char>>) -> Seq<char> {
    match kind {
        ArtifactKind::Mir => trim(join(group, seq!['\n'])),
        _ => join(group, seq!['\n']),
    }
}

/// The block that begins at line `i`, which begins a block. It runs up to
/// the next line that begins a block, or to the end. A MIR block goes by
/// its first line, an LLVM IR block by the name it defines, a block of
/// assembly by its label. A `define` line that names nothing gives no block.
pub open spec fn block_at(kind: ArtifactKind, all: Seq<Seq<char>>, i: int) -> Option<BlockModel> {
    let content = block_content(kind, all.subrange(i, block_end(kind, all, i + 1)));
    match kind {
        ArtifactKind::Mir => Some(BlockModel { header: first_line_trimmed(content), content }),
        ArtifactKind::LlvmIr => match llvm_symbol_name(all[i]) {
            Some(name) => Some(BlockModel { header: name, content }),
            None => None,
        },
        ArtifactKind::Assembly => Some(BlockModel { header: label_of(all[i]), content }),
    }
}

/// The blocks that begin in the first `n` lines, in order.
pub open spec fn blocks_before(kind: ArtifactKind, all: Seq<Seq<char>>, n: int) -> Seq<BlockModel>
    decreases n,
{
    if n <= 0 {
        Seq::empty()
    } else {
        let before = blocks_before(kind, all, n - 1);
        if starts_block(kind, all[n - 1]) {
            match block_at(kind, all, n - 1) {
                Some(block) => before.push(block),
                None => before,
            }
        } else {
            before
        }
    }
}

/// The blocks of `text`, which is output of `kind`. What stands before
/// the first block belongs to none.
pub open spec fn blocks_of(kind: ArtifactKind, text: Seq<char>) -> Seq<BlockModel> {
    blocks_before(kind, lines(text), lines(text).len() as int)
}

/// Decides [`mir_header`].
pub fn line_is_mir_header(line: &[char]) -> (b: bool)
    ensures
        b == mir_header(line@),
{
    let start = skip_whitespace(line, 0, line.len());
    proof {
        assert(line@.subrange(0, line.len() as int) == line@);
        lemma_occurs_at_skip(line@, "fn "@, start as int);
        lemma_occurs_at_skip(line@, "const "@, start as int);
        lemma_occurs_at_skip(line@, "static "@, start as int);
        lemma_occurs_at_skip(line@, "promoted["@, start as int);
    }
    str_matches_at(line, "fn ", start) || str_matches_at(line, "const ", start) || str_matches_at(
        line,
        "static ",
        start,
    ) || str_matches_at(line, "promoted[", start)
}

/// Decides [`define_line`].
pub fn line_is_define(line: &[char]) -> (b: bool)
    ensures
        b == define_line(line@),
{
    let start = skip_whitespace(line, 0, line.len());
    proof {
        assert(line@.subrange(0, line.len() as int) == line@);
        lemma_occurs_at_skip(line@, "define"@, start as int);
    }
    str_matches_at(line, "define", start)
}

/// Decides [`label_line`].
pub fn line_is_label(line: &[char]) -> (b: bool)
    ensures
        b == label_line(line@),
{
    let start = skip_whitespace(line, 0, line.len());
    let end = skip_whitespace_back(line, start, line.len());
    proof {
        assert(line@.subrange(0, line.len() as int) == line@);
        assert(line@.subrange(start as int, line.len() as int) == trim_start(line@));
        assert(line@.subrange(start as int, end as int) == trim(line@));
    }
    end > start && line[end - 1] == ':' && line[start] != '#'
}

/// Decides [`starts_block`].
pub fn line_starts_block(kind: ArtifactKind, line: &[char]) -> (b: bool)
    ensures
        b == starts_block(kind, line@),
{
    match kind {
        ArtifactKind::Mir => line_is_mir_header(line),
        ArtifactKind::LlvmIr => line_is_define(line),
        ArtifactKind::Assembly => line_is_label(line),
    }
}

/// `chars[from..to]` without the double quotes around it.
fn unquoted(chars: &[char], from: usize, to: usize) -> (out: Vec<char>)
    requires
        from <= to <= chars.len(),
    ensures
        out@ == strip_both(chars@.subrange(from as int, to as int), '"'),
{
    let start = skip_run(chars, '"', from, to);
    let end = skip_run_back(chars, '"', start, to);
    proof {
        let s = chars@.subrange(from as int, to as int);
        assert(s.skip(start - from) == chars@.subrange(start as int, to as int));
        assert(chars@.subrange(start as int, to as int).take(end - start) == chars@.subrange(
            start as int,
            end as int,
        ));
    }
    copy_range(chars, start, end)
}

/// The name that the `define` line `line` defines.
pub fn line_symbol_name(line: &[char]) -> (name: Option<Vec<char>>)
    ensures
        name is Some <==> llvm_symbol_name(line@) is Some,
        name matches Some(n) ==> Some(n@) == llvm_symbol_name(line@),
{
    let n = line.len();
    let at = find_char(line, '@', 0, n);
    assert(line@.subrange(0, n as int) == line@);
    if at == n {
        return None;
    }
    let stop = find_char(line, '(', at + 1, n);
    proof {
        let rest = line@.skip(at + 1);
        assert(rest == line@.subrange(at + 1, n as int));
        assert(rest.take(stop - (at + 1)) == line@.subrange(at + 1, stop as int));
    }
    Some(unquoted(line, at + 1, stop))
}

/// The label that the label line `line` holds.
pub fn line_label(line: &[char]) -> (label: Vec<char>)
    ensures
        label@ == label_of(line@),
{
    let start = skip_whitespace(line, 0, line.len());
    let end = skip_whitespace_back(line, start, line.len());
    let stop = skip_run_back(line, ':', start, end);
    proof {
        assert(line@.subrange(0, line.len() as int) == line@);
        assert(line@.subrange(start as int, line.len() as int) == trim_start(line@));
        assert(line@.subrange(start as int, end as int) == trim(line@));
        assert(trim(line@).take(stop - start) == line@.subrange(start as int, stop as int));
    }
    unquoted(line, start, stop)
}

/// [`first_line_trimmed`] of `block`.
pub fn first_line_of(block: &[char]) -> (header: Vec<char>)
    ensures
        header@ == first_line_trimmed(block@),
{
    let all = split_lines(block);
    if all.len() > 0 {
        assert(rows(all@)[0] == all@[0]@);
        trim_chars(all[0].as_slice())
    } else {
        Vec::new()
    }
}

/// The index at which the block that holds line `from` ends.
fn find_block_end(kind: ArtifactKind, all: &Vec<Vec<char>>, from: usize) -> (end: usize)
    requires
        from <= all.len(),
    ensures
        from <= end <= all.len(),
        end == block_end(kind, rows(all@), from as int),
{
    let ghost model = rows(all@);
    let mut end: usize = from;
    while end < all.len()
        invariant
            from <= end <= all.len(),
            model == rows(all@),
            block_end(kind, model, from as int) == block_end(kind, model, end as int),
        decreases all.len() - end,
    {
        assert(model[end as int] == all@[end as int]@);
        if line_starts_block(kind, all[end].as_slice()) {
            return end;
        }
        end += 1;
    }
    end
}

/// The block that begins at line `i`.
fn make_block(kind: ArtifactKind, all: &Vec<Vec<char>>, i: usize) -> (block: Option<Block>)
    requires
        i < all.len(),
    ensures
        block is Some <==> block_at(kind, rows(all@), i as int) is Some,
        block matches Some(b) ==> Some(b@) == block_at(kind, rows(all@), i as int),
{
    let end = find_block_end(kind, all, i + 1);
    let mut feed: Vec<char> = Vec::new();
    feed.push('\n');
    assert(feed@ == seq!['\n']);
    let joined = join_rows(all, i, end, feed.as_slice());
    assert(rows(all@)[i as int] == all@[i as int]@);
    match kind {
        ArtifactKind::Mir => {
            let content = trim_chars(joined.as_slice());
            let header = first_line_of(content.as_slice());
            Some(Block { header, content })
        },
        ArtifactKind::LlvmIr => {
            match line_symbol_name(all[i].as_slice()) {
                Some(header) => Some(Block { header, content: joined }),
                None => None,
            }
        },
        ArtifactKind::Assembly => {
            let header = line_label(all[i].as_slice());
            Some(Block { header, content: joined })
        },
    }
}

/// Cuts `text`, which is output of `kind`, into its blocks.
pub fn split_blocks(kind: ArtifactKind, text: &str) -> (out: Vec<Block>)
    ensures
        block_models(out@) == blocks_of(kind, text@),
{
    let chars = to_chars(text);
    let all = split_lines(chars.as_slice());
    let ghost model = rows(all@);
    let mut out: Vec<Block> = Vec::new();
    let mut i: usize = 0;
    while i < all.len()
        invariant
            i <= all.len(),
            model == rows(all@),
            model == lines(text@),
            block_models(out@) == blocks_before(kind, model, i as int),
        decreases all.len() - i,
    {
        assert(model[i as int] == all@[i as int]@);
        if line_starts_block(kind, all[i].as_slice()) {
            let ghost before = block_models(out@);
            match make_block(kind, &all, i) {
                Some(block) => {
                    out.push(block);
                    assert(block_models(out@) == before.push(block@));
                },
                None => {},
            }
        }
        i += 1;
    }
    out
}

/// Whether `line` begins a MIR block.
pub fn is_mir_header(line: &str) -> (b: bool)
    ensures
        b == mir_header(line@),
{
    let chars = to_chars(line);
    line_is_mir_header(chars.as_slice())
}

/// The name that the `define` line `line` defines.
pub fn extract_llvm_symbol_name(line: &str) -> (name: Option<String>)
    ensures
        name is Some <==> llvm_symbol_name(line@) is Some,
        name matches Some(n) ==> Some(n@) == llvm_symbol_name(line@),
{
    let chars = to_chars(line);
    match line_symbol_name(chars.as_slice()) {
        Some(name) => Some(from_chars(name.as_slice())),
        None => None,
    }
}

/// The first line of `block`, trimmed.
pub fn block_header(block: &str) -> (header: String)
    ensures
        header@ == first_line_trimmed(block@),
{
    let chars = to_chars(block);
    let header = first_line_of(chars.as_slice());
    from_chars(header.as_slice())
}

/// The texts of `blocks`.
pub open spec fn contents_of(blocks: Seq<BlockModel>) -> Seq<Seq<char>> {
    blocks.map_values(|block: BlockModel| block.content)
}

/// The names and texts of `blocks`.
pub open spec fn named_contents_of(blocks: Seq<BlockModel>) -> Seq<(Seq<char>, Seq<char>)> {
    blocks.map_values(|block: BlockModel| (block.header, block.content))
}

/// The texts of a vector's pairs of strings.
pub open spec fn pair_texts(v: Seq<(String, String)>) -> Seq<(Seq<char>, Seq<char>)> {
    v.map_values(|pair: (String, String)| (pair.0@, pair.1@))
}

/// The MIR blocks of `output`: each runs from a line that begins a block
/// up to the next such line, and is trimmed.
pub fn split_mir_blocks(output: &str) -> (out: Vec<String>)
    ensures
        out@.map_values(|s: String| s@) == contents_of(blocks_of(ArtifactKind::Mir, output@)),
{
    let blocks = split_blocks(ArtifactKind::Mir, output);
    let ghost models = block_models(blocks@);
    let mut out: Vec<String> = Vec::new();
    let mut i: usize = 0;
    while i < blocks.len()
        invariant
            i <= blocks.len(),
            models == block_models(blocks@),
            out@.map_values(|s: String| s@) == contents_of(models.take(i as int)),
        decreases blocks.len() - i,
    {
        let ghost before = out@.map_values(|s: String| s@);
        out.push(from_chars(blocks[i].content.as_slice()));
        proof {
            assert(out@.map_values(|s: String| s@) == before.push(models[i as int].content));
            assert(contents_of(models.take(i + 1)) == contents_of(models.take(i as int)).push(
                models[i as int].content,
            ));
        }
        i += 1;
    }
    assert(models.take(blocks.len() as int) == models);
    out
}

/// The blocks of `output`, which is output of `kind`, each as its name and
/// its text.
fn split_named_blocks(kind: ArtifactKind, output: &str) -> (out: Vec<(String, String)>)
    ensures
        pair_texts(out@) == named_contents_of(blocks_of(kind, output@)),
{
    let blocks = split_blocks(kind, output);
    let ghost models = block_models(blocks@);
    let mut out: Vec<(String, String)> = Vec::new();
    let mut i: usize = 0;
    while i < blocks.len()
        invariant
            i <= blocks.len(),
            models == block_models(blocks@),
            pair_texts(out@) == named_contents_of(models.take(i as int)),
        decreases blocks.len() - i,
    {
        let ghost before = pair_texts(out@);
        let pair = (
            from_chars(blocks[i].header.as_slice()),
            from_chars(blocks[i].content.as_slice()),
        );
        out.push(pair);
        proof {
            assert(pair_texts(out@) == before.push(
                (models[i as int].header, models[i as int].content),
            ));
            assert(named_contents_of(models.take(i + 1)) == named_contents_of(
                models.take(i as int),
            ).push((models[i as int].header, models[i as int].content)));
        }
        i += 1;
    }
    assert(models.take(blocks.len() as int) == models);
    out
}

/// The definitions of the LLVM IR `output`, each as the name it defines
/// and its text: from a `define` line up to the next one.
pub fn split_llvm_blocks(output: &str) -> (out: Vec<(String, String)>)
    ensures
        pair_texts(out@) == named_contents_of(blocks_of(ArtifactKind::LlvmIr, output@)),
{
    split_named_blocks(ArtifactKind::LlvmIr, output)
}

/// The labelled stretches of the assembly `output`, each as its label and
/// its text: from a label line up to the next one.
pub fn split_asm_blocks(output: &str) -> (out: Vec<(String, String)>)
    ensures
        pair_texts(out@) == named_contents_of(blocks_of(ArtifactKind::Assembly, output@)),
{
    split_named_blocks(ArtifactKind::Assembly, output)
}

} // verus!
