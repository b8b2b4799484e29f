//! The language-server messages that an inspection reads and writes.

use vstd::prelude::*;
use vstd::string::StringExecFns;

verus! {

/// A place in a document: line and character, both counted from zero.
#[derive(Debug, Clone, Copy, PartialEq, Eq, Structural)]
pub struct Position {
    pub line: u32,
    pub character: u32,
}

/// From `start` up to `end`.
#[derive(Debug, Clone, Copy, PartialEq, Eq, Structural)]
pub struct Range {
    pub start: Position,
    pub end: Position,
}

/// A range in the document that `uri` names.
#[derive(Debug, Clone)]
pub struct Location {
    pub uri: String,
    pub range: Range,
}

/// What a [`Location`] holds, as plain values.
pub struct LocationModel {
    pub uri: Seq<char>,
    pub range: Range,
}

impl View for Location {
    type V = LocationModel;

    open spec fn view(&self) -> LocationModel {
        LocationModel { uri: self.uri@, range: self.range }
    }
}

/// A link from a range in one document to a range in another.
#[derive(Debug, Clone)]
pub struct LocationLink {
    pub origin_selection_range: Option<Range>,
    pub target_uri: String,
    pub target_range: Range,
    pub target_selection_range: Range,
}

/// The document that `uri` names.
#[derive(Debug, Clone)]
pub struct TextDocumentIdentifier {
    pub uri: String,
}

/// A position in a document.
#[derive(Debug, Clone)]
pub struct TextDocumentPositionParams {
    pub text_document: TextDocumentIdentifier,
    pub position: Position,
}

/// The answer to a request for a definition.
#[derive(Debug, Clone)]
pub enum DefinitionResponse {
    SingleLocation(Location),
    LocationArray(Vec<Location>),
    LocationLinks(Vec<LocationLink>),
}

/// The parameters of a request for a document's symbols.
#[derive(Debug, Clone)]
pub struct DocumentSymbolParams {
    pub text_document: TextDocumentIdentifier,
}

/// A symbol of a document, with the symbols declared inside it.
#[derive(Debug)]
pub struct DocumentSymbol {
    pub name: String,
    pub detail: Option<String>,
    pub kind: u32,
    pub range: Range,
    pub selection_range: Range,
    pub children: Option<Vec<DocumentSymbol>>,
}

/// A symbol of a document, in the flat form.
#[derive(Debug, Clone)]
pub struct SymbolInformation {
    pub name: String,
    pub kind: u32,
    pub location: Location,
    pub container_name: Option<String>,
}

/// The answer to a request for a document's symbols.
#[derive(Debug)]
pub enum DocumentSymbolResponse {
    DocumentSymbols(Vec<DocumentSymbol>),
    SymbolInformation(Vec<SymbolInformation>),
}

/// One step on the way from a document's top to a symbol: the name of a
/// symbol and the code of its kind.
#[derive(Debug, Clone)]
pub struct SymbolPathSegment {
    pub name: String,
    pub kind: u32,
}

/// What a [`SymbolPathSegment`] holds, as plain values.
pub struct SegmentModel {
    pub name: Seq<char>,
    pub kind: u32,
}

impl View for SymbolPathSegment {
    type V = SegmentModel;

    open spec fn view(&self) -> SegmentModel {
        SegmentModel { name: self.name@, kind: self.kind }
    }
}

/// The way from a document's top to a symbol, outermost first.
pub type SymbolPath = Vec<SymbolPathSegment>;

/// The models of a path's segments.
pub open spec fn path_model(path: Seq<SymbolPathSegment>) -> Seq<SegmentModel> {
    path.map_values(|segment: SymbolPathSegment| segment@)
}

/// Whether and how a request for references counts the declaration.
#[derive(Debug, Clone, Copy, PartialEq, Eq, Structural)]
pub struct ReferenceContext {
    pub include_declaration: bool,
}

/// The parameters of a request for the references to a symbol.
#[derive(Debug, Clone)]
pub struct ReferenceParams {
    pub text_document: TextDocumentIdentifier,
    pub position: Position,
    pub context: ReferenceContext,
}

/// The parameters of a search for symbols in the workspace.
#[derive(Debug, Clone)]
pub struct WorkspaceSymbolParams {
    pub query: String,
}

/// The parameters of a request to rename a symbol.
#[derive(Debug, Clone)]
pub struct RenameParams {
    pub text_document: TextDocumentIdentifier,
    pub position: Position,
    pub new_name: String,
}

/// How a document is to be formatted.
#[derive(Debug, Clone, Copy, PartialEq, Eq, Structural)]
pub struct FormattingOptions {
    pub tab_size: u32,
    pub insert_spaces: bool,
}

/// The parameters of a request to format a document.
#[derive(Debug, Clone)]
pub struct DocumentFormattingParams {
    pub text_document: TextDocumentIdentifier,
    pub options: FormattingOptions,
}

/// The URI of the file at `file_path`.
pub open spec fn file_uri(file_path: Seq<char>) -> Seq<char> {
    "file://"@ + file_path
}

/// The URI of the file at `file_path`.
pub fn make_file_uri(file_path: &str) -> (uri: String)
    ensures
        uri@ == file_uri(file_path@),
{
    let mut uri = String::from_str("file://");
    uri.append(file_path);
    uri
}

/// The parameters that name the position `line`, `character` in the file
/// at `file_path`.
pub fn create_text_document_position_params(file_path: &str, line: u32, character: u32) -> (params:
    TextDocumentPositionParams)
    ensures
        params.text_document.uri@ == file_uri(file_path@),
        params.position == (Position { line, character }),
{
    TextDocumentPositionParams {
        text_document: TextDocumentIdentifier { uri: make_file_uri(file_path) },
        position: Position { line, character },
    }
}

/// The parameters that ask for the references to the symbol at `line`,
/// `character` in the file at `file_path`, the declaration included.
pub fn create_references_params(file_path: &str, line: u32, character: u32) -> (params:
    ReferenceParams)
    ensures
        params.text_document.uri@ == file_uri(file_path@),
        params.position == (Position { line, character }),
        params.context.include_declaration,
{
    ReferenceParams {
        text_document: TextDocumentIdentifier { uri: make_file_uri(file_path) },
        position: Position { line, character },
        context: ReferenceContext { include_declaration: true },
    }
}

/// The parameters that search the workspace for `query`.
pub fn create_workspace_symbol_params(query: &str) -> (params: WorkspaceSymbolParams)
    ensures
        params.query@ == query@,
{
    WorkspaceSymbolParams { query: String::from_str(query) }
}

/// The parameters that rename the symbol at `line`, `character` in the
/// file at `file_path` to `new_name`.
pub fn create_rename_params(file_path: &str, line: u32, character: u32, new_name: &str) -> (params:
    RenameParams)
    ensures
        params.text_document.uri@ == file_uri(file_path@),
        params.position == (Position { line, character }),
        params.new_name@ == new_name@,
{
    RenameParams {
        text_document: TextDocumentIdentifier { uri: make_file_uri(file_path) },
        position: Position { line, character },
        new_name: String::from_str(new_name),
    }
}

/// The parameters that format the file at `file_path` with four spaces to
/// a level.
pub fn create_formatting_params(file_path: &str) -> (params: DocumentFormattingParams)
    ensures
        params.text_document.uri@ == file_uri(file_path@),
        params.options == (FormattingOptions { tab_size: 4, insert_spaces: true }),
{
    DocumentFormattingParams {
        text_document: TextDocumentIdentifier { uri: make_file_uri(file_path) },
        options: FormattingOptions { tab_size: 4, insert_spaces: true },
    }
}

} // verus!
