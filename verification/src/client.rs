//! What a client of the language server decides: how messages are framed,
//! which response answers a request, which location a definition is, and
//! which path leads to a symbol.

use crate::encoding::{decimal, parse_number, parsed_number, push_decimal_str};
use crate::json::{
    json_keys, member, number_member, number_under, parse_document, parses_as_json,
};
use crate::lines::{join, join_strings, strs};
use crate::protocol::{
    path_model, DefinitionResponse, DocumentSymbol, DocumentSymbolResponse, Location,
    LocationModel, Position, Range, SegmentModel, SymbolInformation, SymbolPath,
    SymbolPathSegment,
};
use crate::symbol::segment_names;
use crate::text::{
    chars_eq, copy_range, starts_with, str_matches_at, to_chars, trim, trim_chars,
};
use vstd::prelude::*;
use vstd::string::StringExecFns;

verus! {

/// Where a symbol is defined and the path that leads to it.
#[derive(Debug, Clone)]
pub struct DefinitionDetails {
    pub location: Location,
    pub symbol_path: SymbolPath,
}

/// Why the client could not answer.
#[derive(Debug, Clone, Copy, PartialEq, Eq, Structural)]
pub enum ClientError {
    /// A request was made before the handshake was over.
    NotInitialized,
    /// A response without a result.
    MissingResult,
    /// The symbol has no definition.
    NoDefinition,
    /// A header that gives no length.
    MalformedHeader,
    /// The response could not be read.
    ReadFailed,
}

/// The message of `error`.
pub open spec fn client_error_text(error: ClientError) -> Seq<char> {
    match error {
        ClientError::NotInitialized => "Client not initialized"@,
        ClientError::MissingResult => "Missing result field in LSP response"@,
        ClientError::NoDefinition => "No definition found"@,
        ClientError::MalformedHeader => "Malformed Content-Length header"@,
        ClientError::ReadFailed => "Failed to read response"@,
    }
}

impl ClientError {
    /// The message of the error.
    pub fn to_string(&self) -> (message: String)
        ensures
            message@ == client_error_text(*self),
    {
        match self {
            ClientError::NotInitialized => String::from_str("Client not initialized"),
            ClientError::MissingResult => String::from_str("Missing result field in LSP response"),
            ClientError::NoDefinition => String::from_str("No definition found"),
            ClientError::MalformedHeader => String::from_str("Malformed Content-Length header"),
            ClientError::ReadFailed => String::from_str("Failed to read response"),
        }
    }
}

/// The state of the conversation with the language server: the number of
/// the last request and whether the handshake is over.
#[derive(Debug, Clone, Copy, PartialEq, Eq, Structural)]
pub struct ClientState {
    pub request_id: u64,
    pub initialized: bool,
}

impl ClientState {
    /// The state before anything was sent.
    pub fn new() -> (state: Self)
        ensures
            state == (ClientState { request_id: 0, initialized: false }),
    {
        ClientState { request_id: 0, initialized: false }
    }

    /// The number for the next request: one more than the last.
    pub fn next_request_id(&mut self) -> (id: u64)
        requires
            old(self).request_id < u64::MAX,
        ensures
            id == old(self).request_id + 1,
            *final(self) == (ClientState { request_id: id, ..*old(self) }),
    {
        self.request_id = self.request_id + 1;
        self.request_id
    }

    /// Records that `initialized` was sent: from now on requests may be made.
    pub fn mark_initialized(&mut self)
        ensures
            *final(self) == (ClientState { initialized: true, ..*old(self) }),
    {
        self.initialized = true;
    }

    /// Whether requests may be made.
    pub fn ensure_initialized(&self) -> (result: Result<(), ClientError>)
        ensures
            self.initialized ==> result is Ok,
            !self.initialized ==> result == Err::<(), ClientError>(ClientError::NotInitialized),
    {
        if self.initialized {
            Ok(())
        } else {
            Err(ClientError::NotInitialized)
        }
    }
}

/// The header of a message of `len` bytes.
pub open spec fn frame_header(len: nat) -> Seq<char> {
    "Content-Length: "@ + decimal(len) + "\r\n\r\n"@
}

/// The header that goes before a message of `content_len` bytes.
pub fn make_frame_header(content_len: usize) -> (header: String)
    ensures
        header@ == frame_header(content_len as nat),
{
    let mut header = String::from_str("Content-Length: ");
    push_decimal_str(&mut header, content_len as u64);
    header.append("\r\n\r\n");
    header
}

/// What a line of a message's header says.
#[derive(Debug, Clone, Copy, PartialEq, Eq, Structural)]
pub enum HeaderLine {
    /// The empty line that ends the header.
    End,
    /// The length of the message, in bytes.
    ContentLength(usize),
    /// A `Content-Length` that is no number.
    Malformed,
    /// Any other line.
    Other,
}

/// What the header line `line` says. The line `\r\n` ends the header; a
/// line that begins with `Content-Length:` gives the length that follows,
/// trimmed; any other line says nothing.
pub open spec fn header_line(line: Seq<char>) -> HeaderLine {
    if line == "\r\n"@ {
        HeaderLine::End
    } else if starts_with(line, "Content-Length:"@) {
        match parsed_number(trim(line.skip(15))) {
            Some(n) => HeaderLine::ContentLength(n),
            None => HeaderLine::Malformed,
        }
    } else {
        HeaderLine::Other
    }
}

/// What the header line `line` says.
pub fn parse_header_line(line: &str) -> (parsed: HeaderLine)
    ensures
        parsed == header_line(line@),
{
    let chars = to_chars(line);
    let end = to_chars("\r\n");
    if chars_eq(chars.as_slice(), end.as_slice()) {
        return HeaderLine::End;
    }
    proof {
        reveal_strlit("Content-Length:");
    }
    if str_matches_at(chars.as_slice(), "Content-Length:", 0) {
        let rest = copy_range(chars.as_slice(), 15, chars.len());
        assert(rest@ == line@.skip(15));
        let number = trim_chars(rest.as_slice());
        match parse_number(number.as_slice()) {
            Some(n) => HeaderLine::ContentLength(n),
            None => HeaderLine::Malformed,
        }
    } else {
        HeaderLine::Other
    }
}

/// What the reader of a response waits for.
#[derive(Debug, Clone, Copy, PartialEq, Eq, Structural)]
pub enum ReadAction {
    /// The next line of a header.
    ReadLine,
    /// The body of a message, of this many bytes.
    ReadBody(usize),
    /// Nothing: the body read last is the response.
    Deliver,
    /// Nothing: the response cannot be read.
    Fail(ClientError),
}

/// What the reader of a response is handed.
#[derive(Debug, Clone, Copy, PartialEq, Eq, Structural)]
pub enum ReadEvent {
    /// A line of a header was read and says this.
    Line(HeaderLine),
    /// A body was read; it is JSON and holds this id, or none.
    Body(Option<u64>),
    /// A body was read that is no JSON.
    InvalidBody,
}

/// The reader of the response to one request. It reads message after
/// message until one answers the request, and passes over what the
/// server sends of its own accord in between.
#[derive(Debug, Clone, Copy, PartialEq, Eq, Structural)]
pub struct ResponseReader {
    /// The id of the request that is to be answered.
    pub expected_id: u64,
    /// The length that the header read so far gives, where it gives one.
    pub content_length: Option<usize>,
}

/// The reader after `event`, and what it waits for next.
///
/// In a header, a length is kept, the length of a later line in place of
/// an earlier one, and a line that gives no number ends the reading with
/// an error. At the end of a header the body is read where a length was
/// given; where none was, the next header follows. A body that holds the
/// expected id is the response. After any other body the next header
/// follows. A body that is no JSON ends the reading with an error.
pub open spec fn reader_step(reader: ResponseReader, event: ReadEvent) -> (
    ResponseReader,
    ReadAction,
) {
    match event {
        ReadEvent::Line(HeaderLine::End) => match reader.content_length {
            Some(n) => (reader, ReadAction::ReadBody(n)),
            None => (reader, ReadAction::ReadLine),
        },
        ReadEvent::Line(HeaderLine::ContentLength(n)) => (
            ResponseReader { content_length: Some(n), ..reader },
            ReadAction::ReadLine,
        ),
        ReadEvent::Line(HeaderLine::Malformed) => (
            reader,
            ReadAction::Fail(ClientError::MalformedHeader),
        ),
        ReadEvent::Line(HeaderLine::Other) => (reader, ReadAction::ReadLine),
        ReadEvent::Body(id) => if id == Some(reader.expected_id) {
            (reader, ReadAction::Deliver)
        } else {
            (ResponseReader { content_length: None, ..reader }, ReadAction::ReadLine)
        },
        ReadEvent::InvalidBody => (reader, ReadAction::Fail(ClientError::ReadFailed)),
    }
}

/// What the body `content` of a message is to the reader: where the bytes
/// are JSON, the document that they hold, with the number that stands
/// under `id`; where they are not, a body that is no JSON, and no document.
pub fn read_body(content: &[u8]) -> (out: (ReadEvent, Option<serde_json::Value>))
    ensures
        out.1 is Some <==> parses_as_json(content@),
        out.1 is None <==> out.0 == ReadEvent::InvalidBody,
        out.1 matches Some(document) ==> out.0 == ReadEvent::Body(number_under(document, "id"@)),
{
    match parse_document(content) {
        Ok(document) => {
            let id = number_member(&document, "id");
            (ReadEvent::Body(id), Some(document))
        },
        Err(_) => (ReadEvent::InvalidBody, None),
    }
}

/// The result that the response `response` carries. A response without a
/// member `result` is an error.
pub fn extract_result(response: &serde_json::Value) -> (result: Result<
    serde_json::Value,
    ClientError,
>)
    ensures
        result is Ok <==> json_keys(*response).contains("result"@),
        result is Err ==> result->Err_0 == ClientError::MissingResult,
{
    match member(response, "result") {
        Some(found) => Ok(found),
        None => Err(ClientError::MissingResult),
    }
}

impl ResponseReader {
    /// The reader of the response to the request `expected_id`. It begins
    /// by waiting for a line.
    pub fn new(expected_id: u64) -> (reader: Self)
        ensures
            reader == (ResponseReader { expected_id, content_length: None }),
    {
        ResponseReader { expected_id, content_length: None }
    }

    /// Takes `event` and says what to wait for next.
    pub fn step(&mut self, event: ReadEvent) -> (action: ReadAction)
        ensures
            (*final(self), action) == reader_step(*old(self), event),
    {
        match event {
            ReadEvent::Line(HeaderLine::End) => match self.content_length {
                Some(n) => ReadAction::ReadBody(n),
                None => ReadAction::ReadLine,
            },
            ReadEvent::Line(HeaderLine::ContentLength(n)) => {
                self.content_length = Some(n);
                ReadAction::ReadLine
            },
            ReadEvent::Line(HeaderLine::Malformed) => ReadAction::Fail(
                ClientError::MalformedHeader,
            ),
            ReadEvent::Line(HeaderLine::Other) => ReadAction::ReadLine,
            ReadEvent::Body(id) => {
                let answered = match id {
                    Some(found) => found == self.expected_id,
                    None => false,
                };
                if answered {
                    ReadAction::Deliver
                } else {
                    self.content_length = None;
                    ReadAction::ReadLine
                }
            },
            ReadEvent::InvalidBody => ReadAction::Fail(ClientError::ReadFailed),
        }
    }
}

/// Whether `a` is before `b` or at `b`.
pub open spec fn at_or_before(a: Position, b: Position) -> bool {
    a.line < b.line || (a.line == b.line && a.character <= b.character)
}

/// Whether `a` is before `b`.
pub open spec fn before(a: Position, b: Position) -> bool {
    a.line < b.line || (a.line == b.line && a.character < b.character)
}

/// Whether `position` lies in `range`: at its start or after it, and
/// before its end.
pub open spec fn in_range(range: Range, position: Position) -> bool {
    at_or_before(range.start, position) && before(position, range.end)
}

/// Whether `position` lies in `range`.
pub fn position_in_range(range: &Range, position: &Position) -> (inside: bool)
    ensures
        inside == in_range(*range, *position),
{
    let starts_before = range.start.line < position.line || (range.start.line == position.line
        && range.start.character <= position.character);
    let ends_after = position.line < range.end.line || (position.line == range.end.line
        && position.character < range.end.character);
    starts_before && ends_after
}

/// The one location that `definition` is taken to mean: the location
/// itself, or the last of several, or the target of the last of several
/// links with the range of the target's name. Of none, none.
pub open spec fn definition_location(definition: DefinitionResponse) -> Option<LocationModel> {
    match definition {
        DefinitionResponse::SingleLocation(location) => Some(location@),
        DefinitionResponse::LocationArray(locations) => if locations@.len() > 0 {
            Some(locations@.last()@)
        } else {
            None
        },
        DefinitionResponse::LocationLinks(links) => if links@.len() > 0 {
            Some(
                LocationModel {
                    uri: links@.last().target_uri@,
                    range: links@.last().target_selection_range,
                },
            )
        } else {
            None
        },
    }
}

/// The model of an optional location.
pub open spec fn opt_location(location: Option<Location>) -> Option<LocationModel> {
    match location {
        Some(l) => Some(l@),
        None => None,
    }
}

/// The one location that `definition` is taken to mean.
pub fn select_definition_location(definition: DefinitionResponse) -> (location: Option<Location>)
    ensures
        opt_location(location) == definition_location(definition),
{
    match definition {
        DefinitionResponse::SingleLocation(location) => Some(location),
        DefinitionResponse::LocationArray(locations) => {
            let mut locations = locations;
            locations.pop()
        },
        DefinitionResponse::LocationLinks(links) => {
            let mut links = links;
            match links.pop() {
                Some(link) => Some(
                    Location { uri: link.target_uri, range: link.target_selection_range },
                ),
                None => None,
            }
        },
    }
}

/// The segment that stands for `symbol`.
pub open spec fn segment_of(symbol: DocumentSymbol) -> SegmentModel {
    SegmentModel { name: symbol.name@, kind: symbol.kind }
}

/// The path to the innermost of `symbols`, or of the symbols declared
/// inside them, whose name lies around `position`: the symbols on the way
/// down, outermost first. Symbols are tried in order, and what is
/// declared inside a symbol before the symbol itself.
pub open spec fn path_to(symbols: Seq<DocumentSymbol>, position: Position) -> Option<
    Seq<SegmentModel>,
>
    decreases symbols,
{
    if symbols.len() == 0 {
        None
    } else {
        let first = symbols[0];
        let inner = match first.children {
            Some(children) => path_to(children@, position),
            None => None,
        };
        match inner {
            Some(tail) => Some(seq![segment_of(first)] + tail),
            None => if in_range(first.selection_range, position) {
                Some(seq![segment_of(first)])
            } else {
                path_to(symbols.drop_first(), position)
            },
        }
    }
}

/// The model of an optional path.
pub open spec fn opt_path(path: Option<SymbolPath>) -> Option<Seq<SegmentModel>> {
    match path {
        Some(p) => Some(path_model(p@)),
        None => None,
    }
}

/// The path to the innermost symbol whose name lies around `position`.
pub fn find_symbol_path_in_document_symbols(symbols: &Vec<DocumentSymbol>, position: &Position)
    -> (path: Option<SymbolPath>)
    ensures
        opt_path(path) == path_to(symbols@, *position),
    decreases symbols,
{
    let mut i: usize = 0;
    assert(symbols@.skip(0) == symbols@);
    while i < symbols.len()
        invariant
            i <= symbols.len(),
            path_to(symbols@, *position) == path_to(symbols@.skip(i as int), *position),
        decreases symbols.len() - i,
    {
        let symbol = &symbols[i];
        proof {
            assert(symbols@.skip(i as int)[0] == symbols@[i as int]);
            assert(symbols@.skip(i as int).drop_first() == symbols@.skip(i + 1));
        }
        let inner = match &symbol.children {
            Some(children) => find_symbol_path_in_document_symbols(children, position),
            None => None,
        };
        let own = SymbolPathSegment { name: symbol.name.clone(), kind: symbol.kind };
        match inner {
            Some(tail) => {
                let mut path: Vec<SymbolPathSegment> = Vec::new();
                path.push(own);
                let mut tail = tail;
                let ghost rest = path_model(tail@);
                path.append(&mut tail);
                assert(path_model(path@) == seq![segment_of(*symbol)] + rest);
                return Some(path);
            },
            None => {
                if position_in_range(&symbol.selection_range, position) {
                    let mut path: Vec<SymbolPathSegment> = Vec::new();
                    path.push(own);
                    assert(path_model(path@) == seq![segment_of(*symbol)]);
                    return Some(path);
                }
            },
        }
        i += 1;
    }
    None
}

/// The path that the flat symbol `info` gives: its container, where it
/// names one, with the kind of the symbol, and the symbol itself.
pub open spec fn flat_path(info: SymbolInformation) -> Seq<SegmentModel> {
    let own = SegmentModel { name: info.name@, kind: info.kind };
    match info.container_name {
        Some(container) => seq![SegmentModel { name: container@, kind: info.kind }, own],
        None => seq![own],
    }
}

/// The path of the first of `infos` whose range holds `position`.
pub open spec fn flat_path_to(infos: Seq<SymbolInformation>, position: Position) -> Option<
    Seq<SegmentModel>,
>
    decreases infos.len(),
{
    if infos.len() == 0 {
        None
    } else if in_range(infos[0].location.range, position) {
        Some(flat_path(infos[0]))
    } else {
        flat_path_to(infos.drop_first(), position)
    }
}

/// The path to the symbol at `position` that the response `symbols` gives.
pub open spec fn response_path(symbols: DocumentSymbolResponse, position: Position) -> Option<
    Seq<SegmentModel>,
> {
    match symbols {
        DocumentSymbolResponse::DocumentSymbols(tree) => path_to(tree@, position),
        DocumentSymbolResponse::SymbolInformation(infos) => flat_path_to(infos@, position),
    }
}

/// The path to the symbol at `position` that the response `symbols` gives:
/// in a tree of symbols, the path to the innermost symbol whose name lies
/// around the position; in a flat list, the first symbol whose range
/// holds the position, after its container.
pub fn symbol_path_from_response(symbols: DocumentSymbolResponse, position: &Position) -> (path:
    Option<SymbolPath>)
    ensures
        opt_path(path) == response_path(symbols, *position),
{
    match symbols {
        DocumentSymbolResponse::DocumentSymbols(tree) => find_symbol_path_in_document_symbols(
            &tree,
            position,
        ),
        DocumentSymbolResponse::SymbolInformation(infos) => {
            let mut i: usize = 0;
            assert(infos@.skip(0) == infos@);
            while i < infos.len()
                invariant
                    i <= infos.len(),
                    symbols == DocumentSymbolResponse::SymbolInformation(infos),
                    flat_path_to(infos@, *position) == flat_path_to(
                        infos@.skip(i as int),
                        *position,
                    ),
                decreases infos.len() - i,
            {
                let info = &infos[i];
                proof {
                    assert(infos@.skip(i as int)[0] == infos@[i as int]);
                    assert(infos@.skip(i as int).drop_first() == infos@.skip(i + 1));
                }
                if position_in_range(&info.location.range, position) {
                    let mut path: Vec<SymbolPathSegment> = Vec::new();
                    match &info.container_name {
                        Some(container) => {
                            path.push(
                                SymbolPathSegment { name: container.clone(), kind: info.kind },
                            );
                        },
                        None => {},
                    }
                    path.push(SymbolPathSegment { name: info.name.clone(), kind: info.kind });
                    assert(path_model(path@) == flat_path(*info));
                    return Some(path);
                }
                i += 1;
            }
            None
        },
    }
}

/// The details of a definition at `location`: the path that `symbols`
/// gives for the start of the location, and the empty path where the
/// symbols could not be had or give none.
pub fn definition_details_from(location: Location, symbols: Option<DocumentSymbolResponse>) -> (
    details: DefinitionDetails)
    ensures
        details.location@ == location@,
        path_model(details.symbol_path@) == (match symbols {
            Some(response) => match response_path(response, location.range.start) {
                Some(path) => path,
                None => Seq::empty(),
            },
            None => Seq::empty(),
        }),
{
    let start = location.range.start;
    let symbol_path = match symbols {
        Some(response) => match symbol_path_from_response(response, &start) {
            Some(path) => path,
            None => Vec::new(),
        },
        None => Vec::new(),
    };
    proof {
        assert(path_model(Seq::<SymbolPathSegment>::empty()) == Seq::<SegmentModel>::empty());
    }
    DefinitionDetails { location, symbol_path }
}

/// The names of `path` joined by `::`; of the empty path, nothing.
pub open spec fn path_text(path: Seq<SegmentModel>) -> Option<Seq<char>> {
    if path.len() == 0 {
        None
    } else {
        Some(join(segment_names(path), "::"@))
    }
}

/// The names of the segments of `path`, in order.
pub fn path_names(path: &Vec<SymbolPathSegment>) -> (names: Vec<String>)
    ensures
        strs(names@) == segment_names(path_model(path@)),
{
    let ghost model = path_model(path@);
    let mut names: Vec<String> = Vec::new();
    let mut i: usize = 0;
    while i < path.len()
        invariant
            i <= path.len(),
            model == path_model(path@),
            strs(names@) == segment_names(model.take(i as int)),
        decreases path.len() - i,
    {
        let ghost before = strs(names@);
        names.push(path[i].name.clone());
        proof {
            assert(strs(names@) == before.push(model[i as int].name));
            assert(segment_names(model.take(i + 1)) == segment_names(model.take(i as int)).push(
                model[i as int].name,
            ));
        }
        i += 1;
    }
    assert(model.take(path.len() as int) == model);
    names
}

/// The names of `path` joined by `::`; of the empty path, nothing.
pub fn format_symbol_path(path: &Vec<SymbolPathSegment>) -> (text: Option<String>)
    ensures
        text is Some <==> path_text(path_model(path@)) is Some,
        text matches Some(t) ==> Some(t@) == path_text(path_model(path@)),
{
    if path.len() == 0 {
        None
    } else {
        let names = path_names(path);
        Some(join_strings(&names, "::"))
    }
}

/// The place `uri:line:column`, line and column counted from one.
pub open spec fn place_text(location: LocationModel) -> Seq<char> {
    location.uri + ":"@ + decimal((location.range.start.line + 1) as nat) + ":"@ + decimal(
        (location.range.start.character + 1) as nat,
    )
}

/// Appends [`place_text`] of `location` to `out`.
pub fn push_place(out: &mut String, location: &Location)
    ensures
        final(out)@ == old(out)@ + place_text(location@),
{
    let ghost before = out@;
    out.append(location.uri.as_str());
    out.append(":");
    push_decimal_str(out, location.range.start.line as u64 + 1);
    out.append(":");
    push_decimal_str(out, location.range.start.character as u64 + 1);
    assert(out@ == before + place_text(location@));
}

/// The sentence that tells where a symbol is defined.
pub open spec fn definition_sentence(location: LocationModel, path: Seq<SegmentModel>) -> Seq<
    char,
> {
    "Definition at "@ + place_text(location) + " ("@ + (match path_text(path) {
        Some(text) => text,
        None => "<unnamed>"@,
    }) + ")"@
}

/// What a search for a definition answers: the sentence that tells where
/// the symbol is defined, or the error that it has no definition.
pub fn definition_answer(details: &Option<DefinitionDetails>) -> (answer: Result<
    String,
    ClientError,
>)
    ensures
        details is None ==> answer == Err::<String, ClientError>(ClientError::NoDefinition),
        details matches Some(found) ==> answer is Ok && answer->Ok_0@ == definition_sentence(
            found.location@,
            path_model(found.symbol_path@),
        ),
{
    match details {
        Some(found) => Ok(describe_definition(found)),
        None => Err(ClientError::NoDefinition),
    }
}

/// The sentence that tells where a symbol is defined: the place, and in
/// brackets the path, or `<unnamed>` where the path is empty.
pub fn describe_definition(details: &DefinitionDetails) -> (text: String)
    ensures
        text@ == definition_sentence(details.location@, path_model(details.symbol_path@)),
{
    let mut text = String::from_str("Definition at ");
    push_place(&mut text, &details.location);
    text.append(" (");
    match format_symbol_path(&details.symbol_path) {
        Some(path) => {
            text.append(path.as_str());
        },
        None => {
            text.append("<unnamed>");
        },
    }
    text.append(")");
    text
}

} // verus!
