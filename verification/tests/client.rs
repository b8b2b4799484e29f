use rust_mcp_server::client::{
    definition_answer, definition_details_from, describe_definition, extract_result,
    find_symbol_path_in_document_symbols, format_symbol_path, make_frame_header,
    parse_header_line, position_in_range, read_body, select_definition_location,
    symbol_path_from_response, ClientError, ClientState, DefinitionDetails, HeaderLine,
    ReadAction, ReadEvent, ResponseReader,
};
use rust_mcp_server::protocol::{
    create_formatting_params, create_references_params, create_rename_params,
    create_text_document_position_params, create_workspace_symbol_params, DefinitionResponse,
    DocumentSymbol, DocumentSymbolResponse, Location, LocationLink, Position, Range,
    SymbolInformation, SymbolPathSegment,
};

fn position(line: u32, character: u32) -> Position {
    Position { line, character }
}

fn range(l1: u32, c1: u32, l2: u32, c2: u32) -> Range {
    Range { start: position(l1, c1), end: position(l2, c2) }
}

fn location(uri: &str, r: Range) -> Location {
    Location { uri: uri.to_string(), range: r }
}

fn symbol(name: &str, kind: u32, selection: Range, children: Option<Vec<DocumentSymbol>>) -> DocumentSymbol {
    DocumentSymbol {
        name: name.to_string(),
        detail: None,
        kind,
        range: selection,
        selection_range: selection,
        children,
    }
}

fn names(path: &Vec<SymbolPathSegment>) -> Vec<(String, u32)> {
    path.iter().map(|s| (s.name.clone(), s.kind)).collect()
}

#[test]
fn header_gives_the_length_in_bytes() {
    assert_eq!(make_frame_header(0), "Content-Length: 0\r\n\r\n");
    assert_eq!(make_frame_header(52), "Content-Length: 52\r\n\r\n");
    assert_eq!(make_frame_header(1234567), "Content-Length: 1234567\r\n\r\n");
}

#[test]
fn header_lines_are_told_apart() {
    assert_eq!(parse_header_line("\r\n"), HeaderLine::End);
    assert_eq!(parse_header_line("Content-Length: 52\r\n"), HeaderLine::ContentLength(52));
    assert_eq!(parse_header_line("Content-Length:7"), HeaderLine::ContentLength(7));
    assert_eq!(parse_header_line("Content-Length:   +12  \r\n"), HeaderLine::ContentLength(12));
    assert_eq!(parse_header_line("Content-Length: twelve\r\n"), HeaderLine::Malformed);
    assert_eq!(parse_header_line("Content-Length: \r\n"), HeaderLine::Malformed);
    assert_eq!(parse_header_line("Content-Length: -1\r\n"), HeaderLine::Malformed);
    assert_eq!(
        parse_header_line("Content-Length: 99999999999999999999999\r\n"),
        HeaderLine::Malformed
    );
    assert_eq!(parse_header_line("Content-Type: application/json\r\n"), HeaderLine::Other);
    assert_eq!(parse_header_line("content-length: 5\r\n"), HeaderLine::Other);
    assert_eq!(parse_header_line(""), HeaderLine::Other);
    assert_eq!(parse_header_line("\n"), HeaderLine::Other);
}

#[test]
fn reader_passes_over_notifications_until_the_id_matches() {
    let mut reader = ResponseReader::new(7);
    assert_eq!(
        reader.step(ReadEvent::Line(parse_header_line("Content-Length: 40\r\n"))),
        ReadAction::ReadLine
    );
    assert_eq!(
        reader.step(ReadEvent::Line(parse_header_line("Content-Type: x\r\n"))),
        ReadAction::ReadLine
    );
    assert_eq!(reader.step(ReadEvent::Line(parse_header_line("\r\n"))), ReadAction::ReadBody(40));
    // A notification of the server's own: no id.
    assert_eq!(reader.step(ReadEvent::Body(None)), ReadAction::ReadLine);
    assert_eq!(reader.content_length, None);
    assert_eq!(
        reader.step(ReadEvent::Line(HeaderLine::ContentLength(12))),
        ReadAction::ReadLine
    );
    assert_eq!(reader.step(ReadEvent::Line(HeaderLine::End)), ReadAction::ReadBody(12));
    // The answer to another request.
    assert_eq!(reader.step(ReadEvent::Body(Some(6))), ReadAction::ReadLine);
    assert_eq!(reader.step(ReadEvent::Line(HeaderLine::ContentLength(9))), ReadAction::ReadLine);
    assert_eq!(reader.step(ReadEvent::Line(HeaderLine::End)), ReadAction::ReadBody(9));
    assert_eq!(reader.step(ReadEvent::Body(Some(7))), ReadAction::Deliver);
    assert_eq!(reader.expected_id, 7);
}

#[test]
fn reader_fails_on_bad_headers_and_bodies() {
    let mut reader = ResponseReader::new(1);
    assert_eq!(
        reader.step(ReadEvent::Line(HeaderLine::Malformed)),
        ReadAction::Fail(ClientError::MalformedHeader)
    );
    let mut reader = ResponseReader::new(1);
    assert_eq!(reader.step(ReadEvent::InvalidBody), ReadAction::Fail(ClientError::ReadFailed));
    // A header without a length is followed by the next header.
    let mut reader = ResponseReader::new(1);
    assert_eq!(reader.step(ReadEvent::Line(HeaderLine::End)), ReadAction::ReadLine);
    // A later length replaces an earlier one.
    assert_eq!(reader.step(ReadEvent::Line(HeaderLine::ContentLength(1))), ReadAction::ReadLine);
    assert_eq!(reader.step(ReadEvent::Line(HeaderLine::ContentLength(2))), ReadAction::ReadLine);
    assert_eq!(reader.step(ReadEvent::Line(HeaderLine::End)), ReadAction::ReadBody(2));
}

#[test]
fn body_is_read_for_its_id() {
    let (event, document) = read_body(br#"{"jsonrpc":"2.0","id":7,"result":{"x":1}}"#);
    assert_eq!(event, ReadEvent::Body(Some(7)));
    let document = document.expect("document");
    assert_eq!(document.get("jsonrpc").and_then(|v| v.as_str()), Some("2.0"));
    let (event, document) =
        read_body(br#"{"jsonrpc":"2.0","method":"window/logMessage","params":{}}"#);
    assert_eq!(event, ReadEvent::Body(None));
    assert!(document.is_some());
    for body in [
        &br#"{"id":"7"}"#[..],
        &br#"{"id":-7}"#[..],
        &br#"{"id":7.5}"#[..],
        &br#"{"id":null}"#[..],
        &br#"{"ID":7}"#[..],
        &br#"[7]"#[..],
        &br#"7"#[..],
    ] {
        let (event, document) = read_body(body);
        assert_eq!(event, ReadEvent::Body(None));
        assert!(document.is_some());
    }
    let (event, _) = read_body(br#"{"id":18446744073709551615}"#);
    assert_eq!(event, ReadEvent::Body(Some(u64::MAX)));
    for body in [&b"{\"id\":7"[..], &b""[..], &b"Content-Length: 3"[..], &b"{} trailing"[..]] {
        let (event, document) = read_body(body);
        assert_eq!(event, ReadEvent::InvalidBody);
        assert!(document.is_none());
    }
}

#[test]
fn frames_are_read_until_the_response() {
    let mut reader = ResponseReader::new(2);
    let (event, _) = read_body(br#"{"jsonrpc":"2.0","method":"progress"}"#);
    assert_eq!(reader.step(event), ReadAction::ReadLine);
    let (event, _) = read_body(br#"{"jsonrpc":"2.0","id":1,"result":null}"#);
    assert_eq!(reader.step(event), ReadAction::ReadLine);
    let (event, document) = read_body(br#"{"jsonrpc":"2.0","id":2,"result":[1,2]}"#);
    assert_eq!(reader.step(event), ReadAction::Deliver);
    let result = extract_result(&document.expect("document")).expect("result");
    assert_eq!(result.as_array().map(|a| a.len()), Some(2));
    let (event, _) = read_body(b"not json");
    assert_eq!(reader.step(event), ReadAction::Fail(ClientError::ReadFailed));
}

#[test]
fn result_is_taken_out_of_the_response() {
    let (_, document) = read_body(br#"{"id":1,"result":{"uri":"file:///a.rs"}}"#);
    let result = extract_result(&document.expect("document")).expect("result");
    assert_eq!(result.get("uri").and_then(|v| v.as_str()), Some("file:///a.rs"));
    let (_, document) = read_body(br#"{"id":1,"result":null}"#);
    assert!(extract_result(&document.expect("document")).expect("null is a result").is_null());
    let (_, document) = read_body(br#"{"id":1,"error":{"code":-32601}}"#);
    assert_eq!(extract_result(&document.expect("document")), Err(ClientError::MissingResult));
    let (_, document) = read_body(br#"["result"]"#);
    assert_eq!(extract_result(&document.expect("document")), Err(ClientError::MissingResult));
}

#[test]
fn request_ids_grow_by_one() {
    let mut state = ClientState::new();
    assert_eq!(state.request_id, 0);
    assert!(!state.initialized);
    assert_eq!(state.ensure_initialized(), Err(ClientError::NotInitialized));
    assert_eq!(state.next_request_id(), 1);
    assert_eq!(state.next_request_id(), 2);
    assert_eq!(state.next_request_id(), 3);
    state.mark_initialized();
    assert_eq!(state.ensure_initialized(), Ok(()));
    assert_eq!(state.request_id, 3);
}

#[test]
fn client_errors_have_messages() {
    assert_eq!(ClientError::NotInitialized.to_string(), "Client not initialized");
    assert_eq!(ClientError::MissingResult.to_string(), "Missing result field in LSP response");
    assert_eq!(ClientError::NoDefinition.to_string(), "No definition found");
    assert_eq!(ClientError::MalformedHeader.to_string(), "Malformed Content-Length header");
    assert_eq!(ClientError::ReadFailed.to_string(), "Failed to read response");
}

#[test]
fn range_holds_its_start_and_not_its_end() {
    let r = range(2, 4, 2, 10);
    assert!(position_in_range(&r, &position(2, 4)));
    assert!(position_in_range(&r, &position(2, 9)));
    assert!(!position_in_range(&r, &position(2, 10)));
    assert!(!position_in_range(&r, &position(2, 3)));
    assert!(!position_in_range(&r, &position(1, 5)));
    assert!(!position_in_range(&r, &position(3, 0)));
    let lines = range(1, 8, 3, 2);
    assert!(position_in_range(&lines, &position(1, 8)));
    assert!(position_in_range(&lines, &position(2, 0)));
    assert!(position_in_range(&lines, &position(2, 1000)));
    assert!(position_in_range(&lines, &position(3, 1)));
    assert!(!position_in_range(&lines, &position(3, 2)));
    assert!(!position_in_range(&lines, &position(1, 7)));
    let empty = range(5, 5, 5, 5);
    assert!(!position_in_range(&empty, &position(5, 5)));
}

#[test]
fn definition_is_the_last_of_several() {
    let single = DefinitionResponse::SingleLocation(location("file:///a.rs", range(1, 2, 1, 3)));
    let chosen = select_definition_location(single).expect("single");
    assert_eq!(chosen.uri, "file:///a.rs");
    assert_eq!(chosen.range, range(1, 2, 1, 3));

    let several = DefinitionResponse::LocationArray(vec![
        location("file:///a.rs", range(0, 0, 0, 1)),
        location("file:///b.rs", range(4, 0, 4, 1)),
    ]);
    let chosen = select_definition_location(several).expect("several");
    assert_eq!(chosen.uri, "file:///b.rs");
    assert_eq!(chosen.range, range(4, 0, 4, 1));

    let links = DefinitionResponse::LocationLinks(vec![
        LocationLink {
            origin_selection_range: None,
            target_uri: "file:///first.rs".to_string(),
            target_range: range(0, 0, 9, 0),
            target_selection_range: range(1, 3, 1, 8),
        },
        LocationLink {
            origin_selection_range: Some(range(7, 7, 7, 9)),
            target_uri: "file:///last.rs".to_string(),
            target_range: range(10, 0, 20, 1),
            target_selection_range: range(10, 3, 10, 11),
        },
    ]);
    let chosen = select_definition_location(links).expect("links");
    assert_eq!(chosen.uri, "file:///last.rs");
    assert_eq!(chosen.range, range(10, 3, 10, 11));

    assert!(select_definition_location(DefinitionResponse::LocationArray(Vec::new())).is_none());
    assert!(select_definition_location(DefinitionResponse::LocationLinks(Vec::new())).is_none());
}

fn demo_tree() -> Vec<DocumentSymbol> {
    vec![
        symbol("helper", 12, range(0, 3, 0, 9), None),
        symbol(
            "utils",
            2,
            range(2, 4, 2, 9),
            Some(vec![
                symbol("other", 12, range(3, 7, 3, 12), Some(Vec::new())),
                symbol(
                    "inner",
                    2,
                    range(5, 8, 5, 13),
                    Some(vec![symbol("do_thing", 12, range(6, 11, 6, 19), None)]),
                ),
            ]),
        ),
        symbol("Widget", 23, range(9, 7, 9, 13), None),
    ]
}

#[test]
fn path_leads_to_the_innermost_symbol() {
    let tree = demo_tree();
    let path = find_symbol_path_in_document_symbols(&tree, &position(6, 11)).expect("path");
    assert_eq!(
        names(&path),
        vec![("utils".to_string(), 2), ("inner".to_string(), 2), ("do_thing".to_string(), 12)]
    );
    let path = find_symbol_path_in_document_symbols(&tree, &position(3, 9)).expect("path");
    assert_eq!(names(&path), vec![("utils".to_string(), 2), ("other".to_string(), 12)]);
    let path = find_symbol_path_in_document_symbols(&tree, &position(2, 4)).expect("path");
    assert_eq!(names(&path), vec![("utils".to_string(), 2)]);
    let path = find_symbol_path_in_document_symbols(&tree, &position(0, 5)).expect("path");
    assert_eq!(names(&path), vec![("helper".to_string(), 12)]);
    let path = find_symbol_path_in_document_symbols(&tree, &position(9, 12)).expect("path");
    assert_eq!(names(&path), vec![("Widget".to_string(), 23)]);
    assert!(find_symbol_path_in_document_symbols(&tree, &position(6, 19)).is_none());
    assert!(find_symbol_path_in_document_symbols(&tree, &position(100, 0)).is_none());
    assert!(find_symbol_path_in_document_symbols(&Vec::new(), &position(0, 0)).is_none());
}

#[test]
fn flat_symbols_give_container_and_name() {
    let infos = vec![
        SymbolInformation {
            name: "first".to_string(),
            kind: 12,
            location: location("file:///a.rs", range(0, 0, 1, 0)),
            container_name: None,
        },
        SymbolInformation {
            name: "second".to_string(),
            kind: 6,
            location: location("file:///a.rs", range(4, 0, 8, 0)),
            container_name: Some("Widget".to_string()),
        },
        SymbolInformation {
            name: "shadow".to_string(),
            kind: 12,
            location: location("file:///a.rs", range(4, 0, 8, 0)),
            container_name: None,
        },
    ];
    let path = symbol_path_from_response(
        DocumentSymbolResponse::SymbolInformation(infos.clone()),
        &position(5, 2),
    )
    .expect("path");
    assert_eq!(names(&path), vec![("Widget".to_string(), 6), ("second".to_string(), 6)]);
    let path = symbol_path_from_response(
        DocumentSymbolResponse::SymbolInformation(infos.clone()),
        &position(0, 0),
    )
    .expect("path");
    assert_eq!(names(&path), vec![("first".to_string(), 12)]);
    assert!(symbol_path_from_response(
        DocumentSymbolResponse::SymbolInformation(infos),
        &position(9, 0)
    )
    .is_none());
    let path = symbol_path_from_response(
        DocumentSymbolResponse::DocumentSymbols(demo_tree()),
        &position(6, 12),
    )
    .expect("path");
    assert_eq!(path.len(), 3);
}

#[test]
fn details_take_the_path_at_the_start_of_the_location() {
    let details = definition_details_from(
        location("file:///work/demo/src/lib.rs", range(6, 11, 6, 19)),
        Some(DocumentSymbolResponse::DocumentSymbols(demo_tree())),
    );
    assert_eq!(details.location.uri, "file:///work/demo/src/lib.rs");
    assert_eq!(details.symbol_path.len(), 3);
    let details = definition_details_from(location("file:///x.rs", range(50, 0, 50, 1)), None);
    assert!(details.symbol_path.is_empty());
    let details = definition_details_from(
        location("file:///x.rs", range(50, 0, 50, 1)),
        Some(DocumentSymbolResponse::DocumentSymbols(demo_tree())),
    );
    assert!(details.symbol_path.is_empty());
}

#[test]
fn definition_is_described_with_lines_from_one() {
    let details = DefinitionDetails {
        location: location("file:///work/demo/src/lib.rs", range(6, 11, 6, 19)),
        symbol_path: vec![
            SymbolPathSegment { name: "utils".to_string(), kind: 2 },
            SymbolPathSegment { name: "do_thing".to_string(), kind: 12 },
        ],
    };
    assert_eq!(
        describe_definition(&details),
        "Definition at file:///work/demo/src/lib.rs:7:12 (utils::do_thing)"
    );
    assert_eq!(format_symbol_path(&details.symbol_path), Some("utils::do_thing".to_string()));
    let unnamed = DefinitionDetails {
        location: location("file:///a.rs", range(u32::MAX, u32::MAX, u32::MAX, u32::MAX)),
        symbol_path: Vec::new(),
    };
    assert_eq!(
        describe_definition(&unnamed),
        "Definition at file:///a.rs:4294967296:4294967296 (<unnamed>)"
    );
    assert_eq!(format_symbol_path(&unnamed.symbol_path), None);
    assert_eq!(
        definition_answer(&Some(details)),
        Ok("Definition at file:///work/demo/src/lib.rs:7:12 (utils::do_thing)".to_string())
    );
    assert_eq!(definition_answer(&None), Err(ClientError::NoDefinition));
}

#[test]
fn request_parameters_name_the_file_by_uri() {
    let params = create_text_document_position_params("/work/demo/src/lib.rs", 3, 9);
    assert_eq!(params.text_document.uri, "file:///work/demo/src/lib.rs");
    assert_eq!(params.position, position(3, 9));
    let params = create_references_params("/a.rs", 1, 2);
    assert_eq!(params.text_document.uri, "file:///a.rs");
    assert_eq!(params.position, position(1, 2));
    assert!(params.context.include_declaration);
    assert_eq!(create_workspace_symbol_params("do_").query, "do_");
    let params = create_rename_params("/a.rs", 5, 6, "renamed");
    assert_eq!(params.text_document.uri, "file:///a.rs");
    assert_eq!(params.position, position(5, 6));
    assert_eq!(params.new_name, "renamed");
    let params = create_formatting_params("/a.rs");
    assert_eq!(params.text_document.uri, "file:///a.rs");
    assert_eq!(params.options.tab_size, 4);
    assert!(params.options.insert_spaces);
}
