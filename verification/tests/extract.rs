use rust_mcp_server::extract::{extract_asm, extract_llvm_ir, extract_mir, TargetedAssembly};
use rust_mcp_server::normalized::NormalizedSymbol;
use rust_mcp_server::symbol::{SymbolIdentity, SymbolKind};

fn demo_symbol() -> NormalizedSymbol {
    let identity = SymbolIdentity {
        crate_name: "demo".to_string(),
        modules: vec!["utils".to_string()],
        item_name: "do_thing".to_string(),
        kind: SymbolKind::FreeFunction,
    };

    NormalizedSymbol::from_identity(&identity)
}

#[test]
fn builds_mangled_prefix_from_segments() {
    let identity = demo_symbol();
    assert_eq!(identity.mangled_prefix(), "_ZN4demo5utils8do_thing");
}

#[test]
fn extracts_mir_by_def_name() {
    let mir = r#"
fn demo::utils::do_thing(_1: i32) -> i32 {
    bb0: {
        _0 = _1;
        return;
    }
}

fn demo::utils::other(_1: i32) -> i32 {
    bb0: { return; }
}
        "#;

    let symbol = demo_symbol();
    let extracted = extract_mir(&[mir.to_string()], &symbol).expect("mir extracted");
    assert!(extracted.contains("do_thing"));
    assert!(!extracted.contains("other(_1"));
}

#[test]
fn extracts_llvm_ir_with_mangled_prefix() {
    let llvm = r#"
; ModuleID = 'demo'
source_filename = "demo"

define dso_local void @_ZN4demo5utils8do_thing17h1234abcdE() #0 {
entry-block:
  ret void
}

define dso_local void @_ZN4demo5utils9do_other17h99999999E() #0 {
entry-block:
  ret void
}
        "#;

    let symbol = demo_symbol();
    let extracted = extract_llvm_ir(&[llvm.to_string()], &symbol).expect("llvm extracted");
    assert!(extracted.contains("_ZN4demo5utils8do_thing"));
    assert!(!extracted.contains("do_other17h"));
}

#[test]
fn extracts_assembly_for_target() {
    let assembly = TargetedAssembly {
        target: "x86_64-unknown-linux-gnu".to_string(),
        content: r#"
    .section    .text
    .globl  _ZN4demo5utils8do_thing17h1234abcdE
_ZN4demo5utils8do_thing17h1234abcdE:
    retq

_ZN4demo5utils9do_other17h99999999E:
    retq
            "#
        .to_string(),
    };

    let symbol = demo_symbol().with_mangled("_ZN4demo5utils8do_thing17h1234abcdE");
    let extracted =
        extract_asm(&[assembly], &symbol, "x86_64-unknown-linux-gnu").expect("asm extracted");
    assert!(extracted.contains("_ZN4demo5utils8do_thing17h1234abcdE:"));
    assert!(!extracted.contains("do_other17h"));
}

#[test]
fn errors_when_target_missing() {
    let assembly = TargetedAssembly {
        target: "aarch64-unknown-linux-gnu".to_string(),
        content: "_ZN4demo5utils8do_thing17h1234abcdE:\nret".to_string(),
    };

    let symbol = demo_symbol().with_mangled("_ZN4demo5utils8do_thing17h1234abcdE");
    let err = extract_asm(&[assembly], &symbol, "x86_64-unknown-linux-gnu").unwrap_err();
    assert!(err.to_string().contains("No assembly artifacts"));
}
