//! The parameters of the tools, and the requests that the inspection
//! tools make of them.

use crate::normalized::opt_text;
use crate::orchestrator::{AskModel, InspectionRequest};
use vstd::prelude::*;
use vstd::string::StringExecFns;

verus! {

#[derive(Debug)]
pub struct FindDefinitionParams {
    pub file_path: String,
    pub line: u32,
    pub character: u32,
}

#[derive(Debug)]
pub struct FindReferencesParams {
    pub file_path: String,
    pub line: u32,
    pub character: u32,
}

#[derive(Debug)]
pub struct GetDiagnosticsParams {
    pub file_path: String,
}

#[derive(Debug)]
pub struct WorkspaceSymbolsParams {
    pub query: String,
}

#[derive(Debug)]
pub struct RenameSymbolParams {
    pub file_path: String,
    pub line: u32,
    pub character: u32,
    pub new_name: String,
}

#[derive(Debug)]
pub struct FormatCodeParams {
    pub file_path: String,
}

#[derive(Debug)]
pub struct AnalyzeManifestParams {
    pub manifest_path: String,
}

#[derive(Debug)]
pub struct RunCargoCheckParams {
    pub workspace_path: String,
}

#[derive(Debug)]
pub struct ExtractFunctionParams {
    pub file_path: String,
    pub start_line: u32,
    pub start_character: u32,
    pub end_line: u32,
    pub end_character: u32,
    pub function_name: String,
}

#[derive(Debug)]
pub struct GenerateTraitImplParams {
    pub trait_name: String,
    pub struct_name: String,
    pub file_path: String,
}

#[derive(Debug)]
pub struct InlineFunctionParams {
    pub file_path: String,
    pub line: u32,
    pub character: u32,
}

#[derive(Debug)]
pub struct ChangeSignatureParams {
    pub file_path: String,
    pub line: u32,
    pub character: u32,
    pub new_signature: String,
}

#[derive(Debug)]
pub struct OrganizeImportsParams {
    pub file_path: String,
}

#[derive(Debug)]
pub struct ApplyClippySuggestionsParams {
    pub file_path: String,
}

#[derive(Debug)]
pub struct ValidateLifetimesParams {
    pub file_path: String,
}

#[derive(Debug)]
pub struct GetTypeHierarchyParams {
    pub file_path: String,
    pub line: u32,
    pub character: u32,
}

#[derive(Debug)]
pub struct SuggestDependenciesParams {
    pub query: String,
    pub workspace_path: String,
}

#[derive(Debug)]
pub struct CreateModuleParams {
    pub module_name: String,
    pub module_file_path: String,
    pub is_public: bool,
}

#[derive(Debug)]
pub struct MoveItemsParams {
    pub source_file: String,
    pub target_file: String,
    pub item_names: Vec<String>,
}

#[derive(Debug)]
pub struct InspectMirParams {
    pub file_path: String,
    pub line: Option<u32>,
    pub character: Option<u32>,
    pub symbol_name: Option<String>,
    pub opt_level: Option<String>,
    pub target: Option<String>,
}

#[derive(Debug)]
pub struct InspectLlvmIrParams {
    pub file_path: String,
    pub line: Option<u32>,
    pub character: Option<u32>,
    pub symbol_name: Option<String>,
    pub opt_level: Option<String>,
    pub target: Option<String>,
}

#[derive(Debug)]
pub struct InspectAsmParams {
    pub file_path: String,
    pub line: Option<u32>,
    pub character: Option<u32>,
    pub symbol_name: Option<String>,
    pub opt_level: Option<String>,
    pub target: Option<String>,
}

#[derive(Debug)]
pub struct InspectParams {
    pub view: String,
    pub file_path: String,
    pub line: u32,
    pub character: u32,
    pub symbol_name: Option<String>,
    pub opt_level: Option<String>,
    pub target: Option<String>,
    pub gating_mode: Option<String>,
}

#[derive(Debug)]
pub struct CapabilitiesParams {
    pub gating_mode: Option<String>,
}

impl InspectParams {
    /// The inspection that the tool `inspect` asks for: the view and the
    /// position that the parameters name. The gating mode of the
    /// parameters belongs to the context, not to the request.
    pub fn into_request(self) -> (request: InspectionRequest)
        ensures
            request@ == (AskModel {
                view: self.view@,
                file_path: self.file_path@,
                line: Some(self.line),
                character: Some(self.character),
                symbol_name: opt_text(self.symbol_name),
                opt_level: opt_text(self.opt_level),
                target: opt_text(self.target),
            }),
    {
        InspectionRequest {
            view: self.view,
            file_path: self.file_path,
            line: Some(self.line),
            character: Some(self.character),
            symbol_name: self.symbol_name,
            opt_level: self.opt_level,
            target: self.target,
        }
    }
}

impl InspectMirParams {
    /// The inspection that the tool `inspect_mir` asks for: the view `mir`.
    pub fn into_request(self) -> (request: InspectionRequest)
        ensures
            request@ == (AskModel {
                view: "mir"@,
                file_path: self.file_path@,
                line: self.line,
                character: self.character,
                symbol_name: opt_text(self.symbol_name),
                opt_level: opt_text(self.opt_level),
                target: opt_text(self.target),
            }),
    {
        InspectionRequest {
            view: String::from_str("mir"),
            file_path: self.file_path,
            line: self.line,
            character: self.character,
            symbol_name: self.symbol_name,
            opt_level: self.opt_level,
            target: self.target,
        }
    }
}

impl InspectLlvmIrParams {
    /// The inspection that the tool `inspect_llvm_ir` asks for: the view
    /// `llvm-ir`.
    pub fn into_request(self) -> (request: InspectionRequest)
        ensures
            request@ == (AskModel {
                view: "llvm-ir"@,
                file_path: self.file_path@,
                line: self.line,
                character: self.character,
                symbol_name: opt_text(self.symbol_name),
                opt_level: opt_text(self.opt_level),
                target: opt_text(self.target),
            }),
    {
        InspectionRequest {
            view: String::from_str("llvm-ir"),
            file_path: self.file_path,
            line: self.line,
            character: self.character,
            symbol_name: self.symbol_name,
            opt_level: self.opt_level,
            target: self.target,
        }
    }
}

impl InspectAsmParams {
    /// The inspection that the tool `inspect_asm` asks for: the view `asm`.
    pub fn into_request(self) -> (request: InspectionRequest)
        ensures
            request@ == (AskModel {
                view: "asm"@,
                file_path: self.file_path@,
                line: self.line,
                character: self.character,
                symbol_name: opt_text(self.symbol_name),
                opt_level: opt_text(self.opt_level),
                target: opt_text(self.target),
            }),
    {
        InspectionRequest {
            view: String::from_str("asm"),
            file_path: self.file_path,
            line: self.line,
            character: self.character,
            symbol_name: self.symbol_name,
            opt_level: self.opt_level,
            target: self.target,
        }
    }
}

} // verus!
