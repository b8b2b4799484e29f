//! From a definition that the language server reports to the identity of
//! the symbol: its crate, its modules, its name and its kind.

use crate::lines::{rows, split, split_chars, strs};
use crate::protocol::{path_model, SegmentModel, SymbolPathSegment};
use crate::text::{
    chars_eq, copy_range, from_chars, starts_with, starts_with_chars, to_chars,
};
use vstd::prelude::*;

verus! {

/// What kind of item a symbol is.
#[derive(Debug, Clone, Copy, PartialEq, Eq, Structural)]
pub enum SymbolKind {
    /// A function that is no method.
    FreeFunction,
    /// A function of a type or a trait.
    Method,
    /// A struct, an enum, a trait or a type parameter.
    Type,
    /// Anything else.
    Other,
}

/// The kind that a symbol-kind code of the language server stands for:
/// 12 is a function, 6 a method; 5 (class), 10 (enum), 11 (interface),
/// 23 (struct) and 26 (type parameter) are types.
pub open spec fn kind_of_code(code: u32) -> SymbolKind {
    if code == 12 {
        SymbolKind::FreeFunction
    } else if code == 6 {
        SymbolKind::Method
    } else if code == 5 || code == 10 || code == 11 || code == 23 || code == 26 {
        SymbolKind::Type
    } else {
        SymbolKind::Other
    }
}

/// The kind's name as it is written in messages.
pub open spec fn kind_label(kind: SymbolKind) -> Seq<char> {
    match kind {
        SymbolKind::FreeFunction => "FreeFunction"@,
        SymbolKind::Method => "Method"@,
        SymbolKind::Type => "Type"@,
        SymbolKind::Other => "Other"@,
    }
}

impl SymbolKind {
    /// The kind that a symbol-kind code of the language server stands for.
    pub fn from_code(code: u32) -> (kind: SymbolKind)
        ensures
            kind == kind_of_code(code),
    {
        if code == 12 {
            SymbolKind::FreeFunction
        } else if code == 6 {
            SymbolKind::Method
        } else if code == 5 || code == 10 || code == 11 || code == 23 || code == 26 {
            SymbolKind::Type
        } else {
            SymbolKind::Other
        }
    }

    /// Whether the kind is a function's: free or method.
    pub open spec fn function_like(self) -> bool {
        self == SymbolKind::FreeFunction || self == SymbolKind::Method
    }

    /// Whether the kind is a function's: free or method.
    #[verifier::when_used_as_spec(function_like)]
    pub fn is_function(self) -> (b: bool)
        ensures
            b == self.function_like(),
    {
        match self {
            SymbolKind::FreeFunction => true,
            SymbolKind::Method => true,
            SymbolKind::Type => false,
            SymbolKind::Other => false,
        }
    }

    /// The kind's name as it is written in messages.
    pub fn label(self) -> (name: &'static str)
        ensures
            name@ == kind_label(self),
    {
        match self {
            SymbolKind::FreeFunction => "FreeFunction",
            SymbolKind::Method => "Method",
            SymbolKind::Type => "Type",
            SymbolKind::Other => "Other",
        }
    }
}

/// Which item a symbol is: the crate it lives in, the modules on the way
/// to it, its own name and its kind.
#[derive(Debug, Clone)]
pub struct SymbolIdentity {
    pub crate_name: String,
    pub modules: Vec<String>,
    pub item_name: String,
    pub kind: SymbolKind,
}

/// What a [`SymbolIdentity`] holds, as plain values.
pub struct IdentityModel {
    pub crate_name: Seq<char>,
    pub modules: Seq<Seq<char>>,
    pub item_name: Seq<char>,
    pub kind: SymbolKind,
}

impl View for SymbolIdentity {
    type V = IdentityModel;

    open spec fn view(&self) -> IdentityModel {
        IdentityModel {
            crate_name: self.crate_name@,
            modules: strs(self.modules@),
            item_name: self.item_name@,
            kind: self.kind,
        }
    }
}

/// `s` with each hyphen replaced by an underscore, as a crate's name is
/// written in a path.
pub open spec fn underscored(s: Seq<char>) -> Seq<char> {
    s.map_values(|c: char| if c == '-' { '_' } else { c })
}

/// The index of the last `src` among `parts[1..=k]` that follows a part
/// that is not empty, or 0 where there is none.
pub open spec fn last_source_dir(parts: Seq<Seq<char>>, k: int) -> int
    decreases k,
{
    if k < 1 {
        0
    } else if parts[k] == "src"@ && parts[k - 1].len() > 0 {
        k
    } else {
        last_source_dir(parts, k - 1)
    }
}

/// The name of the crate that the file at `uri` belongs to: the directory
/// that holds the last `src` directory on the file's path, hyphens
/// written as underscores. A URI that is no `file://` URI, or has no such
/// directory, belongs to no crate.
pub open spec fn crate_of_uri(uri: Seq<char>) -> Option<Seq<char>> {
    if starts_with(uri, "file://"@) {
        let parts = split(uri.skip(7), '/');
        let k = last_source_dir(parts, parts.len() - 1);
        if k >= 1 {
            Some(underscored(parts[k - 1]))
        } else {
            None
        }
    } else {
        None
    }
}

/// The names of `path`'s segments.
pub open spec fn segment_names(path: Seq<SegmentModel>) -> Seq<Seq<char>> {
    path.map_values(|segment: SegmentModel| segment.name)
}

/// The identity of the symbol defined at `uri` under `path`: the crate of
/// the file, the segments before the last as modules, the last segment
/// as the item. There is none where the path is empty or the file belongs
/// to no crate.
pub open spec fn identity_of(uri: Seq<char>, path: Seq<SegmentModel>) -> Option<IdentityModel> {
    if path.len() == 0 {
        None
    } else {
        match crate_of_uri(uri) {
            Some(crate_name) => Some(
                IdentityModel {
                    crate_name,
                    modules: segment_names(path.drop_last()),
                    item_name: path.last().name,
                    kind: kind_of_code(path.last().kind),
                },
            ),
            None => None,
        }
    }
}

/// The name of the crate that the file at `uri` belongs to.
pub fn crate_name_from_uri(uri: &str) -> (name: Option<String>)
    ensures
        name is Some <==> crate_of_uri(uri@) is Some,
        name matches Some(n) ==> Some(n@) == crate_of_uri(uri@),
        name matches Some(n) ==> n@.len() > 0,
{
    let chars = to_chars(uri);
    let scheme = to_chars("file://");
    proof {
        reveal_strlit("file://");
    }
    if !starts_with_chars(chars.as_slice(), scheme.as_slice()) {
        return None;
    }
    let rest = copy_range(chars.as_slice(), 7, chars.len());
    assert(rest@ == uri@.skip(7));
    let parts = split_chars(rest.as_slice(), '/');
    let ghost model = rows(parts@);
    let source = to_chars("src");
    let mut k: usize = parts.len() - 1;
    while k >= 1
        invariant
            k < parts.len(),
            model == rows(parts@),
            source@ == "src"@,
            starts_with(uri@, "file://"@),
            model == split(uri@.skip(7), '/'),
            last_source_dir(model, parts.len() - 1) == last_source_dir(model, k as int),
        decreases k,
    {
        assert(model[k as int] == parts@[k as int]@);
        assert(model[k - 1] == parts@[k - 1]@);
        if chars_eq(parts[k].as_slice(), source.as_slice()) && parts[k - 1].len() > 0 {
            let dir = &parts[k - 1];
            let mut name: Vec<char> = Vec::new();
            let mut i: usize = 0;
            while i < dir.len()
                invariant
                    i <= dir.len(),
                    name@ == underscored(dir@.take(i as int)),
                decreases dir.len() - i,
            {
                let c = dir[i];
                name.push(if c == '-' { '_' } else { c });
                assert(underscored(dir@.take(i + 1)) == underscored(dir@.take(i as int)).push(
                    if c == '-' { '_' } else { c },
                ));
                i += 1;
            }
            assert(dir@.take(dir.len() as int) == dir@);
            return Some(from_chars(name.as_slice()));
        }
        k -= 1;
    }
    None
}

/// The identity of the symbol that the language server reports as defined
/// at `uri` under `symbol_path`.
///
/// The crate is read off the URI; the segments before the last are the
/// modules, the last is the item, and the code of its kind gives the kind.
pub fn identity_from_definition(uri: &str, symbol_path: &Vec<SymbolPathSegment>) -> (identity:
    Option<SymbolIdentity>)
    ensures
        identity is Some <==> identity_of(uri@, path_model(symbol_path@)) is Some,
        identity matches Some(id) ==> Some(id@) == identity_of(uri@, path_model(symbol_path@)),
        identity matches Some(id) ==> id.crate_name@.len() > 0,
{
    if symbol_path.len() == 0 {
        return None;
    }
    let crate_name = match crate_name_from_uri(uri) {
        Some(name) => name,
        None => { return None; },
    };
    let ghost path = path_model(symbol_path@);
    let last = symbol_path.len() - 1;
    let mut modules: Vec<String> = Vec::new();
    let mut i: usize = 0;
    while i < last
        invariant
            i <= last == symbol_path.len() - 1,
            path == path_model(symbol_path@),
            strs(modules@) == segment_names(path.take(i as int)),
        decreases last - i,
    {
        modules.push(symbol_path[i].name.clone());
        assert(strs(modules@) == segment_names(path.take(i as int)).push(path[i as int].name));
        assert(segment_names(path.take(i + 1)) == segment_names(path.take(i as int)).push(
            path[i as int].name,
        ));
        i += 1;
    }
    assert(path.take(last as int) == path.drop_last());
    Some(
        SymbolIdentity {
            crate_name,
            modules,
            item_name: symbol_path[last].name.clone(),
            kind: SymbolKind::from_code(symbol_path[last].kind),
        },
    )
}

} // verus!
