//! The names under which a symbol is searched for in compiler output.

use crate::encoding::{decimal, lemma_utf8_len_is_encoded_len, push_decimal_str, utf8_len};
use crate::lines::{join, join_strings, strs};
use crate::symbol::{IdentityModel, SymbolIdentity};
use vstd::prelude::*;
use vstd::string::StringExecFns;

verus! {

/// The names of a symbol, as compiler output may spell them.
///
/// `def_name` is the path `crate::module::item`. `mangled` holds the full
/// mangled name where it is known. The mangled prefix is derived from the
/// path and is the start of every mangled name of the item.
#[derive(Debug, Clone)]
pub struct NormalizedSymbol {
    pub def_name: String,
    pub item_name: String,
    pub mangled: Option<String>,
    pub target: Option<String>,
    pub mangled_prefix: String,
}

/// What a [`NormalizedSymbol`] holds, as plain values.
pub struct SymbolModel {
    pub def_name: Seq<char>,
    pub item_name: Seq<char>,
    pub mangled: Option<Seq<char>>,
    pub target: Option<Seq<char>>,
    pub mangled_prefix: Seq<char>,
}

/// The text of an optional string.
pub open spec fn opt_text(o: Option<String>) -> Option<Seq<char>> {
    match o {
        Some(s) => Some(s@),
        None => None,
    }
}

/// The crate, the modules and the item of `identity`, in that order.
pub open spec fn path_segments(identity: IdentityModel) -> Seq<Seq<char>> {
    seq![identity.crate_name] + identity.modules + seq![identity.item_name]
}

/// The start of the mangled names of the item at `segments`: `_ZN`, then
/// each segment with its length in bytes, in decimal, before it.
pub open spec fn mangled_prefix_of(segments: Seq<Seq<char>>) -> Seq<char>
    decreases segments.len(),
{
    if segments.len() == 0 {
        "_ZN"@
    } else {
        mangled_prefix_of(segments.drop_last()) + decimal(utf8_len(segments.last()))
            + segments.last()
    }
}

/// The names under which the symbol `identity` is searched for.
pub open spec fn normalized(identity: IdentityModel) -> SymbolModel {
    SymbolModel {
        def_name: join(path_segments(identity), "::"@),
        item_name: identity.item_name,
        mangled: None,
        target: None,
        mangled_prefix: mangled_prefix_of(path_segments(identity)),
    }
}

/// The start of the mangled names of the item at `segments`.
pub fn encode_rust_mangled_prefix(segments: &Vec<String>) -> (encoded: String)
    ensures
        encoded@ == mangled_prefix_of(strs(segments@)),
{
    let ghost all = strs(segments@);
    let mut encoded = String::from_str("_ZN");
    let mut i: usize = 0;
    while i < segments.len()
        invariant
            i <= segments.len(),
            all == strs(segments@),
            encoded@ == mangled_prefix_of(all.take(i as int)),
        decreases segments.len() - i,
    {
        let segment = segments[i].as_str();
        let len = segment.as_bytes().len();
        proof {
            lemma_utf8_len_is_encoded_len(segment@);
            assert(all.take(i + 1).drop_last() == all.take(i as int));
            assert(all.take(i + 1).last() == segment@);
        }
        push_decimal_str(&mut encoded, len as u64);
        encoded.append(segment);
        i += 1;
    }
    assert(all.take(segments.len() as int) == all);
    encoded
}

impl NormalizedSymbol {
    /// What the symbol holds, as plain values.
    pub open spec fn model(&self) -> SymbolModel {
        SymbolModel {
            def_name: self.def_name@,
            item_name: self.item_name@,
            mangled: opt_text(self.mangled),
            target: opt_text(self.target),
            mangled_prefix: self.mangled_prefix@,
        }
    }

    /// The names under which the symbol `identity` is searched for: the
    /// path `crate::module::item`, the item's name, and the mangled prefix
    /// of that path. No mangled name and no target are set.
    pub fn from_identity(identity: &SymbolIdentity) -> (symbol: Self)
        ensures
            symbol.model() == normalized(identity@),
            symbol.def_name@ == join(path_segments(identity@), "::"@),
            symbol.mangled_prefix@ == mangled_prefix_of(path_segments(identity@)),
    {
        let mut segments: Vec<String> = Vec::new();
        segments.push(identity.crate_name.clone());
        let mut i: usize = 0;
        while i < identity.modules.len()
            invariant
                i <= identity.modules.len(),
                strs(segments@) == seq![identity.crate_name@] + strs(identity.modules@).take(
                    i as int,
                ),
            decreases identity.modules.len() - i,
        {
            let ghost before = strs(segments@);
            segments.push(identity.modules[i].clone());
            assert(strs(segments@) == before.push(identity.modules@[i as int]@));
            assert(strs(identity.modules@).take(i + 1) == strs(identity.modules@).take(
                i as int,
            ).push(identity.modules@[i as int]@));
            assert(before.push(identity.modules@[i as int]@) == seq![identity.crate_name@] + strs(
                identity.modules@,
            ).take(i + 1));
            i += 1;
        }
        segments.push(identity.item_name.clone());
        proof {
            assert(strs(identity.modules@).take(identity.modules.len() as int) == strs(
                identity.modules@,
            ));
            assert(strs(segments@) == path_segments(identity@));
        }
        let def_name = join_strings(&segments, "::");
        let mangled_prefix = encode_rust_mangled_prefix(&segments);
        NormalizedSymbol {
            def_name,
            item_name: identity.item_name.clone(),
            mangled: None,
            target: None,
            mangled_prefix,
        }
    }

    /// The symbol with `mangled` as its full mangled name.
    pub fn with_mangled(self, mangled: &str) -> (symbol: Self)
        ensures
            symbol.model() == (SymbolModel { mangled: Some(mangled@), ..self.model() }),
    {
        let mut symbol = self;
        symbol.mangled = Some(String::from_str(mangled));
        symbol
    }

    /// The symbol with `target` as the target triple it is searched under.
    pub fn with_target(self, target: &str) -> (symbol: Self)
        ensures
            symbol.model() == (SymbolModel { target: Some(target@), ..self.model() }),
    {
        let mut symbol = self;
        symbol.target = Some(String::from_str(target));
        symbol
    }

    /// The start of every mangled name of the item.
    pub fn mangled_prefix(&self) -> (prefix: &str)
        ensures
            prefix@ == self.mangled_prefix@,
    {
        self.mangled_prefix.as_str()
    }
}

} // verus!
