//! The files that a compiler run leaves behind: which of them hold what a
//! view shows, and which target a file of assembly was built for.
//!
//! Paths are texts whose components are separated by `/`.

use crate::encoding::{chars_eq_ignore_case, eq_ignore_case};
use crate::extract::{AssemblyModel, TargetedAssembly};
use crate::lines::{rows, split, split_chars, strs};
use crate::normalized::opt_text;
use crate::text::{chars_eq, copy_range, from_chars, to_chars};
use vstd::prelude::*;
use vstd::string::StringExecFns;

verus! {

/// Whether `part` counts as a component of a path: it is not empty and is
/// not `.`.
pub open spec fn is_component(part: Seq<char>) -> bool {
    part.len() > 0 && part != seq!['.']
}

/// Those of the first `n` of `parts` that are components, in order.
pub open spec fn components_before(parts: Seq<Seq<char>>, n: int) -> Seq<Seq<char>>
    decreases n,
{
    if n <= 0 {
        Seq::empty()
    } else if is_component(parts[n - 1]) {
        components_before(parts, n - 1).push(parts[n - 1])
    } else {
        components_before(parts, n - 1)
    }
}

/// The components of `path`.
pub open spec fn components(path: Seq<char>) -> Seq<Seq<char>> {
    components_before(split(path, '/'), split(path, '/').len() as int)
}

/// The components of `path`.
pub fn path_components(path: &str) -> (parts: Vec<Vec<char>>)
    ensures
        rows(parts@) == components(path@),
{
    let chars = to_chars(path);
    let all = split_chars(chars.as_slice(), '/');
    let ghost model = rows(all@);
    let mut parts: Vec<Vec<char>> = Vec::new();
    let mut i: usize = 0;
    while i < all.len()
        invariant
            i <= all.len(),
            model == rows(all@),
            model == split(path@, '/'),
            rows(parts@) == components_before(model, i as int),
        decreases all.len() - i,
    {
        let part = &all[i];
        assert(model[i as int] == part@);
        let dot = part.len() == 1 && part[0] == '.';
        proof {
            if part.len() == 1 {
                assert(part@ == seq![part@[0]]);
            }
        }
        if part.len() > 0 && !dot {
            let ghost before = rows(parts@);
            parts.push(copy_range(part.as_slice(), 0, part.len()));
            assert(part@.subrange(0, part.len() as int) == part@);
            assert(rows(parts@) == before.push(part@));
        }
        i += 1;
    }
    parts
}

/// The index of the last `.` in `name`, or -1 where it has none.
pub open spec fn last_dot(name: Seq<char>) -> int
    decreases name.len(),
{
    if name.len() == 0 {
        -1
    } else if name.last() == '.' {
        name.len() - 1
    } else {
        last_dot(name.drop_last())
    }
}

/// The extension of the file at `path`: what follows the last `.` of the
/// last component. There is none where the path has no component, where
/// the last component is `..`, and where that component has no `.` after
/// its first character.
pub open spec fn extension_of(path: Seq<char>) -> Option<Seq<char>> {
    let parts = components(path);
    if parts.len() == 0 || parts.last() == seq!['.', '.'] {
        None
    } else {
        let name = parts.last();
        if last_dot(name) > 0 {
            Some(name.skip(last_dot(name) + 1))
        } else {
            None
        }
    }
}

/// The extension of the file at `path`.
pub fn path_extension(path: &str) -> (extension: Option<Vec<char>>)
    ensures
        extension is Some <==> extension_of(path@) is Some,
        extension matches Some(e) ==> Some(e@) == extension_of(path@),
{
    let parts = path_components(path);
    if parts.len() == 0 {
        return None;
    }
    let name = &parts[parts.len() - 1];
    assert(rows(parts@).last() == name@);
    let parent = name.len() == 2 && name[0] == '.' && name[1] == '.';
    proof {
        if name.len() == 2 {
            assert(name@ == seq![name@[0], name@[1]]);
        }
    }
    if parent {
        return None;
    }
    let mut at: usize = name.len();
    assert(name@.take(name.len() as int) == name@);
    while at > 0 && name[at - 1] != '.'
        invariant
            at <= name.len(),
            last_dot(name@) == last_dot(name@.take(at as int)),
        decreases at,
    {
        assert(name@.take(at as int).drop_last() == name@.take(at - 1));
        at -= 1;
    }
    proof {
        if at > 0 {
            assert(name@.take(at as int).last() == '.');
        }
    }
    if at > 1 {
        Some(copy_range(name.as_slice(), at, name.len()))
    } else {
        None
    }
}

/// Whether the extension of the file at `path` is one of `wanted`, the
/// case of ASCII letters set aside.
pub open spec fn has_extension(path: Seq<char>, wanted: Seq<Seq<char>>) -> bool {
    extension_of(path) matches Some(extension) && exists|k: int|
        0 <= k < wanted.len() && eq_ignore_case(extension, #[trigger] wanted[k])
}

/// Decides [`has_extension`].
pub fn path_has_extension(path: &str, wanted: &Vec<Vec<char>>) -> (b: bool)
    ensures
        b == has_extension(path@, rows(wanted@)),
{
    let extension = match path_extension(path) {
        Some(extension) => extension,
        None => { return false; },
    };
    let ghost model = rows(wanted@);
    let mut k: usize = 0;
    while k < wanted.len()
        invariant
            k <= wanted.len(),
            model == rows(wanted@),
            extension_of(path@) == Some(extension@),
            forall|j: int| 0 <= j < k ==> !eq_ignore_case(extension@, #[trigger] model[j]),
        decreases wanted.len() - k,
    {
        assert(model[k as int] == wanted@[k as int]@);
        if chars_eq_ignore_case(extension.as_slice(), wanted[k].as_slice()) {
            return true;
        }
        k += 1;
    }
    false
}

/// Those of `paths` whose extension is one of `wanted`, in order.
pub open spec fn with_extension(paths: Seq<Seq<char>>, wanted: Seq<Seq<char>>) -> Seq<Seq<char>>
    decreases paths.len(),
{
    if paths.len() == 0 {
        Seq::empty()
    } else if has_extension(paths.last(), wanted) {
        with_extension(paths.drop_last(), wanted).push(paths.last())
    } else {
        with_extension(paths.drop_last(), wanted)
    }
}

/// Those of `paths` whose extension is one of `wanted`, in order.
pub fn select_artifacts(paths: &Vec<String>, wanted: &Vec<Vec<char>>) -> (selected: Vec<String>)
    ensures
        strs(selected@) == with_extension(strs(paths@), rows(wanted@)),
{
    let ghost all = strs(paths@);
    let mut selected: Vec<String> = Vec::new();
    let mut i: usize = 0;
    while i < paths.len()
        invariant
            i <= paths.len(),
            all == strs(paths@),
            strs(selected@) == with_extension(all.take(i as int), rows(wanted@)),
        decreases paths.len() - i,
    {
        proof {
            assert(all.take(i + 1).drop_last() == all.take(i as int));
            assert(all.take(i + 1).last() == paths@[i as int]@);
        }
        if path_has_extension(paths[i].as_str(), wanted) {
            let ghost before = strs(selected@);
            selected.push(paths[i].clone());
            assert(strs(selected@) == before.push(paths@[i as int]@));
        }
        i += 1;
    }
    assert(all.take(paths.len() as int) == all);
    selected
}

/// The index of the first of `parts` that is `part`, or the number of
/// parts where none is.
pub open spec fn index_of_part(parts: Seq<Seq<char>>, part: Seq<char>) -> int
    decreases parts.len(),
{
    if parts.len() == 0 || parts[0] == part {
        0
    } else {
        1 + index_of_part(parts.drop_first(), part)
    }
}

/// The target that the file at `path` was built for, as far as the path
/// tells: the component right after the first `mcp-inspections`, unless
/// that is `debug` or `release`. A path without such a component tells
/// nothing.
pub open spec fn inferred_target(path: Seq<char>) -> Option<Seq<char>> {
    let parts = components(path);
    let at = index_of_part(parts, "mcp-inspections"@);
    if 0 <= at && at + 1 < parts.len() {
        let next = parts[at + 1];
        if next == "debug"@ || next == "release"@ {
            None
        } else {
            Some(next)
        }
    } else {
        None
    }
}

/// The target that the file at `path` was built for, as far as the path tells.
pub fn infer_target_from_path(path: &str) -> (target: Option<String>)
    ensures
        opt_text(target) == inferred_target(path@),
{
    let parts = path_components(path);
    let ghost model = rows(parts@);
    let marker = to_chars("mcp-inspections");
    let mut at: usize = 0;
    assert(model.skip(0) == model);
    while at < parts.len()
        invariant
            at <= parts.len(),
            model == rows(parts@),
            model == components(path@),
            marker@ == "mcp-inspections"@,
            index_of_part(model, marker@) == at + index_of_part(model.skip(at as int), marker@),
        decreases parts.len() - at,
    {
        proof {
            assert(model.skip(at as int)[0] == parts@[at as int]@);
            assert(model.skip(at as int).drop_first() == model.skip(at + 1));
        }
        if chars_eq(parts[at].as_slice(), marker.as_slice()) {
            if at + 1 < parts.len() {
                let next = &parts[at + 1];
                assert(model[at + 1] == next@);
                let debug = to_chars("debug");
                let release = to_chars("release");
                if chars_eq(next.as_slice(), debug.as_slice()) || chars_eq(
                    next.as_slice(),
                    release.as_slice(),
                ) {
                    return None;
                }
                return Some(from_chars(next.as_slice()));
            }
            return None;
        }
        at += 1;
    }
    None
}

/// The target that assembly read from `path` is taken to be built for:
/// what the path tells, else `hint`, else `unknown`.
pub open spec fn assembly_target(path: Seq<char>, hint: Option<Seq<char>>) -> Seq<char> {
    match inferred_target(path) {
        Some(target) => target,
        None => match hint {
            Some(target) => target,
            None => "unknown"@,
        },
    }
}

/// The assembly `content`, read from `path`, with the target it is taken
/// to be built for.
pub fn tag_assembly(path: &str, content: String, target_hint: &Option<String>) -> (assembly:
    TargetedAssembly)
    ensures
        assembly@ == (AssemblyModel {
            target: assembly_target(path@, opt_text(*target_hint)),
            content: content@,
        }),
{
    let target = match infer_target_from_path(path) {
        Some(target) => target,
        None => match target_hint {
            Some(target) => target.clone(),
            None => String::from_str("unknown"),
        },
    };
    TargetedAssembly { target, content }
}

/// The target to search under: the one asked for, else that of the first
/// of `assemblies`, else `host`.
pub open spec fn search_target(target: Option<Seq<char>>, assemblies: Seq<AssemblyModel>) -> Seq<
    char,
> {
    match target {
        Some(triple) => triple,
        None => if assemblies.len() > 0 {
            assemblies[0].target
        } else {
            "host"@
        },
    }
}

/// The target to search under.
pub fn choose_search_target(target: &Option<String>, assemblies: &Vec<TargetedAssembly>) -> (triple:
    String)
    ensures
        triple@ == search_target(
            opt_text(*target),
            assemblies@.map_values(|a: TargetedAssembly| a@),
        ),
{
    match target {
        Some(triple) => triple.clone(),
        None => if assemblies.len() > 0 {
            assemblies[0].target.clone()
        } else {
            String::from_str("host")
        },
    }
}

} // verus!
