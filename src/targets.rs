//! Build-target declarations and their normalization into concrete targets.

use vstd::prelude::*;
use vstd::string::*;
use crate::tree::{ConfigValue, lookup_spec, str_of};

verus! {

/// A target as declared in the document: a name and an optional source path.
#[derive(Debug, Clone)]
pub struct TomlTarget {
    pub name: String,
    pub path: Option<String>,
}

/// The two kinds of build target.
#[derive(Debug, Clone, Copy, PartialEq, Eq, Structural)]
pub enum TargetKind {
    Library,
    Binary,
}

/// A concrete build target whose source path is fully resolved.
#[derive(Debug, Clone)]
pub struct Target {
    pub kind: TargetKind,
    pub name: String,
    pub path: String,
}

/// The mathematical value of a target: its kind, name and path.
pub struct TargetView {
    pub kind: TargetKind,
    pub name: Seq<char>,
    pub path: Seq<char>,
}

impl View for Target {
    type V = TargetView;

    open spec fn view(&self) -> TargetView {
        TargetView { kind: self.kind, name: self.name@, path: self.path@ }
    }
}

/// The view of an optional string.
pub open spec fn opt_str_view(s: Option<String>) -> Option<Seq<char>> {
    match s {
        Some(s) => Some(s@),
        None => None,
    }
}

/// The source path of a library, or of a binary when there is no library:
/// `src/<name>.rs`.
pub open spec fn top_level_path(name: Seq<char>) -> Seq<char> {
    "src/"@ + name + ".rs"@
}

/// The source path of a binary beside a library: `src/bin/<name>.rs`.
pub open spec fn nested_bin_path(name: Seq<char>) -> Seq<char> {
    "src/bin/"@ + name + ".rs"@
}

/// The mathematical value of a target declaration: its name and its
/// declared path, if any.
pub type TargetDecl = (Seq<char>, Option<Seq<char>>);

impl View for TomlTarget {
    type V = TargetDecl;

    open spec fn view(&self) -> TargetDecl {
        (self.name@, opt_str_view(self.path))
    }
}

/// The views of a sequence of target declarations.
pub open spec fn decls_view(ts: Seq<TomlTarget>) -> Seq<TargetDecl> {
    ts.map_values(|t: TomlTarget| t@)
}

/// The declared path of `t` if it has one, else `default`.
pub open spec fn path_or(t: TargetDecl, default: Seq<char>) -> Seq<char> {
    match t.1 {
        Some(p) => p,
        None => default,
    }
}

/// The library target made from the declaration `l`.
pub open spec fn lib_target_spec(l: TargetDecl) -> TargetView {
    TargetView { kind: TargetKind::Library, name: l.0, path: path_or(l, top_level_path(l.0)) }
}

/// The binary target made from the declaration `b`; `beside_lib` tells
/// whether a library section is present.
pub open spec fn bin_target_spec(b: TargetDecl, beside_lib: bool) -> TargetView {
    TargetView {
        kind: TargetKind::Binary,
        name: b.0,
        path: path_or(b, if beside_lib { nested_bin_path(b.0) } else { top_level_path(b.0) }),
    }
}

/// The library targets of a library section: one, from its first entry;
/// further entries are ignored.
pub open spec fn lib_targets_spec(libs: Seq<TargetDecl>) -> Seq<TargetView> {
    if libs.len() == 0 {
        seq![]
    } else {
        seq![lib_target_spec(libs[0])]
    }
}

/// The binary targets of a binary section, in declaration order.
pub open spec fn bin_targets_spec(bins: Seq<TargetDecl>, beside_lib: bool) -> Seq<TargetView> {
    bins.map_values(|b: TargetDecl| bin_target_spec(b, beside_lib))
}

/// The canonical target list: the library first, if any, then the binaries.
pub open spec fn normalize_spec(lib: Option<Seq<TargetDecl>>, bin: Option<Seq<TargetDecl>>) -> Seq<TargetView> {
    let libs = match lib {
        Some(l) => lib_targets_spec(l),
        None => seq![],
    };
    let bins = match bin {
        Some(b) => bin_targets_spec(b, lib is Some),
        None => seq![],
    };
    libs + bins
}

/// The views of an optional slice of target declarations.
pub open spec fn opt_decls_view(ts: Option<&[TomlTarget]>) -> Option<Seq<TargetDecl>> {
    match ts {
        Some(t) => Some(decls_view(t@)),
        None => None,
    }
}

/// The views of a sequence of targets.
pub open spec fn targets_view(ts: Seq<Target>) -> Seq<TargetView> {
    ts.map_values(|t: Target| t@)
}

fn path_with_default(declared: &Option<String>, default: String) -> (r: String)
    ensures
        r@ == match declared {
            Some(p) => p@,
            None => default@,
        },
{
    match declared {
        Some(p) => p.clone(),
        None => default,
    }
}

fn push_lib_target(dst: &mut Vec<Target>, libs: &[TomlTarget])
    ensures
        targets_view(final(dst)@) == targets_view(old(dst)@) + lib_targets_spec(decls_view(libs@)),
{
    if libs.len() == 0 {
        assert(targets_view(dst@) =~= targets_view(dst@) + lib_targets_spec(decls_view(libs@)));
        return;
    }
    let l = &libs[0];
    let default = String::from_str("src/").concat(l.name.as_str()).concat(".rs");
    let path = path_with_default(&l.path, default);
    let t = Target { kind: TargetKind::Library, name: l.name.clone(), path };
    let ghost before = dst@;
    dst.push(t);
    assert(targets_view(dst@) =~= targets_view(before) + lib_targets_spec(decls_view(libs@)));
}

fn push_bin_targets(dst: &mut Vec<Target>, bins: &[TomlTarget], beside_lib: bool)
    ensures
        targets_view(final(dst)@) == targets_view(old(dst)@) + bin_targets_spec(decls_view(bins@), beside_lib),
{
    let ghost start = dst@;
    let mut i: usize = 0;
    while i < bins.len()
        invariant
            0 <= i <= bins@.len(),
            targets_view(dst@) == targets_view(start) + bin_targets_spec(decls_view(bins@.subrange(0, i as int)), beside_lib),
        decreases bins@.len() - i,
    {
        let b = &bins[i];
        let default = if beside_lib {
            String::from_str("src/bin/").concat(b.name.as_str()).concat(".rs")
        } else {
            String::from_str("src/").concat(b.name.as_str()).concat(".rs")
        };
        let path = path_with_default(&b.path, default);
        let t = Target { kind: TargetKind::Binary, name: b.name.clone(), path };
        let ghost before = dst@;
        dst.push(t);
        proof {
            assert(bins@.subrange(0, i + 1) =~= bins@.subrange(0, i as int).push(bins@[i as int]));
            assert(targets_view(dst@) =~= targets_view(before).push(t@));
            assert(bin_targets_spec(decls_view(bins@.subrange(0, i + 1)), beside_lib) =~= bin_targets_spec(
                decls_view(bins@.subrange(0, i as int)),
                beside_lib,
            ).push(bin_target_spec(bins@[i as int]@, beside_lib)));
            assert(targets_view(dst@) =~= targets_view(start) + bin_targets_spec(
                decls_view(bins@.subrange(0, i + 1)),
                beside_lib,
            ));
        }
        i = i + 1;
    }
    assert(bins@.subrange(0, bins@.len() as int) =~= bins@);
}

/// Produces the canonical target list from the library and binary sections:
/// the library from the first library entry, then one binary per binary entry
/// in order. A binary without a declared path gets `src/bin/<name>.rs` when a
/// library section is present and `src/<name>.rs` otherwise.
pub fn normalize(lib: Option<&[TomlTarget]>, bin: Option<&[TomlTarget]>) -> (r: Vec<Target>)
    ensures
        targets_view(r@) == normalize_spec(opt_decls_view(lib), opt_decls_view(bin)),
{
    let mut ret: Vec<Target> = Vec::new();
    assert(targets_view(ret@) =~= seq![]);
    match lib {
        Some(libs) => push_lib_target(&mut ret, libs),
        None => {},
    }
    match bin {
        Some(bins) => push_bin_targets(&mut ret, bins, lib.is_some()),
        None => {},
    }
    proof {
        let lib_v = match lib {
            Some(l) => lib_targets_spec(decls_view(l@)),
            None => Seq::<TargetView>::empty(),
        };
        assert(seq![] + lib_v =~= lib_v);
        assert(lib_v + seq![] =~= lib_v);
    }
    ret
}

/// The declaration that a target entry of the document decodes to: a table
/// with a string `name` and, optionally, a string `path`.
pub open spec fn target_entry_spec(v: ConfigValue) -> Option<(Seq<char>, Option<Seq<char>>)> {
    match lookup_spec(v, "name"@) {
        Some(ConfigValue::Str(n)) => match lookup_spec(v, "path"@) {
            None => Some((n@, None)),
            Some(ConfigValue::Str(p)) => Some((n@, Some(p@))),
            Some(_) => None,
        },
        _ => None,
    }
}

/// Whether `v` decodes to a sequence of target declarations: an array whose
/// every item is a target entry.
pub open spec fn decodes_to_targets(v: ConfigValue) -> bool {
    match v {
        ConfigValue::Array(items) => forall|i: int|
            0 <= i < items@.len() ==> (#[trigger] target_entry_spec(items@[i])) is Some,
        _ => false,
    }
}

/// Whether `ts` holds exactly the declarations that the items of `items` decode to.
pub open spec fn decoded_targets(items: Seq<ConfigValue>, ts: Seq<TomlTarget>) -> bool {
    &&& ts.len() == items.len()
    &&& forall|i: int| 0 <= i < ts.len() ==> target_entry_spec(#[trigger] items[i]) == Some(ts[i]@)
}

/// The declarations that a target section decodes to, if it decodes.
pub open spec fn targets_spec(v: ConfigValue) -> Option<Seq<TargetDecl>> {
    if decodes_to_targets(v) {
        match v {
            ConfigValue::Array(items) => Some(items@.map_values(|it: ConfigValue| target_entry_spec(it).unwrap())),
            _ => None,
        }
    } else {
        None
    }
}

/// The views of an optional vector of target declarations.
pub open spec fn opt_vec_decls_view(ts: Option<Vec<TomlTarget>>) -> Option<Seq<TargetDecl>> {
    match ts {
        Some(t) => Some(decls_view(t@)),
        None => None,
    }
}

/// Decodes one target entry.
pub fn decode_target(v: &ConfigValue) -> (r: Option<TomlTarget>)
    ensures
        match r {
            Some(t) => target_entry_spec(*v) == Some(t@),
            None => target_entry_spec(*v) is None,
        },
{
    let name_key = String::from_str("name");
    let path_key = String::from_str("path");
    match v.lookup(&name_key) {
        Some(ConfigValue::Str(n)) => match v.lookup(&path_key) {
            None => Some(TomlTarget { name: n.clone(), path: None }),
            Some(ConfigValue::Str(p)) => Some(TomlTarget { name: n.clone(), path: Some(p.clone()) }),
            Some(_) => None,
        },
        _ => None,
    }
}

/// Decodes a target section: an array of target entries.
pub fn decode_targets(v: &ConfigValue) -> (r: Option<Vec<TomlTarget>>)
    ensures
        r is Some <==> decodes_to_targets(*v),
        r matches Some(ts) ==> v matches ConfigValue::Array(items) && decoded_targets(items@, ts@),
        opt_vec_decls_view(r) == targets_spec(*v),
{
    match v {
        ConfigValue::Array(items) => {
            let mut ts: Vec<TomlTarget> = Vec::new();
            let mut i: usize = 0;
            while i < items.len()
                invariant
                    0 <= i <= items@.len(),
                    *v == ConfigValue::Array(*items),
                    decoded_targets(items@.subrange(0, i as int), ts@),
                    forall|j: int| 0 <= j < i ==> (#[trigger] target_entry_spec(items@[j])) is Some,
                decreases items@.len() - i,
            {
                match decode_target(&items[i]) {
                    Some(t) => {
                        ts.push(t);
                        assert(items@.subrange(0, i + 1) =~= items@.subrange(0, i as int).push(items@[i as int]));
                    },
                    None => {
                        assert(target_entry_spec(items@[i as int]) is None);
                        assert(!decodes_to_targets(*v));
                        return None;
                    },
                }
                i = i + 1;
            }
            assert(items@.subrange(0, items@.len() as int) =~= items@);
            assert(decls_view(ts@) =~= items@.map_values(|it: ConfigValue| target_entry_spec(it).unwrap()));
            Some(ts)
        },
        _ => None,
    }
}

} // verus!
