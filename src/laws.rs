//! Properties of manifest compilation that relate whole documents to their
//! compiled manifests.

use vstd::prelude::*;
use crate::deps::{DepView, all_strings, aux_entries, str_or_empty, dep_entry_spec, dependencies_spec, detailed_spec, lemma_resolve_error_persists, requirement_of, resolve_entries};
use crate::error::ErrorView;
use crate::manifest::{compile_spec, optional_targets_spec, project_section_spec, resolved_pairs, target_dir_spec, toml_manifest_spec};
use crate::targets::{TargetDecl, normalize_spec};
use crate::tree::{ConfigValue, find_entry, lookup_spec};

verus! {

/// A document with a valid project section and no `lib`, `bin` or
/// `dependencies` key compiles, with no targets and no dependencies.
pub proof fn lemma_project_only_compiles(root: ConfigValue)
    requires
        project_section_spec(root) is Ok,
        lookup_spec(root, "lib"@) is None,
        lookup_spec(root, "bin"@) is None,
        lookup_spec(root, "dependencies"@) is None,
    ensures
        compile_spec(root) matches Ok(m) && m.targets == Seq::<crate::targets::TargetView>::empty()
            && m.dependencies == Seq::<(Seq<char>, Seq<char>)>::empty()
            && m.project == project_section_spec(root)->Ok_0 && m.target_dir == target_dir_spec(),
{
    let empty_t = Seq::<crate::targets::TargetView>::empty();
    assert(normalize_spec(None, None) =~= empty_t);
    assert(resolved_pairs(Seq::<(Seq<char>, DepView)>::empty()) =~= Seq::<(Seq<char>, Seq<char>)>::empty());
}

/// A document without a `project` key fails to compile with
/// `MissingSection`, whatever else it holds.
pub proof fn lemma_missing_project_fails(root: ConfigValue)
    requires
        lookup_spec(root, "project"@) is None,
    ensures
        compile_spec(root) == Err::<crate::manifest::ManifestView, ErrorView>(ErrorView::MissingSection),
{
}

/// The entries of a document's dependency table, if it has one.
pub open spec fn dependency_table(root: ConfigValue) -> Seq<(String, ConfigValue)> {
    match lookup_spec(root, "dependencies"@) {
        Some(ConfigValue::Table(es)) => es@,
        _ => seq![],
    }
}

/// A dependency table whose entries before the `i`th resolve, and whose `i`th
/// entry is a table of strings without `version`, makes a document with a
/// valid project section fail with `MissingVersion`.
pub proof fn lemma_missing_version_fails(root: ConfigValue, i: int)
    requires
        project_section_spec(root) is Ok,
        lookup_spec(root, "dependencies"@) matches Some(ConfigValue::Table(_)),
        0 <= i < dependency_table(root).len(),
        resolve_entries(dependency_table(root).subrange(0, i)) is Ok,
        dependency_table(root)[i].1 is Table,
        all_strings(dependency_table(root)[i].1->Table_0@),
        find_entry(dependency_table(root)[i].1->Table_0@, "version"@) is None,
    ensures
        compile_spec(root) == Err::<crate::manifest::ManifestView, ErrorView>(ErrorView::MissingVersion),
{
    let es = dependency_table(root);
    let prefix = es.subrange(0, i + 1);
    assert(prefix.drop_last() =~= es.subrange(0, i));
    assert(prefix.last() == es[i]);
    lemma_resolve_error_persists(es, i + 1);
}

/// Normalization keeps the first library entry only: any further entries
/// change nothing.
pub proof fn lemma_first_library_wins(lib: Seq<TargetDecl>, bin: Option<Seq<TargetDecl>>)
    requires
        lib.len() >= 1,
    ensures
        normalize_spec(Some(lib), bin) == normalize_spec(Some(lib.take(1)), bin),
{
}

/// The requirement string that a raw dependency value declares: the value
/// itself when it is a string, its `version` when it is a table.
pub open spec fn raw_requirement(v: ConfigValue) -> Option<Seq<char>> {
    match v {
        ConfigValue::Str(s) => Some(s@),
        ConfigValue::Table(sub) => match find_entry(sub@, "version"@) {
            Some(ConfigValue::Str(r)) => Some(r@),
            _ => None,
        },
        _ => None,
    }
}

/// Whether the dependency table `es` declares `name` with requirement `req`.
pub open spec fn declares(es: Seq<(String, ConfigValue)>, name: Seq<char>, req: Seq<char>) -> bool {
    exists|i: int| 0 <= i < es.len() && (#[trigger] es[i]).0@ == name && raw_requirement(es[i].1) == Some(req)
}

proof fn lemma_resolved_members(es: Seq<(String, ConfigValue)>)
    requires
        resolve_entries(es) is Ok,
    ensures
        forall|name: Seq<char>, req: Seq<char>|
            resolved_pairs(resolve_entries(es)->Ok_0).contains((name, req)) <==> declares(es, name, req),
    decreases es.len(),
{
    if es.len() > 0 {
        let prev = es.drop_last();
        let last = es.last();
        assert(resolve_entries(prev) is Ok);
        lemma_resolved_members(prev);
        lemma_last_requirement(last.1);
        let pds = resolve_entries(prev)->Ok_0;
        let ds = resolve_entries(es)->Ok_0;
        let pp = resolved_pairs(pds);
        let dp = resolved_pairs(ds);
        match dep_entry_spec(last.1) {
            Some(Ok(d)) => {
                assert(ds == pds.push((last.0@, d)));
                assert(dp =~= pp.push((last.0@, requirement_of(d))));
            },
            _ => {
                assert(ds == pds);
            },
        }
        assert forall|name: Seq<char>, req: Seq<char>| dp.contains((name, req)) <==> declares(es, name, req) by {
            if dp.contains((name, req)) {
                let j = choose|j: int| 0 <= j < dp.len() && dp[j] == (name, req);
                if j < pp.len() {
                    assert(pp[j] == (name, req));
                    assert(pp.contains((name, req)));
                    assert(declares(prev, name, req));
                    let k = choose|k: int|
                        0 <= k < prev.len() && (#[trigger] prev[k]).0@ == name && raw_requirement(prev[k].1) == Some(req);
                    assert(es[k] == prev[k]);
                } else {
                    assert(es[es.len() - 1] == last);
                }
            }
            if declares(es, name, req) {
                let k = choose|k: int|
                    0 <= k < es.len() && (#[trigger] es[k]).0@ == name && raw_requirement(es[k].1) == Some(req);
                if k < es.len() - 1 {
                    assert(prev[k] == es[k]);
                    assert(declares(prev, name, req));
                    assert(pp.contains((name, req)));
                    let j = choose|j: int| 0 <= j < pp.len() && pp[j] == (name, req);
                    assert(dp[j] == (name, req));
                } else {
                    assert(dp[dp.len() - 1] == (name, req));
                }
            }
        }
    }
}

/// A value that resolves as a dependency declares the requirement that the
/// declaration holds; one that is ignored declares none.
proof fn lemma_last_requirement(v: ConfigValue)
    requires
        !(dep_entry_spec(v) matches Some(Err(_))),
    ensures
        match dep_entry_spec(v) {
            Some(Ok(d)) => raw_requirement(v) == Some(requirement_of(d)),
            _ => raw_requirement(v) is None,
        },
{
}

/// Compilation keeps exactly the declared dependencies and the targets in
/// their canonical order: a compiled manifest holds a (name, requirement
/// string) pair if and only if the document's dependency table declares that
/// name with that requirement, as a plain string or as the `version` of a
/// table; its targets are the normalized `lib` and `bin` sections.
pub proof fn lemma_round_trip(root: ConfigValue)
    requires
        compile_spec(root) is Ok,
    ensures
        compile_spec(root)->Ok_0.targets == normalize_spec(
            optional_targets_spec(root, "lib"@),
            optional_targets_spec(root, "bin"@),
        ),
        forall|name: Seq<char>, req: Seq<char>|
            compile_spec(root)->Ok_0.dependencies.contains((name, req)) <==> declares(
                dependency_table(root),
                name,
                req,
            ),
{
    match lookup_spec(root, "dependencies"@) {
        Some(ConfigValue::Table(es)) => {
            lemma_resolved_members(es@);
        },
        _ => {},
    }
}

proof fn lemma_aux_member(sub: Seq<(String, ConfigValue)>, j: int)
    requires
        0 <= j < sub.len(),
        sub[j].0@ != "version"@,
    ensures
        aux_entries(sub).contains((sub[j].0@, str_or_empty(sub[j].1))),
    decreases sub.len(),
{
    let prev = sub.drop_last();
    if j < sub.len() - 1 {
        assert(prev[j] == sub[j]);
        lemma_aux_member(prev, j);
        let k = choose|k: int| 0 <= k < aux_entries(prev).len() && aux_entries(prev)[k] == (sub[j].0@, str_or_empty(sub[j].1));
        if sub.last().0@ == "version"@ {
            assert(aux_entries(sub) == aux_entries(prev));
        } else {
            assert(aux_entries(sub)[k] == aux_entries(prev)[k]);
        }
    } else {
        let a = aux_entries(sub);
        assert(a[a.len() - 1] == (sub[j].0@, str_or_empty(sub[j].1)));
    }
}

/// A dependency given as a table keeps its requirement from `version` and
/// every other entry verbatim as auxiliary metadata.
pub proof fn lemma_detailed_keeps_metadata(sub: Seq<(String, ConfigValue)>, j: int)
    requires
        all_strings(sub),
        find_entry(sub, "version"@) is Some,
        find_entry(sub, "version"@)->Some_0 is Str,
        0 <= j < sub.len(),
        sub[j].0@ != "version"@,
    ensures
        detailed_spec(sub) matches Ok(DepView::Detailed(v, aux)) && v == find_entry(
            sub,
            "version"@,
        )->Some_0->Str_0@ && aux.contains((sub[j].0@, sub[j].1->Str_0@)),
{
    lemma_aux_member(sub, j);
    assert(sub[j].1 is Str);
}

} // verus!
