//! The project section, the decoded document, and assembly of the final
//! manifest.

use vstd::prelude::*;
use vstd::string::*;
use crate::deps::{DepView, TomlDependency, dep_table_view, dependencies_spec, requirement_of, resolve_dependencies, str_or_empty};
use crate::error::{ErrorView, ManifestError};
use crate::requirement::{Dependency, parses_as_requirement};
use crate::targets::{Target, TargetDecl, TargetView, TomlTarget, decls_view, decode_targets, normalize, normalize_spec, opt_decls_view, opt_vec_decls_view, targets_spec, targets_view};
use crate::tree::{ConfigValue, lookup_spec};

verus! {

/// The identity of a project: its name, its version and its authors.
#[derive(Debug, Clone)]
pub struct Project {
    pub name: String,
    pub version: String,
    pub authors: Vec<String>,
}

/// The mathematical value of a project identity.
pub struct ProjectView {
    pub name: Seq<char>,
    pub version: Seq<char>,
    pub authors: Seq<Seq<char>>,
}

/// The views of a sequence of strings.
pub open spec fn strings_view(ss: Seq<String>) -> Seq<Seq<char>> {
    ss.map_values(|s: String| s@)
}

impl View for Project {
    type V = ProjectView;

    open spec fn view(&self) -> ProjectView {
        ProjectView { name: self.name@, version: self.version@, authors: strings_view(self.authors@) }
    }
}

/// What the `authors` entry of a project gives: absent means no authors;
/// present, it must be an array of strings.
pub open spec fn authors_spec(v: Option<ConfigValue>) -> Option<Seq<Seq<char>>> {
    match v {
        None => Some(seq![]),
        Some(ConfigValue::Array(items)) => if forall|i: int|
            0 <= i < items@.len() ==> (#[trigger] items@[i]) is Str {
            Some(items@.map_values(|it: ConfigValue| str_or_empty(it)))
        } else {
            None
        },
        Some(_) => None,
    }
}

/// What a project section decodes to: a table with a string `name`, a string
/// `version` and optional `authors`.
pub open spec fn project_spec(v: ConfigValue) -> Option<ProjectView> {
    match (lookup_spec(v, "name"@), lookup_spec(v, "version"@)) {
        (Some(ConfigValue::Str(n)), Some(ConfigValue::Str(ver))) => match authors_spec(lookup_spec(v, "authors"@)) {
            Some(a) => Some(ProjectView { name: n@, version: ver@, authors: a }),
            None => None,
        },
        _ => None,
    }
}

/// What the `project` key of a document gives.
pub open spec fn project_section_spec(root: ConfigValue) -> Result<ProjectView, ManifestError> {
    match lookup_spec(root, "project"@) {
        None => Err(ManifestError::MissingSection),
        Some(v) => match project_spec(v) {
            Some(p) => Ok(p),
            None => Err(ManifestError::SchemaMismatch),
        },
    }
}

fn decode_authors(v: Option<&ConfigValue>) -> (r: Option<Vec<String>>)
    ensures
        match r {
            Some(a) => authors_spec(crate::tree::deref_opt(v)) == Some(strings_view(a@)),
            None => authors_spec(crate::tree::deref_opt(v)) is None,
        },
{
    match v {
        None => {
            let a: Vec<String> = Vec::new();
            assert(strings_view(a@) =~= seq![]);
            Some(a)
        },
        Some(ConfigValue::Array(items)) => {
            let mut a: Vec<String> = Vec::new();
            let mut i: usize = 0;
            while i < items.len()
                invariant
                    0 <= i <= items@.len(),
                    crate::tree::deref_opt(v) == Some(ConfigValue::Array(*items)),
                    strings_view(a@) =~= items@.subrange(0, i as int).map_values(|it: ConfigValue| str_or_empty(it)),
                    forall|j: int| 0 <= j < i ==> (#[trigger] items@[j]) is Str,
                decreases items@.len() - i,
            {
                match &items[i] {
                    ConfigValue::Str(s) => {
                        let ghost before = a@;
                        a.push(s.clone());
                        assert(items@.subrange(0, i + 1) =~= items@.subrange(0, i as int).push(items@[i as int]));
                        assert(strings_view(a@) =~= strings_view(before).push(s@));
                    },
                    _ => {
                        assert(!(items@[i as int] is Str));
                        return None;
                    },
                }
                i = i + 1;
            }
            assert(items@.subrange(0, items@.len() as int) =~= items@);
            Some(a)
        },
        Some(_) => None,
    }
}

/// Decodes a project section.
pub fn decode_project(v: &ConfigValue) -> (r: Option<Project>)
    ensures
        match r {
            Some(p) => project_spec(*v) == Some(p@),
            None => project_spec(*v) is None,
        },
{
    let name_key = String::from_str("name");
    let version_key = String::from_str("version");
    let authors_key = String::from_str("authors");
    match (v.lookup(&name_key), v.lookup(&version_key)) {
        (Some(ConfigValue::Str(n)), Some(ConfigValue::Str(ver))) => match decode_authors(v.lookup(&authors_key)) {
            Some(authors) => Some(Project { name: n.clone(), version: ver.clone(), authors }),
            None => None,
        },
        _ => None,
    }
}

/// A document decoded into its typed sections.
#[derive(Debug, Clone)]
pub struct TomlManifest {
    pub project: Box<Project>,
    pub lib: Option<Vec<TomlTarget>>,
    pub bin: Option<Vec<TomlTarget>>,
    pub dependencies: Option<Vec<(String, TomlDependency)>>,
}

/// The mathematical value of a decoded document.
pub struct TomlManifestView {
    pub project: ProjectView,
    pub lib: Option<Seq<TargetDecl>>,
    pub bin: Option<Seq<TargetDecl>>,
    pub dependencies: Option<Seq<(Seq<char>, DepView)>>,
}

impl View for TomlManifest {
    type V = TomlManifestView;

    open spec fn view(&self) -> TomlManifestView {
        TomlManifestView {
            project: self.project@,
            lib: opt_vec_decls_view(self.lib),
            bin: opt_vec_decls_view(self.bin),
            dependencies: match self.dependencies {
                Some(ds) => Some(dep_table_view(ds@)),
                None => None,
            },
        }
    }
}

/// What an optional target section gives: its declarations when present and
/// well-formed, otherwise nothing.
pub open spec fn optional_targets_spec(root: ConfigValue, key: Seq<char>) -> Option<Seq<TargetDecl>> {
    match lookup_spec(root, key) {
        Some(v) => targets_spec(v),
        None => None,
    }
}

/// What a document decodes to: the project section is required and must be
/// well-formed; `lib` and `bin` sections that are absent or malformed count
/// as absent; the dependency table must be valid.
pub open spec fn toml_manifest_spec(root: ConfigValue) -> Result<TomlManifestView, ManifestError> {
    match project_section_spec(root) {
        Err(e) => Err(e),
        Ok(p) => match dependencies_spec(root) {
            Err(e) => Err(e),
            Ok(ds) => Ok(
                TomlManifestView {
                    project: p,
                    lib: optional_targets_spec(root, "lib"@),
                    bin: optional_targets_spec(root, "bin"@),
                    dependencies: ds,
                },
            ),
        },
    }
}

fn decode_optional_targets(root: &ConfigValue, key: &String) -> (r: Option<Vec<TomlTarget>>)
    ensures
        opt_vec_decls_view(r) == optional_targets_spec(*root, key@),
{
    match root.lookup(key) {
        Some(v) => decode_targets(v),
        None => None,
    }
}

/// Decodes a document into its typed sections.
pub fn toml_to_manifest(root: &ConfigValue) -> (r: Result<TomlManifest, ManifestError>)
    ensures
        match r {
            Ok(t) => toml_manifest_spec(*root) == Ok::<_, ManifestError>(t@),
            Err(e) => toml_manifest_spec(*root) == Err::<TomlManifestView, _>(e),
        },
{
    let project_key = String::from_str("project");
    let project = match root.lookup(&project_key) {
        None => {
            return Err(ManifestError::MissingSection);
        },
        Some(v) => match decode_project(v) {
            Some(p) => p,
            None => {
                return Err(ManifestError::SchemaMismatch);
            },
        },
    };
    let lib = decode_optional_targets(root, &String::from_str("lib"));
    let bin = decode_optional_targets(root, &String::from_str("bin"));
    let dependencies = match resolve_dependencies(root) {
        Ok(ds) => ds,
        Err(e) => {
            return Err(e);
        },
    };
    Ok(TomlManifest { project: Box::new(project), lib, bin, dependencies })
}

/// A project identity together with its resolved dependencies.
#[derive(Debug)]
pub struct Summary {
    pub project: Project,
    pub dependencies: Vec<Dependency>,
}

/// The compiled manifest: the package summary, the build targets in
/// canonical order, and the output directory.
#[derive(Debug)]
pub struct Manifest {
    pub summary: Summary,
    pub targets: Vec<Target>,
    pub target_dir: String,
}

/// The mathematical value of a compiled manifest: the project identity, the
/// name and requirement string of each dependency, the targets and the
/// output directory.
pub struct ManifestView {
    pub project: ProjectView,
    pub dependencies: Seq<(Seq<char>, Seq<char>)>,
    pub targets: Seq<TargetView>,
    pub target_dir: Seq<char>,
}

/// The name and requirement string of each resolved dependency.
pub open spec fn dependencies_view(ds: Seq<Dependency>) -> Seq<(Seq<char>, Seq<char>)> {
    ds.map_values(|d: Dependency| (d.name@, d.requirement@))
}

impl View for Manifest {
    type V = ManifestView;

    open spec fn view(&self) -> ManifestView {
        ManifestView {
            project: self.summary.project@,
            dependencies: dependencies_view(self.summary.dependencies@),
            targets: targets_view(self.targets@),
            target_dir: self.target_dir@,
        }
    }
}

/// The output directory of every compiled manifest.
pub open spec fn target_dir_spec() -> Seq<char> {
    "target"@
}

/// The name and requirement string of each declaration of a dependency table.
pub open spec fn resolved_pairs(ds: Seq<(Seq<char>, DepView)>) -> Seq<(Seq<char>, Seq<char>)> {
    ds.map_values(|d: (Seq<char>, DepView)| (d.0, requirement_of(d.1)))
}

/// Whether every requirement of a dependency table parses.
pub open spec fn all_requirements_parse(ds: Seq<(Seq<char>, DepView)>) -> bool {
    forall|i: int| 0 <= i < ds.len() ==> parses_as_requirement(requirement_of(#[trigger] ds[i].1))
}

/// Whether the `i`th declaration is the first whose requirement does not parse.
pub open spec fn first_failure_at(ds: Seq<(Seq<char>, DepView)>, i: int) -> bool {
    &&& 0 <= i < ds.len()
    &&& !parses_as_requirement(requirement_of(ds[i].1))
    &&& forall|j: int| 0 <= j < i ==> parses_as_requirement(requirement_of(#[trigger] ds[j].1))
}

/// The declarations of a decoded document's dependency table, or none.
pub open spec fn declared_dependencies(t: TomlManifestView) -> Seq<(Seq<char>, DepView)> {
    match t.dependencies {
        Some(ds) => ds,
        None => seq![],
    }
}

/// The manifest assembled from a decoded document: every requirement must
/// parse, else the first that does not is reported under its name.
pub open spec fn assemble_spec(t: TomlManifestView) -> Result<ManifestView, ErrorView> {
    let ds = declared_dependencies(t);
    if all_requirements_parse(ds) {
        Ok(
            ManifestView {
                project: t.project,
                dependencies: resolved_pairs(ds),
                targets: normalize_spec(t.lib, t.bin),
                target_dir: target_dir_spec(),
            },
        )
    } else {
        Err(ErrorView::InvalidVersionRequirement(ds[choose|i: int| first_failure_at(ds, i)].0))
    }
}

/// The result of compiling a document.
pub open spec fn compile_spec(root: ConfigValue) -> Result<ManifestView, ErrorView> {
    match toml_manifest_spec(root) {
        Err(e) => Err(e@),
        Ok(t) => assemble_spec(t),
    }
}

/// The view of a compilation result.
pub open spec fn result_view(r: Result<Manifest, ManifestError>) -> Result<ManifestView, ErrorView> {
    match r {
        Ok(m) => Ok(m@),
        Err(e) => Err(e@),
    }
}

fn clone_project(p: &Project) -> (r: Project)
    ensures
        r@ == p@,
{
    let mut authors: Vec<String> = Vec::new();
    let mut i: usize = 0;
    while i < p.authors.len()
        invariant
            0 <= i <= p.authors@.len(),
            strings_view(authors@) =~= strings_view(p.authors@.subrange(0, i as int)),
        decreases p.authors@.len() - i,
    {
        let ghost before = authors@;
        authors.push(p.authors[i].clone());
        assert(p.authors@.subrange(0, i + 1) =~= p.authors@.subrange(0, i as int).push(p.authors@[i as int]));
        assert(strings_view(authors@) =~= strings_view(before).push(p.authors@[i as int]@));
        i = i + 1;
    }
    assert(p.authors@.subrange(0, p.authors@.len() as int) =~= p.authors@);
    Project { name: p.name.clone(), version: p.version.clone(), authors }
}

impl TomlManifest {
    /// Assembles the manifest: parses the requirement of every dependency, in
    /// table order, failing on the first that does not parse, and normalizes
    /// the targets.
    pub fn to_manifest(&self) -> (r: Result<Manifest, ManifestError>)
        ensures
            result_view(r) == assemble_spec(self@),
    {
        let lib: Option<&[TomlTarget]> = match &self.lib {
            Some(l) => Some(l.as_slice()),
            None => None,
        };
        let bin: Option<&[TomlTarget]> = match &self.bin {
            Some(b) => Some(b.as_slice()),
            None => None,
        };
        let targets = normalize(lib, bin);
        assert(opt_decls_view(lib) == opt_vec_decls_view(self.lib));
        assert(opt_decls_view(bin) == opt_vec_decls_view(self.bin));

        let ghost ds = declared_dependencies(self@);
        let mut deps: Vec<Dependency> = Vec::new();
        match &self.dependencies {
            Some(table) => {
                let mut i: usize = 0;
                while i < table.len()
                    invariant
                        0 <= i <= table@.len(),
                        ds == dep_table_view(table@),
                        ds == declared_dependencies(self@),
                        forall|j: int| 0 <= j < i ==> parses_as_requirement(requirement_of(#[trigger] ds[j].1)),
                        dependencies_view(deps@) =~= resolved_pairs(ds.subrange(0, i as int)),
                    decreases table@.len() - i,
                {
                    let name = &table[i].0;
                    let version: &String = match &table[i].1 {
                        TomlDependency::SimpleDep(s) => s,
                        TomlDependency::DetailedDep(d) => &d.version,
                    };
                    assert(version@ == requirement_of(ds[i as int].1));
                    match Dependency::parse(name.as_str(), version.as_str()) {
                        Ok(d) => {
                            let ghost before = deps@;
                            deps.push(d);
                            assert(ds.subrange(0, i + 1) =~= ds.subrange(0, i as int).push(ds[i as int]));
                            assert(dependencies_view(deps@) =~= dependencies_view(before).push((d.name@, d.requirement@)));
                        },
                        Err(e) => {
                            proof {
                                assert(first_failure_at(ds, i as int));
                                let k = choose|k: int| first_failure_at(ds, k);
                                if k < i {
                                    assert(parses_as_requirement(requirement_of(ds[k].1)));
                                } else if k > i {
                                    assert(parses_as_requirement(requirement_of(ds[i as int].1)));
                                }
                                assert(k == i);
                                assert(!all_requirements_parse(ds));
                                assert(name@ == ds[i as int].0);
                                assert(e@ == ErrorView::InvalidVersionRequirement(ds[i as int].0));
                            }
                            return Err(e);
                        },
                    }
                    i = i + 1;
                }
                assert(ds.subrange(0, table@.len() as int) =~= ds);
            },
            None => {
                assert(dependencies_view(deps@) =~= resolved_pairs(ds));
            },
        }
        let project = clone_project(&self.project);
        Ok(Manifest { summary: Summary { project, dependencies: deps }, targets, target_dir: String::from_str("target") })
    }
}

/// Compiles a decoded document into a manifest: decodes its sections, then
/// assembles them. Nothing is returned but the error on any failure.
pub fn to_manifest(root: &ConfigValue) -> (r: Result<Manifest, ManifestError>)
    ensures
        result_view(r) == compile_spec(*root),
{
    match toml_to_manifest(root) {
        Ok(t) => t.to_manifest(),
        Err(e) => Err(e),
    }
}

} // verus!
