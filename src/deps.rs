//! The dependency table: classification of each entry as a plain requirement
//! string or a detailed table.

use vstd::prelude::*;
use vstd::string::*;
use crate::error::ManifestError;
use crate::tree::{ConfigValue, find_entry, find_in_table, lookup_spec};

verus! {

/// A dependency declaration as written in the document.
#[derive(Debug, Clone)]
pub enum TomlDependency {
    /// `name = "<requirement>"`.
    SimpleDep(String),
    /// `name = { version = "<requirement>", ... }`.
    DetailedDep(DetailedTomlDependency),
}

/// A dependency declared as a table: its requirement and the other string
/// entries of the table, kept verbatim and in order, uninterpreted.
#[derive(Debug, Clone)]
pub struct DetailedTomlDependency {
    pub version: String,
    pub other: Vec<(String, String)>,
}

/// The mathematical value of a dependency declaration.
pub enum DepView {
    Simple(Seq<char>),
    Detailed(Seq<char>, Seq<(Seq<char>, Seq<char>)>),
}

/// The views of a sequence of string pairs.
pub open spec fn pairs_view(ps: Seq<(String, String)>) -> Seq<(Seq<char>, Seq<char>)> {
    ps.map_values(|p: (String, String)| (p.0@, p.1@))
}

impl View for TomlDependency {
    type V = DepView;

    open spec fn view(&self) -> DepView {
        match self {
            TomlDependency::SimpleDep(s) => DepView::Simple(s@),
            TomlDependency::DetailedDep(d) => DepView::Detailed(d.version@, pairs_view(d.other@)),
        }
    }
}

/// The requirement string of a declaration, whichever its shape.
pub open spec fn requirement_of(d: DepView) -> Seq<char> {
    match d {
        DepView::Simple(s) => s,
        DepView::Detailed(v, _) => v,
    }
}

/// Whether every value of the table `entries` is a string.
pub open spec fn all_strings(entries: Seq<(String, ConfigValue)>) -> bool {
    forall|i: int| 0 <= i < entries.len() ==> (#[trigger] entries[i]).1 is Str
}

/// The string held by a value, or nothing.
pub open spec fn str_or_empty(v: ConfigValue) -> Seq<char> {
    match v {
        ConfigValue::Str(s) => s@,
        _ => seq![],
    }
}

/// The entries of a detailed table other than `version`, in order.
pub open spec fn aux_entries(entries: Seq<(String, ConfigValue)>) -> Seq<(Seq<char>, Seq<char>)>
    decreases entries.len(),
{
    if entries.len() == 0 {
        seq![]
    } else {
        let last = entries.last();
        let rest = aux_entries(entries.drop_last());
        if last.0@ == "version"@ {
            rest
        } else {
            rest.push((last.0@, str_or_empty(last.1)))
        }
    }
}

/// What a detailed table decodes to: every value must be a string, and the
/// table must have a `version`.
pub open spec fn detailed_spec(entries: Seq<(String, ConfigValue)>) -> Result<DepView, ManifestError> {
    if !all_strings(entries) {
        Err(ManifestError::InvalidDependencySpec)
    } else {
        match find_entry(entries, "version"@) {
            Some(ConfigValue::Str(v)) => Ok(DepView::Detailed(v@, aux_entries(entries))),
            _ => Err(ManifestError::MissingVersion),
        }
    }
}

/// What one value of the dependency table gives: a string or a table is a
/// declaration (or an error); any other value is ignored (`None`).
pub open spec fn dep_entry_spec(v: ConfigValue) -> Option<Result<DepView, ManifestError>> {
    match v {
        ConfigValue::Str(s) => Some(Ok(DepView::Simple(s@))),
        ConfigValue::Table(es) => Some(detailed_spec(es@)),
        _ => None,
    }
}

/// The declarations of a dependency table, in order, or the error of its
/// first invalid entry.
pub open spec fn resolve_entries(entries: Seq<(String, ConfigValue)>) -> Result<Seq<(Seq<char>, DepView)>, ManifestError>
    decreases entries.len(),
{
    if entries.len() == 0 {
        Ok(seq![])
    } else {
        match resolve_entries(entries.drop_last()) {
            Err(e) => Err(e),
            Ok(prev) => match dep_entry_spec(entries.last().1) {
                None => Ok(prev),
                Some(Err(e)) => Err(e),
                Some(Ok(d)) => Ok(prev.push((entries.last().0@, d))),
            },
        }
    }
}

/// What the `dependencies` key of a document gives: nothing when absent, the
/// declarations when it is a table, an error otherwise.
pub open spec fn dependencies_spec(root: ConfigValue) -> Result<Option<Seq<(Seq<char>, DepView)>>, ManifestError> {
    match lookup_spec(root, "dependencies"@) {
        None => Ok(None),
        Some(ConfigValue::Table(es)) => match resolve_entries(es@) {
            Ok(ds) => Ok(Some(ds)),
            Err(e) => Err(e),
        },
        Some(_) => Err(ManifestError::InvalidDependenciesSection),
    }
}

/// The views of a resolved dependency table.
pub open spec fn dep_table_view(ds: Seq<(String, TomlDependency)>) -> Seq<(Seq<char>, DepView)> {
    ds.map_values(|d: (String, TomlDependency)| (d.0@, d.1@))
}

/// Decodes a dependency given as a table: its `version` and the other
/// entries, all of which must be strings.
pub fn decode_detailed(entries: &Vec<(String, ConfigValue)>) -> (r: Result<DetailedTomlDependency, ManifestError>)
    ensures
        match r {
            Ok(d) => detailed_spec(entries@) == Ok::<DepView, ManifestError>(
                DepView::Detailed(d.version@, pairs_view(d.other@)),
            ),
            Err(e) => detailed_spec(entries@) == Err::<DepView, ManifestError>(e),
        },
{
    let version_key = String::from_str("version");
    let mut other: Vec<(String, String)> = Vec::new();
    let mut i: usize = 0;
    while i < entries.len()
        invariant
            0 <= i <= entries@.len(),
            version_key@ == "version"@,
            all_strings(entries@.subrange(0, i as int)),
            pairs_view(other@) == aux_entries(entries@.subrange(0, i as int)),
        decreases entries@.len() - i,
    {
        let ghost prefix = entries@.subrange(0, i + 1);
        proof {
            assert(prefix.drop_last() =~= entries@.subrange(0, i as int));
        }
        match &entries[i].1 {
            ConfigValue::Str(v) => {
                if entries[i].0 != version_key {
                    let ghost before = other@;
                    other.push((entries[i].0.clone(), v.clone()));
                    assert(pairs_view(other@) =~= pairs_view(before).push((entries@[i as int].0@, v@)));
                }
            },
            _ => {
                assert(!all_strings(entries@)) by {
                    assert(!(entries@[i as int].1 is Str));
                }
                return Err(ManifestError::InvalidDependencySpec);
            },
        }
        assert(all_strings(prefix)) by {
            assert forall|j: int| 0 <= j < prefix.len() implies (#[trigger] prefix[j]).1 is Str by {
                if j < i {
                    assert(prefix[j] == entries@.subrange(0, i as int)[j]);
                }
            }
        }
        i = i + 1;
    }
    assert(entries@.subrange(0, entries@.len() as int) =~= entries@);
    match find_in_table(entries, &version_key) {
        Some(ConfigValue::Str(v)) => Ok(DetailedTomlDependency { version: v.clone(), other }),
        _ => Err(ManifestError::MissingVersion),
    }
}

/// Classifies one value of the dependency table; other shapes than a string
/// or a table give `None` and are ignored.
pub fn classify_dependency(v: &ConfigValue) -> (r: Option<Result<TomlDependency, ManifestError>>)
    ensures
        match r {
            None => dep_entry_spec(*v) is None,
            Some(Ok(d)) => dep_entry_spec(*v) == Some(Ok::<DepView, ManifestError>(d@)),
            Some(Err(e)) => dep_entry_spec(*v) == Some(Err::<DepView, ManifestError>(e)),
        },
{
    match v {
        ConfigValue::Str(s) => Some(Ok(TomlDependency::SimpleDep(s.clone()))),
        ConfigValue::Table(es) => match decode_detailed(es) {
            Ok(d) => Some(Ok(TomlDependency::DetailedDep(d))),
            Err(e) => Some(Err(e)),
        },
        _ => None,
    }
}

/// Classifies every entry of a dependency table, in order, stopping at the
/// first invalid one.
pub fn resolve_table(entries: &Vec<(String, ConfigValue)>) -> (r: Result<Vec<(String, TomlDependency)>, ManifestError>)
    ensures
        match r {
            Ok(ds) => resolve_entries(entries@) == Ok::<_, ManifestError>(dep_table_view(ds@)),
            Err(e) => resolve_entries(entries@) == Err::<Seq<(Seq<char>, DepView)>, _>(e),
        },
{
    let mut ds: Vec<(String, TomlDependency)> = Vec::new();
    let mut i: usize = 0;
    proof {
        assert(entries@.subrange(0, 0) =~= Seq::<(String, ConfigValue)>::empty());
        assert(dep_table_view(ds@) =~= seq![]);
    }
    while i < entries.len()
        invariant
            0 <= i <= entries@.len(),
            resolve_entries(entries@.subrange(0, i as int)) == Ok::<_, ManifestError>(dep_table_view(ds@)),
        decreases entries@.len() - i,
    {
        let ghost prefix = entries@.subrange(0, i + 1);
        proof {
            assert(prefix.drop_last() =~= entries@.subrange(0, i as int));
            assert(prefix.last() == entries@[i as int]);
        }
        match classify_dependency(&entries[i].1) {
            None => {},
            Some(Ok(d)) => {
                let ghost before = ds@;
                ds.push((entries[i].0.clone(), d));
                assert(dep_table_view(ds@) =~= dep_table_view(before).push((entries@[i as int].0@, d@)));
            },
            Some(Err(e)) => {
                proof {
                    lemma_resolve_error_persists(entries@, i as int + 1);
                }
                return Err(e);
            },
        }
        i = i + 1;
    }
    assert(entries@.subrange(0, entries@.len() as int) =~= entries@);
    Ok(ds)
}

/// Once a prefix of the table fails, the whole table fails with that error.
pub proof fn lemma_resolve_error_persists(entries: Seq<(String, ConfigValue)>, n: int)
    requires
        0 <= n <= entries.len(),
        resolve_entries(entries.subrange(0, n)) is Err,
    ensures
        resolve_entries(entries) == resolve_entries(entries.subrange(0, n)),
    decreases entries.len() - n,
{
    if n < entries.len() {
        let next = entries.subrange(0, n + 1);
        assert(next.drop_last() =~= entries.subrange(0, n));
        lemma_resolve_error_persists(entries, n + 1);
    } else {
        assert(entries.subrange(0, n) =~= entries);
    }
}

/// Reads the `dependencies` key of a document: absent gives `None`, a table
/// gives its declarations, any other value is an error.
pub fn resolve_dependencies(root: &ConfigValue) -> (r: Result<Option<Vec<(String, TomlDependency)>>, ManifestError>)
    ensures
        match r {
            Ok(None) => dependencies_spec(*root) == Ok::<_, ManifestError>(None::<Seq<(Seq<char>, DepView)>>),
            Ok(Some(ds)) => dependencies_spec(*root) == Ok::<_, ManifestError>(Some(dep_table_view(ds@))),
            Err(e) => dependencies_spec(*root) == Err::<Option<Seq<(Seq<char>, DepView)>>, _>(e),
        },
{
    let key = String::from_str("dependencies");
    match root.lookup(&key) {
        None => Ok(None),
        Some(ConfigValue::Table(es)) => match resolve_table(es) {
            Ok(ds) => Ok(Some(ds)),
            Err(e) => Err(e),
        },
        Some(_) => Err(ManifestError::InvalidDependenciesSection),
    }
}

} // verus!
