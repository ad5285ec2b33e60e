use cargo_manifest::deps::TomlDependency;
use cargo_manifest::error::ManifestError;
use cargo_manifest::manifest::{to_manifest, toml_to_manifest};
use cargo_manifest::requirement::Dependency;
use cargo_manifest::targets::TargetKind;
use cargo_manifest::tree::ConfigValue;

fn s(v: &str) -> ConfigValue {
    ConfigValue::Str(v.to_string())
}

fn table(entries: Vec<(&str, ConfigValue)>) -> ConfigValue {
    ConfigValue::Table(entries.into_iter().map(|(k, v)| (k.to_string(), v)).collect())
}

fn project() -> ConfigValue {
    table(vec![("name", s("demo")), ("version", s("0.1.0"))])
}

fn target(name: &str) -> ConfigValue {
    table(vec![("name", s(name))])
}

fn target_at(name: &str, path: &str) -> ConfigValue {
    table(vec![("name", s(name)), ("path", s(path))])
}

fn deps_of(m: &cargo_manifest::manifest::Manifest) -> Vec<(String, String)> {
    let mut v: Vec<(String, String)> = m
        .summary
        .dependencies
        .iter()
        .map(|d| (d.name.clone(), d.requirement.clone()))
        .collect();
    v.sort();
    v
}

fn targets_of(m: &cargo_manifest::manifest::Manifest) -> Vec<(TargetKind, String, String)> {
    m.targets.iter().map(|t| (t.kind, t.name.clone(), t.path.clone())).collect()
}

#[test]
fn project_only_compiles() {
    let root = table(vec![("project", project())]);
    let m = to_manifest(&root).unwrap();
    assert!(m.targets.is_empty());
    assert!(m.summary.dependencies.is_empty());
    assert_eq!(m.summary.project.name, "demo");
    assert_eq!(m.summary.project.version, "0.1.0");
    assert!(m.summary.project.authors.is_empty());
    assert_eq!(m.target_dir, "target");
}

#[test]
fn project_authors_are_decoded() {
    let p = table(vec![
        ("name", s("demo")),
        ("version", s("0.1.0")),
        ("authors", ConfigValue::Array(vec![s("Ann"), s("Bo")])),
    ]);
    let m = to_manifest(&table(vec![("project", p)])).unwrap();
    assert_eq!(m.summary.project.authors, vec!["Ann".to_string(), "Bo".to_string()]);
}

#[test]
fn missing_project_fails() {
    let root = table(vec![
        ("lib", ConfigValue::Array(vec![target("mylib")])),
        ("dependencies", s("not a table")),
    ]);
    assert_eq!(to_manifest(&root).unwrap_err(), ManifestError::MissingSection);
    assert_eq!(to_manifest(&table(vec![])).unwrap_err(), ManifestError::MissingSection);
    assert_eq!(to_manifest(&ConfigValue::Other).unwrap_err(), ManifestError::MissingSection);
}

#[test]
fn malformed_project_is_schema_mismatch() {
    let root = table(vec![("project", s("demo"))]);
    assert_eq!(to_manifest(&root).unwrap_err(), ManifestError::SchemaMismatch);
    let root = table(vec![("project", table(vec![("name", s("demo"))]))]);
    assert_eq!(to_manifest(&root).unwrap_err(), ManifestError::SchemaMismatch);
    let p = table(vec![("name", s("demo")), ("version", s("1.0.0")), ("authors", s("Ann"))]);
    assert_eq!(to_manifest(&table(vec![("project", p)])).unwrap_err(), ManifestError::SchemaMismatch);
}

#[test]
fn simple_dependency_resolves() {
    let root = table(vec![("project", project()), ("dependencies", table(vec![("foo", s("1.0"))]))]);
    let m = to_manifest(&root).unwrap();
    assert_eq!(deps_of(&m), vec![("foo".to_string(), "1.0".to_string())]);
    assert_eq!(m.summary.dependencies[0].req.to_string(), "^1.0");
}

#[test]
fn detailed_dependency_keeps_registry() {
    let detail = table(vec![("version", s("1.0")), ("registry", s("custom"))]);
    let root = table(vec![("project", project()), ("dependencies", table(vec![("foo", detail)]))]);
    let m = to_manifest(&root).unwrap();
    assert_eq!(deps_of(&m), vec![("foo".to_string(), "1.0".to_string())]);
    let t = toml_to_manifest(&root).unwrap();
    let ds = t.dependencies.unwrap();
    assert_eq!(ds.len(), 1);
    assert_eq!(ds[0].0, "foo");
    match &ds[0].1 {
        TomlDependency::DetailedDep(d) => {
            assert_eq!(d.version, "1.0");
            assert_eq!(d.other, vec![("registry".to_string(), "custom".to_string())]);
        }
        TomlDependency::SimpleDep(_) => panic!("expected a detailed dependency"),
    }
}

#[test]
fn detailed_dependency_without_version() {
    let detail = table(vec![("registry", s("custom"))]);
    let root = table(vec![("project", project()), ("dependencies", table(vec![("foo", detail)]))]);
    assert_eq!(to_manifest(&root).unwrap_err(), ManifestError::MissingVersion);
}

#[test]
fn detailed_dependency_with_non_string_value() {
    let detail = table(vec![("version", s("1.0")), ("optional", ConfigValue::Other)]);
    let root = table(vec![("project", project()), ("dependencies", table(vec![("foo", detail)]))]);
    assert_eq!(to_manifest(&root).unwrap_err(), ManifestError::InvalidDependencySpec);
    let detail = table(vec![("optional", ConfigValue::Other)]);
    let root = table(vec![("project", project()), ("dependencies", table(vec![("foo", detail)]))]);
    assert_eq!(to_manifest(&root).unwrap_err(), ManifestError::InvalidDependencySpec);
}

#[test]
fn dependencies_must_be_a_table() {
    let root = table(vec![("project", project()), ("dependencies", s("foo"))]);
    assert_eq!(to_manifest(&root).unwrap_err(), ManifestError::InvalidDependenciesSection);
}

#[test]
fn unrecognized_dependency_values_are_ignored() {
    let root = table(vec![
        ("project", project()),
        ("dependencies", table(vec![("num", ConfigValue::Other), ("arr", ConfigValue::Array(vec![])), ("bar", s("2"))])),
    ]);
    let m = to_manifest(&root).unwrap();
    assert_eq!(deps_of(&m), vec![("bar".to_string(), "2".to_string())]);
}

#[test]
fn invalid_requirement_names_the_dependency() {
    let root = table(vec![
        ("project", project()),
        ("dependencies", table(vec![("good", s("1.0")), ("bad", s("not a version!"))])),
    ]);
    assert_eq!(
        to_manifest(&root).unwrap_err(),
        ManifestError::InvalidVersionRequirement("bad".to_string())
    );
}

#[test]
fn requirement_parser_is_applied() {
    let d = Dependency::parse("foo", ">=1.2, <2").unwrap();
    assert_eq!(d.name, "foo");
    assert_eq!(d.requirement, ">=1.2, <2");
    assert_eq!(d.req.to_string(), ">=1.2, <2");
    assert!(d.req.matches(&semver::Version::new(1, 5, 0)));
    assert!(!d.req.matches(&semver::Version::new(2, 0, 0)));
    assert_eq!(
        Dependency::parse("foo", "=>1").unwrap_err(),
        ManifestError::InvalidVersionRequirement("foo".to_string())
    );
}

#[test]
fn lib_only_target() {
    let root = table(vec![("project", project()), ("lib", ConfigValue::Array(vec![target("mylib")]))]);
    let m = to_manifest(&root).unwrap();
    assert_eq!(
        targets_of(&m),
        vec![(TargetKind::Library, "mylib".to_string(), "src/mylib.rs".to_string())]
    );
}

#[test]
fn lib_and_bin_targets() {
    let root = table(vec![
        ("project", project()),
        ("lib", ConfigValue::Array(vec![target("mylib")])),
        ("bin", ConfigValue::Array(vec![target("tool")])),
    ]);
    let m = to_manifest(&root).unwrap();
    assert_eq!(
        targets_of(&m),
        vec![
            (TargetKind::Library, "mylib".to_string(), "src/mylib.rs".to_string()),
            (TargetKind::Binary, "tool".to_string(), "src/bin/tool.rs".to_string()),
        ]
    );
}

#[test]
fn bins_only_targets() {
    let root = table(vec![
        ("project", project()),
        ("bin", ConfigValue::Array(vec![target("a"), target_at("b", "custom/b.src")])),
    ]);
    let m = to_manifest(&root).unwrap();
    assert_eq!(
        targets_of(&m),
        vec![
            (TargetKind::Binary, "a".to_string(), "src/a.rs".to_string()),
            (TargetKind::Binary, "b".to_string(), "custom/b.src".to_string()),
        ]
    );
}

#[test]
fn second_lib_is_dropped() {
    let root = table(vec![
        ("project", project()),
        ("lib", ConfigValue::Array(vec![target("first"), target("second")])),
    ]);
    let m = to_manifest(&root).unwrap();
    assert_eq!(
        targets_of(&m),
        vec![(TargetKind::Library, "first".to_string(), "src/first.rs".to_string())]
    );
}

#[test]
fn explicit_lib_path_overrides_default() {
    let root = table(vec![
        ("project", project()),
        ("lib", ConfigValue::Array(vec![target_at("mylib", "lib.rs")])),
    ]);
    let m = to_manifest(&root).unwrap();
    assert_eq!(targets_of(&m), vec![(TargetKind::Library, "mylib".to_string(), "lib.rs".to_string())]);
}

#[test]
fn malformed_target_sections_count_as_absent() {
    let root = table(vec![
        ("project", project()),
        ("lib", ConfigValue::Array(vec![table(vec![("path", s("x.rs"))])])),
        ("bin", ConfigValue::Array(vec![target("tool")])),
    ]);
    let m = to_manifest(&root).unwrap();
    assert_eq!(targets_of(&m), vec![(TargetKind::Binary, "tool".to_string(), "src/tool.rs".to_string())]);
    let root = table(vec![("project", project()), ("bin", s("tool"))]);
    assert!(to_manifest(&root).unwrap().targets.is_empty());
    let root = table(vec![
        ("project", project()),
        ("bin", ConfigValue::Array(vec![table(vec![("name", s("t")), ("path", ConfigValue::Other)])])),
    ]);
    assert!(to_manifest(&root).unwrap().targets.is_empty());
}

#[test]
fn empty_lib_section_gives_no_library() {
    let root = table(vec![
        ("project", project()),
        ("lib", ConfigValue::Array(vec![])),
        ("bin", ConfigValue::Array(vec![target("tool")])),
    ]);
    let m = to_manifest(&root).unwrap();
    assert_eq!(targets_of(&m), vec![(TargetKind::Binary, "tool".to_string(), "src/bin/tool.rs".to_string())]);
}

#[test]
fn round_trip_keeps_names_requirements_and_target_order() {
    let root = table(vec![
        ("project", project()),
        (
            "dependencies",
            table(vec![
                ("zeta", s("0.3")),
                ("alpha", table(vec![("version", s("~1.2")), ("registry", s("custom"))])),
                ("ignored", ConfigValue::Other),
            ]),
        ),
        ("lib", ConfigValue::Array(vec![target("core")])),
        ("bin", ConfigValue::Array(vec![target("b2"), target("b1")])),
    ]);
    let m = to_manifest(&root).unwrap();
    assert_eq!(
        deps_of(&m),
        vec![("alpha".to_string(), "~1.2".to_string()), ("zeta".to_string(), "0.3".to_string())]
    );
    let names: Vec<String> = m.targets.iter().map(|t| t.name.clone()).collect();
    assert_eq!(names, vec!["core".to_string(), "b2".to_string(), "b1".to_string()]);
}
