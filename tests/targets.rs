use cargo_manifest::targets::{normalize, TargetKind, TomlTarget};
use cargo_manifest::tree::ConfigValue;

fn decl(name: &str, path: Option<&str>) -> TomlTarget {
    TomlTarget { name: name.to_string(), path: path.map(|p| p.to_string()) }
}

fn view(ts: &[cargo_manifest::targets::Target]) -> Vec<(TargetKind, String, String)> {
    ts.iter().map(|t| (t.kind, t.name.clone(), t.path.clone())).collect()
}

#[test]
fn normalize_nothing() {
    assert!(normalize(None, None).is_empty());
}

#[test]
fn normalize_lib_and_bins() {
    let libs = vec![decl("l", None), decl("ignored", None)];
    let bins = vec![decl("x", None), decl("y", Some("y/main.rs"))];
    let r = normalize(Some(&libs), Some(&bins));
    assert_eq!(
        view(&r),
        vec![
            (TargetKind::Library, "l".to_string(), "src/l.rs".to_string()),
            (TargetKind::Binary, "x".to_string(), "src/bin/x.rs".to_string()),
            (TargetKind::Binary, "y".to_string(), "y/main.rs".to_string()),
        ]
    );
}

#[test]
fn normalize_bins_without_lib() {
    let bins = vec![decl("x", None)];
    let r = normalize(None, Some(&bins));
    assert_eq!(view(&r), vec![(TargetKind::Binary, "x".to_string(), "src/x.rs".to_string())]);
}

#[test]
fn lookup_returns_first_entry() {
    let t = ConfigValue::Table(vec![
        ("k".to_string(), ConfigValue::Str("one".to_string())),
        ("k".to_string(), ConfigValue::Str("two".to_string())),
    ]);
    match t.lookup(&"k".to_string()) {
        Some(ConfigValue::Str(v)) => assert_eq!(v, "one"),
        _ => panic!("expected a string"),
    }
    assert!(t.lookup(&"missing".to_string()).is_none());
    assert!(ConfigValue::Other.lookup(&"k".to_string()).is_none());
}
