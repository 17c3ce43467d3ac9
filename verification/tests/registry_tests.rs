use gravylib::registry::{distinct_names, load_plan, ModuleRegistry};

fn multi_registry(pairs: Vec<(String, String)>, binaries: Vec<Vec<u8>>) -> ModuleRegistry {
    let plan = load_plan(&pairs);
    assert_eq!(binaries.len(), plan.paths.len());
    ModuleRegistry::from_multi(&plan, &binaries)
}

#[test]
fn single_registry_resolves_any_name() {
    let reg = ModuleRegistry::from_single(vec![1u8, 2, 3]);
    let by_fs = reg.resolve(&"fs_main".to_string()).expect("wildcard must cover fs_main");
    assert_eq!(by_fs.binary, vec![1u8, 2, 3]);
    assert_eq!(by_fs.source_identity, 0);
    assert!(by_fs.entry_point.is_none());
    let by_other = reg.resolve(&"anything_else".to_string()).expect("wildcard must cover all");
    assert_eq!(by_other.source_identity, 0);
    assert_eq!(by_other.binary, vec![1u8, 2, 3]);
}

#[test]
fn load_plan_reads_each_path_once() {
    let pairs = vec![
        ("fs_main".to_string(), "out/shared.spv".to_string()),
        ("vs_main".to_string(), "out/shared.spv".to_string()),
        ("other".to_string(), "out/other.spv".to_string()),
    ];
    let plan = load_plan(&pairs);
    assert_eq!(plan.paths, vec!["out/shared.spv".to_string(), "out/other.spv".to_string()]);
    assert_eq!(plan.slots.len(), 3);
    assert_eq!(plan.slots[0], ("fs_main".to_string(), 0));
    assert_eq!(plan.slots[1], ("vs_main".to_string(), 0));
    assert_eq!(plan.slots[2], ("other".to_string(), 1));
}

#[test]
fn multi_registry_identity_matches_file_per_name() {
    let pairs = vec![
        ("fs_main".to_string(), "out/shared.spv".to_string()),
        ("vs_main".to_string(), "out/shared.spv".to_string()),
        ("other".to_string(), "out/other.spv".to_string()),
    ];
    let reg = multi_registry(pairs, vec![vec![0xAA], vec![0xBB]]);
    let fs = reg.resolve(&"fs_main".to_string()).expect("declared name must resolve");
    let vs = reg.resolve(&"vs_main".to_string()).expect("declared name must resolve");
    let other = reg.resolve(&"other".to_string()).expect("declared name must resolve");
    // Two names compiled into one file share an identity and bytes.
    assert_eq!(fs.source_identity, vs.source_identity);
    assert_eq!(fs.binary, vs.binary);
    assert_eq!(fs.binary, vec![0xAA]);
    // A name compiled into its own file does not.
    assert_ne!(fs.source_identity, other.source_identity);
    assert_eq!(other.binary, vec![0xBB]);
}

#[test]
fn resolve_prefers_exact_match_in_declaration_order() {
    let pairs = vec![
        ("a".to_string(), "out/a.spv".to_string()),
        ("b".to_string(), "out/b.spv".to_string()),
    ];
    let reg = multi_registry(pairs, vec![vec![1], vec![2]]);
    assert_eq!(reg.resolve(&"a".to_string()).unwrap().binary, vec![1]);
    assert_eq!(reg.resolve(&"b".to_string()).unwrap().binary, vec![2]);
}

#[test]
fn missing_name_without_wildcard_fails() {
    let pairs = vec![("fs_main".to_string(), "out/fs.spv".to_string())];
    let reg = multi_registry(pairs, vec![vec![9]]);
    assert!(reg.resolve(&"fs_main".to_string()).is_ok());
    let err = reg.resolve(&"vs_main".to_string()).expect_err("no wildcard: must fail");
    assert_eq!(err.entry_point, "vs_main".to_string());
}

#[test]
fn distinct_names_detects_a_duplicate() {
    let ok = vec![
        ("a".to_string(), "out/a.spv".to_string()),
        ("b".to_string(), "out/a.spv".to_string()),
    ];
    assert!(distinct_names(&ok));
    let dup = vec![
        ("a".to_string(), "out/a.spv".to_string()),
        ("a".to_string(), "out/b.spv".to_string()),
    ];
    assert!(!distinct_names(&dup));
    assert!(distinct_names(&vec![]));
}
