use ui_sync::DatasetPath;

fn test_path() -> DatasetPath {
    DatasetPath::new_private(vec!["Test".to_string()])
}

#[test]
fn resolution_is_pure_and_repeatable() {
    let owner = "owner-1".to_string();
    let first = test_path().resolve(&owner);
    let second = test_path().resolve(&owner);
    assert!(first == second);
}

#[test]
fn resolution_with_another_owner_differs() {
    let first = test_path().resolve(&"owner-1".to_string());
    let other = test_path().resolve(&"owner-2".to_string());
    assert!(first != other);
}

#[test]
fn unresolved_paths_compare_structurally() {
    assert!(test_path() == test_path());
    assert!(test_path() != DatasetPath::new_private(vec!["Other".to_string()]));
    assert!(test_path() != DatasetPath::new_shared(vec!["Test".to_string()]));
    assert!(
        DatasetPath::new_private(vec!["a".to_string(), "b".to_string()])
            != DatasetPath::new_private(vec!["a".to_string()])
    );
}

#[test]
fn resolved_paths_with_different_segments_differ() {
    let owner = "owner-1".to_string();
    let a = DatasetPath::new_private(vec!["A".to_string()]).resolve(&owner);
    let b = DatasetPath::new_private(vec!["B".to_string()]).resolve(&owner);
    assert!(a != b);
}

#[test]
fn clones_address_the_same_collection() {
    let p = test_path();
    let q = p.clone();
    assert!(p == q);
    let owner = "owner-1".to_string();
    let r = p.resolve(&owner);
    let s = r.clone();
    assert!(r == s);
}
