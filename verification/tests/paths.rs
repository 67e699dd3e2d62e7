use ui_sync::UiElement;
use ui_sync::UiElementKind;
use ui_sync::UiError;
use ui_sync::UiPath;

fn small_tree() -> UiElement {
    let mut root = UiElement::new(UiElementKind::Rows);
    let mut left = UiElement::new(UiElementKind::Columns);
    let mut leaf = UiElement::new(UiElementKind::Button);
    leaf.set_id("leaf");
    left.append_child(leaf);
    root.append_child(left);
    root.append_child(UiElement::from_string("label"));
    root
}

#[test]
fn root_path_is_empty() {
    let p = UiPath::root();
    assert_eq!(p.len(), 0);
}

#[test]
fn child_appends_one_index() {
    let p = UiPath::root().child(3).child(0).child(7);
    assert_eq!(p.len(), 3);
    assert_eq!(p.index_at(0), 3);
    assert_eq!(p.index_at(1), 0);
    assert_eq!(p.index_at(2), 7);
}

#[test]
fn resolve_empty_path_is_root() {
    let tree = small_tree();
    let node = UiPath::root().resolve(&tree).unwrap();
    assert_eq!(node.kind(), UiElementKind::Rows);
    assert_eq!(node.children_len(), 2);
}

#[test]
fn resolve_walks_child_indices() {
    let tree = small_tree();
    let node = UiPath::root().child(0).child(0).resolve(&tree).unwrap();
    assert_eq!(node.kind(), UiElementKind::Button);
    assert_eq!(node.id().as_deref(), Some("leaf"));
    let label = UiPath::root().child(1).resolve(&tree).unwrap();
    assert_eq!(label.kind(), UiElementKind::Text);
}

#[test]
fn resolve_is_deterministic_on_unmodified_tree() {
    let tree = small_tree();
    let p = UiPath::root().child(0).child(0);
    let first = p.resolve(&tree).unwrap();
    let first_kind = first.kind();
    let first_id = first.id().clone();
    let again = p.resolve(&tree).unwrap();
    assert_eq!(again.kind(), first_kind);
    assert_eq!(again.id().clone(), first_id);
    let third = p.resolve(&tree).unwrap();
    assert_eq!(third.kind(), first_kind);
    assert_eq!(third.id().clone(), first_id);
}

#[test]
fn resolve_out_of_range_index_fails() {
    let tree = small_tree();
    assert_eq!(UiPath::root().child(2).resolve(&tree).err(), Some(UiError::NotFound));
    assert_eq!(UiPath::root().child(1).child(0).resolve(&tree).err(), Some(UiError::NotFound));
    assert_eq!(UiPath::root().child(0).child(1).resolve(&tree).err(), Some(UiError::NotFound));
}
