use ui_sync::Message;
use ui_sync::UiChange;
use ui_sync::UiElement;
use ui_sync::UiElementKind;
use ui_sync::UiMessage;
use ui_sync::UiPageManager;
use ui_sync::UiPath;

fn manager() -> UiPageManager {
    UiPageManager::new("owner-1".to_string(), "A Page")
}

#[test]
fn new_page_has_empty_root_container_and_no_changes() {
    let mut m = manager();
    assert_eq!(m.get_page().owner(), "owner-1");
    assert_eq!(m.get_page().name(), "A Page");
    let root = m.get_element(&UiPath::root()).unwrap();
    assert_eq!(root.kind(), UiElementKind::Rows);
    assert_eq!(root.children_len(), 0);
    assert_eq!(m.get_changes().len(), 0);
}

#[test]
fn get_changes_drains_returns_empty_second_time() {
    let mut m = manager();
    m.append_child(&UiPath::root(), UiElement::from_string("x")).unwrap();
    m.set_kind(&UiPath::root(), UiElementKind::Columns).unwrap();
    let first = m.get_changes();
    assert_eq!(first.len(), 2);
    let second = m.get_changes();
    assert_eq!(second.len(), 0);
}

#[test]
fn appending_n_children_yields_exactly_n_insertions() {
    let mut m = manager();
    let n: usize = 5;
    let mut children: Vec<UiElement> = Vec::new();
    for i in 0..n {
        children.push(UiElement::from_string(&format!("child {}", i)));
    }
    m.append_children(&UiPath::root(), children).unwrap();
    let changes = m.get_changes();
    assert_eq!(changes.len(), n);
    for (i, c) in changes.iter().enumerate() {
        match c {
            UiChange::Inserted { path, element } => {
                assert_eq!(path.len(), 1);
                assert_eq!(path.index_at(0), i);
                assert_eq!(element.kind(), UiElementKind::Text);
            }
            _ => panic!("expected an insertion record"),
        }
    }
    let root = m.get_element(&UiPath::root()).unwrap();
    assert_eq!(root.children_len(), n);
}

#[test]
fn change_records_follow_mutation_order() {
    let mut m = manager();
    let root = UiPath::root();
    m.append_child(&root, UiElement::new(UiElementKind::Columns)).unwrap();
    m.set_selectable(&root.child(0), true).unwrap();
    m.set_id(&root.child(0), "first").unwrap();
    let changes = m.get_changes();
    assert_eq!(changes.len(), 3);
    assert!(matches!(&changes[0], UiChange::Inserted { .. }));
    assert!(matches!(&changes[1], UiChange::Updated { .. }));
    assert!(matches!(&changes[2], UiChange::Updated { .. }));
    match &changes[1] {
        UiChange::Updated { path, .. } => assert_eq!(path.index_at(0), 0),
        _ => unreachable!(),
    }
}

#[test]
fn mutation_of_unresolvable_path_fails_and_records_nothing() {
    let mut m = manager();
    let bad = UiPath::root().child(4);
    assert!(m.set_selectable(&bad, true).is_err());
    assert!(m.append_child(&bad, UiElement::new(UiElementKind::Spacer)).is_err());
    assert_eq!(m.get_changes().len(), 0);
}

#[test]
fn removing_a_child_records_one_removal() {
    let mut m = manager();
    let root = UiPath::root();
    m.append_child(&root, UiElement::from_string("a")).unwrap();
    m.append_child(&root, UiElement::from_string("b")).unwrap();
    m.get_changes();
    let removed = m.remove_child(&root.child(0)).unwrap();
    assert_eq!(removed.kind(), UiElementKind::Text);
    let changes = m.get_changes();
    assert_eq!(changes.len(), 1);
    assert!(matches!(&changes[0], UiChange::Removed { .. }));
    let r = m.get_element(&root).unwrap();
    assert_eq!(r.children_len(), 1);
}

#[test]
fn root_cannot_be_removed() {
    let mut m = manager();
    assert!(m.remove_child(&UiPath::root()).is_err());
}

#[test]
fn snapshot_must_supersede_pending_construction_records() {
    // The protocol convention: right before the first `SetPage` snapshot the
    // accumulated construction records must be drained and discarded. A
    // manager that skips the drain pollutes its next change-set with
    // insertion records for nodes the snapshot already carried.
    let mut polluted = manager();
    polluted.append_child(&UiPath::root(), UiElement::from_string("sent in snapshot")).unwrap();
    // Snapshot sent here without draining first: the construction record stays.
    polluted.set_selectable(&UiPath::root().child(0), true).unwrap();
    let diff = polluted.get_changes();
    assert_eq!(diff.len(), 2);
    assert!(
        matches!(&diff[0], UiChange::Inserted { .. }),
        "the stale construction record re-inserts an already-transmitted node"
    );

    // The correct flow drains before the snapshot; the next change-set then
    // holds nothing but the real mutation.
    let mut correct = manager();
    correct.append_child(&UiPath::root(), UiElement::from_string("sent in snapshot")).unwrap();
    let snapshot = correct.initial_sync_message();
    assert!(matches!(snapshot, Message::Ui(UiMessage::SetPage(_))));
    correct.set_selectable(&UiPath::root().child(0), true).unwrap();
    let diff = correct.get_changes();
    assert_eq!(diff.len(), 1);
    assert!(matches!(&diff[0], UiChange::Updated { .. }));
}

#[test]
fn initial_sync_message_carries_the_page_and_clears_the_log() {
    let mut m = manager();
    m.append_child(&UiPath::root(), UiElement::from_string("x")).unwrap();
    let msg = m.initial_sync_message();
    match msg {
        Message::Ui(UiMessage::SetPage(page)) => {
            assert_eq!(page.owner(), "owner-1");
            assert_eq!(page.name(), "A Page");
            assert_eq!(page.root().children_len(), 1);
        }
        _ => panic!("expected a SetPage message"),
    }
    assert_eq!(m.get_changes().len(), 0);
}

#[test]
fn attribute_mutations_reach_the_tree() {
    let mut m = manager();
    let root = UiPath::root();
    m.append_child(&root, UiElement::new(UiElementKind::Button)).unwrap();
    let p = root.child(0);
    m.set_id(&p, "the button").unwrap();
    m.set_selectable(&p, true).unwrap();
    m.set_text(&p, "Press").unwrap();
    let node = m.get_element(&p).unwrap();
    assert_eq!(node.id().as_deref(), Some("the button"));
    assert!(node.selectable());
    assert_eq!(node.kind(), UiElementKind::Button);
}
