use ui_sync::DatasetMessage;
use ui_sync::DatasetPath;
use ui_sync::Message;
use ui_sync::UiElementKind;
use ui_sync::UiMessage;
use ui_sync::UiPath;
use ui_sync::start_session;

#[test]
fn session_subscribes_to_its_dataset_first() {
    let s = start_session("owner-1".to_string());
    match s.subscribe {
        Message::Dataset(DatasetMessage::Subscribe { path }) => {
            assert!(path == DatasetPath::new_private(vec!["Test".to_string()]));
        }
        _ => panic!("expected a Dataset.Subscribe"),
    }
}

#[test]
fn session_page_has_the_expected_controls() {
    let s = start_session("owner-1".to_string());
    let root = s.manager.get_page().root();
    assert_eq!(root.kind(), UiElementKind::Rows);
    assert_eq!(root.children_len(), 5);

    let label = UiPath::root().child(0).resolve(root).unwrap();
    assert_eq!(label.kind(), UiElementKind::Text);

    let section = UiPath::root().child(1).resolve(root).unwrap();
    assert!(section.dataset().is_some());
    let row = UiPath::root().child(1).child(0).resolve(root).unwrap();
    assert_eq!(row.kind(), UiElementKind::Columns);
    assert_eq!(row.children_len(), 3);
    let delete_button = UiPath::root().child(1).child(0).child(2).resolve(root).unwrap();
    assert_eq!(delete_button.id().as_deref(), Some("delete row"));
    assert!(delete_button.selectable());

    let add = UiPath::root().child(2).resolve(root).unwrap();
    assert_eq!(add.kind(), UiElementKind::Button);
    assert_eq!(add.id().as_deref(), Some("add_button"));
    let remove = UiPath::root().child(3).resolve(root).unwrap();
    assert_eq!(remove.id().as_deref(), Some("remove_button"));
    let entry = UiPath::root().child(4).resolve(root).unwrap();
    assert_eq!(entry.kind(), UiElementKind::TextEntry);
    assert_eq!(entry.id().as_deref(), Some("TextInput"));
}

#[test]
fn session_snapshot_carries_the_whole_page() {
    let s = start_session("owner-9".to_string());
    match s.snapshot {
        Message::Ui(UiMessage::SetPage(page)) => {
            assert_eq!(page.owner(), "owner-9");
            assert_eq!(page.name(), "Dataset Test Page");
            assert_eq!(page.root().children_len(), 5);
        }
        _ => panic!("expected a SetPage snapshot"),
    }
}

#[test]
fn session_manager_starts_with_a_drained_log() {
    let mut s = start_session("owner-1".to_string());
    assert_eq!(s.manager.get_changes().len(), 0);
}

#[test]
fn action_table_validates_against_the_built_page() {
    let s = start_session("owner-1".to_string());
    assert!(s.context.validate(s.manager.get_page().root()));

    let typo_table = ui_sync::DispatchContext::new(
        vec![("add_buton".to_string(), ui_sync::UiAction::Add)],
        DatasetPath::new_private(vec!["Test".to_string()]),
        "added data!".to_string(),
    );
    assert!(!typo_table.validate(s.manager.get_page().root()));
}
