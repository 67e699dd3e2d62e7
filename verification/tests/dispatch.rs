use ui_sync::DatasetData;
use ui_sync::DatasetMessage;
use ui_sync::DatasetPath;
use ui_sync::Message;
use ui_sync::UiElementKind;
use ui_sync::UiInput;
use ui_sync::UiMessage;
use ui_sync::UiPath;
use ui_sync::dispatch::msg_handler;
use ui_sync::start_session;

fn bound_path() -> DatasetPath {
    DatasetPath::new_private(vec!["Test".to_string()])
}

fn dispatch_input(id: &str, rows: Vec<usize>, input: UiInput) -> Vec<Message> {
    let s = start_session("owner-1".to_string());
    let msg = Message::Ui(UiMessage::Input(id.to_string(), rows, input));
    let outcome = msg_handler(&s.context, msg);
    assert!(outcome.received.is_none());
    outcome.outbound
}

#[test]
fn add_button_appends_to_the_bound_dataset_path() {
    // The page built by the session has a text label, a dataset-bound row
    // container, and the add/remove buttons; its add button must produce
    // exactly one Append to the bound dataset path.
    let s = start_session("owner-1".to_string());
    let page = s.manager.get_page();
    let section = UiPath::root().child(1).resolve(page.root()).unwrap();
    assert_eq!(section.kind(), UiElementKind::Rows);
    let bound = section.dataset().clone().unwrap();
    assert!(bound == bound_path().resolve(&"owner-1".to_string()));

    let out = dispatch_input("add_button", vec![], UiInput::Click);
    assert_eq!(out.len(), 1);
    match &out[0] {
        Message::Dataset(DatasetMessage::Append { path, data }) => {
            assert!(*path == bound_path());
            assert!(matches!(data, DatasetData::Text(t) if t == "added data!"));
        }
        _ => panic!("expected exactly one Dataset.Append"),
    }
}

#[test]
fn remove_button_deletes_row_zero() {
    let out = dispatch_input("remove_button", vec![], UiInput::Click);
    assert_eq!(out.len(), 1);
    match &out[0] {
        Message::Dataset(DatasetMessage::DeleteElement { path, id }) => {
            assert!(*path == bound_path());
            assert_eq!(*id, 0);
        }
        _ => panic!("expected exactly one Dataset.DeleteElement"),
    }
}

#[test]
fn delete_row_targets_the_last_row_id() {
    let out = dispatch_input("delete row", vec![5, 7], UiInput::Click);
    assert_eq!(out.len(), 1);
    match &out[0] {
        Message::Dataset(DatasetMessage::DeleteElement { path, id }) => {
            assert!(*path == bound_path());
            assert_eq!(*id, 7);
        }
        _ => panic!("expected exactly one Dataset.DeleteElement"),
    }
}

#[test]
fn delete_row_without_row_ids_falls_back_to_zero() {
    let out = dispatch_input("delete row", vec![], UiInput::Click);
    assert_eq!(out.len(), 1);
    match &out[0] {
        Message::Dataset(DatasetMessage::DeleteElement { id, .. }) => assert_eq!(*id, 0),
        _ => panic!("expected exactly one Dataset.DeleteElement"),
    }
}

#[test]
fn unregistered_id_produces_no_outbound_message() {
    let out = dispatch_input("unregistered_id", vec![], UiInput::Click);
    assert_eq!(out.len(), 0);
}

#[test]
fn text_input_appends_the_entered_text() {
    let out = dispatch_input("TextInput", vec![], UiInput::Text("typed".to_string()));
    assert_eq!(out.len(), 1);
    match &out[0] {
        Message::Dataset(DatasetMessage::Append { path, data }) => {
            assert!(*path == bound_path());
            assert!(matches!(data, DatasetData::Text(t) if t == "typed"));
        }
        _ => panic!("expected exactly one Dataset.Append"),
    }
}

#[test]
fn text_input_without_text_payload_is_a_no_op() {
    let out = dispatch_input("TextInput", vec![], UiInput::Click);
    assert_eq!(out.len(), 0);
}

#[test]
fn non_input_ui_messages_are_no_ops() {
    let s = start_session("owner-1".to_string());
    for msg in [
        Message::Ui(UiMessage::Subscribe),
        Message::Ui(UiMessage::ClearPage),
        Message::Ui(UiMessage::GetPage("owner-1".to_string())),
        Message::Router("peer event".to_string()),
        Message::Error("bad frame".to_string()),
    ] {
        let outcome = msg_handler(&s.context, msg);
        assert_eq!(outcome.outbound.len(), 0);
        assert!(outcome.received.is_none());
    }
}

#[test]
fn inbound_dataset_snapshot_is_handed_to_the_caller() {
    let s = start_session("owner-1".to_string());
    let resolved = bound_path().resolve(&"owner-1".to_string());
    let msg = Message::Dataset(DatasetMessage::Dataset {
        path: resolved.clone(),
        data: vec![DatasetData::Text("row 0".to_string()), DatasetData::Null],
    });
    let outcome = msg_handler(&s.context, msg);
    assert_eq!(outcome.outbound.len(), 0);
    let (path, data) = outcome.received.unwrap();
    assert!(path == resolved);
    assert_eq!(data.len(), 2);
    assert!(matches!(&data[0], DatasetData::Text(t) if t == "row 0"));
    assert!(matches!(&data[1], DatasetData::Null));
}

#[test]
fn outbound_dataset_acknowledgements_deliver_nothing() {
    let s = start_session("owner-1".to_string());
    let msg = Message::Dataset(DatasetMessage::Subscribe { path: bound_path() });
    let outcome = msg_handler(&s.context, msg);
    assert_eq!(outcome.outbound.len(), 0);
    assert!(outcome.received.is_none());
}
