//! The startup computation of a session: the dataset subscription, the page
//! the session presents, the dispatch context its inputs are routed by, and
//! the initial full-page snapshot.
//!
//! The session loop around this is an external concern: it sends
//! `subscribe` and `snapshot`, then feeds every received message through
//! `msg_handler` and sends whatever comes back.

use vstd::prelude::*;

use crate::dataset::DatasetNamespace;
use crate::dataset::DatasetPath;
use crate::dataset::DatasetPathView;
use crate::dataset::resolved_with;
use crate::dispatch::DispatchContext;
use crate::dispatch::DispatchContextView;
use crate::dispatch::UiAction;
use crate::element::ContentPartView;
use crate::element::ElementView;
use crate::element::UiElement;
use crate::element::UiElementContent;
use crate::element::UiElementContentPart;
use crate::element::UiElementKind;
use crate::element::blank_view;
use crate::message::DatasetMessage;
use crate::message::DatasetMessageView;
use crate::message::Message;
use crate::message::MessageView;
use crate::message::UiMessageView;
use crate::page::ChangeView;
use crate::page::PageView;
use crate::page::UiPageManager;
use crate::path::UiPath;

verus! {

/// The dataset path this session works on: `Test`, in the private
/// namespace.
pub open spec fn session_dataset_path() -> DatasetPathView {
    DatasetPathView { namespace: DatasetNamespace::Private, segments: seq!["Test"@] }
}

/// A text label node.
pub open spec fn label_view(text: Seq<char>) -> ElementView {
    ElementView { content: seq![ContentPartView::Text(text)], ..blank_view(UiElementKind::Text) }
}

/// A selectable control of the given kind, with a label, carrying the
/// identifier its input events are routed by.
pub open spec fn control_view(kind: UiElementKind, label: Seq<char>, id: Seq<char>) -> ElementView {
    ElementView {
        kind,
        id: Some(id),
        selectable: true,
        content: seq![ContentPartView::Text(label)],
        dataset: None,
        children: Seq::empty(),
    }
}

/// The per-row column group of the dataset section: the row's value, a
/// spacer, and the row's own delete button.
pub open spec fn session_row_view() -> ElementView {
    ElementView {
        children: seq![
            (ElementView {
                content: seq![ContentPartView::Data(Seq::empty())],
                ..blank_view(UiElementKind::Text)
            }),
            blank_view(UiElementKind::Spacer),
            control_view(UiElementKind::Button, "Delete!"@, "delete row"@),
        ],
        ..blank_view(UiElementKind::Columns)
    }
}

/// The dataset-bound row container: its children are materialized once per
/// row of the dataset it is bound to, under the session owner's identity.
pub open spec fn session_section_view(owner: Seq<char>) -> ElementView {
    ElementView {
        dataset: Some(resolved_with(session_dataset_path(), owner)),
        children: seq![session_row_view()],
        ..blank_view(UiElementKind::Rows)
    }
}

/// The whole page tree of the session: a label, the dataset-bound section,
/// the add and remove buttons, and the text-entry control.
pub open spec fn session_root_view(owner: Seq<char>) -> ElementView {
    ElementView {
        children: seq![
            label_view("Data:"@),
            session_section_view(owner),
            control_view(UiElementKind::Button, "Add element"@, "add_button"@),
            control_view(UiElementKind::Button, "Remove element"@, "remove_button"@),
            control_view(UiElementKind::TextEntry, "Text Input"@, "TextInput"@),
        ],
        ..blank_view(UiElementKind::Rows)
    }
}

/// The action table of the session's page.
pub open spec fn session_actions() -> Seq<(Seq<char>, UiAction)> {
    seq![
        ("add_button"@, UiAction::Add),
        ("remove_button"@, UiAction::Remove),
        ("delete row"@, UiAction::DeleteRow),
        ("TextInput"@, UiAction::TextSubmit),
    ]
}

/// Everything a session begins with.
pub struct SessionStart {
    /// Subscription to the session's dataset; sent first.
    pub subscribe: Message,
    /// The manager owning the built page, its construction records already
    /// drained and discarded in favour of the snapshot.
    pub manager: UiPageManager,
    /// The context input events are dispatched under.
    pub context: DispatchContext,
    /// The initial full-page snapshot; sent right after the subscription.
    pub snapshot: Message,
}

/// Builds the session's page under the given owner identity and the
/// messages that announce it.
pub fn start_session(owner: String) -> (s: SessionStart)
    ensures
        s.subscribe@ == MessageView::Dataset(
            DatasetMessageView::Subscribe { path: session_dataset_path() },
        ),
        s.manager@.page == (PageView {
            owner: owner@,
            name: "Dataset Test Page"@,
            root: session_root_view(owner@),
        }),
        s.manager@.changes == Seq::<ChangeView>::empty(),
        s.context@ == (DispatchContextView {
            actions: session_actions(),
            dataset_path: session_dataset_path(),
            add_payload: "added data!"@,
        }),
        s.snapshot@ == MessageView::Ui(
            UiMessageView::SetPage(
                PageView {
                    owner: owner@,
                    name: "Dataset Test Page"@,
                    root: session_root_view(owner@),
                },
            ),
        ),
{
    let mut segments: Vec<String> = Vec::new();
    segments.push("Test".to_string());
    let dataset_path = DatasetPath::new_private(segments);
    proof {
        assert(dataset_path@.segments =~= session_dataset_path().segments);
        assert(dataset_path@ =~= session_dataset_path());
    }
    let subscribe = Message::Dataset(DatasetMessage::Subscribe { path: dataset_path.clone() });

    let mut manager = UiPageManager::new(owner.clone(), "Dataset Test Page");
    let root_path = UiPath::root();

    let label = UiElement::from_string("Data:");
    proof {
        assert(label@ =~= label_view("Data:"@));
    }
    if manager.append_child(&root_path, label).is_err() {
        proof {
            assert(false);
        }
    }

    let mut section = UiElement::new(UiElementKind::Rows);
    section.set_dataset(Some(dataset_path.resolve(&owner)));
    let mut columns = UiElement::new(UiElementKind::Columns);
    let mut cell = UiElement::new(UiElementKind::Text);
    let mut cell_content = UiElementContent::new();
    let empty_props: Vec<String> = Vec::new();
    proof {
        assert(empty_props.deep_view() =~= Seq::<Seq<char>>::empty());
    }
    cell_content.add_part(UiElementContentPart::Data(empty_props));
    proof {
        assert(cell_content@ =~= (seq![ContentPartView::Data(Seq::<Seq<char>>::empty())]));
    }
    cell.set_content(cell_content);
    proof {
        assert(cell@.content =~= (seq![ContentPartView::Data(Seq::empty())]));
        assert(cell@ =~= (ElementView {
            content: seq![ContentPartView::Data(Seq::empty())],
            ..blank_view(UiElementKind::Text)
        }));
    }
    columns.append_child(cell);
    columns.append_child(UiElement::new(UiElementKind::Spacer));
    let mut delete_button = UiElement::new(UiElementKind::Button);
    delete_button.set_id("delete row");
    delete_button.set_selectable(true);
    delete_button.set_text("Delete!");
    proof {
        assert(delete_button@ =~= control_view(UiElementKind::Button, "Delete!"@, "delete row"@));
    }
    columns.append_child(delete_button);
    proof {
        assert(columns@.children =~= session_row_view().children);
        assert(columns@ =~= session_row_view());
    }
    section.append_child(columns);
    proof {
        assert(section@.children =~= session_section_view(owner@).children);
        assert(section@ =~= session_section_view(owner@));
    }
    if manager.append_child(&root_path, section).is_err() {
        proof {
            assert(false);
        }
    }

    let mut add_button = UiElement::from_string("Add element");
    add_button.set_kind(UiElementKind::Button);
    add_button.set_selectable(true);
    add_button.set_id("add_button");
    proof {
        assert(add_button@ =~= control_view(UiElementKind::Button, "Add element"@, "add_button"@));
    }
    if manager.append_child(&root_path, add_button).is_err() {
        proof {
            assert(false);
        }
    }

    let mut remove_button = UiElement::from_string("Remove element");
    remove_button.set_kind(UiElementKind::Button);
    remove_button.set_selectable(true);
    remove_button.set_id("remove_button");
    proof {
        assert(remove_button@ =~= control_view(
            UiElementKind::Button,
            "Remove element"@,
            "remove_button"@,
        ));
    }
    if manager.append_child(&root_path, remove_button).is_err() {
        proof {
            assert(false);
        }
    }

    let mut text_input = UiElement::from_string("Text Input");
    text_input.set_kind(UiElementKind::TextEntry);
    text_input.set_selectable(true);
    text_input.set_id("TextInput");
    proof {
        assert(text_input@ =~= control_view(
            UiElementKind::TextEntry,
            "Text Input"@,
            "TextInput"@,
        ));
    }
    if manager.append_child(&root_path, text_input).is_err() {
        proof {
            assert(false);
        }
    }
    proof {
        assert(manager@.page.root.children =~= session_root_view(owner@).children);
        assert(manager@.page.root =~= session_root_view(owner@));
    }

    let mut actions: Vec<(String, UiAction)> = Vec::new();
    actions.push(("add_button".to_string(), UiAction::Add));
    actions.push(("remove_button".to_string(), UiAction::Remove));
    actions.push(("delete row".to_string(), UiAction::DeleteRow));
    actions.push(("TextInput".to_string(), UiAction::TextSubmit));
    proof {
        assert(actions.deep_view() =~= session_actions());
    }
    let context = DispatchContext::new(actions, dataset_path, "added data!".to_string());

    let snapshot = manager.initial_sync_message();
    proof {
        assert(manager@.page =~= (PageView {
            owner: owner@,
            name: "Dataset Test Page"@,
            root: session_root_view(owner@),
        }));
    }
    SessionStart { subscribe, manager, context, snapshot }
}

} // verus!
