//! The protocol messages the core consumes and produces.
//!
//! Dataset messages mutate or deliver shared collections; UI messages carry
//! page lifecycle and input events. Router and error envelopes exist in the
//! protocol but are out of this core's scope: it passes them through
//! untouched.

use vstd::prelude::*;

use crate::dataset::DatasetPath;
use crate::dataset::DatasetPathView;
use crate::dataset::ResolvedDatasetPath;
use crate::dataset::ResolvedDatasetPathView;
use crate::page::ChangeView;
use crate::page::Page;
use crate::page::PageView;
use crate::page::UiChange;
use crate::page::UiPageManager;

verus! {

/// One value held by a dataset row.
#[derive(Debug)]
pub enum DatasetData {
    Null,
    Text(String),
}

/// Mathematical model of a dataset value.
pub ghost enum DatasetDataView {
    Null,
    Text(Seq<char>),
}

impl View for DatasetData {
    type V = DatasetDataView;

    open spec fn view(&self) -> DatasetDataView {
        match self {
            DatasetData::Null => DatasetDataView::Null,
            DatasetData::Text(s) => DatasetDataView::Text(s@),
        }
    }
}

impl DeepView for DatasetData {
    type V = DatasetDataView;

    open spec fn deep_view(&self) -> DatasetDataView {
        self.view()
    }
}

/// The payload of a UI input event: a plain activation, or entered text.
#[derive(Debug)]
pub enum UiInput {
    Click,
    Text(String),
}

/// Mathematical model of an input payload.
pub ghost enum UiInputView {
    Click,
    Text(Seq<char>),
}

impl View for UiInput {
    type V = UiInputView;

    open spec fn view(&self) -> UiInputView {
        match self {
            UiInput::Click => UiInputView::Click,
            UiInput::Text(s) => UiInputView::Text(s@),
        }
    }
}

impl DeepView for UiInput {
    type V = UiInputView;

    open spec fn deep_view(&self) -> UiInputView {
        self.view()
    }
}

/// Dataset-category messages. Outbound mutations carry unresolved paths —
/// the receiving side binds them to the sender's identity; the inbound
/// snapshot `Dataset` carries the resolved path it was requested under.
#[derive(Debug)]
#[allow(inconsistent_fields)]
pub enum DatasetMessage {
    Subscribe { path: DatasetPath },
    Append { path: DatasetPath, data: DatasetData },
    Extend { path: DatasetPath, data: Vec<DatasetData> },
    SetElement { path: DatasetPath, id: usize, data: DatasetData },
    SetElements { path: DatasetPath, ids: Vec<usize>, data: Vec<DatasetData> },
    DeleteElement { path: DatasetPath, id: usize },
    Dataset { path: ResolvedDatasetPath, data: Vec<DatasetData> },
}

/// Mathematical model of a dataset message.
#[allow(inconsistent_fields)]
pub ghost enum DatasetMessageView {
    Subscribe { path: DatasetPathView },
    Append { path: DatasetPathView, data: DatasetDataView },
    Extend { path: DatasetPathView, data: Seq<DatasetDataView> },
    SetElement { path: DatasetPathView, id: usize, data: DatasetDataView },
    SetElements { path: DatasetPathView, ids: Seq<usize>, data: Seq<DatasetDataView> },
    DeleteElement { path: DatasetPathView, id: usize },
    Dataset { path: ResolvedDatasetPathView, data: Seq<DatasetDataView> },
}

impl View for DatasetMessage {
    type V = DatasetMessageView;

    open spec fn view(&self) -> DatasetMessageView {
        match self {
            DatasetMessage::Subscribe { path } => DatasetMessageView::Subscribe { path: path@ },
            DatasetMessage::Append { path, data } => DatasetMessageView::Append {
                path: path@,
                data: data@,
            },
            DatasetMessage::Extend { path, data } => DatasetMessageView::Extend {
                path: path@,
                data: data.deep_view(),
            },
            DatasetMessage::SetElement { path, id, data } => DatasetMessageView::SetElement {
                path: path@,
                id: *id,
                data: data@,
            },
            DatasetMessage::SetElements { path, ids, data } => DatasetMessageView::SetElements {
                path: path@,
                ids: ids@,
                data: data.deep_view(),
            },
            DatasetMessage::DeleteElement { path, id } => DatasetMessageView::DeleteElement {
                path: path@,
                id: *id,
            },
            DatasetMessage::Dataset { path, data } => DatasetMessageView::Dataset {
                path: path@,
                data: data.deep_view(),
            },
        }
    }
}

impl DeepView for DatasetMessage {
    type V = DatasetMessageView;

    open spec fn deep_view(&self) -> DatasetMessageView {
        self.view()
    }
}

/// UI-category messages: subscription, page lifecycle, element update
/// notifications, and input events carrying
/// `(elementId, datasetRowIds, inputValue)`.
#[derive(Debug)]
pub enum UiMessage {
    Subscribe,
    Pages(Vec<String>),
    GetPage(String),
    Page(Page),
    SetPage(Page),
    ClearPage,
    UpdateElements(Vec<UiChange>),
    UpdateElementsFor(String, Vec<UiChange>),
    Input(String, Vec<usize>, UiInput),
    InputFor(String, String, Vec<usize>, UiInput),
    Dataset(ResolvedDatasetPath, Vec<DatasetData>),
}

/// Mathematical model of a UI message.
pub ghost enum UiMessageView {
    Subscribe,
    Pages(Seq<Seq<char>>),
    GetPage(Seq<char>),
    Page(PageView),
    SetPage(PageView),
    ClearPage,
    UpdateElements(Seq<ChangeView>),
    UpdateElementsFor(Seq<char>, Seq<ChangeView>),
    Input(Seq<char>, Seq<usize>, UiInputView),
    InputFor(Seq<char>, Seq<char>, Seq<usize>, UiInputView),
    Dataset(ResolvedDatasetPathView, Seq<DatasetDataView>),
}

impl View for UiMessage {
    type V = UiMessageView;

    open spec fn view(&self) -> UiMessageView {
        match self {
            UiMessage::Subscribe => UiMessageView::Subscribe,
            UiMessage::Pages(names) => UiMessageView::Pages(names.deep_view()),
            UiMessage::GetPage(owner) => UiMessageView::GetPage(owner@),
            UiMessage::Page(page) => UiMessageView::Page(page@),
            UiMessage::SetPage(page) => UiMessageView::SetPage(page@),
            UiMessage::ClearPage => UiMessageView::ClearPage,
            UiMessage::UpdateElements(changes) => UiMessageView::UpdateElements(
                changes.deep_view(),
            ),
            UiMessage::UpdateElementsFor(owner, changes) => UiMessageView::UpdateElementsFor(
                owner@,
                changes.deep_view(),
            ),
            UiMessage::Input(id, rows, input) => UiMessageView::Input(id@, rows@, input@),
            UiMessage::InputFor(owner, id, rows, input) => UiMessageView::InputFor(
                owner@,
                id@,
                rows@,
                input@,
            ),
            UiMessage::Dataset(path, data) => UiMessageView::Dataset(path@, data.deep_view()),
        }
    }
}

impl DeepView for UiMessage {
    type V = UiMessageView;

    open spec fn deep_view(&self) -> UiMessageView {
        self.view()
    }
}

/// The top-level message envelope. Router and error categories are opaque to
/// this core: their payloads pass through as they came.
#[derive(Debug)]
pub enum Message {
    Ui(UiMessage),
    Dataset(DatasetMessage),
    Router(String),
    Error(String),
}

/// Mathematical model of a message.
pub ghost enum MessageView {
    Ui(UiMessageView),
    Dataset(DatasetMessageView),
    Router(Seq<char>),
    Error(Seq<char>),
}

impl View for Message {
    type V = MessageView;

    open spec fn view(&self) -> MessageView {
        match self {
            Message::Ui(m) => MessageView::Ui(m@),
            Message::Dataset(m) => MessageView::Dataset(m@),
            Message::Router(s) => MessageView::Router(s@),
            Message::Error(s) => MessageView::Error(s@),
        }
    }
}

impl DeepView for Message {
    type V = MessageView;

    open spec fn deep_view(&self) -> MessageView {
        self.view()
    }
}

impl UiPageManager {
    /// The full-page snapshot that a newly built page is synchronized with.
    ///
    /// Protocol convention: the first synchronization is a full `SetPage`
    /// snapshot, never a diff, and a snapshot supersedes any pending diff —
    /// so the change records accumulated while the page was built are
    /// drained and discarded here, right before the snapshot is handed out.
    /// Were they kept, the next real change-set would re-insert nodes the
    /// snapshot already carried.
    pub fn initial_sync_message(&mut self) -> (m: Message)
        ensures
            final(self)@.changes == Seq::<ChangeView>::empty(),
            final(self)@.page == old(self)@.page,
            m@ == MessageView::Ui(UiMessageView::SetPage(old(self)@.page)),
    {
        self.get_changes();
        Message::Ui(UiMessage::SetPage(self.get_page().clone()))
    }
}

} // verus!
