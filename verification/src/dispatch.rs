//! Message dispatch: routing of inbound messages and the mapping of UI input
//! events to outbound dataset mutations.
//!
//! All dispatch state is carried by an explicit context: the action table
//! (element identifier to action), the dataset path the actions target, and
//! the literal payload appended by the plain add action. Handlers are pure:
//! they return the messages to send, and the dispatch loop around them does
//! the sending.

use vstd::prelude::*;

use crate::dataset::DatasetPath;
use crate::dataset::DatasetPathView;
use crate::dataset::ResolvedDatasetPath;
use crate::dataset::ResolvedDatasetPathView;
use crate::element::UiElement;
use crate::element::tree_has_id;
use crate::message::DatasetData;
use crate::message::DatasetDataView;
use crate::message::DatasetMessage;
use crate::message::DatasetMessageView;
use crate::message::Message;
use crate::message::MessageView;
use crate::message::UiInput;
use crate::message::UiInputView;
use crate::message::UiMessage;
use crate::message::UiMessageView;

verus! {

/// The application actions a UI input event can be mapped to.
#[derive(Clone, Copy, PartialEq, Eq, Structural, Debug)]
pub enum UiAction {
    /// Append a fixed literal value to the dataset.
    Add,
    /// Delete the dataset row with identifier zero.
    Remove,
    /// Delete the row named by the last entry of the event's row
    /// identifiers; with no entry, row zero. A control rendered once per row
    /// carries its own row identifier last, so the last entry is that row.
    DeleteRow,
    /// Append the text carried by the input event; input without a text
    /// payload does nothing.
    TextSubmit,
}

impl View for UiAction {
    type V = UiAction;

    open spec fn view(&self) -> UiAction {
        *self
    }
}

impl DeepView for UiAction {
    type V = UiAction;

    open spec fn deep_view(&self) -> UiAction {
        *self
    }
}

/// The context a handler runs in: the declarative mapping from element
/// identifier to action, the dataset path the actions target, and the
/// literal payload of the add action.
#[derive(Debug)]
pub struct DispatchContext {
    actions: Vec<(String, UiAction)>,
    dataset_path: DatasetPath,
    add_payload: String,
}

/// Mathematical model of a dispatch context.
pub ghost struct DispatchContextView {
    pub actions: Seq<(Seq<char>, UiAction)>,
    pub dataset_path: DatasetPathView,
    pub add_payload: Seq<char>,
}

impl View for DispatchContext {
    type V = DispatchContextView;

    closed spec fn view(&self) -> DispatchContextView {
        DispatchContextView {
            actions: self.actions.deep_view(),
            dataset_path: self.dataset_path@,
            add_payload: self.add_payload@,
        }
    }
}

impl DispatchContext {
    /// A context with the given action table, target dataset path and add
    /// payload.
    pub fn new(
        actions: Vec<(String, UiAction)>,
        dataset_path: DatasetPath,
        add_payload: String,
    ) -> (ctx: DispatchContext)
        ensures
            ctx@ == (DispatchContextView {
                actions: actions.deep_view(),
                dataset_path: dataset_path@,
                add_payload: add_payload@,
            }),
    {
        DispatchContext { actions, dataset_path, add_payload }
    }

    /// Whether every element identifier the table binds names a node that
    /// actually stands in the tree: the page-construction-time check that
    /// catches a typo in a binding before it could silently no-op at
    /// runtime.
    pub fn validate(&self, root: &UiElement) -> (b: bool)
        ensures
            b == (forall|j: int|
                0 <= j < self@.actions.len() ==> tree_has_id(
                    root@,
                    (#[trigger] self@.actions[j]).0,
                )),
    {
        let mut i: usize = 0;
        while i < self.actions.len()
            invariant
                i <= self.actions@.len(),
                forall|j: int|
                    0 <= j < i ==> tree_has_id(root@, (#[trigger] self.actions.deep_view()[j]).0),
            decreases self.actions@.len() - i,
        {
            if !root.has_id(&self.actions[i].0) {
                proof {
                    assert(self.actions.deep_view()[i as int].0 == self.actions@[i as int].0@);
                    assert(!tree_has_id(root@, self@.actions[i as int].0));
                }
                return false;
            }
            proof {
                assert(self.actions.deep_view()[i as int].0 == self.actions@[i as int].0@);
            }
            i += 1;
        }
        true
    }
}

/// The first action bound to `id` in the table, if any.
pub open spec fn lookup_action(actions: Seq<(Seq<char>, UiAction)>, id: Seq<char>) -> Option<
    UiAction,
>
    decreases actions.len(),
{
    if actions.len() == 0 {
        None
    } else if actions.first().0 == id {
        Some(actions.first().1)
    } else {
        lookup_action(actions.drop_first(), id)
    }
}

/// Walks the action table from position `i` looking for `id`.
fn find_action(actions: &Vec<(String, UiAction)>, i: usize, id: &String) -> (r: Option<UiAction>)
    requires
        i <= actions@.len(),
    ensures
        r == lookup_action(actions.deep_view().skip(i as int), id@),
    decreases actions@.len() - i,
{
    let ghost tail = actions.deep_view().skip(i as int);
    if i == actions.len() {
        proof {
            assert(tail =~= Seq::<(Seq<char>, UiAction)>::empty());
        }
        None
    } else {
        proof {
            assert(tail.first() == actions.deep_view()[i as int]);
            assert(tail.drop_first() =~= actions.deep_view().skip(i as int + 1));
        }
        if actions[i].0.eq(id) {
            Some(actions[i].1)
        } else {
            find_action(actions, i + 1, id)
        }
    }
}

/// The outbound messages that one input event `(id, rows, input)` produces
/// under a context: what the action bound to `id` sends, or nothing for an
/// identifier without a binding.
pub open spec fn input_response(
    ctx: DispatchContextView,
    id: Seq<char>,
    rows: Seq<usize>,
    input: UiInputView,
) -> Seq<MessageView> {
    match lookup_action(ctx.actions, id) {
        None => Seq::empty(),
        Some(UiAction::Add) => seq![
            MessageView::Dataset(
                DatasetMessageView::Append {
                    path: ctx.dataset_path,
                    data: DatasetDataView::Text(ctx.add_payload),
                },
            ),
        ],
        Some(UiAction::Remove) => seq![
            MessageView::Dataset(
                DatasetMessageView::DeleteElement { path: ctx.dataset_path, id: 0 },
            ),
        ],
        Some(UiAction::DeleteRow) => seq![
            MessageView::Dataset(
                DatasetMessageView::DeleteElement {
                    path: ctx.dataset_path,
                    id: if rows.len() > 0 {
                        rows.last()
                    } else {
                        0
                    },
                },
            ),
        ],
        Some(UiAction::TextSubmit) => match input {
            UiInputView::Text(t) => seq![
                MessageView::Dataset(
                    DatasetMessageView::Append {
                        path: ctx.dataset_path,
                        data: DatasetDataView::Text(t),
                    },
                ),
            ],
            _ => Seq::empty(),
        },
    }
}

/// The outbound messages a UI message produces: input events go through the
/// action table; every other UI message asks nothing of this core.
pub open spec fn ui_response(ctx: DispatchContextView, m: UiMessageView) -> Seq<MessageView> {
    match m {
        UiMessageView::Input(id, rows, input) => input_response(ctx, id, rows, input),
        _ => Seq::empty(),
    }
}

/// What an inbound dataset message delivers to the caller: the snapshot's
/// path and rows; mutation acknowledgements deliver nothing.
pub open spec fn dataset_received(m: DatasetMessageView) -> Option<
    (ResolvedDatasetPathView, Seq<DatasetDataView>),
> {
    match m {
        DatasetMessageView::Dataset { path, data } => Some((path, data)),
        _ => None,
    }
}

/// The outbound messages one inbound message produces: UI messages go to the
/// UI handler; dataset, router and error messages send nothing.
pub open spec fn response(ctx: DispatchContextView, m: MessageView) -> Seq<MessageView> {
    match m {
        MessageView::Ui(u) => ui_response(ctx, u),
        _ => Seq::empty(),
    }
}

/// What one inbound message delivers to the caller.
pub open spec fn received(m: MessageView) -> Option<
    (ResolvedDatasetPathView, Seq<DatasetDataView>),
> {
    match m {
        MessageView::Dataset(d) => dataset_received(d),
        _ => None,
    }
}

/// Everything one dispatch step hands back: the messages to send, and the
/// dataset snapshot delivered, if the message carried one.
#[derive(Debug)]
pub struct DispatchOutcome {
    pub outbound: Vec<Message>,
    pub received: Option<(ResolvedDatasetPath, Vec<DatasetData>)>,
}

/// Handles one UI message: an input event is routed through the action
/// table; all other UI messages are deliberate no-ops.
pub fn ui_handler(ctx: &DispatchContext, msg: UiMessage) -> (r: Vec<Message>)
    ensures
        r.deep_view() == ui_response(ctx@, msg@),
{
    match msg {
        UiMessage::Input(id, rows, input) => input_handler(ctx, id, rows, input),
        _ => {
            let r: Vec<Message> = Vec::new();
            proof {
                assert(r.deep_view() =~= ui_response(ctx@, msg@));
            }
            r
        },
    }
}

/// Routes one input event through the action table and builds the outbound
/// mutations it calls for.
pub fn input_handler(ctx: &DispatchContext, id: String, rows: Vec<usize>, input: UiInput) -> (r:
    Vec<Message>)
    ensures
        r.deep_view() == input_response(ctx@, id@, rows@, input@),
{
    proof {
        assert(ctx.actions.deep_view().skip(0) =~= ctx.actions.deep_view());
    }
    let mut r: Vec<Message> = Vec::new();
    match find_action(&ctx.actions, 0, &id) {
        None => {},
        Some(UiAction::Add) => {
            r.push(
                Message::Dataset(
                    DatasetMessage::Append {
                        path: ctx.dataset_path.clone(),
                        data: DatasetData::Text(ctx.add_payload.clone()),
                    },
                ),
            );
        },
        Some(UiAction::Remove) => {
            r.push(
                Message::Dataset(
                    DatasetMessage::DeleteElement { path: ctx.dataset_path.clone(), id: 0 },
                ),
            );
        },
        Some(UiAction::DeleteRow) => {
            let row: usize = if rows.len() > 0 {
                rows[rows.len() - 1]
            } else {
                0
            };
            r.push(
                Message::Dataset(
                    DatasetMessage::DeleteElement { path: ctx.dataset_path.clone(), id: row },
                ),
            );
        },
        Some(UiAction::TextSubmit) => {
            match input {
                UiInput::Text(t) => {
                    r.push(
                        Message::Dataset(
                            DatasetMessage::Append {
                                path: ctx.dataset_path.clone(),
                                data: DatasetData::Text(t),
                            },
                        ),
                    );
                },
                _ => {},
            }
        },
    }
    proof {
        assert(r.deep_view() =~= input_response(ctx@, id@, rows@, input@));
    }
    r
}

/// Handles one inbound dataset message: a snapshot or update is handed back
/// to the caller; everything else is a deliberate no-op.
pub fn dataset_handler(msg: DatasetMessage) -> (r: Option<(ResolvedDatasetPath, Vec<DatasetData>)>)
    ensures
        r.deep_view() == dataset_received(msg@),
{
    match msg {
        DatasetMessage::Dataset { path, data } => Some((path, data)),
        _ => None,
    }
}

/// Routes one inbound message: UI messages to the UI handler, dataset
/// messages to the dataset handler; router and error envelopes are
/// acknowledged as out of scope and produce nothing.
pub fn msg_handler(ctx: &DispatchContext, msg: Message) -> (r: DispatchOutcome)
    ensures
        r.outbound.deep_view() == response(ctx@, msg@),
        r.received.deep_view() == received(msg@),
{
    match msg {
        Message::Ui(m) => DispatchOutcome { outbound: ui_handler(ctx, m), received: None },
        Message::Dataset(m) => {
            let r = DispatchOutcome { outbound: Vec::new(), received: dataset_handler(m) };
            proof {
                assert(r.outbound.deep_view() =~= response(ctx@, msg@));
            }
            r
        },
        Message::Router(_) => {
            let r = DispatchOutcome { outbound: Vec::new(), received: None };
            proof {
                assert(r.outbound.deep_view() =~= response(ctx@, msg@));
            }
            r
        },
        Message::Error(_) => {
            let r = DispatchOutcome { outbound: Vec::new(), received: None };
            proof {
                assert(r.outbound.deep_view() =~= response(ctx@, msg@));
            }
            r
        },
    }
}

} // verus!
