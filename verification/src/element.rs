//! The UI element tree: typed nodes owning their children, with literal and
//! dataset-bound content, addressed by `UiPath`.

use vstd::prelude::*;

use crate::dataset::ResolvedDatasetPath;
use crate::dataset::ResolvedDatasetPathView;
use crate::dataset::clone_strings;
use crate::path::UiError;
use crate::path::UiPath;

verus! {

/// The closed set of element variants: containers, content and controls.
#[derive(Clone, Copy, PartialEq, Eq, Structural, Debug)]
pub enum UiElementKind {
    /// Container laying its children out as rows.
    Rows,
    /// Container laying its children out as columns.
    Columns,
    /// Literal or dataset-sourced text.
    Text,
    /// A clickable control.
    Button,
    /// A text-entry control.
    TextEntry,
    /// Empty space.
    Spacer,
}

/// One part of an element's content: literal text, or a placeholder bound to
/// dataset-sourced values, selected by a property path into the row.
#[derive(Debug)]
pub enum UiElementContentPart {
    Text(String),
    Data(Vec<String>),
}

/// Mathematical model of a content part.
pub ghost enum ContentPartView {
    Text(Seq<char>),
    Data(Seq<Seq<char>>),
}

impl View for UiElementContentPart {
    type V = ContentPartView;

    open spec fn view(&self) -> ContentPartView {
        match self {
            UiElementContentPart::Text(s) => ContentPartView::Text(s@),
            UiElementContentPart::Data(p) => ContentPartView::Data(p.deep_view()),
        }
    }
}

impl DeepView for UiElementContentPart {
    type V = ContentPartView;

    open spec fn deep_view(&self) -> ContentPartView {
        self.view()
    }
}

impl Clone for UiElementContentPart {
    /// A clone models the same content part.
    fn clone(&self) -> (r: Self)
        ensures
            r@ == self@,
    {
        match self {
            UiElementContentPart::Text(s) => UiElementContentPart::Text(s.clone()),
            UiElementContentPart::Data(p) => UiElementContentPart::Data(clone_strings(p)),
        }
    }
}

/// Ordered content of one element, as a list of parts.
#[derive(Debug)]
pub struct UiElementContent {
    parts: Vec<UiElementContentPart>,
}

impl View for UiElementContent {
    type V = Seq<ContentPartView>;

    closed spec fn view(&self) -> Seq<ContentPartView> {
        self.parts.deep_view()
    }
}

impl UiElementContent {
    /// Content with no parts.
    pub fn new() -> (c: UiElementContent)
        ensures
            c@ == Seq::<ContentPartView>::empty(),
    {
        let c = UiElementContent { parts: Vec::new() };
        proof {
            assert(c@ =~= Seq::<ContentPartView>::empty());
        }
        c
    }

    /// Content of a single literal text part.
    pub fn from_text(text: &str) -> (c: UiElementContent)
        ensures
            c@ == seq![ContentPartView::Text(text@)],
    {
        let mut parts: Vec<UiElementContentPart> = Vec::new();
        parts.push(UiElementContentPart::Text(text.to_string()));
        let c = UiElementContent { parts };
        proof {
            assert(c@ =~= seq![ContentPartView::Text(text@)]);
        }
        c
    }

    /// Appends one part to the content.
    pub fn add_part(&mut self, part: UiElementContentPart)
        ensures
            final(self)@ == old(self)@.push(part@),
    {
        let ghost before = self@;
        let ghost p = part@;
        self.parts.push(part);
        proof {
            assert(self@ =~= before.push(p));
        }
    }
}

impl Clone for UiElementContent {
    /// A clone models the same content.
    fn clone(&self) -> (r: Self)
        ensures
            r@ == self@,
    {
        let mut parts: Vec<UiElementContentPart> = Vec::new();
        let mut i: usize = 0;
        while i < self.parts.len()
            invariant
                i <= self.parts.len(),
                parts@.len() == i,
                forall|j: int| 0 <= j < i ==> (#[trigger] parts@[j])@ == self.parts@[j]@,
            decreases self.parts.len() - i,
        {
            parts.push(self.parts[i].clone());
            i += 1;
        }
        let r = UiElementContent { parts };
        proof {
            assert(r@ =~= self@);
        }
        r
    }
}

/// A node of the element tree. A node owns its children exclusively; its
/// content may mix literal text with dataset placeholders, and an optional
/// dataset binding declares that the node's children are materialized per
/// dataset row.
#[derive(Debug)]
pub struct UiElement {
    kind: UiElementKind,
    id: Option<String>,
    selectable: bool,
    content: UiElementContent,
    dataset: Option<ResolvedDatasetPath>,
    children: Vec<UiElement>,
}

/// Mathematical model of an element node and its whole subtree.
#[verifier::ext_equal]
pub ghost struct ElementView {
    pub kind: UiElementKind,
    pub id: Option<Seq<char>>,
    pub selectable: bool,
    pub content: Seq<ContentPartView>,
    pub dataset: Option<ResolvedDatasetPathView>,
    pub children: Seq<ElementView>,
}

impl UiElement {
    /// The model of this node: all attributes plus the models of the children,
    /// in order.
    pub closed spec fn spec_view(self) -> ElementView
        decreases self,
    {
        ElementView {
            kind: self.kind,
            id: self.id.deep_view(),
            selectable: self.selectable,
            content: self.content@,
            dataset: self.dataset.deep_view(),
            children: Seq::new(
                self.children@.len(),
                |i: int|
                    if 0 <= i < self.children@.len() {
                        self.children@[i].spec_view()
                    } else {
                        ElementView {
                            kind: UiElementKind::Spacer,
                            id: None,
                            selectable: false,
                            content: Seq::empty(),
                            dataset: None,
                            children: Seq::empty(),
                        }
                    },
            ),
        }
    }
}

impl View for UiElement {
    type V = ElementView;

    open spec fn view(&self) -> ElementView {
        self.spec_view()
    }
}

impl DeepView for UiElement {
    type V = ElementView;

    open spec fn deep_view(&self) -> ElementView {
        self.spec_view()
    }
}

/// The model of a blank node of the given kind: no identifier, not
/// selectable, empty content, no dataset binding, no children.
pub open spec fn blank_view(kind: UiElementKind) -> ElementView {
    ElementView {
        kind,
        id: None,
        selectable: false,
        content: Seq::empty(),
        dataset: None,
        children: Seq::empty(),
    }
}

/// Resolves an index path against a subtree model: the empty path addresses
/// the node itself; otherwise the first index selects a child, in which the
/// rest of the path is resolved. Out-of-range indices resolve to nothing.
pub open spec fn resolve_view(t: ElementView, p: Seq<usize>) -> Option<ElementView>
    decreases p.len(),
{
    if p.len() == 0 {
        Some(t)
    } else if (p.first() as int) < t.children.len() {
        resolve_view(t.children[p.first() as int], p.drop_first())
    } else {
        None
    }
}

/// Law: path resolution is deterministic. It is a function of the tree and
/// the path alone — no state, no side effects — so resolving one path
/// repeatedly against an unmodified tree returns the same node every time,
/// whatever sequence of `child` calls produced the path.
pub proof fn lemma_resolution_deterministic(
    t1: ElementView,
    t2: ElementView,
    p1: Seq<usize>,
    p2: Seq<usize>,
)
    requires
        t1 == t2,
        p1 == p2,
    ensures
        resolve_view(t1, p1) == resolve_view(t2, p2),
{
}

/// Whether some node of the subtree `t` carries the stable identifier `id`.
pub open spec fn tree_has_id(t: ElementView, id: Seq<char>) -> bool
    decreases t,
{
    t.id == Some(id) || exists|i: int|
        0 <= i < t.children.len() && tree_has_id(#[trigger] t.children[i], id)
}

impl UiElement {
    /// Whether this node or any of its descendants carries the identifier.
    pub fn has_id(&self, id: &String) -> (b: bool)
        ensures
            b == tree_has_id(self@, id@),
        decreases self,
    {
        match &self.id {
            Some(own) => {
                if own.eq(id) {
                    return true;
                }
            },
            None => {},
        }
        let mut i: usize = 0;
        while i < self.children.len()
            invariant
                i <= self.children.len(),
                forall|j: int| 0 <= j < i ==> !tree_has_id(#[trigger] self@.children[j], id@),
                self@.id != Some(id@),
            decreases self.children.len() - i,
        {
            if self.children[i].has_id(id) {
                proof {
                    assert(self@.children[i as int] == self.children@[i as int]@);
                }
                return true;
            }
            i += 1;
        }
        false
    }
}

/// One attribute mutation of a single node, as carried by change records.
/// Structural mutations (append, remove) are distinct: they produce their own
/// record kinds.
#[derive(Debug)]
pub enum ElementUpdate {
    Kind(UiElementKind),
    Id(Option<String>),
    Selectable(bool),
    Text(String),
    Content(UiElementContent),
    Dataset(Option<ResolvedDatasetPath>),
}

/// Mathematical model of an attribute mutation.
pub ghost enum ElementUpdateView {
    Kind(UiElementKind),
    Id(Option<Seq<char>>),
    Selectable(bool),
    Text(Seq<char>),
    Content(Seq<ContentPartView>),
    Dataset(Option<ResolvedDatasetPathView>),
}

impl View for ElementUpdate {
    type V = ElementUpdateView;

    open spec fn view(&self) -> ElementUpdateView {
        match self {
            ElementUpdate::Kind(k) => ElementUpdateView::Kind(*k),
            ElementUpdate::Id(i) => ElementUpdateView::Id(i.deep_view()),
            ElementUpdate::Selectable(b) => ElementUpdateView::Selectable(*b),
            ElementUpdate::Text(s) => ElementUpdateView::Text(s@),
            ElementUpdate::Content(c) => ElementUpdateView::Content(c@),
            ElementUpdate::Dataset(d) => ElementUpdateView::Dataset(d.deep_view()),
        }
    }
}

impl Clone for ElementUpdate {
    /// A clone models the same mutation.
    fn clone(&self) -> (r: Self)
        ensures
            r@ == self@,
    {
        match self {
            ElementUpdate::Kind(k) => ElementUpdate::Kind(*k),
            ElementUpdate::Id(i) => ElementUpdate::Id(
                match i {
                    Some(s) => Some(s.clone()),
                    None => None,
                },
            ),
            ElementUpdate::Selectable(b) => ElementUpdate::Selectable(*b),
            ElementUpdate::Text(s) => ElementUpdate::Text(s.clone()),
            ElementUpdate::Content(c) => ElementUpdate::Content(c.clone()),
            ElementUpdate::Dataset(d) => ElementUpdate::Dataset(
                match d {
                    Some(p) => Some(p.clone()),
                    None => None,
                },
            ),
        }
    }
}

/// The model of applying one attribute mutation to one node: the named
/// attribute is replaced, everything else, the children included, is kept.
/// A text mutation replaces the whole content with one literal part.
pub open spec fn apply_update(t: ElementView, u: ElementUpdateView) -> ElementView {
    match u {
        ElementUpdateView::Kind(k) => (ElementView { kind: k, ..t }),
        ElementUpdateView::Id(i) => (ElementView { id: i, ..t }),
        ElementUpdateView::Selectable(b) => (ElementView { selectable: b, ..t }),
        ElementUpdateView::Text(s) => (
        ElementView { content: seq![ContentPartView::Text(s)], ..t }),
        ElementUpdateView::Content(c) => (ElementView { content: c, ..t }),
        ElementUpdateView::Dataset(d) => (ElementView { dataset: d, ..t }),
    }
}

/// The model of an attribute mutation at a path: the tree with the addressed
/// node updated, or nothing if the path does not resolve.
pub open spec fn update_at(t: ElementView, p: Seq<usize>, u: ElementUpdateView) -> Option<
    ElementView,
>
    decreases p.len(),
{
    if p.len() == 0 {
        Some(apply_update(t, u))
    } else if (p.first() as int) < t.children.len() {
        match update_at(t.children[p.first() as int], p.drop_first(), u) {
            Some(c) => Some(
                (ElementView { children: t.children.update(p.first() as int, c), ..t }),
            ),
            None => None,
        }
    } else {
        None
    }
}

/// The model of appending a child below the node at a path: the tree with
/// `c` pushed onto that node's children, or nothing if the path does not
/// resolve.
pub open spec fn append_at(t: ElementView, p: Seq<usize>, c: ElementView) -> Option<ElementView>
    decreases p.len(),
{
    if p.len() == 0 {
        Some((ElementView { children: t.children.push(c), ..t }))
    } else if (p.first() as int) < t.children.len() {
        match append_at(t.children[p.first() as int], p.drop_first(), c) {
            Some(n) => Some(
                (ElementView { children: t.children.update(p.first() as int, n), ..t }),
            ),
            None => None,
        }
    } else {
        None
    }
}

/// The model of removing the node at a path from the tree. The empty path
/// would remove the root, which no tree can survive: it resolves to nothing.
pub open spec fn remove_at(t: ElementView, p: Seq<usize>) -> Option<ElementView>
    decreases p.len(),
{
    if p.len() == 0 {
        None
    } else if (p.first() as int) >= t.children.len() {
        None
    } else if p.len() == 1 {
        Some((ElementView { children: t.children.remove(p.first() as int), ..t }))
    } else {
        match remove_at(t.children[p.first() as int], p.drop_first()) {
            Some(n) => Some(
                (ElementView { children: t.children.update(p.first() as int, n), ..t }),
            ),
            None => None,
        }
    }
}

/// Law: an attribute mutation at a path succeeds exactly where the path
/// resolves, and it never touches what stands beside the path.
pub proof fn lemma_update_at_resolves(t: ElementView, p: Seq<usize>, u: ElementUpdateView)
    ensures
        update_at(t, p, u) is Some <==> resolve_view(t, p) is Some,
    decreases p.len(),
{
    if p.len() != 0 && (p.first() as int) < t.children.len() {
        lemma_update_at_resolves(t.children[p.first() as int], p.drop_first(), u);
    }
}

/// Law: appending below a path succeeds exactly where the path resolves.
pub proof fn lemma_append_at_resolves(t: ElementView, p: Seq<usize>, c: ElementView)
    ensures
        append_at(t, p, c) is Some <==> resolve_view(t, p) is Some,
    decreases p.len(),
{
    if p.len() != 0 && (p.first() as int) < t.children.len() {
        lemma_append_at_resolves(t.children[p.first() as int], p.drop_first(), c);
    }
}

/// Law: what appending below a resolving path does to the addressed node —
/// the append succeeds, and the path then resolves to the same node with the
/// new child as its last one.
pub proof fn lemma_append_at_effect(t: ElementView, p: Seq<usize>, c: ElementView)
    requires
        resolve_view(t, p) is Some,
    ensures
        append_at(t, p, c) is Some,
        resolve_view(append_at(t, p, c).unwrap(), p) == Some(
            (ElementView {
                children: resolve_view(t, p).unwrap().children.push(c),
                ..resolve_view(t, p).unwrap()
            }),
        ),
    decreases p.len(),
{
    if p.len() == 0 {
        assert(resolve_view(t, p).unwrap() == t);
    } else {
        let i = p.first() as int;
        lemma_append_at_effect(t.children[i], p.drop_first(), c);
        let t2 = append_at(t, p, c).unwrap();
        assert(t2.children[i] == append_at(t.children[i], p.drop_first(), c).unwrap());
        assert(resolve_view(t2, p) == resolve_view(t2.children[i], p.drop_first()));
    }
}

/// Appends a whole sequence of children, in order, below the node at a path:
/// the result of folding `append_at` over the sequence.
pub open spec fn append_all_at(t: ElementView, p: Seq<usize>, cs: Seq<ElementView>) -> Option<
    ElementView,
>
    decreases cs.len(),
{
    if cs.len() == 0 {
        Some(t)
    } else {
        match append_at(t, p, cs.first()) {
            Some(t2) => append_all_at(t2, p, cs.drop_first()),
            None => None,
        }
    }
}

/// Law: appending a sequence and then one more child is appending the
/// extended sequence.
pub proof fn lemma_append_all_at_push(t: ElementView, p: Seq<usize>, cs: Seq<ElementView>, c: ElementView)
    ensures
        append_all_at(t, p, cs.push(c)) == (match append_all_at(t, p, cs) {
            Some(t2) => append_at(t2, p, c),
            None => None,
        }),
    decreases cs.len(),
{
    if cs.len() == 0 {
        assert(cs.push(c).first() == c);
        assert(cs.push(c).drop_first() =~= Seq::<ElementView>::empty());
        match append_at(t, p, c) {
            Some(t2) => {
                assert(append_all_at(t2, p, Seq::<ElementView>::empty()) == Some(t2));
            },
            None => {},
        }
    } else {
        assert(cs.push(c).first() == cs.first());
        assert(cs.push(c).drop_first() =~= cs.drop_first().push(c));
        match append_at(t, p, cs.first()) {
            Some(t2) => {
                lemma_append_all_at_push(t2, p, cs.drop_first(), c);
                assert(append_all_at(t, p, cs.push(c)) == append_all_at(
                    t2,
                    p,
                    cs.drop_first().push(c),
                ));
                assert(append_all_at(t, p, cs) == append_all_at(t2, p, cs.drop_first()));
            },
            None => {},
        }
    }
}

/// Law: removal at a path succeeds exactly where the path is non-empty and
/// resolves.
pub proof fn lemma_remove_at_resolves(t: ElementView, p: Seq<usize>)
    ensures
        remove_at(t, p) is Some <==> (p.len() > 0 && resolve_view(t, p) is Some),
    decreases p.len(),
{
    if p.len() > 1 && (p.first() as int) < t.children.len() {
        lemma_remove_at_resolves(t.children[p.first() as int], p.drop_first());
    } else if p.len() == 1 && (p.first() as int) < t.children.len() {
        assert(resolve_view(t, p) == resolve_view(
            t.children[p.first() as int],
            p.drop_first(),
        ));
        assert(p.drop_first().len() == 0);
    }
}

impl UiElement {
    /// A blank node of the given kind.
    pub fn new(kind: UiElementKind) -> (e: UiElement)
        ensures
            e@ == blank_view(kind),
    {
        let e = UiElement {
            kind,
            id: None,
            selectable: false,
            content: UiElementContent::new(),
            dataset: None,
            children: Vec::new(),
        };
        proof {
            assert(e@.content =~= blank_view(kind).content);
            assert(e@.children =~= blank_view(kind).children);
            assert(e@ =~= blank_view(kind));
        }
        e
    }

    /// A text node holding the given literal as its single content part.
    pub fn from_string(text: &str) -> (e: UiElement)
        ensures
            e@ == (ElementView {
                content: seq![ContentPartView::Text(text@)],
                ..blank_view(UiElementKind::Text)
            }),
    {
        let e = UiElement {
            kind: UiElementKind::Text,
            id: None,
            selectable: false,
            content: UiElementContent::from_text(text),
            dataset: None,
            children: Vec::new(),
        };
        proof {
            let ghost want = ElementView {
                content: seq![ContentPartView::Text(text@)],
                ..blank_view(UiElementKind::Text)
            };
            assert(e@.content =~= want.content);
            assert(e@.children =~= want.children);
            assert(e@ =~= want);
        }
        e
    }

    /// Replaces the node's kind.
    pub fn set_kind(&mut self, kind: UiElementKind)
        ensures
            final(self)@ == apply_update(old(self)@, ElementUpdateView::Kind(kind)),
    {
        self.kind = kind;
        proof {
            assert(self@ =~= apply_update(old(self)@, ElementUpdateView::Kind(kind)));
        }
    }

    /// Sets the node's stable identifier, used for input routing.
    pub fn set_id(&mut self, id: &str)
        ensures
            final(self)@ == apply_update(old(self)@, ElementUpdateView::Id(Some(id@))),
    {
        self.id = Some(id.to_string());
        proof {
            assert(self@ =~= apply_update(old(self)@, ElementUpdateView::Id(Some(id@))));
        }
    }

    /// Sets whether the node can emit input events.
    pub fn set_selectable(&mut self, selectable: bool)
        ensures
            final(self)@ == apply_update(old(self)@, ElementUpdateView::Selectable(selectable)),
    {
        self.selectable = selectable;
        proof {
            assert(self@ =~= apply_update(old(self)@, ElementUpdateView::Selectable(selectable)));
        }
    }

    /// Replaces the node's content with one literal text part.
    pub fn set_text(&mut self, text: &str)
        ensures
            final(self)@ == apply_update(old(self)@, ElementUpdateView::Text(text@)),
    {
        self.content = UiElementContent::from_text(text);
        proof {
            assert(self@ =~= apply_update(old(self)@, ElementUpdateView::Text(text@)));
        }
    }

    /// Replaces the node's content.
    pub fn set_content(&mut self, content: UiElementContent)
        ensures
            final(self)@ == apply_update(old(self)@, ElementUpdateView::Content(content@)),
    {
        self.content = content;
        proof {
            assert(self@ =~= apply_update(old(self)@, ElementUpdateView::Content(content@)));
        }
    }

    /// Sets or clears the node's dataset binding.
    pub fn set_dataset(&mut self, dataset: Option<ResolvedDatasetPath>)
        ensures
            final(self)@ == apply_update(
                old(self)@,
                ElementUpdateView::Dataset(dataset.deep_view()),
            ),
    {
        let ghost dv = dataset.deep_view();
        self.dataset = dataset;
        proof {
            assert(self@ =~= apply_update(old(self)@, ElementUpdateView::Dataset(dv)));
        }
    }

    /// The node's kind.
    pub fn kind(&self) -> (k: UiElementKind)
        ensures
            k == self@.kind,
    {
        self.kind
    }

    /// The node's stable identifier, if one is set.
    pub fn id(&self) -> (i: &Option<String>)
        ensures
            i.deep_view() == self@.id,
    {
        &self.id
    }

    /// Whether the node can emit input events.
    pub fn selectable(&self) -> (b: bool)
        ensures
            b == self@.selectable,
    {
        self.selectable
    }

    /// The node's content.
    pub fn content(&self) -> (c: &UiElementContent)
        ensures
            c@ == self@.content,
    {
        &self.content
    }

    /// The node's dataset binding, if one is set.
    pub fn dataset(&self) -> (d: &Option<ResolvedDatasetPath>)
        ensures
            d.deep_view() == self@.dataset,
    {
        &self.dataset
    }

    /// Number of children of this node.
    pub fn children_len(&self) -> (n: usize)
        ensures
            n == self@.children.len(),
    {
        self.children.len()
    }

    /// The child at index `i`.
    pub fn child_at(&self, i: usize) -> (c: &UiElement)
        requires
            i < self@.children.len(),
        ensures
            c@ == self@.children[i as int],
    {
        &self.children[i]
    }

    /// Appends a child node; ownership of the child transfers to this node.
    pub fn append_child(&mut self, child: UiElement)
        ensures
            final(self)@ == (ElementView {
                children: old(self)@.children.push(child@),
                ..old(self)@
            }),
    {
        let ghost cv = child@;
        self.children.push(child);
        proof {
            assert(self@.children =~= old(self)@.children.push(cv));
            assert(self@ =~= (ElementView { children: old(self)@.children.push(cv), ..old(self)@ }));
        }
    }
}

impl Clone for UiElement {
    /// A clone models the same subtree, node for node.
    fn clone(&self) -> (r: Self)
        ensures
            r@ == self@,
        decreases self,
    {
        let mut children: Vec<UiElement> = Vec::new();
        let mut i: usize = 0;
        while i < self.children.len()
            invariant
                i <= self.children.len(),
                children@.len() == i,
                forall|j: int| 0 <= j < i ==> (#[trigger] children@[j])@ == self.children@[j]@,
            decreases self.children.len() - i,
        {
            children.push(self.children[i].clone());
            i += 1;
        }
        let r = UiElement {
            kind: self.kind,
            id: match &self.id {
                Some(s) => Some(s.clone()),
                None => None,
            },
            selectable: self.selectable,
            content: self.content.clone(),
            dataset: match &self.dataset {
                Some(d) => Some(d.clone()),
                None => None,
            },
            children,
        };
        proof {
            assert(r@.children =~= self@.children);
            assert(r@ =~= self@);
        }
        r
    }
}

/// Walks the path suffix from position `depth` down the subtree `e` and
/// returns the addressed node, or `NotFound` where an index is out of range.
pub(crate) fn resolve_node<'a>(e: &'a UiElement, p: &UiPath, depth: usize) -> (r: Result<
    &'a UiElement,
    UiError,
>)
    requires
        depth <= p@.len(),
    ensures
        match r {
            Ok(n) => resolve_view(e@, p@.skip(depth as int)) == Some(n@),
            Err(_) => resolve_view(e@, p@.skip(depth as int)) is None,
        },
    decreases p@.len() - depth,
{
    if depth == p.len() {
        proof {
            assert(p@.skip(depth as int) =~= Seq::<usize>::empty());
        }
        Ok(e)
    } else {
        let idx = p.index_at(depth);
        proof {
            assert(p@.skip(depth as int).first() == p@[depth as int]);
            assert(p@.skip(depth as int).drop_first() =~= p@.skip(depth as int + 1));
        }
        if idx < e.children_len() {
            resolve_node(&e.children[idx], p, depth + 1)
        } else {
            Err(UiError::NotFound)
        }
    }
}

impl UiPath {
    /// Resolves this path against a tree: walks the index sequence from the
    /// root and returns the addressed node. Resolution has no side effects
    /// and depends only on the path and the tree.
    pub fn resolve<'a>(&self, tree: &'a UiElement) -> (r: Result<&'a UiElement, UiError>)
        ensures
            match r {
                Ok(n) => resolve_view(tree@, self@) == Some(n@),
                Err(_) => resolve_view(tree@, self@) is None,
            },
    {
        proof {
            assert(self@.skip(0) =~= self@);
        }
        resolve_node(tree, self, 0)
    }
}

/// Applies one attribute mutation to the node at the path suffix from
/// position `depth`, leaving every other node as it stands.
pub(crate) fn update_node(e: &mut UiElement, p: &UiPath, depth: usize, u: ElementUpdate) -> (r:
    Result<(), UiError>)
    requires
        depth <= p@.len(),
    ensures
        match r {
            Ok(_) => update_at(old(e)@, p@.skip(depth as int), u@) == Some(final(e)@),
            Err(_) => final(e)@ == old(e)@ && update_at(old(e)@, p@.skip(depth as int), u@) is None,
        },
    decreases p@.len() - depth,
{
    if depth == p.len() {
        proof {
            assert(p@.skip(depth as int) =~= Seq::<usize>::empty());
        }
        apply_update_node(e, u);
        Ok(())
    } else {
        let idx = p.index_at(depth);
        let ghost suffix = p@.skip(depth as int);
        proof {
            assert(suffix.first() == p@[depth as int]);
            assert(suffix.drop_first() =~= p@.skip(depth as int + 1));
        }
        if idx < e.children_len() {
            let r = update_node(&mut e.children[idx], p, depth + 1, u);
            proof {
                assert(e@.children =~= old(e)@.children.update(
                    idx as int,
                    e.children@[idx as int]@,
                ));
                if r is Ok {
                    assert(e@ =~= (ElementView {
                        children: old(e)@.children.update(idx as int, e@.children[idx as int]),
                        ..old(e)@
                    }));
                } else {
                    assert(e@.children =~= old(e)@.children);
                    assert(e@ =~= old(e)@);
                }
            }
            r
        } else {
            Err(UiError::NotFound)
        }
    }
}

/// Applies one attribute mutation to this node itself.
fn apply_update_node(e: &mut UiElement, u: ElementUpdate)
    ensures
        final(e)@ == apply_update(old(e)@, u@),
{
    match u {
        ElementUpdate::Kind(k) => e.set_kind(k),
        ElementUpdate::Id(i) => {
            e.id = i;
            proof {
                assert(e@ =~= apply_update(old(e)@, u@));
            }
        },
        ElementUpdate::Selectable(b) => e.set_selectable(b),
        ElementUpdate::Text(s) => {
            e.content = UiElementContent::from_text(s.as_str());
            proof {
                assert(e@ =~= apply_update(old(e)@, u@));
            }
        },
        ElementUpdate::Content(c) => e.set_content(c),
        ElementUpdate::Dataset(d) => e.set_dataset(d),
    }
}

/// Appends a child below the node at the path suffix from position `depth`
/// and returns the index the child got among its new siblings.
pub(crate) fn append_node(e: &mut UiElement, p: &UiPath, depth: usize, c: UiElement) -> (r: Result<
    usize,
    UiError,
>)
    requires
        depth <= p@.len(),
    ensures
        match r {
            Ok(n) => {
                &&& append_at(old(e)@, p@.skip(depth as int), c@) == Some(final(e)@)
                &&& resolve_view(old(e)@, p@.skip(depth as int)) matches Some(t) && n
                    == t.children.len()
            },
            Err(_) => final(e)@ == old(e)@ && append_at(old(e)@, p@.skip(depth as int), c@) is None,
        },
    decreases p@.len() - depth,
{
    if depth == p.len() {
        proof {
            assert(p@.skip(depth as int) =~= Seq::<usize>::empty());
        }
        let n = e.children.len();
        let ghost cv = c@;
        e.children.push(c);
        proof {
            assert(e@.children =~= old(e)@.children.push(cv));
            assert(e@ =~= (ElementView { children: old(e)@.children.push(cv), ..old(e)@ }));
        }
        Ok(n)
    } else {
        let idx = p.index_at(depth);
        let ghost suffix = p@.skip(depth as int);
        proof {
            assert(suffix.first() == p@[depth as int]);
            assert(suffix.drop_first() =~= p@.skip(depth as int + 1));
        }
        if idx < e.children_len() {
            let r = append_node(&mut e.children[idx], p, depth + 1, c);
            proof {
                assert(e@.children =~= old(e)@.children.update(
                    idx as int,
                    e.children@[idx as int]@,
                ));
                if r is Ok {
                    assert(e@ =~= (ElementView {
                        children: old(e)@.children.update(idx as int, e@.children[idx as int]),
                        ..old(e)@
                    }));
                } else {
                    assert(e@.children =~= old(e)@.children);
                    assert(e@ =~= old(e)@);
                }
            }
            r
        } else {
            Err(UiError::NotFound)
        }
    }
}

/// Removes the node at the path suffix from position `depth` and returns it.
/// The empty suffix would remove the subtree's own root: that is refused.
pub(crate) fn remove_node(e: &mut UiElement, p: &UiPath, depth: usize) -> (r: Result<
    UiElement,
    UiError,
>)
    requires
        depth <= p@.len(),
    ensures
        match r {
            Ok(n) => {
                &&& remove_at(old(e)@, p@.skip(depth as int)) == Some(final(e)@)
                &&& resolve_view(old(e)@, p@.skip(depth as int)) == Some(n@)
            },
            Err(_) => final(e)@ == old(e)@ && remove_at(old(e)@, p@.skip(depth as int)) is None,
        },
    decreases p@.len() - depth,
{
    if depth == p.len() {
        proof {
            assert(p@.skip(depth as int) =~= Seq::<usize>::empty());
        }
        Err(UiError::NotFound)
    } else {
        let idx = p.index_at(depth);
        let ghost suffix = p@.skip(depth as int);
        proof {
            assert(suffix.first() == p@[depth as int]);
            assert(suffix.drop_first() =~= p@.skip(depth as int + 1));
        }
        if idx >= e.children_len() {
            Err(UiError::NotFound)
        } else if depth + 1 == p.len() {
            let n = e.children.remove(idx);
            proof {
                assert(suffix.len() == 1);
                assert(e@.children =~= old(e)@.children.remove(idx as int));
                assert(e@ =~= (ElementView {
                    children: old(e)@.children.remove(idx as int),
                    ..old(e)@
                }));
                assert(resolve_view(old(e)@, suffix) == resolve_view(
                    old(e)@.children[idx as int],
                    suffix.drop_first(),
                ));
            }
            Ok(n)
        } else {
            let r = remove_node(&mut e.children[idx], p, depth + 1);
            proof {
                assert(e@.children =~= old(e)@.children.update(
                    idx as int,
                    e.children@[idx as int]@,
                ));
                if r is Ok {
                    assert(e@ =~= (ElementView {
                        children: old(e)@.children.update(idx as int, e@.children[idx as int]),
                        ..old(e)@
                    }));
                } else {
                    assert(e@.children =~= old(e)@.children);
                    assert(e@ =~= old(e)@);
                }
            }
            r
        }
    }
}

} // verus!
