//! The page manager: owner of one page's element tree, accumulating an
//! append-only log of mutation records that is drained as the change-set for
//! synchronization.
//!
//! Every mutation goes through the manager and names its target by path; each
//! successful mutation appends exactly one record to the log, in mutation
//! order, so a drained change-set replays deterministically.

use vstd::prelude::*;

use crate::dataset::ResolvedDatasetPath;
use crate::element::ElementUpdate;
use crate::element::ElementUpdateView;
use crate::element::ElementView;
use crate::element::UiElement;
use crate::element::UiElementContent;
use crate::element::UiElementKind;
use crate::element::append_all_at;
use crate::element::append_at;
use crate::element::append_node;
use crate::element::blank_view;
use crate::element::lemma_append_all_at_push;
use crate::element::lemma_append_at_effect;
use crate::element::lemma_append_at_resolves;
use crate::element::lemma_remove_at_resolves;
use crate::element::lemma_update_at_resolves;
use crate::element::remove_at;
use crate::element::remove_node;
use crate::element::resolve_node;
use crate::element::resolve_view;
use crate::element::update_at;
use crate::element::update_node;
use crate::path::UiError;
use crate::path::UiPath;

verus! {

/// One page: an owner identity, a display name, and the root of the element
/// tree. Every page has exactly one root; it exists from construction on.
#[derive(Debug)]
pub struct Page {
    owner: String,
    name: String,
    root: UiElement,
}

/// Mathematical model of a page.
#[verifier::ext_equal]
pub ghost struct PageView {
    pub owner: Seq<char>,
    pub name: Seq<char>,
    pub root: ElementView,
}

impl View for Page {
    type V = PageView;

    closed spec fn view(&self) -> PageView {
        PageView { owner: self.owner@, name: self.name@, root: self.root@ }
    }
}

impl Page {
    /// The owner identity the page belongs to.
    pub fn owner(&self) -> (o: &String)
        ensures
            o@ == self@.owner,
    {
        &self.owner
    }

    /// The page's display name.
    pub fn name(&self) -> (n: &String)
        ensures
            n@ == self@.name,
    {
        &self.name
    }

    /// The root of the element tree.
    pub fn root(&self) -> (r: &UiElement)
        ensures
            r@ == self@.root,
    {
        &self.root
    }
}

impl Clone for Page {
    /// A clone models the same page.
    fn clone(&self) -> (r: Self)
        ensures
            r@ == self@,
    {
        let r = Page { owner: self.owner.clone(), name: self.name.clone(), root: self.root.clone() };
        proof {
            assert(r@ =~= self@);
        }
        r
    }
}

/// One record of the change-set: an element inserted at a path with its full
/// subtree, an element removed at a path, or one attribute updated at a path
/// with its new value.
#[derive(Debug)]
pub enum UiChange {
    Inserted { path: UiPath, element: UiElement },
    Removed { path: UiPath },
    Updated { path: UiPath, update: ElementUpdate },
}

/// Mathematical model of a change record.
pub ghost enum ChangeView {
    Inserted { path: Seq<usize>, element: ElementView },
    Removed { path: Seq<usize> },
    Updated { path: Seq<usize>, update: ElementUpdateView },
}

impl View for UiChange {
    type V = ChangeView;

    closed spec fn view(&self) -> ChangeView {
        match self {
            UiChange::Inserted { path, element } => ChangeView::Inserted {
                path: path@,
                element: element@,
            },
            UiChange::Removed { path } => ChangeView::Removed { path: path@ },
            UiChange::Updated { path, update } => ChangeView::Updated {
                path: path@,
                update: update@,
            },
        }
    }
}

impl DeepView for UiChange {
    type V = ChangeView;

    open spec fn deep_view(&self) -> ChangeView {
        self.view()
    }
}

/// Owner of one page and its accumulated change-set.
#[derive(Debug)]
pub struct UiPageManager {
    page: Page,
    changes: Vec<UiChange>,
}

/// Mathematical model of a page manager: the page and the pending records.
#[verifier::ext_equal]
pub ghost struct PageManagerView {
    pub page: PageView,
    pub changes: Seq<ChangeView>,
}

impl View for UiPageManager {
    type V = PageManagerView;

    closed spec fn view(&self) -> PageManagerView {
        PageManagerView { page: self.page@, changes: self.changes.deep_view() }
    }
}

/// The insertion records that appending the children `cs` below `p`
/// produces: one per child, with its full subtree, at the successive sibling
/// indices from `start` on.
pub open spec fn insertion_records(p: Seq<usize>, start: int, cs: Seq<ElementView>) -> Seq<
    ChangeView,
> {
    Seq::new(
        cs.len(),
        |i: int| ChangeView::Inserted { path: p.push((start + i) as usize), element: cs[i] },
    )
}

/// Relation of one successful attribute mutation: the tree holds the update
/// at the path, exactly one matching record was appended, and the page's
/// identity is untouched.
pub open spec fn attribute_applied(
    pre: PageManagerView,
    post: PageManagerView,
    p: Seq<usize>,
    u: ElementUpdateView,
) -> bool {
    &&& update_at(pre.page.root, p, u) == Some(post.page.root)
    &&& post.changes == pre.changes.push(ChangeView::Updated { path: p, update: u })
    &&& post.page.owner == pre.page.owner
    &&& post.page.name == pre.page.name
}

impl UiPageManager {
    /// A manager for a fresh page: the given owner identity and name, an
    /// empty root container, and no pending change records.
    pub fn new(owner: String, name: &str) -> (m: UiPageManager)
        ensures
            m@.page.owner == owner@,
            m@.page.name == name@,
            m@.page.root == blank_view(UiElementKind::Rows),
            m@.changes == Seq::<ChangeView>::empty(),
    {
        let m = UiPageManager {
            page: Page {
                owner,
                name: name.to_string(),
                root: UiElement::new(UiElementKind::Rows),
            },
            changes: Vec::new(),
        };
        proof {
            assert(m@.changes =~= Seq::<ChangeView>::empty());
        }
        m
    }

    /// The managed page.
    pub fn get_page(&self) -> (p: &Page)
        ensures
            p@ == self@.page,
    {
        &self.page
    }

    /// The node the path addresses, or `NotFound` where the path does not
    /// resolve. Resolution depends only on the path and the tree: repeated
    /// calls on an unmodified tree return the same node. Mutation does not
    /// go through the returned reference but through the manager's
    /// path-addressed operations, each of which records the change it
    /// makes.
    pub fn get_element(&self, path: &UiPath) -> (r: Result<&UiElement, UiError>)
        ensures
            match r {
                Ok(n) => resolve_view(self@.page.root, path@) == Some(n@),
                Err(_) => resolve_view(self@.page.root, path@) is None,
            },
    {
        proof {
            assert(path@.skip(0) =~= path@);
        }
        resolve_node(&self.page.root, path, 0)
    }

    /// Applies one attribute mutation at a path and records it.
    fn apply_attribute(&mut self, path: &UiPath, u: ElementUpdate) -> (r: Result<(), UiError>)
        ensures
            match r {
                Ok(_) => attribute_applied(old(self)@, final(self)@, path@, u@),
                Err(_) => final(self)@ == old(self)@ && resolve_view(
                    old(self)@.page.root,
                    path@,
                ) is None,
            },
    {
        let record = u.clone();
        proof {
            assert(path@.skip(0) =~= path@);
        }
        let r = update_node(&mut self.page.root, path, 0, u);
        match r {
            Ok(_) => {
                self.changes.push(UiChange::Updated { path: path.clone(), update: record });
                proof {
                    assert(self@.changes =~= old(self)@.changes.push(
                        ChangeView::Updated { path: path@, update: u@ },
                    ));
                }
                Ok(())
            },
            Err(e) => {
                proof {
                    lemma_update_at_resolves(old(self)@.page.root, path@, u@);
                    assert(self@ =~= old(self)@);
                }
                Err(e)
            },
        }
    }

    /// Replaces the kind of the node at `path` and records the mutation.
    pub fn set_kind(&mut self, path: &UiPath, kind: UiElementKind) -> (r: Result<(), UiError>)
        ensures
            match r {
                Ok(_) => attribute_applied(
                    old(self)@,
                    final(self)@,
                    path@,
                    ElementUpdateView::Kind(kind),
                ),
                Err(_) => final(self)@ == old(self)@ && resolve_view(
                    old(self)@.page.root,
                    path@,
                ) is None,
            },
    {
        self.apply_attribute(path, ElementUpdate::Kind(kind))
    }

    /// Sets the stable identifier of the node at `path` and records the
    /// mutation.
    pub fn set_id(&mut self, path: &UiPath, id: &str) -> (r: Result<(), UiError>)
        ensures
            match r {
                Ok(_) => attribute_applied(
                    old(self)@,
                    final(self)@,
                    path@,
                    ElementUpdateView::Id(Some(id@)),
                ),
                Err(_) => final(self)@ == old(self)@ && resolve_view(
                    old(self)@.page.root,
                    path@,
                ) is None,
            },
    {
        self.apply_attribute(path, ElementUpdate::Id(Some(id.to_string())))
    }

    /// Sets whether the node at `path` can emit input events and records the
    /// mutation.
    pub fn set_selectable(&mut self, path: &UiPath, selectable: bool) -> (r: Result<(), UiError>)
        ensures
            match r {
                Ok(_) => attribute_applied(
                    old(self)@,
                    final(self)@,
                    path@,
                    ElementUpdateView::Selectable(selectable),
                ),
                Err(_) => final(self)@ == old(self)@ && resolve_view(
                    old(self)@.page.root,
                    path@,
                ) is None,
            },
    {
        self.apply_attribute(path, ElementUpdate::Selectable(selectable))
    }

    /// Replaces the content of the node at `path` with one literal text part
    /// and records the mutation.
    pub fn set_text(&mut self, path: &UiPath, text: &str) -> (r: Result<(), UiError>)
        ensures
            match r {
                Ok(_) => attribute_applied(
                    old(self)@,
                    final(self)@,
                    path@,
                    ElementUpdateView::Text(text@),
                ),
                Err(_) => final(self)@ == old(self)@ && resolve_view(
                    old(self)@.page.root,
                    path@,
                ) is None,
            },
    {
        self.apply_attribute(path, ElementUpdate::Text(text.to_string()))
    }

    /// Replaces the content of the node at `path` and records the mutation.
    pub fn set_content(&mut self, path: &UiPath, content: UiElementContent) -> (r: Result<
        (),
        UiError,
    >)
        ensures
            match r {
                Ok(_) => attribute_applied(
                    old(self)@,
                    final(self)@,
                    path@,
                    ElementUpdateView::Content(content@),
                ),
                Err(_) => final(self)@ == old(self)@ && resolve_view(
                    old(self)@.page.root,
                    path@,
                ) is None,
            },
    {
        self.apply_attribute(path, ElementUpdate::Content(content))
    }

    /// Sets or clears the dataset binding of the node at `path` and records
    /// the mutation.
    pub fn set_dataset(&mut self, path: &UiPath, dataset: Option<ResolvedDatasetPath>) -> (r:
        Result<(), UiError>)
        ensures
            match r {
                Ok(_) => attribute_applied(
                    old(self)@,
                    final(self)@,
                    path@,
                    ElementUpdateView::Dataset(dataset.deep_view()),
                ),
                Err(_) => final(self)@ == old(self)@ && resolve_view(
                    old(self)@.page.root,
                    path@,
                ) is None,
            },
    {
        self.apply_attribute(path, ElementUpdate::Dataset(dataset))
    }

    /// Appends `element` as the last child of the node at `path`, recording
    /// one insertion with the child's full subtree at the child's own path.
    pub fn append_child(&mut self, path: &UiPath, element: UiElement) -> (r: Result<(), UiError>)
        ensures
            match r {
                Ok(_) => {
                    &&& resolve_view(old(self)@.page.root, path@) matches Some(t)
                        && final(self)@.changes == old(self)@.changes.push(
                        ChangeView::Inserted {
                            path: path@.push(t.children.len() as usize),
                            element: element@,
                        },
                    )
                    &&& append_at(old(self)@.page.root, path@, element@) == Some(
                        final(self)@.page.root,
                    )
                    &&& final(self)@.page.owner == old(self)@.page.owner
                    &&& final(self)@.page.name == old(self)@.page.name
                },
                Err(_) => final(self)@ == old(self)@ && resolve_view(
                    old(self)@.page.root,
                    path@,
                ) is None,
            },
    {
        let snapshot = element.clone();
        proof {
            assert(path@.skip(0) =~= path@);
        }
        let r = append_node(&mut self.page.root, path, 0, element);
        match r {
            Ok(n) => {
                self.changes.push(
                    UiChange::Inserted { path: path.child(n), element: snapshot },
                );
                proof {
                    assert(self@.changes =~= old(self)@.changes.push(
                        ChangeView::Inserted { path: path@.push(n), element: element@ },
                    ));
                }
                Ok(())
            },
            Err(e) => {
                proof {
                    lemma_append_at_resolves(old(self)@.page.root, path@, element@);
                    assert(self@ =~= old(self)@);
                }
                Err(e)
            },
        }
    }

    /// Appends every element of `elements`, in order, as new children of the
    /// node at `path`. Appending N children yields exactly N insertion
    /// records — one per appended child, at its own path — on top of
    /// whatever records were already pending.
    pub fn append_children(&mut self, path: &UiPath, elements: Vec<UiElement>) -> (r: Result<
        (),
        UiError,
    >)
        ensures
            match r {
                Ok(_) => {
                    &&& resolve_view(old(self)@.page.root, path@) matches Some(t)
                        && final(self)@.changes == old(self)@.changes + insertion_records(
                        path@,
                        t.children.len() as int,
                        elements.deep_view(),
                    )
                    &&& append_all_at(old(self)@.page.root, path@, elements.deep_view()) == Some(
                        final(self)@.page.root,
                    )
                    &&& final(self)@.page.owner == old(self)@.page.owner
                    &&& final(self)@.page.name == old(self)@.page.name
                },
                Err(_) => final(self)@ == old(self)@ && resolve_view(
                    old(self)@.page.root,
                    path@,
                ) is None,
            },
    {
        if self.get_element(path).is_err() {
            proof {
                assert(self@ =~= old(self)@);
            }
            return Err(UiError::NotFound);
        }
        let ghost cs = elements.deep_view();
        let ghost root0 = self@.page.root;
        let ghost changes0 = self@.changes;
        let ghost owner0 = self@.page.owner;
        let ghost name0 = self@.page.name;
        let ghost t0 = resolve_view(root0, path@).unwrap();
        let ghost total = cs.len();
        let mut rest = elements;
        let n_total: usize = rest.len();
        let mut k: usize = 0;
        proof {
            assert(cs.take(0) =~= Seq::<ElementView>::empty());
            assert(insertion_records(path@, t0.children.len() as int, cs.take(0)) =~= Seq::<
                ChangeView,
            >::empty());
            assert(changes0 + insertion_records(path@, t0.children.len() as int, cs.take(0))
                =~= changes0);
            assert((ElementView { children: t0.children + cs.take(0), ..t0 }) =~= t0) by {
                assert(t0.children + cs.take(0) =~= t0.children);
            }
        }
        while rest.len() > 0
            invariant
                k + rest@.len() == total,
                total == cs.len(),
                total == n_total,
                forall|j: int| k <= j < total ==> rest@[j - k]@ == #[trigger] cs[j],
                resolve_view(root0, path@) == Some(t0),
                append_all_at(root0, path@, cs.take(k as int)) == Some(self@.page.root),
                resolve_view(self@.page.root, path@) == Some(
                    (ElementView { children: t0.children + cs.take(k as int), ..t0 }),
                ),
                self@.changes == changes0 + insertion_records(
                    path@,
                    t0.children.len() as int,
                    cs.take(k as int),
                ),
                self@.page.owner == owner0,
                self@.page.name == name0,
            decreases rest@.len(),
        {
            let ghost prev_root = self@.page.root;
            let ghost prev_changes = self@.changes;
            let ghost t_k = resolve_view(prev_root, path@).unwrap();
            let ghost rest0 = rest@;
            let e = rest.remove(0);
            proof {
                assert(e@ == cs[k as int]);
                rest0.remove_ensures(0);
                assert forall|j: int| k + 1 <= j < total implies rest@[j - (k + 1)]@
                    == #[trigger] cs[j] by {
                    assert(rest@[j - (k + 1)] == rest0[j - k]);
                }
            }
            let r = self.append_child(path, e);
            if r.is_err() {
                proof {
                    assert(false);
                }
                return Err(UiError::NotFound);
            }
            proof {
                lemma_append_all_at_push(root0, path@, cs.take(k as int), cs[k as int]);
                assert(cs.take(k as int).push(cs[k as int]) =~= cs.take(k as int + 1));
                lemma_append_at_effect(prev_root, path@, cs[k as int]);
                assert(t_k.children.push(cs[k as int]) =~= t0.children + cs.take(k as int + 1))
                    by {
                    assert(t_k.children == t0.children + cs.take(k as int));
                }
                assert(resolve_view(self@.page.root, path@) == Some(
                    (ElementView { children: t0.children + cs.take(k as int + 1), ..t0 }),
                )) by {
                    assert((ElementView { children: t_k.children.push(cs[k as int]), ..t_k })
                        =~= (ElementView {
                        children: t0.children + cs.take(k as int + 1),
                        ..t0
                    }));
                }
                assert(self@.changes == changes0 + insertion_records(
                    path@,
                    t0.children.len() as int,
                    cs.take(k as int + 1),
                )) by {
                    assert(t_k.children.len() == t0.children.len() + k);
                    assert(prev_changes.push(
                        ChangeView::Inserted {
                            path: path@.push((t0.children.len() + k) as usize),
                            element: cs[k as int],
                        },
                    ) =~= changes0 + insertion_records(
                        path@,
                        t0.children.len() as int,
                        cs.take(k as int + 1),
                    ));
                }
            }
            k += 1;
        }
        proof {
            assert(cs.take(total as int) =~= cs);
        }
        Ok(())
    }

    /// Removes the node at `path` from the tree, returning it and recording
    /// one removal. The root itself cannot be removed.
    pub fn remove_child(&mut self, path: &UiPath) -> (r: Result<UiElement, UiError>)
        ensures
            match r {
                Ok(n) => {
                    &&& remove_at(old(self)@.page.root, path@) == Some(final(self)@.page.root)
                    &&& resolve_view(old(self)@.page.root, path@) == Some(n@)
                    &&& final(self)@.changes == old(self)@.changes.push(
                        ChangeView::Removed { path: path@ },
                    )
                    &&& final(self)@.page.owner == old(self)@.page.owner
                    &&& final(self)@.page.name == old(self)@.page.name
                },
                Err(_) => final(self)@ == old(self)@ && (path@.len() == 0 || resolve_view(
                    old(self)@.page.root,
                    path@,
                ) is None),
            },
    {
        proof {
            assert(path@.skip(0) =~= path@);
        }
        let r = remove_node(&mut self.page.root, path, 0);
        match r {
            Ok(n) => {
                self.changes.push(UiChange::Removed { path: path.clone() });
                proof {
                    assert(self@.changes =~= old(self)@.changes.push(
                        ChangeView::Removed { path: path@ },
                    ));
                }
                Ok(n)
            },
            Err(e) => {
                proof {
                    lemma_remove_at_resolves(old(self)@.page.root, path@);
                    assert(self@ =~= old(self)@);
                }
                Err(e)
            },
        }
    }

    /// Drains the accumulated change-set: returns every record since the
    /// last drain, in mutation order, and leaves the log empty. A change-set
    /// is delivered at most once — calling this twice with no mutation in
    /// between returns an empty set the second time. The page is untouched.
    pub fn get_changes(&mut self) -> (r: Vec<UiChange>)
        ensures
            r.deep_view() == old(self)@.changes,
            final(self)@.changes == Seq::<ChangeView>::empty(),
            final(self)@.page == old(self)@.page,
    {
        let mut drained: Vec<UiChange> = Vec::new();
        core::mem::swap(&mut drained, &mut self.changes);
        proof {
            assert(self@.changes =~= Seq::<ChangeView>::empty());
        }
        drained
    }
}

} // verus!
