//! Patch plans: a tree of changes that flattens into a list of actions.

use vstd::prelude::*;
use crate::event::event::{copy_opt_text, opt_text};

verus! {

/// What a patch action does to its file.
#[derive(Debug, Clone, Copy, PartialEq, Eq, Structural)]
pub enum PatchType {
    CreateFile,
    ModifyFile,
    DeleteFile,
    ReplaceBlock,
}

/// One atomic change of a patch plan.
#[derive(Debug, Clone, PartialEq, Eq)]
pub struct PatchAction {
    pub file_path: String,
    pub description: String,
    pub change_type: PatchType,
    pub content: Option<String>,
}

/// Mathematical view of [`PatchAction`].
pub struct PatchActionView {
    pub file_path: Seq<char>,
    pub description: Seq<char>,
    pub change_type: PatchType,
    pub content: Option<Seq<char>>,
}

impl View for PatchAction {
    type V = PatchActionView;

    open spec fn view(&self) -> PatchActionView {
        PatchActionView {
            file_path: self.file_path@,
            description: self.description@,
            change_type: self.change_type,
            content: opt_text(self.content),
        }
    }
}

impl DeepView for PatchAction {
    type V = PatchActionView;

    open spec fn deep_view(&self) -> PatchActionView {
        self@
    }
}

impl PatchAction {
    /// An independent copy with the same view.
    pub fn duplicate(&self) -> (out: PatchAction)
        ensures
            out@ == self@,
    {
        PatchAction {
            file_path: self.file_path.clone(),
            description: self.description.clone(),
            change_type: self.change_type,
            content: copy_opt_text(&self.content),
        }
    }
}

/// Appends a copy of each action of `more` to `all`.
pub fn append_copies(all: &mut Vec<PatchAction>, more: &Vec<PatchAction>)
    ensures
        final(all).deep_view() == old(all).deep_view() + more.deep_view(),
{
    let ghost before = all.deep_view();
    let ghost base = all.len();
    let mut k: usize = 0;
    while k < more.len()
        invariant
            k <= more.len(),
            before.len() == base,
            all.len() == base + k,
            forall|j: int| 0 <= j < base ==> all@[j]@ == before[j],
            forall|j: int| 0 <= j < k ==> all@[base + j]@ == more@[j]@,
        decreases more.len() - k,
    {
        all.push(more[k].duplicate());
        k += 1;
    }
    assert(all.deep_view() =~= before + more.deep_view());
}

/// A node of a patch plan: its own actions, then those of its children.
#[derive(Debug, PartialEq, Eq)]
pub struct PatchNode {
    pub id: String,
    pub description: String,
    pub actions: Vec<PatchAction>,
    pub children: Vec<PatchNode>,
}

/// The actions of the trees `nodes[from..]`, each tree flattened, in order.
pub open spec fn flat_children(nodes: Seq<PatchNode>, from: int) -> Seq<PatchActionView>
    decreases nodes, nodes.len() - from,
{
    if 0 <= from < nodes.len() {
        nodes[from].flat() + flat_children(nodes, from + 1)
    } else {
        Seq::empty()
    }
}

impl PatchNode {
    /// The plan as a list: the node's own actions first, then the actions
    /// of each child tree, children in order.
    pub open spec fn flat(self) -> Seq<PatchActionView>
        decreases self,
    {
        self.actions.deep_view() + flat_children(self.children@, 0)
    }

    /// A node without actions or children.
    pub fn new(id: String, description: String) -> (node: PatchNode)
        ensures
            node.id@ == id@,
            node.description@ == description@,
            node.actions@.len() == 0,
            node.children@.len() == 0,
            node.flat() == Seq::<PatchActionView>::empty(),
    {
        let node = PatchNode { id, description, actions: Vec::new(), children: Vec::new() };
        assert(node.flat() =~= Seq::<PatchActionView>::empty());
        node
    }

    /// Adds an action after the node's own actions.
    pub fn add_action(&mut self, action: PatchAction)
        ensures
            final(self).actions@ == old(self).actions@.push(action),
            final(self).children == old(self).children,
            final(self).id == old(self).id,
            final(self).description == old(self).description,
    {
        self.actions.push(action);
    }

    /// Adds a child after the node's children.
    pub fn add_child(&mut self, child: PatchNode)
        ensures
            final(self).children@ == old(self).children@.push(child),
            final(self).actions == old(self).actions,
            final(self).id == old(self).id,
            final(self).description == old(self).description,
    {
        self.children.push(child);
    }

    /// Flattens the tree into the list of actions to execute.
    pub fn flatten(&self) -> (all: Vec<PatchAction>)
        ensures
            all.deep_view() == self.flat(),
        decreases self,
    {
        let mut all: Vec<PatchAction> = Vec::new();
        assert(all.deep_view() =~= Seq::<PatchActionView>::empty());
        append_copies(&mut all, &self.actions);
        assert(all.deep_view() =~= self.actions.deep_view());
        let mut c: usize = 0;
        while c < self.children.len()
            invariant
                c <= self.children.len(),
                all.deep_view() + flat_children(self.children@, c as int) == self.flat(),
            decreases self.children.len() - c,
        {
            let ghost before = all.deep_view();
            let sub = self.children[c].flatten();
            append_copies(&mut all, &sub);
            assert(before + self.children@[c as int].flat() + flat_children(
                self.children@,
                c + 1,
            ) =~= before + flat_children(self.children@, c as int));
            c += 1;
        }
        assert(all.deep_view() + flat_children(self.children@, self.children.len() as int)
            =~= all.deep_view());
        all
    }
}

/// Placeholder for a router over several agents.
#[derive(Debug, Clone, Copy, PartialEq, Eq, Structural)]
pub struct MultiAgentRouter;

impl MultiAgentRouter {
    pub fn new() -> (router: MultiAgentRouter)
        ensures
            router == MultiAgentRouter,
    {
        MultiAgentRouter
    }
}

} // verus!
