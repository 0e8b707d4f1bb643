//! The scene tree and the walk that recolours the selected nodes.

use vstd::prelude::*;
use crate::palette::{shown_color, CurrentMeshColor, MeshColor, OpIndex};

verus! {

/// A node of a loaded scene: its structural index, the base colour of its
/// material where it has one, and its children in order.
#[derive(Debug, PartialEq, Eq)]
pub struct Node {
    pub index: u32,
    pub base_color: Option<MeshColor>,
    pub children: Vec<Node>,
}

/// The mathematical tree a `Node` stands for.
pub struct NodeView {
    pub index: u32,
    pub base_color: Option<MeshColor>,
    pub children: Seq<NodeView>,
}

/// The tree `node` stands for.
pub open spec fn node_view(node: Node) -> NodeView
    decreases node,
{
    NodeView {
        index: node.index,
        base_color: node.base_color,
        children: views(node.children@),
    }
}

/// The trees a list of nodes stands for.
pub open spec fn views(nodes: Seq<Node>) -> Seq<NodeView>
    decreases nodes,
{
    Seq::new(
        nodes.len(),
        |i: int|
            if 0 <= i < nodes.len() {
                node_view(nodes[i])
            } else {
                arbitrary()
            },
    )
}

impl View for Node {
    type V = NodeView;

    open spec fn view(&self) -> NodeView {
        node_view(*self)
    }
}

/// The identity under which a scene was requested from the loader. A load's
/// completion event carries the same identity.
#[derive(Clone, Copy, Debug, PartialEq, Eq, Structural)]
pub enum LoadId {
    /// A slot of the loader's own storage.
    Index(u64),
    /// A fixed, globally unique identity.
    Uuid(u128),
}

/// A tracked root: the tree under it is recoloured once the load it waits
/// for has completed.
#[derive(Debug, PartialEq, Eq)]
pub struct SceneRoot {
    /// The load this root waits for.
    pub scene: LoadId,
    /// Whether that load has completed.
    pub loaded: bool,
    pub node: Node,
}

/// What a `SceneRoot` stands for.
pub struct SceneRootView {
    pub scene: LoadId,
    pub loaded: bool,
    pub node: NodeView,
}

impl View for SceneRoot {
    type V = SceneRootView;

    open spec fn view(&self) -> SceneRootView {
        SceneRootView { scene: self.scene, loaded: self.loaded, node: self.node@ }
    }
}

/// What a list of tracked roots stands for.
pub open spec fn root_views(roots: Seq<SceneRoot>) -> Seq<SceneRootView> {
    Seq::new(roots.len(), |i: int| roots[i]@)
}

/// The structural index of the calculator's screen in its scene. The loader
/// hands the indices out, so a scene exported anew can bring another.
pub const SCREEN_NODE_INDEX: u32 = 64;

/// Which nodes a walk recolours.
#[derive(Clone, Copy, Debug, PartialEq, Eq, Structural)]
pub enum Selector {
    /// Every node that has a material.
    HasMaterial,
    /// The node with this structural index, if it has a material.
    Index(u32),
}

impl Selector {
    /// Whether the walk recolours `node`: the node has a material, and the
    /// selector names it.
    pub open spec fn selects(self, node: NodeView) -> bool {
        node.base_color is Some && match self {
            Selector::HasMaterial => true,
            Selector::Index(index) => node.index == index,
        }
    }

    /// `selects` as a predicate on nodes.
    pub open spec fn as_predicate(self) -> spec_fn(NodeView) -> bool {
        |node: NodeView| self.selects(node)
    }

    /// Whether the walk recolours `node`.
    pub fn matches(&self, node: &Node) -> (selected: bool)
        ensures
            selected == self.selects(node@),
    {
        node.base_color.is_some() && match self {
            Selector::HasMaterial => true,
            Selector::Index(index) => node.index == *index,
        }
    }
}

/// `node` with `color` on every selected node of its tree, itself included.
pub open spec fn recolored(node: NodeView, selector: Selector, color: MeshColor) -> NodeView
    decreases node,
{
    NodeView {
        index: node.index,
        base_color: if selector.selects(node) {
            Some(color)
        } else {
            node.base_color
        },
        children: recolored_all(node.children, selector, color),
    }
}

/// Each of `nodes` recoloured.
pub open spec fn recolored_all(nodes: Seq<NodeView>, selector: Selector, color: MeshColor) -> Seq<
    NodeView,
>
    decreases nodes,
{
    Seq::new(
        nodes.len(),
        |i: int|
            if 0 <= i < nodes.len() {
                recolored(nodes[i], selector, color)
            } else {
                arbitrary()
            },
    )
}

/// `root` with `color` on every selected descendant; the root itself keeps
/// its colour.
pub open spec fn applied(root: NodeView, selector: Selector, color: MeshColor) -> NodeView {
    NodeView {
        index: root.index,
        base_color: root.base_color,
        children: recolored_all(root.children, selector, color),
    }
}

/// The indices of the selected nodes of `node`'s tree, itself included, in
/// depth-first pre-order.
pub open spec fn selected(node: NodeView, selector: Selector) -> Seq<u32>
    decreases node,
{
    let own = if selector.selects(node) {
        seq![node.index]
    } else {
        Seq::empty()
    };
    own + selected_all(node.children, selector)
}

/// The indices of the selected nodes of the trees `nodes`, tree after tree.
pub open spec fn selected_all(nodes: Seq<NodeView>, selector: Selector) -> Seq<u32>
    decreases nodes,
{
    if nodes.len() == 0 {
        Seq::empty()
    } else {
        selected_all(nodes.drop_last(), selector) + selected(nodes.last(), selector)
    }
}

/// Every node of the trees `nodes`, in depth-first pre-order: the order in
/// which the walk visits them.
pub open spec fn descendants(nodes: Seq<NodeView>) -> Seq<NodeView>
    decreases nodes,
{
    if nodes.len() == 0 {
        Seq::empty()
    } else {
        descendants(nodes.drop_last()) + seq![nodes.last()] + descendants(nodes.last().children)
    }
}

/// The nodes among `descendants(nodes)` that the selector selects.
pub open spec fn matching(nodes: Seq<NodeView>, selector: Selector) -> Seq<NodeView> {
    descendants(nodes).filter(selector.as_predicate())
}

/// The indices of `nodes`, node by node.
pub open spec fn indices(nodes: Seq<NodeView>) -> Seq<u32> {
    Seq::new(nodes.len(), |i: int| nodes[i].index)
}

/// A walk visits the same nodes after recolouring as before, in the same
/// order and with the same indices and numbers of children. Each node that
/// the selector selects has the new colour, and each other node has the
/// colour it had: of N selected and M other nodes, exactly the N change.
pub proof fn lemma_walk_recolors_selected(
    nodes: Seq<NodeView>,
    selector: Selector,
    color: MeshColor,
)
    ensures
        descendants(recolored_all(nodes, selector, color)).len() == descendants(nodes).len(),
        forall|k: int|
            0 <= k < descendants(nodes).len() ==> {
                let before = descendants(nodes)[k];
                let after = #[trigger] descendants(recolored_all(nodes, selector, color))[k];
                &&& after.index == before.index
                &&& after.children.len() == before.children.len()
                &&& after.base_color == if selector.selects(before) {
                    Some(color)
                } else {
                    before.base_color
                }
            },
    decreases nodes,
{
    if nodes.len() > 0 {
        let after = recolored_all(nodes, selector, color);
        let last = nodes.last();
        assert(after.drop_last() == recolored_all(nodes.drop_last(), selector, color));
        lemma_walk_recolors_selected(nodes.drop_last(), selector, color);
        lemma_walk_recolors_selected(last.children, selector, color);
    }
}

/// The indices that a walk reports are those of the selected nodes among
/// the ones it visits, in the order of the visit; so it paints as many nodes
/// as the selector selects.
pub proof fn lemma_painted_are_the_selected(nodes: Seq<NodeView>, selector: Selector)
    ensures
        selected_all(nodes, selector) == indices(matching(nodes, selector)),
        selected_all(nodes, selector).len() == matching(nodes, selector).len(),
    decreases nodes,
{
    let pred = selector.as_predicate();
    if nodes.len() == 0 {
        reveal(Seq::filter);
    } else {
        let last = nodes.last();
        lemma_painted_are_the_selected(nodes.drop_last(), selector);
        lemma_painted_are_the_selected(last.children, selector);
        let front = descendants(nodes.drop_last());
        let below = descendants(last.children);
        let own = if selector.selects(last) {
            seq![last]
        } else {
            Seq::empty()
        };
        Seq::filter_distributes_over_add(front, seq![last], pred);
        Seq::filter_distributes_over_add(front + seq![last], below, pred);
        assert(seq![last].filter(pred) =~= own) by {
            reveal(Seq::filter);
            assert(seq![last].drop_last().filter(pred) =~= Seq::<NodeView>::empty());
        }
        assert(selected(last, selector) =~= indices(own) + indices(below.filter(pred)));
    }
}

/// What one pass over the tracked roots did: the colour it applied and the
/// indices of the nodes it recoloured, in the order of the walk.
#[derive(Debug, PartialEq, Eq)]
pub struct Painted {
    pub color: MeshColor,
    pub nodes: Vec<u32>,
}

/// `roots` with `color` applied under every root whose load has completed;
/// the other roots are left as they are.
pub open spec fn painted_roots(
    roots: Seq<SceneRootView>,
    selector: Selector,
    color: MeshColor,
) -> Seq<SceneRootView> {
    Seq::new(
        roots.len(),
        |i: int|
            if roots[i].loaded {
                SceneRootView {
                    scene: roots[i].scene,
                    loaded: true,
                    node: applied(roots[i].node, selector, color),
                }
            } else {
                roots[i]
            },
    )
}

/// The indices of the nodes that a pass over `roots` recolours: the selected
/// descendants of each root whose load has completed, root after root.
pub open spec fn selected_in_roots(roots: Seq<SceneRootView>, selector: Selector) -> Seq<u32>
    decreases roots.len(),
{
    if roots.len() == 0 {
        Seq::empty()
    } else {
        let last = if roots.last().loaded {
            selected_all(roots.last().node.children, selector)
        } else {
            Seq::empty()
        };
        selected_in_roots(roots.drop_last(), selector) + last
    }
}

impl CurrentMeshColor {
    /// Applies the colour under `op_index` beneath every tracked root whose
    /// load has completed. Roots that are not ready are not touched. Returns
    /// that colour and the indices of the recoloured nodes in the order of
    /// the walk.
    pub fn update_gltf_material_color(
        roots: &mut Vec<SceneRoot>,
        selector: Selector,
        op_index: &OpIndex,
    ) -> (painted: Painted)
        ensures
            final(roots)@.len() == old(roots)@.len(),
            root_views(final(roots)@) == painted_roots(
                root_views(old(roots)@),
                selector,
                shown_color(op_index@),
            ),
            painted.color == shown_color(op_index@),
            painted.nodes@ == selected_in_roots(root_views(old(roots)@), selector),
    {
        let ghost before = root_views(old(roots)@);
        let color = CurrentMeshColor::update_current_mesh_color(op_index);
        let mut painted: Vec<u32> = Vec::new();
        let len = roots.len();
        let mut i: usize = 0;
        while i < len
            invariant
                roots@.len() == len,
                old(roots)@.len() == len,
                i <= len,
                before == root_views(old(roots)@),
                color == shown_color(op_index@),
                forall|j: int| i <= j < len ==> roots@[j] == old(roots)@[j],
                forall|j: int|
                    0 <= j < i ==> (#[trigger] roots@[j])@ == painted_roots(
                        before,
                        selector,
                        color,
                    )[j],
                painted@ == selected_in_roots(before.take(i as int), selector),
            decreases len - i,
        {
            let root = &mut roots[i];
            if root.loaded {
                Self::process_entity_children(
                    &mut root.node.children,
                    selector,
                    color,
                    &mut painted,
                );
            }
            proof {
                assert(before.take(i + 1).drop_last() == before.take(i as int));
            }
            i += 1;
        }
        proof {
            assert(before.take(len as int) == before);
        }
        Painted { color, nodes: painted }
    }

    /// Walks `children` depth-first in pre-order: each selected node gets
    /// `color` and has its index appended to `painted`; the walk then goes
    /// on into the node's own children, whether it was selected or not.
    pub fn process_entity_children(
        children: &mut Vec<Node>,
        selector: Selector,
        color: MeshColor,
        painted: &mut Vec<u32>,
    )
        ensures
            views(final(children)@) == recolored_all(views(old(children)@), selector, color),
            final(painted)@ == old(painted)@ + selected_all(views(old(children)@), selector),
        decreases *old(children),
    {
        let ghost before = views(old(children)@);
        let len = children.len();
        let mut i: usize = 0;
        while i < len
            invariant
                children@.len() == len,
                old(children)@.len() == len,
                i <= len,
                before == views(old(children)@),
                forall|j: int| i <= j < len ==> children@[j] == old(children)@[j],
                forall|j: int|
                    0 <= j < i ==> (#[trigger] children@[j])@ == recolored(
                        before[j],
                        selector,
                        color,
                    ),
                painted@ == old(painted)@ + selected_all(before.take(i as int), selector),
            decreases len - i,
        {
            let ghost seen = painted@;
            let child = &mut children[i];
            if selector.matches(child) {
                child.base_color = Some(color);
                painted.push(child.index);
            }
            assert(decreases_to!(*old(children) => old(children)@));
            assert(decreases_to!(old(children)@ => old(children)@[i as int]));
            assert(decreases_to!(old(children)@[i as int] => old(children)@[i as int].children));
            Self::process_entity_children(&mut child.children, selector, color, painted);
            proof {
                assert(before.take(i + 1).drop_last() == before.take(i as int));
                assert(painted@ == seen + selected(before[i as int], selector));
            }
            i += 1;
        }
        proof {
            assert(before.take(len as int) == before);
        }
    }
}

/// Recolours the descendants of `root`: each selected descendant gets
/// `color`. The root itself is left as it is. Returns the indices of the
/// recoloured nodes in the order of the walk.
pub fn apply_color(root: &mut Node, selector: Selector, color: MeshColor) -> (painted: Vec<u32>)
    ensures
        final(root)@ == applied(old(root)@, selector, color),
        painted@ == selected_all(old(root)@.children, selector),
{
    let mut painted: Vec<u32> = Vec::new();
    CurrentMeshColor::process_entity_children(&mut root.children, selector, color, &mut painted);
    painted
}

} // verus!
