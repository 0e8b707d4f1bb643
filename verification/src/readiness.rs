//! The readiness gate: a tracked root becomes ready when the loader reports
//! that the scene it waits for has been added, and stays ready.

use vstd::prelude::*;
use crate::palette::MeshColor;
use crate::scene::{
    applied, painted_roots, root_views, selected_all, selected_in_roots, LoadId, SceneRoot,
    SceneRootView, Selector,
};

verus! {

/// What the loader reports of an asset.
#[derive(Clone, Copy, Debug, PartialEq, Eq, Structural)]
pub enum LoadEvent {
    /// The asset has finished loading and was added.
    Added { id: LoadId },
    Modified { id: LoadId },
    Removed { id: LoadId },
    Unused { id: LoadId },
    LoadedWithDependencies { id: LoadId },
}

/// Whether `events` report that the load `id` has completed.
pub open spec fn announced(events: Seq<LoadEvent>, id: LoadId) -> bool {
    exists|k: int| 0 <= k < events.len() && events[k] == (LoadEvent::Added { id })
}

/// `roots` after `events`: a root is ready if it was ready before or the
/// events report its load; nothing else about it changes.
pub open spec fn gated(roots: Seq<SceneRootView>, events: Seq<LoadEvent>) -> Seq<SceneRootView> {
    Seq::new(
        roots.len(),
        |i: int|
            SceneRootView {
                scene: roots[i].scene,
                loaded: roots[i].loaded || announced(events, roots[i].scene),
                node: roots[i].node,
            },
    )
}

/// Readiness only grows: a root that was ready is ready after any events,
/// and the same events a second time change nothing more.
pub proof fn lemma_readiness_only_grows(roots: Seq<SceneRootView>, events: Seq<LoadEvent>)
    ensures
        gated(roots, events).len() == roots.len(),
        forall|i: int|
            0 <= i < roots.len() && roots[i].loaded ==> (#[trigger] gated(roots, events)[i]).loaded,
        gated(gated(roots, events), events) == gated(roots, events),
{
}

/// While no tracked root is ready a pass paints nothing: every root stays
/// as it is and no node is reported.
pub proof fn lemma_unready_pass_is_a_no_op(
    roots: Seq<SceneRootView>,
    selector: Selector,
    color: MeshColor,
)
    requires
        forall|i: int| 0 <= i < roots.len() ==> !(#[trigger] roots[i]).loaded,
    ensures
        painted_roots(roots, selector, color) == roots,
        selected_in_roots(roots, selector) == Seq::<u32>::empty(),
    decreases roots.len(),
{
    if roots.len() > 0 {
        lemma_unready_pass_is_a_no_op(roots.drop_last(), selector, color);
    }
}

/// Once the events report a root's load, the same pass paints under it: the
/// root is ready, each selected descendant gets the colour, and the pass
/// reports exactly those descendants.
pub proof fn lemma_ready_pass_paints(
    root: SceneRootView,
    events: Seq<LoadEvent>,
    selector: Selector,
    color: MeshColor,
)
    requires
        announced(events, root.scene),
    ensures
        gated(seq![root], events)[0].loaded,
        painted_roots(gated(seq![root], events), selector, color)[0].node == applied(
            root.node,
            selector,
            color,
        ),
        selected_in_roots(gated(seq![root], events), selector) == selected_all(
            root.node.children,
            selector,
        ),
{
    let ready = gated(seq![root], events);
    assert(selected_in_roots(ready.drop_last(), selector) == Seq::<u32>::empty());
}

/// The first `k + 1` events report a load exactly if the first `k` do or
/// the event after them does.
proof fn lemma_announced_by_one_more(events: Seq<LoadEvent>, k: int, id: LoadId)
    requires
        0 <= k < events.len(),
    ensures
        announced(events.take(k + 1), id) == (announced(events.take(k), id) || events[k] == (
            LoadEvent::Added { id })),
{
    let seen = events.take(k);
    let next = events.take(k + 1);
    if announced(seen, id) {
        let w = choose|w: int| 0 <= w < seen.len() && seen[w] == (LoadEvent::Added { id });
        assert(next[w] == seen[w]);
    }
    if events[k] == (LoadEvent::Added { id }) {
        assert(next[k] == events[k]);
    }
    if announced(next, id) {
        let w = choose|w: int| 0 <= w < next.len() && next[w] == (LoadEvent::Added { id });
        if w < k {
            assert(seen[w] == next[w]);
        }
    }
}

/// Marks as loaded every tracked root whose load one of `events` reports as
/// added. Other events, and events of other loads, change nothing.
pub fn handle_asset_events(events: &Vec<LoadEvent>, roots: &mut Vec<SceneRoot>)
    ensures
        final(roots)@.len() == old(roots)@.len(),
        root_views(final(roots)@) == gated(root_views(old(roots)@), events@),
{
    let ghost before = root_views(old(roots)@);
    let n_events = events.len();
    let n_roots = roots.len();
    let mut k: usize = 0;
    while k < n_events
        invariant
            k <= n_events,
            n_events == events@.len(),
            n_roots == roots@.len(),
            before == root_views(old(roots)@),
            root_views(roots@) == gated(before, events@.take(k as int)),
        decreases n_events - k,
    {
        let ghost at_event = root_views(roots@);
        if let LoadEvent::Added { id } = events[k] {
            let mut i: usize = 0;
            while i < n_roots
                invariant
                    i <= n_roots,
                    n_roots == roots@.len(),
                    at_event.len() == n_roots,
                    forall|j: int| i <= j < n_roots ==> (#[trigger] roots@[j])@ == at_event[j],
                    forall|j: int|
                        0 <= j < i ==> (#[trigger] roots@[j])@ == (SceneRootView {
                            scene: at_event[j].scene,
                            loaded: at_event[j].loaded || at_event[j].scene == id,
                            node: at_event[j].node,
                        }),
                decreases n_roots - i,
            {
                let root = &mut roots[i];
                if id == root.scene {
                    root.loaded = true;
                }
                i += 1;
            }
        }
        proof {
            assert forall|id: LoadId|
                announced(events@.take(k + 1), id) == (#[trigger] announced(
                    events@.take(k as int),
                    id,
                ) || events@[k as int] == (LoadEvent::Added { id })) by {
                lemma_announced_by_one_more(events@, k as int, id);
            }
        }
        k += 1;
    }
    proof {
        assert(events@.take(n_events as int) == events@);
    }
}

} // verus!
