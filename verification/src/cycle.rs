//! The continuous cycle: a repeating timer that, each time it completes an
//! interval, moves the palette index on and paints with the new colour.

use vstd::prelude::*;
use bevy::time::{Timer, TimerMode};
use crate::palette::{advanced, shown_color, CurrentMeshColor, OpIndex};
use crate::scene::{painted_roots, root_views, selected_in_roots, Painted, SceneRoot, Selector};
use crate::timer::{
    finished, new_timer, tick, timer_duration, timer_elapsed, timer_mode, timer_paused,
};

verus! {

/// The interval of the continuous cycle, in nanoseconds: a quarter of a
/// second.
pub const CYCLE_PERIOD_NANOS: u64 = 250_000_000;

/// The continuous cycle. It has no start and no stop: it runs from the
/// moment it is made.
#[derive(Debug)]
pub struct Cycle {
    /// Repeating timer of the interval.
    timer: Timer,
}

/// What a `Cycle` stands for. Times are in nanoseconds.
pub struct CycleView {
    /// Time counted towards the end of the current interval.
    pub elapsed: nat,
    /// Length of the interval.
    pub period: nat,
}

impl CycleView {
    /// What holds of every cycle: the interval has some length, and the time
    /// counted lies within it.
    pub open spec fn wf(self) -> bool {
        1 <= self.period && self.elapsed < self.period
    }

    /// Whether a tick of `delta` completes the interval.
    pub open spec fn fires(self, delta: nat) -> bool {
        self.elapsed + delta >= self.period
    }

    /// The cycle after a tick of `delta`: the time is counted, and when it
    /// completes the interval the whole intervals are taken off it again.
    pub open spec fn ticked(self, delta: nat) -> CycleView {
        CycleView {
            elapsed: if self.fires(delta) {
                (self.elapsed + delta) % self.period
            } else {
                self.elapsed + delta
            },
            period: self.period,
        }
    }
}

impl View for Cycle {
    type V = CycleView;

    closed spec fn view(&self) -> CycleView {
        CycleView { elapsed: timer_elapsed(self.timer), period: timer_duration(self.timer) }
    }
}

impl Cycle {
    /// The timer is a running repeating timer that has counted less than
    /// its interval.
    #[verifier::type_invariant]
    spec fn valid(self) -> bool {
        &&& timer_mode(self.timer) == TimerMode::Repeating
        &&& !timer_paused(self.timer)
        &&& timer_duration(self.timer) <= u64::MAX
        &&& self@.wf()
    }

    /// A cycle at the start of its first interval.
    pub fn new() -> (cycle: Self)
        ensures
            cycle@ == (CycleView { elapsed: 0, period: CYCLE_PERIOD_NANOS as nat }),
    {
        Self { timer: new_timer(CYCLE_PERIOD_NANOS, TimerMode::Repeating) }
    }
}

/// One frame of the continuous cycle, `delta_nanos` after the one before.
/// The timer counts the time. When that completes the interval, the index
/// advances and the colour then under it is applied beneath every loaded
/// root. Returns what was painted, and `None` on a frame that completes no
/// interval.
pub fn cycle_albedo(
    delta_nanos: u64,
    cycle: &mut Cycle,
    roots: &mut Vec<SceneRoot>,
    selector: Selector,
    op_index: &mut OpIndex,
) -> (painted: Option<Painted>)
    ensures
        final(cycle)@ == old(cycle)@.ticked(delta_nanos as nat),
        final(cycle)@.wf(),
        old(cycle)@.fires(delta_nanos as nat) ==> {
            &&& painted matches Some(pass)
            &&& final(op_index)@ == advanced(old(op_index)@)
            &&& pass.color == shown_color(final(op_index)@)
            &&& pass.nodes@ == selected_in_roots(root_views(old(roots)@), selector)
            &&& root_views(final(roots)@) == painted_roots(
                root_views(old(roots)@),
                selector,
                shown_color(final(op_index)@),
            )
        },
        !old(cycle)@.fires(delta_nanos as nat) ==> {
            &&& painted is None
            &&& *final(roots) == *old(roots)
            &&& final(op_index)@ == old(op_index)@
        },
{
    proof {
        use_type_invariant(&*cycle);
    }
    tick(&mut cycle.timer, delta_nanos);
    if finished(&cycle.timer) {
        op_index.advance();
        let painted = CurrentMeshColor::update_gltf_material_color(roots, selector, op_index);
        Some(painted)
    } else {
        None
    }
}

} // verus!
