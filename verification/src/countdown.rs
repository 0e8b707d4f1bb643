//! The bounded countdown: once started it paints on each completed interval
//! of a one-shot timer, for a fixed number of steps, and then stops.

use vstd::prelude::*;
use bevy::time::{Timer, TimerMode};
use crate::palette::{advanced, shown_color, CurrentMeshColor, MeshColor, OpIndex};
use crate::scene::{painted_roots, root_views, selected_in_roots, Painted, SceneRoot, Selector};
use crate::timer::{
    finished, new_timer, reset, tick, timer_duration, timer_elapsed, timer_finished, timer_mode,
    timer_paused,
};

verus! {

/// The wait between two steps of a countdown, in nanoseconds: a third of a
/// second, to the precision of a single-precision count of seconds.
pub const COUNTDOWN_PERIOD_NANOS: u64 = 333_333_343;

/// A run of `loop_count` timed steps.
#[derive(Debug)]
pub struct Countdown {
    /// One-shot timer of the current step.
    timer: Timer,
    /// Number of steps in a run.
    loop_count: u32,
    /// Steps of the current run that are done.
    current_count: u32,
    /// Whether a run is under way.
    is_active: bool,
}

/// What a `Countdown` stands for. Times are in nanoseconds.
pub struct CountdownView {
    pub is_active: bool,
    pub current_count: nat,
    pub loop_count: nat,
    /// Time counted towards the current step.
    pub elapsed: nat,
    /// Length of one step.
    pub period: nat,
}

impl CountdownView {
    /// What holds of every countdown: a run has at least one step of some
    /// length, never more steps are done than a run has, and while a run is
    /// under way a step is still to come.
    pub open spec fn wf(self) -> bool {
        &&& 1 <= self.loop_count
        &&& 1 <= self.period
        &&& self.current_count <= self.loop_count
        &&& self.is_active ==> self.current_count < self.loop_count
        &&& self.elapsed <= self.period
    }

    /// The countdown after a start signal. A countdown under way ignores the
    /// signal; an idle one begins a run at step zero with a fresh timer.
    pub open spec fn started(self) -> CountdownView {
        if self.is_active {
            self
        } else {
            CountdownView { is_active: true, current_count: 0, elapsed: 0, ..self }
        }
    }

    /// Whether a tick of `delta` completes the current step.
    pub open spec fn fires(self, delta: nat) -> bool {
        self.is_active && self.elapsed + delta >= self.period
    }

    /// The countdown after a tick of `delta`. An idle countdown stays as it
    /// is. One under way counts the time; when that completes the step, the
    /// step is counted and either the run ends, or the timer starts afresh.
    pub open spec fn ticked(self, delta: nat) -> CountdownView {
        if !self.is_active {
            self
        } else if !self.fires(delta) {
            CountdownView { elapsed: self.elapsed + delta, ..self }
        } else if self.current_count + 1 >= self.loop_count {
            CountdownView {
                is_active: false,
                current_count: self.current_count + 1,
                elapsed: self.period,
                ..self
            }
        } else {
            CountdownView { current_count: self.current_count + 1, elapsed: 0, ..self }
        }
    }

    /// The countdown after ticks of `deltas`, one after the other.
    pub open spec fn run(self, deltas: Seq<nat>) -> CountdownView
        decreases deltas.len(),
    {
        if deltas.len() == 0 {
            self
        } else {
            self.run(deltas.drop_last()).ticked(deltas.last())
        }
    }

    /// How many of the ticks `deltas` complete a step, and so paint.
    pub open spec fn firings(self, deltas: Seq<nat>) -> nat
        decreases deltas.len(),
    {
        if deltas.len() == 0 {
            0
        } else {
            let earlier = self.firings(deltas.drop_last());
            if self.run(deltas.drop_last()).fires(deltas.last()) {
                earlier + 1
            } else {
                earlier
            }
        }
    }
}

/// A start signal and a tick keep a countdown well formed.
pub proof fn lemma_steps_keep_wf(countdown: CountdownView, delta: nat)
    requires
        countdown.wf(),
    ensures
        countdown.started().wf(),
        countdown.ticked(delta).wf(),
{
}

/// A start signal that arrives while a run is under way changes nothing, so
/// the run goes on as if the signal had never come.
pub proof fn lemma_start_ignored_while_active(countdown: CountdownView, deltas: Seq<nat>)
    requires
        countdown.is_active,
    ensures
        countdown.started() == countdown,
        countdown.started().run(deltas) == countdown.run(deltas),
        countdown.started().firings(deltas) == countdown.firings(deltas),
{
}

/// An idle countdown stays idle whatever time passes, and paints nothing.
pub proof fn lemma_idle_stays_idle(countdown: CountdownView, deltas: Seq<nat>)
    requires
        !countdown.is_active,
    ensures
        countdown.run(deltas) == countdown,
        countdown.firings(deltas) == 0,
    decreases deltas.len(),
{
    if deltas.len() > 0 {
        lemma_idle_stays_idle(countdown, deltas.drop_last());
    }
}

/// Over any ticks, a run under way counts one step for each tick that
/// completes one, and is under way for as long as steps are left.
pub proof fn lemma_run_counts_firings(countdown: CountdownView, deltas: Seq<nat>)
    requires
        countdown.wf(),
        countdown.is_active,
    ensures
        countdown.run(deltas).wf(),
        countdown.run(deltas).loop_count == countdown.loop_count,
        countdown.run(deltas).period == countdown.period,
        countdown.run(deltas).current_count == countdown.current_count + countdown.firings(deltas),
        countdown.run(deltas).is_active <==> countdown.run(deltas).current_count
            < countdown.loop_count,
    decreases deltas.len(),
{
    if deltas.len() > 0 {
        lemma_run_counts_firings(countdown, deltas.drop_last());
    }
}

/// A countdown started from idle paints exactly `loop_count` times and is
/// then idle again: over any ticks it has painted as many times as steps are
/// counted, never more than `loop_count`, and it is under way exactly while
/// fewer than `loop_count` steps are done.
pub proof fn lemma_started_run_is_bounded(countdown: CountdownView, deltas: Seq<nat>)
    requires
        countdown.wf(),
        !countdown.is_active,
    ensures
        countdown.started().is_active,
        countdown.started().run(deltas).current_count == countdown.started().firings(deltas),
        countdown.started().firings(deltas) <= countdown.loop_count,
        countdown.started().run(deltas).is_active <==> countdown.started().firings(deltas)
            < countdown.loop_count,
{
    lemma_run_counts_firings(countdown.started(), deltas);
}

/// Where each tick is at least one period long, each tick of a run paints:
/// after `loop_count` such ticks from the start the run is complete, and
/// not before.
pub proof fn lemma_full_run(countdown: CountdownView, deltas: Seq<nat>)
    requires
        countdown.wf(),
        !countdown.is_active,
        deltas.len() <= countdown.loop_count,
        forall|k: int| 0 <= k < deltas.len() ==> deltas[k] >= countdown.period,
    ensures
        countdown.started().firings(deltas) == deltas.len(),
        countdown.started().run(deltas).is_active <==> deltas.len() < countdown.loop_count,
    decreases deltas.len(),
{
    lemma_run_counts_firings(countdown.started(), deltas);
    if deltas.len() > 0 {
        lemma_full_run(countdown, deltas.drop_last());
        lemma_run_counts_firings(countdown.started(), deltas.drop_last());
    }
}

impl View for Countdown {
    type V = CountdownView;

    closed spec fn view(&self) -> CountdownView {
        CountdownView {
            is_active: self.is_active,
            current_count: self.current_count as nat,
            loop_count: self.loop_count as nat,
            elapsed: timer_elapsed(self.timer),
            period: timer_duration(self.timer),
        }
    }
}

impl Countdown {
    /// The timer is a running one-shot timer whose finished flag says that
    /// the time counted has reached the interval, and the counts are those
    /// of a well-formed countdown.
    #[verifier::type_invariant]
    spec fn valid(self) -> bool {
        &&& timer_mode(self.timer) == TimerMode::Once
        &&& !timer_paused(self.timer)
        &&& timer_duration(self.timer) <= u64::MAX
        &&& timer_finished(self.timer) == (timer_elapsed(self.timer) >= timer_duration(self.timer))
        &&& self@.wf()
    }

    /// An idle countdown of one step more than the palette has colours, so
    /// that a run shows every colour and the frame beyond the palette.
    pub fn new() -> (countdown: Self)
        ensures
            countdown@ == (CountdownView {
                is_active: false,
                current_count: 0,
                loop_count: MeshColor::VARIANT_COUNT as nat + 1,
                elapsed: 0,
                period: COUNTDOWN_PERIOD_NANOS as nat,
            }),
    {
        Self {
            timer: new_timer(COUNTDOWN_PERIOD_NANOS, TimerMode::Once),
            loop_count: MeshColor::VARIANT_COUNT + 1,
            current_count: 0,
            is_active: false,
        }
    }

    /// Whether a run is under way.
    pub fn is_active(&self) -> (active: bool)
        ensures
            active == self@.is_active,
            self@.wf(),
    {
        proof {
            use_type_invariant(self);
        }
        self.is_active
    }

    /// Steps of the current run that are done.
    pub fn current_count(&self) -> (count: u32)
        ensures
            count == self@.current_count,
            self@.wf(),
    {
        proof {
            use_type_invariant(self);
        }
        self.current_count
    }

    /// Number of steps in a run.
    pub fn loop_count(&self) -> (count: u32)
        ensures
            count == self@.loop_count,
            self@.wf(),
    {
        proof {
            use_type_invariant(self);
        }
        self.loop_count
    }
}

impl Default for Countdown {
    fn default() -> (countdown: Self)
        ensures
            countdown@ == (CountdownView {
                is_active: false,
                current_count: 0,
                loop_count: MeshColor::VARIANT_COUNT as nat + 1,
                elapsed: 0,
                period: COUNTDOWN_PERIOD_NANOS as nat,
            }),
    {
        Self::new()
    }
}

/// The start signal. An idle countdown begins a run; one that is under way
/// is left exactly as it is.
pub fn update_screen_albedo(countdown: &mut Countdown)
    ensures
        final(countdown)@ == old(countdown)@.started(),
        final(countdown)@.wf(),
{
    proof {
        use_type_invariant(&*countdown);
    }
    if !countdown.is_active {
        countdown.current_count = 0;
        countdown.is_active = true;
        reset(&mut countdown.timer);
    }
}

/// One frame of the countdown, `delta_nanos` after the one before. While a
/// run is under way the timer counts the time. When that completes the step,
/// the colour under `op_index` is applied beneath every loaded root, the
/// index advances and the step is counted; after the last step the run ends,
/// before that the timer starts afresh. Returns what was painted, and `None`
/// on a frame that completes no step.
pub fn screen_albedo(
    delta_nanos: u64,
    countdown: &mut Countdown,
    roots: &mut Vec<SceneRoot>,
    selector: Selector,
    op_index: &mut OpIndex,
) -> (painted: Option<Painted>)
    ensures
        final(countdown)@ == old(countdown)@.ticked(delta_nanos as nat),
        final(countdown)@.wf(),
        old(countdown)@.fires(delta_nanos as nat) ==> {
            &&& painted matches Some(pass)
            &&& pass.color == shown_color(old(op_index)@)
            &&& pass.nodes@ == selected_in_roots(root_views(old(roots)@), selector)
            &&& root_views(final(roots)@) == painted_roots(
                root_views(old(roots)@),
                selector,
                shown_color(old(op_index)@),
            )
            &&& final(op_index)@ == advanced(old(op_index)@)
        },
        !old(countdown)@.fires(delta_nanos as nat) ==> {
            &&& painted is None
            &&& *final(roots) == *old(roots)
            &&& final(op_index)@ == old(op_index)@
        },
{
    proof {
        use_type_invariant(&*countdown);
    }
    if countdown.is_active {
        tick(&mut countdown.timer, delta_nanos);
        if finished(&countdown.timer) {
            let painted = CurrentMeshColor::update_gltf_material_color(roots, selector, op_index);
            op_index.advance();
            let next: u32 = countdown.current_count + 1;
            if next >= countdown.loop_count {
                countdown.is_active = false;
                countdown.current_count = next;
            } else {
                countdown.current_count = next;
                reset(&mut countdown.timer);
            }
            return Some(painted);
        }
    }
    None
}

} // verus!
