//! The decisions of the sampling loop. The loop itself reads the mouse, hands
//! each sample to [`Worker::step`], and carries out what comes back: sends
//! the toggle message, emits the scroll, and sleeps.
use vstd::prelude::*;
use crate::scroll::{compute_scroll, ScrollConfig, Pacing, amount_of, delay_of, scaled_of, delta_of, in_dead_zone};
use crate::state::{ScrollState, ToggleEvent, event_for};
use crate::trigger::{MouseSample, is_trigger, is_released, sample_trigger};

verus! {

/// Interval between samples while idle or while a toggle button is held.
pub const POLL_MS: u64 = 50;

/// What the loop does after one sample.
#[derive(Clone, Copy, Debug, PartialEq, Eq, Structural)]
pub struct Step {
    /// A completed toggle, to announce (sent before anything else).
    pub toggle: Option<ToggleEvent>,
    /// A vertical scroll to emit.
    pub scroll: Option<i32>,
    /// How long to sleep before the next sample.
    pub sleep_ms: u64,
}

/// The worker's state as the contracts see it.
pub struct WorkerView {
    pub scroll_mode: bool,
    pub anchor: Option<(i32, i32)>,
    pub awaiting_release: bool,
}

pub struct Worker {
    pub config: ScrollConfig,
    pub pacing: Pacing,
    pub state: ScrollState,
    /// A toggle button went down and has not been released yet.
    pub awaiting_release: bool,
}

/// Mode and anchor agree.
pub open spec fn view_wf(v: WorkerView) -> bool {
    v.scroll_mode == (v.anchor is Some)
}

/// One step of the loop on the sample `s`: the next state and what to do.
pub open spec fn step_spec(cfg: ScrollConfig, p: Pacing, v: WorkerView, s: MouseSample) -> (
    WorkerView,
    Step,
) {
    let trig = is_trigger(s, v.scroll_mode);
    if v.awaiting_release {
        if trig {
            (v, Step { toggle: None, scroll: None, sleep_ms: POLL_MS })
        } else {
            let on = !v.scroll_mode;
            (
                WorkerView {
                    scroll_mode: on,
                    anchor: if on {
                        Some((s.x, s.y))
                    } else {
                        None
                    },
                    awaiting_release: false,
                },
                Step { toggle: Some(event_for(on, s.x, s.y)), scroll: None, sleep_ms: 0 },
            )
        }
    } else if trig {
        (
            WorkerView { awaiting_release: true, ..v },
            Step { toggle: None, scroll: None, sleep_ms: POLL_MS },
        )
    } else if v.scroll_mode {
        let d = delta_of(v.anchor.unwrap().1 as int, s.y as int);
        if in_dead_zone(cfg, d) {
            (v, Step { toggle: None, scroll: None, sleep_ms: p.delay_max })
        } else {
            let a = amount_of(cfg, d);
            (
                v,
                Step {
                    toggle: None,
                    scroll: if a != 0 {
                        Some(a as i32)
                    } else {
                        None
                    },
                    sleep_ms: delay_of(scaled_of(cfg, d), cfg.max_scroll_power as int, p) as u64,
                },
            )
        }
    } else {
        (v, Step { toggle: None, scroll: None, sleep_ms: POLL_MS })
    }
}

/// The toggle messages of a run, in order.
pub open spec fn toggles_of(t: Option<ToggleEvent>) -> Seq<ToggleEvent> {
    match t {
        Some(e) => seq![e],
        None => Seq::empty(),
    }
}

/// Runs the steps over a sequence of samples: the final state and every
/// toggle message sent, in the order sent.
pub open spec fn run_spec(cfg: ScrollConfig, p: Pacing, v: WorkerView, ss: Seq<MouseSample>) -> (
    WorkerView,
    Seq<ToggleEvent>,
)
    decreases ss.len(),
{
    if ss.len() == 0 {
        (v, Seq::empty())
    } else {
        let (v1, t1) = run_spec(cfg, p, v, ss.drop_last());
        let (v2, st) = step_spec(cfg, p, v1, ss.last());
        (v2, t1 + toggles_of(st.toggle))
    }
}

impl View for Worker {
    type V = WorkerView;

    open spec fn view(&self) -> WorkerView {
        WorkerView {
            scroll_mode: self.state@.scroll_mode,
            anchor: self.state@.anchor,
            awaiting_release: self.awaiting_release,
        }
    }
}

impl Worker {
    pub open spec fn wf(&self) -> bool {
        &&& self.config.wf()
        &&& self.pacing.wf()
        &&& self.state.wf()
    }

    /// A worker in the idle state.
    pub fn new(config: ScrollConfig, pacing: Pacing) -> (r: Worker)
        requires
            config.wf(),
            pacing.wf(),
        ensures
            r.wf(),
            r.config == config,
            r.pacing == pacing,
            !r@.scroll_mode,
            r@.anchor is None,
            !r@.awaiting_release,
    {
        Worker { config, pacing, state: ScrollState::new(), awaiting_release: false }
    }

    /// Handles one mouse sample. A press of a toggle button is only noted;
    /// the toggle happens on the first sample after its release, anchored at
    /// that sample. While scrolling, a cursor inside the dead zone waits
    /// `delay_max` before the next sample.
    pub fn step(&mut self, s: MouseSample) -> (r: Step)
        requires
            old(self).wf(),
        ensures
            final(self).wf(),
            final(self).config == old(self).config,
            final(self).pacing == old(self).pacing,
            (final(self)@, r) == step_spec(old(self).config, old(self).pacing, old(self)@, s),
    {
        let mode = self.state.scroll_mode();
        let trig = sample_trigger(&s, mode);
        if self.awaiting_release {
            if trig {
                Step { toggle: None, scroll: None, sleep_ms: POLL_MS }
            } else {
                let ev = self.state.toggle(s.x, s.y);
                self.awaiting_release = false;
                Step { toggle: Some(ev), scroll: None, sleep_ms: 0 }
            }
        } else if trig {
            self.awaiting_release = true;
            Step { toggle: None, scroll: None, sleep_ms: POLL_MS }
        } else if mode {
            let anchor = self.state.anchor();
            let anchor_y = match anchor {
                Some(a) => a.1,
                None => s.y,
            };
            match compute_scroll(&self.config, self.pacing, anchor_y, s.y) {
                None => Step { toggle: None, scroll: None, sleep_ms: self.pacing.delay_max },
                Some(c) => Step {
                    toggle: None,
                    scroll: if c.amount != 0 {
                        Some(c.amount)
                    } else {
                        None
                    },
                    sleep_ms: c.delay_ms,
                },
            }
        } else {
            Step { toggle: None, scroll: None, sleep_ms: POLL_MS }
        }
    }
}

/// A step keeps mode and anchor in agreement; turning the mode on anchors at
/// the sample's coordinates, turning it off drops the anchor, and the mode
/// changes only together with a toggle message that announces it.
pub proof fn lemma_anchor_follows_mode(cfg: ScrollConfig, p: Pacing, v: WorkerView, s: MouseSample)
    requires
        view_wf(v),
    ensures
        ({
            let (v2, st) = step_spec(cfg, p, v, s);
            &&& view_wf(v2)
            &&& (!v.scroll_mode && v2.scroll_mode) ==> v2.anchor == Some((s.x, s.y))
            &&& (v.scroll_mode && !v2.scroll_mode) ==> v2.anchor is None
            &&& (v2.scroll_mode != v.scroll_mode) <==> st.toggle is Some
            &&& st.toggle is Some ==> st.toggle == Some(event_for(v2.scroll_mode, s.x, s.y))
            &&& v2.scroll_mode == v.scroll_mode ==> v2.anchor == v.anchor
        }),
{
}

/// Running over `a + b` is running over `a`, then over `b` from where `a` left.
pub proof fn lemma_run_append(
    cfg: ScrollConfig,
    p: Pacing,
    v: WorkerView,
    a: Seq<MouseSample>,
    b: Seq<MouseSample>,
)
    ensures
        ({
            let (va, ta) = run_spec(cfg, p, v, a);
            let (vb, tb) = run_spec(cfg, p, va, b);
            run_spec(cfg, p, v, a + b) == (vb, ta + tb)
        }),
    decreases b.len(),
{
    if b.len() == 0 {
        assert(a + b =~= a);
        let (va, ta) = run_spec(cfg, p, v, a);
        assert(ta + Seq::<ToggleEvent>::empty() =~= ta);
    } else {
        lemma_run_append(cfg, p, v, a, b.drop_last());
        assert((a + b).drop_last() =~= a + b.drop_last());
        assert((a + b).last() == b.last());
        let (va, ta) = run_spec(cfg, p, v, a);
        let (vb1, tb1) = run_spec(cfg, p, va, b.drop_last());
        let (v2, st) = step_spec(cfg, p, vb1, b.last());
        assert(ta + tb1 + toggles_of(st.toggle) =~= ta + (tb1 + toggles_of(st.toggle)));
    }
}

/// While the middle button stays down, however many samples see it, the
/// worker waits for the release and sends nothing.
pub proof fn lemma_held_press(cfg: ScrollConfig, p: Pacing, v: WorkerView, presses: Seq<MouseSample>)
    requires
        !v.awaiting_release,
        presses.len() >= 1,
        forall|i: int| 0 <= i < presses.len() ==> (#[trigger] presses[i]).middle,
    ensures
        run_spec(cfg, p, v, presses) == (WorkerView { awaiting_release: true, ..v }, Seq::<
            ToggleEvent,
        >::empty()),
    decreases presses.len(),
{
    assert(presses[presses.len() - 1].middle);
    if presses.len() > 1 {
        assert forall|i: int| 0 <= i < presses.drop_last().len() implies (
        #[trigger] presses.drop_last()[i]).middle by {
            assert(presses.drop_last()[i] == presses[i]);
        }
        lemma_held_press(cfg, p, v, presses.drop_last());
        let w = WorkerView { awaiting_release: true, ..v };
        assert(run_spec(cfg, p, v, presses.drop_last()).0 == w);
        assert(step_spec(cfg, p, w, presses.last()).0 == w);
        assert(step_spec(cfg, p, w, presses.last()).1.toggle is None);
        assert(Seq::<ToggleEvent>::empty() + Seq::<ToggleEvent>::empty() =~= Seq::<
            ToggleEvent,
        >::empty());
    } else {
        assert(presses.drop_last() =~= Seq::<MouseSample>::empty());
        assert(Seq::<ToggleEvent>::empty() + Seq::<ToggleEvent>::empty() =~= Seq::<
            ToggleEvent,
        >::empty());
    }
}

/// A middle-button press held over any number of samples and then released
/// flips the mode exactly once: one toggle message, sent on the release, with
/// the anchor at the release coordinates when the mode turns on.
pub proof fn lemma_press_release_toggles_once(
    cfg: ScrollConfig,
    p: Pacing,
    v: WorkerView,
    presses: Seq<MouseSample>,
    release: MouseSample,
)
    requires
        view_wf(v),
        !v.awaiting_release,
        presses.len() >= 1,
        forall|i: int| 0 <= i < presses.len() ==> (#[trigger] presses[i]).middle,
        is_released(release),
    ensures
        ({
            let (v2, ts) = run_spec(cfg, p, v, presses.push(release));
            &&& v2.scroll_mode == !v.scroll_mode
            &&& !v2.awaiting_release
            &&& view_wf(v2)
            &&& v2.anchor == (if v2.scroll_mode {
                Some((release.x, release.y))
            } else {
                None
            })
            &&& ts == seq![event_for(v2.scroll_mode, release.x, release.y)]
        }),
{
    lemma_held_press(cfg, p, v, presses);
    assert(presses.push(release).drop_last() =~= presses);
    let (v2, ts) = run_spec(cfg, p, v, presses.push(release));
    assert(ts =~= seq![event_for(v2.scroll_mode, release.x, release.y)]);
}

/// Turning the mode on and off again with two press-and-release gestures
/// sends exactly a show message, at the first release, and then a hide.
pub proof fn lemma_show_then_hide(
    cfg: ScrollConfig,
    p: Pacing,
    v: WorkerView,
    presses1: Seq<MouseSample>,
    release1: MouseSample,
    presses2: Seq<MouseSample>,
    release2: MouseSample,
)
    requires
        !v.scroll_mode,
        v.anchor is None,
        !v.awaiting_release,
        presses1.len() >= 1,
        presses2.len() >= 1,
        forall|i: int| 0 <= i < presses1.len() ==> (#[trigger] presses1[i]).middle,
        forall|i: int| 0 <= i < presses2.len() ==> (#[trigger] presses2[i]).middle,
        is_released(release1),
        is_released(release2),
    ensures
        ({
            let (v2, ts) = run_spec(cfg, p, v, presses1.push(release1) + presses2.push(release2));
            &&& !v2.scroll_mode
            &&& v2.anchor is None
            &&& ts == seq![ToggleEvent::Show { x: release1.x, y: release1.y }, ToggleEvent::Hide]
        }),
{
    lemma_run_append(cfg, p, v, presses1.push(release1), presses2.push(release2));
    lemma_press_release_toggles_once(cfg, p, v, presses1, release1);
    let (va, ta) = run_spec(cfg, p, v, presses1.push(release1));
    lemma_press_release_toggles_once(cfg, p, va, presses2, release2);
    let (vb, tb) = run_spec(cfg, p, va, presses2.push(release2));
    assert(ta + tb =~= seq![ToggleEvent::Show { x: release1.x, y: release1.y }, ToggleEvent::Hide]);
}

} // verus!
