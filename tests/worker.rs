use autoscroll::overlay::{overlay_command, OverlayCommand};
use autoscroll::scroll::{Pacing, ScrollConfig};
use autoscroll::state::{ScrollState, ToggleEvent};
use autoscroll::trigger::{sample_trigger, MouseSample};
use autoscroll::worker::{Step, Worker, POLL_MS};

fn sample(left: bool, middle: bool, right: bool, x: i32, y: i32) -> MouseSample {
    MouseSample { left, middle, right, x, y }
}

fn middle(x: i32, y: i32) -> MouseSample {
    sample(false, true, false, x, y)
}

fn none(x: i32, y: i32) -> MouseSample {
    sample(false, false, false, x, y)
}

fn worker() -> Worker {
    Worker::new(ScrollConfig::new_default(), Pacing::new_default())
}

fn toggles(w: &mut Worker, samples: &[MouseSample]) -> Vec<ToggleEvent> {
    samples.iter().filter_map(|s| w.step(*s).toggle).collect()
}

#[test]
fn held_press_toggles_once_on_release() {
    let mut w = worker();
    let mut samples: Vec<MouseSample> = (0..100).map(|i| middle(i, i)).collect();
    samples.push(none(300, 400));
    let t = toggles(&mut w, &samples);
    assert_eq!(t, vec![ToggleEvent::Show { x: 300, y: 400 }]);
    assert!(w.state.scroll_mode());
    assert_eq!(w.state.anchor(), Some((300, 400)));
}

#[test]
fn nothing_is_sent_while_the_button_is_held() {
    let mut w = worker();
    for i in 0..50 {
        let st = w.step(middle(i, i));
        assert_eq!(st, Step { toggle: None, scroll: None, sleep_ms: POLL_MS });
    }
    assert!(!w.state.scroll_mode());
}

#[test]
fn show_then_hide_in_order() {
    let mut w = worker();
    let samples = vec![
        middle(1, 1),
        none(10, 20),
        middle(10, 20),
        middle(11, 20),
        none(12, 22),
    ];
    let t = toggles(&mut w, &samples);
    assert_eq!(t, vec![ToggleEvent::Show { x: 10, y: 20 }, ToggleEvent::Hide]);
    assert!(!w.state.scroll_mode());
    assert_eq!(w.state.anchor(), None);
}

#[test]
fn left_or_right_click_leaves_scroll_mode() {
    let mut w = worker();
    toggles(&mut w, &[middle(0, 0), none(5, 5)]);
    assert!(w.state.scroll_mode());
    let t = toggles(&mut w, &[sample(true, false, false, 5, 5), none(5, 5)]);
    assert_eq!(t, vec![ToggleEvent::Hide]);
    let t = toggles(&mut w, &[middle(0, 0), none(6, 6)]);
    assert_eq!(t, vec![ToggleEvent::Show { x: 6, y: 6 }]);
    let t = toggles(&mut w, &[sample(false, false, true, 5, 5), none(5, 5)]);
    assert_eq!(t, vec![ToggleEvent::Hide]);
}

#[test]
fn left_click_while_idle_is_ignored() {
    let mut w = worker();
    let st = w.step(sample(true, false, true, 1, 1));
    assert_eq!(st, Step { toggle: None, scroll: None, sleep_ms: POLL_MS });
    assert!(!w.awaiting_release);
}

#[test]
fn scrolling_emits_amount_and_pause() {
    let mut w = worker();
    toggles(&mut w, &[middle(0, 0), none(100, 300)]);
    assert_eq!(w.step(none(100, 100)), Step { toggle: None, scroll: Some(12), sleep_ms: 15 });
    assert_eq!(w.step(none(100, 800)), Step { toggle: None, scroll: Some(-32), sleep_ms: 7 });
    assert_eq!(w.step(none(100, 280)), Step { toggle: None, scroll: None, sleep_ms: 20 });
    assert_eq!(w.step(none(100, 290)), Step { toggle: None, scroll: None, sleep_ms: 20 });
}

#[test]
fn idle_polls_at_fixed_interval() {
    let mut w = worker();
    assert_eq!(w.step(none(0, 0)).sleep_ms, 50);
}

#[test]
fn state_toggle_keeps_anchor_with_mode() {
    let mut s = ScrollState::new();
    assert!(!s.scroll_mode());
    assert_eq!(s.toggle(3, 4), ToggleEvent::Show { x: 3, y: 4 });
    assert_eq!(s.anchor(), Some((3, 4)));
    assert_eq!(s.toggle(9, 9), ToggleEvent::Hide);
    assert_eq!(s.anchor(), None);
}

#[test]
fn trigger_rules() {
    assert!(sample_trigger(&middle(0, 0), false));
    assert!(sample_trigger(&middle(0, 0), true));
    assert!(!sample_trigger(&sample(true, false, true, 0, 0), false));
    assert!(sample_trigger(&sample(true, false, false, 0, 0), true));
    assert!(sample_trigger(&sample(false, false, true, 0, 0), true));
    assert!(!sample_trigger(&none(0, 0), true));
}

#[test]
fn buttons_from_table() {
    let s = MouseSample::from_buttons(&vec![false, false, true, false, false], 7, 8);
    assert_eq!(s, middle(7, 8));
    let s = MouseSample::from_buttons(&vec![false, true], 1, 2);
    assert_eq!(s, sample(true, false, false, 1, 2));
    let s = MouseSample::from_buttons(&vec![], 1, 2);
    assert_eq!(s, none(1, 2));
}

#[test]
fn overlay_reactions() {
    let show = ToggleEvent::Show { x: 5, y: 6 };
    assert_eq!(overlay_command(false, show), OverlayCommand::Create { x: 5, y: 6 });
    assert_eq!(overlay_command(true, show), OverlayCommand::MoveAndShow { x: 5, y: 6 });
    assert_eq!(overlay_command(true, ToggleEvent::Hide), OverlayCommand::Hide);
    assert_eq!(overlay_command(false, ToggleEvent::Hide), OverlayCommand::Nothing);
}
