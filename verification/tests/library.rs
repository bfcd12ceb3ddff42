use three_body::autozoom::{auto_zoom_action, auto_zoom_step, ZoomAction, SCALE_MAX, SCALE_MIN};
use three_body::collision::CollisionDetect;
use three_body::config::default_config_file;
use three_body::control::{step_plan, AppState};
use three_body::depth::sort_by_depth;
use three_body::pairs::pair_indices;
use three_body::registry::{find_body_index, IterStatus};
use three_body::status::{Components, OnOffStatus, UIStatus};

#[test]
fn switch_starts_on() {
    let s = OnOffStatus::default();
    assert!(s.is_on());
}

#[test]
fn toggle_flips_and_reports_the_new_position() {
    let mut s = OnOffStatus::default();
    let r = s.toggle();
    assert_eq!(r, OnOffStatus::Off);
    assert!(!s.is_on());
}

#[test]
fn toggle_twice_returns_to_the_start() {
    let mut s = OnOffStatus::default();
    s.toggle();
    s.toggle();
    assert!(s.is_on());
    assert_eq!(s, OnOffStatus::default());
}

#[test]
fn ui_status_toggles_only_the_named_component() {
    let mut ui = UIStatus::default();
    let all = [
        Components::Tooltip,
        Components::UI,
        Components::Help,
        Components::Axis,
        Components::Bodies,
        Components::Message,
        Components::Trail,
    ];
    for c in all {
        assert!(ui.is_on(c));
    }
    let r = ui.toggle(Components::Help);
    assert_eq!(r, OnOffStatus::Off);
    for c in all {
        if let Components::Help = c {
            assert!(!ui.is_on(c));
        } else {
            assert!(ui.is_on(c));
        }
    }
}

#[test]
fn default_config_file_names_the_sample_configuration() {
    assert_eq!(default_config_file(), "examples/round_4.toml".to_string());
}

#[test]
fn find_body_index_returns_the_first_match() {
    let ids: Vec<usize> = vec![7, 3, 9, 3];
    assert_eq!(find_body_index(&ids, 3), Some(1));
    assert_eq!(find_body_index(&ids, 7), Some(0));
    assert_eq!(find_body_index(&ids, 9), Some(2));
}

#[test]
fn find_body_index_misses_an_absent_identity() {
    let ids: Vec<usize> = vec![7, 3, 9];
    assert_eq!(find_body_index(&ids, 4), None);
    let empty: Vec<usize> = Vec::new();
    assert_eq!(find_body_index(&empty, 0), None);
}

#[test]
fn pair_schedule_walks_every_unordered_pair_once() {
    assert_eq!(
        pair_indices(4),
        vec![(0, 1), (0, 2), (0, 3), (1, 2), (1, 3), (2, 3)]
    );
    assert_eq!(pair_indices(2), vec![(0, 1)]);
    assert_eq!(pair_indices(1), Vec::<(usize, usize)>::new());
    assert_eq!(pair_indices(0), Vec::<(usize, usize)>::new());
}

#[test]
fn iter_status_reports_a_payload_or_continues() {
    let done: IterStatus<usize> = IterStatus::Done(5);
    let go_on: IterStatus<usize> = IterStatus::Continue;
    assert!(matches!(done, IterStatus::Done(5)));
    assert!(matches!(go_on, IterStatus::Continue));
}

#[test]
fn depth_order_is_non_decreasing() {
    let points: Vec<(u64, usize)> = vec![(50, 0), (10, 1), (30, 2), (10, 3), (40, 4)];
    let sorted = sort_by_depth(&points);
    assert_eq!(sorted.len(), points.len());
    for w in sorted.windows(2) {
        assert!(w[0].0 <= w[1].0);
    }
    // Same entries, merely rearranged.
    let mut expected = points.clone();
    expected.sort();
    let mut got = sorted.clone();
    got.sort();
    assert_eq!(got, expected);
}

#[test]
fn depth_order_on_edge_inputs() {
    let empty: Vec<(u64, usize)> = Vec::new();
    assert_eq!(sort_by_depth(&empty), Vec::<(u64, usize)>::new());
    let one: Vec<(u64, usize)> = vec![(9, 2)];
    assert_eq!(sort_by_depth(&one), vec![(9, 2)]);
    let tied: Vec<(u64, usize)> = vec![(5, 0), (5, 1), (5, 2)];
    let sorted = sort_by_depth(&tied);
    assert_eq!(sorted.len(), 3);
    for w in sorted.windows(2) {
        assert!(w[0].0 <= w[1].0);
    }
}

#[test]
fn auto_zoom_acts_only_outside_the_band() {
    assert_eq!(auto_zoom_action(SCALE_MAX + 1), ZoomAction::Shrink);
    assert_eq!(auto_zoom_action(SCALE_MAX), ZoomAction::Keep);
    assert_eq!(auto_zoom_action(SCALE_MIN), ZoomAction::Keep);
    assert_eq!(auto_zoom_action(SCALE_MIN - 1), ZoomAction::Grow);
    assert_eq!(auto_zoom_action(500_000), ZoomAction::Keep);
}

#[test]
fn auto_zoom_settles_after_one_application() {
    // Bodies spilling moderately past the viewport: one halving is enough.
    let (first, after) = auto_zoom_step(1_200_000);
    assert_eq!(first, ZoomAction::Shrink);
    assert_eq!(after, 600_000);
    assert_eq!(auto_zoom_action(after), ZoomAction::Keep);
    // Bodies huddling moderately: one doubling is enough.
    let (first, after) = auto_zoom_step(60_000);
    assert_eq!(first, ZoomAction::Grow);
    assert_eq!(after, 120_000);
    assert_eq!(auto_zoom_action(after), ZoomAction::Keep);
}

#[test]
fn auto_zoom_keeps_adjusting_when_far_outside() {
    // A single halving does not bring a ratio of 4.0 into the band.
    let (first, after) = auto_zoom_step(4_000_000);
    assert_eq!(first, ZoomAction::Shrink);
    assert_eq!(after, 2_000_000);
    assert_eq!(auto_zoom_action(after), ZoomAction::Shrink);
}

#[test]
fn step_plan_at_rest_does_nothing() {
    assert!(step_plan(0, 5).is_none());
}

#[test]
fn step_plan_groups_forward_steps() {
    let p = step_plan(20, 5).unwrap();
    assert!(p.forward);
    assert_eq!(p.rounds, 4);
    assert_eq!(p.per_round, 5);
    let p = step_plan(7, 5).unwrap();
    assert!(p.forward);
    assert_eq!(p.rounds, 1);
    assert_eq!(p.per_round, 5);
}

#[test]
fn step_plan_runs_backwards_on_a_negative_rate() {
    let p = step_plan(-20, 5).unwrap();
    assert!(!p.forward);
    assert_eq!(p.rounds, 4);
    assert_eq!(p.per_round, 5);
}

#[test]
fn app_state_commands_act_on_plain_state() {
    let mut state = AppState::new(20);
    assert!(state.running);
    assert!(!state.exit);
    state.toggle_pause();
    assert!(!state.running);
    state.toggle_pause();
    assert!(state.running);
    state.add_speed(-5);
    assert_eq!(state.steps, 15);
    state.request_exit();
    assert!(state.exit);
}

#[test]
fn collision_detector_lifecycle() {
    let mut det = CollisionDetect::new();
    assert!(det.needs_scan());
    // A scan finds nothing: still idle.
    assert_eq!(det.update_status(true, None), None);
    assert!(det.needs_scan());
    // A scan finds a pair: reported once, then held.
    assert_eq!(det.update_status(true, Some((0, 2))), Some((0, 2)));
    assert!(!det.needs_scan());
    // While the simulation stays paused the report stands.
    assert_eq!(det.update_status(false, None), None);
    assert!(!det.needs_scan());
    // Resuming clears the report.
    assert_eq!(det.update_status(true, None), None);
    assert!(det.needs_scan());
}

#[test]
fn collision_detector_switched_off_ignores_scans() {
    let mut det = CollisionDetect::new();
    assert!(!det.toggle());
    assert!(!det.needs_scan());
    assert_eq!(det.update_status(true, Some((1, 2))), None);
    assert!(det.toggle());
    assert!(det.needs_scan());
}
