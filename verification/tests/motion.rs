use gpui_ai::motion::{stagger_delay, AmbientLoopSpec, EnterSpec, ProgressLoopSpec};

#[test]
fn stagger_is_bounded_so_long_lists_do_not_wait_forever() {
    let far = stagger_delay(12);
    let capped = stagger_delay(100);
    assert_eq!(far, capped);
    assert!(stagger_delay(1) < far);
}

#[test]
fn every_loop_resolves_through_a_role_at_its_documented_tempo() {
    assert_eq!(ProgressLoopSpec::grid_sweep().period_ms, 1400);
    assert_eq!(ProgressLoopSpec::image_pulse().period_ms, 1600);
    assert_eq!(ProgressLoopSpec::status_spinner().period_ms, 900);
    assert_eq!(AmbientLoopSpec::orb_lattice().period_ms, 1700);
    assert_eq!(AmbientLoopSpec::orb_lattice().period_millis(), 1700);
}

#[test]
fn stagger_beats_and_entrance_tempo() {
    assert_eq!(stagger_delay(0), 0);
    assert_eq!(stagger_delay(1), 40);
    assert_eq!(stagger_delay(11), 440);
    assert_eq!(stagger_delay(12), 480);
    assert_eq!(stagger_delay(usize::MAX), 480);
    let tempo = EnterSpec::reveal_tempo();
    assert_eq!(tempo.duration_ms, 260);
    assert_eq!(tempo.stagger_ms, 40);
    assert_eq!(tempo.stagger_cap, 12);
    assert_eq!(ProgressLoopSpec::shimmer().period_ms, 1800);
    assert_eq!(AmbientLoopSpec::breathing().period_millis(), 1600);
}
