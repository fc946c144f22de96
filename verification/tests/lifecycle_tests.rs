use obj_viewer::lifecycle::{Lifecycle, Phase, TickAction};

#[test]
fn two_ticks_spawn_once() {
    let mut lc = Lifecycle::new();
    assert_eq!(lc.current_phase(), Phase::Uninitialized);
    // First tick spawns the initialization task.
    assert_eq!(lc.on_tick(), TickAction::SpawnInit);
    assert_eq!(lc.current_phase(), Phase::Initializing);
    // A second tick before initialization completes spawns nothing.
    assert_eq!(lc.on_tick(), TickAction::SkipFrame);
    assert_eq!(lc.current_phase(), Phase::Initializing);
    // Nor does a third.
    assert_eq!(lc.on_tick(), TickAction::SkipFrame);
}

#[test]
fn ready_state_draws() {
    let mut lc = Lifecycle::new();
    assert_eq!(lc.on_tick(), TickAction::SpawnInit);
    lc.on_init_success();
    assert_eq!(lc.current_phase(), Phase::Ready);
    assert_eq!(lc.on_tick(), TickAction::Draw);
    assert_eq!(lc.on_tick(), TickAction::Draw);
}

#[test]
fn failed_init_allows_reattempt() {
    let mut lc = Lifecycle::new();
    assert_eq!(lc.on_tick(), TickAction::SpawnInit);
    lc.on_init_failure();
    assert_eq!(lc.current_phase(), Phase::Uninitialized);
    // Nothing was published, so a later tick may attempt again.
    assert_eq!(lc.on_tick(), TickAction::SpawnInit);
}
