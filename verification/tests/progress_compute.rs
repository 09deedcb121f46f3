use progresslib2::{ProgressCompute, MAX_PROGRESS_TICKS, TICKS_PER_PERCENT};

#[test]
fn inc_progress_works_percent() {
    let mut myprog = ProgressCompute::default();
    myprog.set_progress(TICKS_PER_PERCENT * 3);
    assert_eq!(myprog.get_progress(), TICKS_PER_PERCENT * 3);
    myprog.inc_progress(TICKS_PER_PERCENT * 10);
    assert_eq!(myprog.get_progress(), TICKS_PER_PERCENT * 10);
    myprog.inc_progress(TICKS_PER_PERCENT * 3);
    // it should still be 10%, cant go down with inc_progress
    assert_eq!(myprog.get_progress(), TICKS_PER_PERCENT * 10);
}

#[test]
fn set_progress_works() {
    let mut myprog = ProgressCompute::default();
    myprog.set_progress(TICKS_PER_PERCENT);
    assert_eq!(myprog.get_progress(), TICKS_PER_PERCENT);
}

#[test]
fn ticks_per_percent_is_a_thousand() {
    assert_eq!(TICKS_PER_PERCENT, 1000);
    assert_eq!(MAX_PROGRESS_TICKS, 100_000);
}

#[test]
fn new_progress_starts_at_zero() {
    assert_eq!(ProgressCompute::new().get_progress(), 0);
    assert_eq!(ProgressCompute::default().get_progress(), 0);
}

#[test]
fn set_progress_clamps_to_full() {
    let mut myprog = ProgressCompute::default();
    myprog.set_progress(MAX_PROGRESS_TICKS + 1);
    assert_eq!(myprog.get_progress(), MAX_PROGRESS_TICKS);
    myprog.set_progress(u32::MAX);
    assert_eq!(myprog.get_progress(), MAX_PROGRESS_TICKS);
    myprog.set_progress(MAX_PROGRESS_TICKS);
    assert_eq!(myprog.get_progress(), MAX_PROGRESS_TICKS);
}

#[test]
fn set_progress_can_lower() {
    let mut myprog = ProgressCompute::default();
    myprog.set_progress(50_000);
    myprog.set_progress(10);
    assert_eq!(myprog.get_progress(), 10);
}

#[test]
fn inc_progress_clamps_and_never_lowers() {
    let mut myprog = ProgressCompute::default();
    myprog.inc_progress(200_000);
    assert_eq!(myprog.get_progress(), MAX_PROGRESS_TICKS);
    myprog.inc_progress(5);
    assert_eq!(myprog.get_progress(), MAX_PROGRESS_TICKS);
}
