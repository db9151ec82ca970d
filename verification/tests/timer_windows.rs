use homectl::timers::Timer;

fn timer(start: u32, end: u32, days: Vec<u8>) -> Timer {
    Timer {
        id: 1,
        switch_id: 1,
        start_time: start,
        end_time: end,
        days,
        is_active: true,
        one_off: false,
    }
}

#[test]
fn window_covers_inclusive_range() {
    let t = timer(480, 1020, vec![2]);
    assert!(t.should_be_on_at(2, 480));
    assert!(t.should_be_on_at(2, 500));
    assert!(t.should_be_on_at(2, 1020));
    assert!(!t.should_be_on_at(2, 479));
    assert!(!t.should_be_on_at(2, 1021));
}

#[test]
fn window_needs_matching_day() {
    let t = timer(480, 1020, vec![0, 4]);
    assert!(t.should_be_on_at(0, 500));
    assert!(t.should_be_on_at(4, 500));
    assert!(!t.should_be_on_at(1, 500));
    assert!(!t.should_be_on_at(6, 500));
}

#[test]
fn point_window_is_active_for_exactly_one_minute() {
    let t = timer(600, 600, vec![3]);
    assert!(t.should_be_on_at(3, 600));
    assert!(!t.should_be_on_at(3, 599));
    assert!(!t.should_be_on_at(3, 601));
    assert!(!t.should_be_on_at(2, 600));
}

#[test]
fn inverted_window_is_never_active() {
    let t = timer(1020, 480, vec![0, 1, 2, 3, 4, 5, 6]);
    for day in 0u8..7 {
        assert!(!t.should_be_on_at(day, 0));
        assert!(!t.should_be_on_at(day, 480));
        assert!(!t.should_be_on_at(day, 750));
        assert!(!t.should_be_on_at(day, 1020));
        assert!(!t.should_be_on_at(day, 1439));
    }
}

#[test]
fn empty_day_set_is_never_active() {
    let t = timer(0, 1439, Vec::new());
    for day in 0u8..7 {
        assert!(!t.should_be_on_at(day, 720));
    }
}

#[test]
fn activate_and_deactivate_flip_the_flag() {
    let mut t = timer(0, 10, vec![0]);
    t.deactivate();
    assert!(!t.is_active);
    t.deactivate();
    assert!(!t.is_active);
    t.activate();
    assert!(t.is_active);
}
