use ws28xx_anim::utility::Progression;

/// A mono progression (total <= 1) always reports position zero and never
/// reports a rollover.
#[test]
fn mono_progression_reports_zero_and_never_rolls() {
    for total in [0usize, 1usize] {
        let mut p = Progression::new(total);
        assert_eq!(p.get_current(), 0);
        for _ in 0..10 {
            assert!(!p.checked_increment());
            assert_eq!(p.get_current(), 0);
            assert!(!p.checked_decrement());
            assert_eq!(p.get_current(), 0);
        }
    }
}

/// After exactly `total` increments the position returns to its start, and
/// the rollover signal fires exactly once along the way.
#[test]
fn progression_cycles_and_rolls_once_per_lap() {
    let total = 5usize;
    let mut p = Progression::new(total);
    p.set_current(2);
    let start = p.get_current();
    let mut rolls = 0;
    for _ in 0..total {
        if p.checked_increment() {
            rolls += 1;
        }
    }
    assert_eq!(p.get_current(), start);
    assert_eq!(rolls, 1);
}

#[test]
fn progression_direction_and_peeks() {
    let mut p = Progression::new(4);
    p.set_current(1);
    assert_eq!(p.get_current(), 1);
    assert_eq!(p.peek_next(), 2);
    assert_eq!(p.peek_prev(), 0);
    p.reverse_direction();
    // position 1 of 4, counted from the far end
    assert_eq!(p.get_current(), 2);
    p.reverse_direction();

    p.set_current(0);
    assert_eq!(p.peek_prev(), 3);
    assert!(p.is_first_frame());

    let mut q = Progression::new(3);
    // a decrement from zero wraps to the far end, which is the decrement
    // rollover signal
    assert!(q.checked_decrement());
    assert_eq!(q.get_current(), 2);
    assert!(!q.checked_decrement());
    assert_eq!(q.get_current(), 1);
    q.reset();
    assert_eq!(q.get_current(), 0);
}

#[test]
fn progression_set_current_wraps_modulo_total() {
    let mut p = Progression::new(4);
    p.set_current(11);
    assert_eq!(p.get_current(), 3);
    let mut mono = Progression::new(1);
    mono.set_current(7);
    assert_eq!(mono.get_current(), 0);
}
