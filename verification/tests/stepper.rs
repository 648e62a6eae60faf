use sfo_kiosk::stepper::{stepper, two_digit, Format, Moved, TwoDigit};

#[test]
fn starts_at_the_lower_end() {
    let s = stepper("hour", 3, 23, true, TwoDigit);
    assert_eq!(s.get(), 3);
    assert_eq!(s.readout(), "03");
    assert_eq!(s.caption(), "hour");
}

#[test]
fn wrapping_rolls_over_both_ends() {
    let mut s = stepper("hour", 0, 23, true, TwoDigit);
    let _ = s.bump(-1);
    assert_eq!(s.get(), 23);
    let _ = s.bump(1);
    assert_eq!(s.get(), 0);
    let _ = s.bump(25);
    assert_eq!(s.get(), 1);
    let _ = s.bump(-50);
    assert_eq!(s.get(), 23);
}

#[test]
fn wrapping_counts_from_the_lower_end() {
    let mut s = stepper("month", 1, 12, true, TwoDigit);
    let _ = s.bump(-1);
    assert_eq!(s.get(), 12);
    let _ = s.bump(1);
    assert_eq!(s.get(), 1);
}

#[test]
fn clamping_stops_at_both_ends() {
    let mut s = stepper("day", 1, 31, false, TwoDigit);
    let _ = s.bump(-1);
    assert_eq!(s.get(), 1);
    let _ = s.bump(40);
    assert_eq!(s.get(), 31);
    let _ = s.bump(-2);
    assert_eq!(s.get(), 29);
}

#[test]
fn set_goes_anywhere_and_a_move_comes_back() {
    let mut s = stepper("minute", 0, 59, true, TwoDigit);
    s.set(75);
    assert_eq!(s.get(), 75);
    assert_eq!(s.readout(), "75");
    let _ = s.bump(1);
    assert_eq!(s.get(), 16);
}

#[test]
fn a_move_and_its_opposite_undo_each_other() {
    let mut s = stepper("minute", 0, 59, true, TwoDigit);
    for v in 0..60 {
        s.set(v);
        for by in [1, -1, 7, 59, 61, -200] {
            let _ = s.bump(by);
            let _ = s.bump(-by);
            assert_eq!(s.get(), v);
        }
    }
}

#[test]
fn a_full_turn_comes_back() {
    let mut s = stepper("hour", 0, 23, true, TwoDigit);
    s.set(17);
    for _ in 0..24 {
        let _ = s.bump(1);
    }
    assert_eq!(s.get(), 17);
    let _ = s.bump(-24);
    assert_eq!(s.get(), 17);
}

#[test]
fn moves_add_up() {
    let mut a = stepper("hour", 0, 23, true, TwoDigit);
    let mut b = stepper("hour", 0, 23, true, TwoDigit);
    let _ = a.bump(19);
    let _ = a.bump(13);
    let _ = b.bump(32);
    assert_eq!(a.get(), 8);
    assert_eq!(b.get(), 8);
}

#[test]
fn ends_in_the_wrong_order_still_wrap() {
    let mut s = stepper("odd", 5, 2, true, TwoDigit);
    let _ = s.bump(1);
    assert_eq!(s.get(), (5 - 5 + 1i32).rem_euclid(2 - 5 + 1) + 5);
}

#[test]
fn two_digits() {
    assert_eq!(two_digit(0), "00");
    assert_eq!(two_digit(7), "07");
    assert_eq!(two_digit(23), "23");
    assert_eq!(two_digit(123), "123");
    assert_eq!(two_digit(-5), "-5");
}

#[test]
fn a_wrapping_move_is_notified_once_with_the_new_value() {
    let mut s = stepper("month", 1, 12, true, TwoDigit);
    s.set(12);
    assert_eq!(s.bump(1), Moved { value: 1 });
    assert_eq!(s.get(), 1);
    assert_eq!(s.readout(), "01");
}

#[test]
fn a_clamped_move_is_notified_all_the_same() {
    let mut s = stepper("n", 1, 5, false, TwoDigit);
    s.set(5);
    assert_eq!(s.bump(1), Moved { value: 5 });
    assert_eq!(s.readout(), "05");
}

#[test]
fn every_move_has_its_own_notice() {
    let mut s = stepper("n", 0, 2, true, TwoDigit);
    let mut values: Vec<i32> = Vec::new();
    for by in [1, 1, 1, -1, -1] {
        values.push(s.bump(by).value);
    }
    assert_eq!(values, [1, 2, 0, 2, 1]);
}

#[test]
fn the_value_is_shown_as_the_formatter_says() {
    let mut s = stepper("offset", -3, 30, true, TwoDigit);
    for v in [-3, 0, 7, 30, 40, -120] {
        s.set(v);
        assert_eq!(s.readout(), TwoDigit.format(v));
        assert_eq!(s.readout(), format!("{v:02}"));
    }
}
