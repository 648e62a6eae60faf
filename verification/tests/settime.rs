use sfo_kiosk::exchange::Outcome;
use sfo_kiosk::settime::{
    build, human, wire, Arm, CalendarDate, CardIds, Dial, LocalTime, Recompute, Report, SetTime, Toggled,
    ARM_MS,
};

const NOW: i64 = 1_789_000_000;

fn card() -> SetTime {
    build("net-vm", 8123, 300, &mut CardIds::new())
}

fn at(card: &mut SetTime, delta: i64) -> Option<Arm> {
    card.recompute(Some(NOW), Some(NOW + delta))
}

fn date() -> CalendarDate {
    CalendarDate { year: 2026, month: 10, day: 6 }
}

#[test]
fn sizes_in_words() {
    assert_eq!(human(i64::MIN), "under a minute");
    assert_eq!(human(-60), "under a minute");
    assert_eq!(human(0), "under a minute");
    assert_eq!(human(59), "under a minute");
    assert_eq!(human(60), "1 min");
    assert_eq!(human(119), "1 min");
    assert_eq!(human(120), "2 min");
    assert_eq!(human(3599), "59 min");
    assert_eq!(human(3600), "1 h 0 min");
    assert_eq!(human(3660), "1 h 1 min");
    assert_eq!(human(86399), "23 h 59 min");
    assert_eq!(human(86400), "1 d 0 min");
    assert_eq!(human(90060), "1 d 1 h 1 min");
    assert_eq!(human(86400 * 400 + 120), "400 d 2 min");
    assert_eq!(human(i64::MAX), "106751991167300 d 15 h 30 min");
}

#[test]
fn a_new_card() {
    let c = card();
    assert!(!c.is_open());
    assert_eq!(c.summary(), "");
    assert_eq!(c.label(), "Set");
    assert!(c.sensitive());
    assert!(!c.restarts());
    assert_eq!(c.hour().readout(), "00");
    assert_eq!(c.hour().caption(), "hour");
    assert_eq!(c.minute().readout(), "00");
    assert_eq!(c.minute().caption(), "minute");
}

#[test]
fn only_a_change_of_state_is_passed_on() {
    let mut c = card();
    assert_eq!(c.close(), None);
    assert_eq!(c.open(), Some(Toggled::Opened));
    assert!(c.is_open());
    assert_eq!(c.open(), None);
    assert_eq!(c.set_open(true), None);
    assert_eq!(c.set_open(false), Some(Toggled::Closed));
    assert!(!c.is_open());
    assert_eq!(c.set_open(true), Some(Toggled::Opened));
    assert_eq!(c.close(), Some(Toggled::Closed));
}

#[test]
fn sameness_is_by_card_and_not_by_state() {
    let mut ids = CardIds::new();
    let mut a = build("net-vm", 8123, 300, &mut ids);
    let b = build("net-vm", 8123, 300, &mut ids);
    let c = build("net-vm", 8123, 300, &mut ids);
    assert!(a.same_as(&a));
    for _ in 0..2 {
        assert!(!a.same_as(&b) && !b.same_as(&a));
        assert!(!a.same_as(&c) && !b.same_as(&c));
        a.open();
        at(&mut a, 1000);
    }
    assert!(a.same_as(&a));
}

#[test]
fn what_the_card_says() {
    let mut c = card();
    for (delta, says) in [
        (0, "No change."),
        (59, "No change."),
        (-59, "No change."),
        (60, "1 min forward \u{2014} no restart."),
        (-60, "1 min backward \u{2014} no restart."),
        (299, "4 min forward \u{2014} no restart."),
        (300, "5 min forward \u{2014} the system will restart to apply it."),
        (-300, "5 min backward \u{2014} the system will restart to apply it."),
        (-93_784, "1 d 2 h 3 min backward \u{2014} the system will restart to apply it."),
    ] {
        at(&mut c, delta);
        assert_eq!(c.summary(), says);
    }
}

#[test]
fn restart_from_the_threshold_on() {
    let mut c = card();
    assert_eq!(at(&mut c, 299), None);
    assert_eq!((c.label(), c.restarts(), c.sensitive()), ("Set (4 min)", false, true));
    assert_eq!(at(&mut c, 300), Some(Arm { generation: 1, after_ms: 600 }));
    assert_eq!((c.label(), c.restarts(), c.sensitive()), ("Set & restart (5 min)", true, false));
    assert_eq!(at(&mut c, -300), Some(Arm { generation: 2, after_ms: ARM_MS }));
    assert_eq!(at(&mut c, -299), None);
    assert_eq!((c.label(), c.restarts(), c.sensitive()), ("Set (4 min)", false, true));
}

#[test]
fn threshold_of_zero_always_restarts() {
    let mut c = build("h", 1, 0, &mut CardIds::new());
    assert!(at(&mut c, 0).is_some());
    assert_eq!(c.summary(), "No change.");
    assert_eq!(c.label(), "Set & restart");
}

#[test]
fn no_clock_no_change() {
    let mut c = card();
    at(&mut c, 1000);
    assert_eq!(c.recompute(None, Some(NOW)), None);
    assert_eq!(c.recompute(Some(NOW), None), None);
    assert_eq!(c.recompute(None, None), None);
    assert_eq!(c.summary(), "16 min forward \u{2014} the system will restart to apply it.");
    assert!(!c.sensitive());
    assert_eq!(at(&mut c, 1000), Some(Arm { generation: 2, after_ms: 600 }));
}

#[test]
fn dead_until_armed() {
    let mut c = card();
    c.open();
    let first = at(&mut c, 1000).unwrap();
    let _ = c.press(Dial::Hour, 1, date());
    let second = at(&mut c, 4600).unwrap();
    assert_ne!(first.generation, second.generation);
    c.armed(first.generation);
    assert!(!c.sensitive());
    c.armed(second.generation);
    assert!(c.sensitive());
}

#[test]
fn a_timer_of_a_left_state_does_nothing() {
    let mut c = card();
    let arm = at(&mut c, 1000).unwrap();
    at(&mut c, 0);
    c.armed(arm.generation);
    assert_eq!((c.label(), c.sensitive(), c.summary()), ("Set", true, "No change."));
    let again = at(&mut c, 1000).unwrap();
    c.armed(arm.generation);
    assert!(!c.sensitive());
    c.armed(again.generation);
    assert!(c.sensitive());
}

#[test]
fn a_timer_of_a_left_state_does_not_revive_a_sending_card() {
    let mut c = card();
    c.open();
    let arm = at(&mut c, 1000).unwrap();
    at(&mut c, 120);
    assert!(c.sensitive());
    assert!(c.clicked(date()).is_some());
    c.armed(arm.generation);
    assert!(!c.sensitive());
}

#[test]
fn the_button_shows_the_size() {
    let mut c = card();
    assert_eq!(c.label(), "Set");
    for (delta, says) in [
        (0, "Set"),
        (-59, "Set"),
        (60, "Set (1 min)"),
        (-61, "Set (1 min)"),
        (3660, "Set & restart (1 h 1 min)"),
        (-86400, "Set & restart (1 d 0 min)"),
    ] {
        at(&mut c, delta);
        assert_eq!(c.label(), says);
        if delta.abs() >= 60 {
            assert!(c.label().contains(&human(delta.abs())));
        }
    }
}

#[test]
fn every_move_orders_a_recomputation() {
    let mut c = card();
    let at_clock = LocalTime { year: 2026, month: 11, day: 6, hour: 0, minute: 0 };
    assert_eq!(c.picked(date()), Recompute { target: at_clock });
    assert_eq!(
        c.press(Dial::Hour, -1, date()),
        Recompute { target: LocalTime { hour: 23, ..at_clock } }
    );
    assert_eq!(
        c.press(Dial::Minute, 1, date()),
        Recompute { target: LocalTime { hour: 23, minute: 1, ..at_clock } }
    );
}

#[test]
fn ids_are_never_handed_out_twice() {
    let mut ids = CardIds::new();
    assert!(!ids.is_spent());
    let mut seen: Vec<u64> = Vec::new();
    for _ in 0..100 {
        let id = ids.next();
        assert!(!seen.contains(&id));
        seen.push(id);
    }
}

#[test]
fn a_second_press_finds_a_dead_button() {
    let mut c = card();
    c.open();
    at(&mut c, 120);
    assert!(c.sensitive());
    c.clicked(date());
    c.armed(0);
    c.armed(1);
    assert!(!c.sensitive());
}

#[test]
fn opening_starts_from_the_clock() {
    let mut c = card();
    let _ = c.press(Dial::Hour, -1, date());
    let _ = c.press(Dial::Minute, 5, date());
    c.open();
    let clock = LocalTime { year: 2026, month: 11, day: 6, hour: 9, minute: 41 };
    assert_eq!(c.opened(Some(clock), date()), Recompute { target: clock });
    assert_eq!(c.hour().readout(), "09");
    assert_eq!(c.minute().readout(), "41");
    assert_eq!(c.chosen(date()), clock);
    at(&mut c, -37);
    assert_eq!(c.summary(), "No change.");
    assert_eq!(c.opened(None, date()), Recompute { target: clock });
    assert_eq!(c.chosen(date()), clock);
}

#[test]
fn steppers_wrap_within_a_day() {
    let mut c = card();
    let _ = c.press(Dial::Hour, -1, date());
    assert_eq!(c.hour().get(), 23);
    assert_eq!(c.minute().get(), 0);
    let _ = c.press(Dial::Minute, -1, date());
    assert_eq!(c.minute().get(), 59);
    let _ = c.press(Dial::Minute, 1, date());
    let _ = c.press(Dial::Hour, 1, date());
    assert_eq!((c.hour().get(), c.minute().get()), (0, 0));
}

#[test]
fn the_wire_format() {
    assert_eq!(
        wire(LocalTime { year: 2026, month: 11, day: 6, hour: 9, minute: 5 }),
        "2026-11-06 09:05"
    );
    assert_eq!(wire(LocalTime { year: 33, month: 1, day: 2, hour: 0, minute: 0 }), "0033-01-02 00:00");
    assert_eq!(
        wire(LocalTime { year: 12345, month: 1, day: 2, hour: 3, minute: 4 }),
        "12345-01-02 03:04"
    );
}

#[test]
fn a_press_sends_the_chosen_minute() {
    let mut c = card();
    c.open();
    let _ = c.opened(Some(LocalTime { year: 2026, month: 11, day: 6, hour: 9, minute: 5 }), date());
    at(&mut c, 0);
    let x = c.clicked(date()).unwrap();
    assert_eq!((x.host(), x.port()), ("net-vm", 8123));
    assert_eq!(x.line(), "2026-11-06 09:05\n");
    assert!(!x.restarts());
    assert!(!c.sensitive());
    assert!(c.is_open());
}

#[test]
fn a_press_carries_the_announced_restart() {
    let mut c = card();
    c.open();
    let arm = at(&mut c, 1000).unwrap();
    c.armed(arm.generation);
    let x = c.clicked(date()).unwrap();
    at(&mut c, 0);
    assert!(x.restarts());
}

#[test]
fn a_press_on_a_closed_card_does_nothing() {
    let mut c = card();
    assert!(c.clicked(date()).is_none());
    assert!(c.sensitive());
}

#[test]
fn failure_makes_the_button_live_again() {
    let mut c = card();
    c.open();
    c.clicked(date());
    let (toggled, report) = c.finished(Outcome::Failed("Could not send the time: x".to_string()));
    assert_eq!(toggled, None);
    assert!(matches!(report, Report::Error(t) if t == "Could not send the time: x"));
    assert!(c.sensitive());
    assert!(c.is_open());
}

#[test]
fn success_closes_the_card() {
    let mut c = card();
    c.open();
    c.clicked(date());
    let (toggled, report) = c.finished(Outcome::ClockSet);
    assert_eq!(toggled, Some(Toggled::Closed));
    assert!(matches!(report, Report::Info(t) if t == "Clock set."));
    assert!(!c.is_open());
    assert!(!c.sensitive());
}

#[test]
fn success_can_ask_for_the_restart_screen() {
    let mut c = card();
    c.open();
    c.clicked(date());
    c.close();
    let (toggled, report) = c.finished(Outcome::Restart);
    assert_eq!(toggled, None);
    assert!(matches!(report, Report::RequestRestart));
}
