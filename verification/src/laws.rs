//! What holds of the clock-set card, whatever happens to it and in whatever
//! order.
use vstd::prelude::*;

use crate::exchange::OutcomeView;
use crate::settime::{
    action_text, arm_order, as_int, days_text, direction_text, ending_text, fresh, hours_text,
    label_text, magnitude, minutes_text, needs_restart, report_of, same_card, size_text,
    summary_text, toggle_notice, wire_text, Arm, CalendarDate, CardEvent, Dial, LocalTime, Report,
    ReportView, SetTimeView, Toggled, ARM_MS,
};
use crate::stepper::{
    law_bump_ends_in_range, law_only_the_value_changes, law_press_goes_through,
    law_two_digit_readout, StepperView,
};
use crate::text::{
    all_digits, decimal, is_digit, law_decimal_reads_back, law_four_digits, law_two_digits,
    lemma_first_number, number, padded,
};

verus! {

/// The card after all of `events`, in order.
pub open spec fn run(c: SetTimeView, events: Seq<CardEvent>) -> SetTimeView
    decreases events.len(),
{
    if events.len() == 0 {
        c
    } else {
        run(c, events.drop_last()).next(events.last())
    }
}

/// A sentence about every card that `events` lead to holds of the next one too
/// where one event keeps it: the events up to the last are a run of their own.
proof fn lemma_run_last(c: SetTimeView, events: Seq<CardEvent>)
    requires
        events.len() > 0,
    ensures
        run(c, events) == run(c, events.drop_last()).next(events.last()),
        events.last() == events[events.len() - 1],
        forall|k: int| 0 <= k < events.len() - 1 ==> #[trigger] events.drop_last()[k] == events[k],
{
}

/// Which card it is, whom it talks to, when the machine restarts and what its
/// steppers go from and to are settled when it is built: nothing changes them.
pub proof fn law_settings_never_change(c: SetTimeView, events: Seq<CardEvent>)
    ensures
        run(c, events).id == c.id,
        run(c, events).host == c.host,
        run(c, events).port == c.port,
        run(c, events).threshold_sec == c.threshold_sec,
        run(c, events).hour == c.hour.at(run(c, events).hour.value),
        run(c, events).minute == c.minute.at(run(c, events).minute.value),
    decreases events.len(),
{
    if events.len() > 0 {
        law_settings_never_change(c, events.drop_last());
    }
}

/// Whether `event` brings in a wall clock that is one.
pub open spec fn clock_is_sane(event: CardEvent) -> bool {
    event matches CardEvent::Opened(Some(now)) ==> 0 <= now.hour <= 23 && 0 <= now.minute <= 59
}

/// The steppers of a card always show a time of day, and every press of a `-` or
/// a `+` goes through.
pub proof fn law_always_a_time_of_day(
    id: u64,
    host: Seq<char>,
    port: u16,
    threshold_sec: u32,
    events: Seq<CardEvent>,
)
    requires
        forall|k: int| 0 <= k < events.len() ==> clock_is_sane(#[trigger] events[k]),
    ensures
        ({
            let c = run(fresh(id, host, port, threshold_sec), events);
            &&& 0 <= c.hour.value <= 23
            &&& 0 <= c.minute.value <= 59
            &&& forall|dial: Dial, by: int|
                by == 1 || by == -1 ==> #[trigger] c.dial(dial).can_bump(by)
        }),
    decreases events.len(),
{
    let start = fresh(id, host, port, threshold_sec);
    let c = run(start, events);
    law_settings_never_change(start, events);
    if events.len() > 0 {
        lemma_run_last(start, events);
        law_always_a_time_of_day(id, host, port, threshold_sec, events.drop_last());
        let before = run(start, events.drop_last());
        law_settings_never_change(start, events.drop_last());
        assert(clock_is_sane(events[events.len() - 1]));
        match events.last() {
            CardEvent::Bump(dial, by) => law_bump_ends_in_range(before.dial(dial), by),
            _ => {},
        }
    }
    assert forall|dial: Dial, by: int| by == 1 || by == -1 implies #[trigger] c.dial(
        dial,
    ).can_bump(by) by {
        law_press_goes_through(c.dial(dial), by);
    }
}

/// The card restarts the machine exactly from the threshold on, and its button
/// says so.
pub proof fn law_restart_from_threshold(c: SetTimeView, now: int, target: int)
    ensures
        ({
            let after = c.next(CardEvent::Recompute(Some(now), Some(target)));
            &&& after.restarts <==> target - now >= c.threshold_sec || now - target
                >= c.threshold_sec
            &&& after.restarts ==> "Set & restart"@.is_prefix_of(after.label)
            &&& !after.restarts ==> "Set"@.is_prefix_of(after.label) && !"Set & restart"@.is_prefix_of(
                after.label,
            )
            &&& after.sensitive <==> !after.restarts
        }),
{
    lemma_label(target - now, c.threshold_sec);
}

proof fn lemma_label(delta: int, threshold_sec: u32)
    ensures
        ({
            let label = label_text(delta, threshold_sec);
            &&& "Set"@.is_prefix_of(label)
            &&& "Set & restart"@.is_prefix_of(label) <==> needs_restart(delta, threshold_sec)
        }),
{
    reveal_strlit("Set");
    reveal_strlit("Set & restart");
    reveal_strlit(" (");
    let label = label_text(delta, threshold_sec);
    let action = action_text(delta, threshold_sec);
    assert(label.subrange(0, action.len() as int) =~= action);
    assert(label.subrange(0, 3) =~= "Set"@);
    if !needs_restart(delta, threshold_sec) && "Set & restart"@.is_prefix_of(label) {
        assert(label.len() >= 13);
        assert(label[4] == '(');
        assert(label[4] == "Set & restart"@[4]);
    }
}

/// Whatever has happened to a card, its button says that the machine will restart
/// exactly when it will.
pub proof fn law_button_says_restart(
    id: u64,
    host: Seq<char>,
    port: u16,
    threshold_sec: u32,
    events: Seq<CardEvent>,
)
    ensures
        ({
            let c = run(fresh(id, host, port, threshold_sec), events);
            &&& "Set"@.is_prefix_of(c.label)
            &&& "Set & restart"@.is_prefix_of(c.label) <==> c.restarts
        }),
    decreases events.len(),
{
    let start = fresh(id, host, port, threshold_sec);
    if events.len() > 0 {
        law_button_says_restart(id, host, port, threshold_sec, events.drop_last());
        match events.last() {
            CardEvent::Recompute(Some(now), Some(target)) => lemma_label(
                target - now,
                run(start, events.drop_last()).threshold_sec,
            ),
            _ => {},
        }
    } else {
        reveal_strlit("Set");
        reveal_strlit("Set & restart");
        assert("Set"@.subrange(0, 3) =~= "Set"@);
    }
}

/// Whether `part` stands somewhere in `whole`.
pub open spec fn shows(whole: Seq<char>, part: Seq<char>) -> bool {
    exists|before: Seq<char>, after: Seq<char>| whole == #[trigger] (before + part + after)
}

/// The button shows the size of every change of a minute or more, whether or not
/// it restarts the machine.
pub proof fn law_button_shows_size(c: SetTimeView, now: int, target: int)
    requires
        target - now >= 60 || now - target >= 60,
    ensures
        shows(
            c.next(CardEvent::Recompute(Some(now), Some(target))).label,
            size_text(
                if target >= now {
                    target - now
                } else {
                    now - target
                },
            ),
        ),
{
    let delta = target - now;
    let before = action_text(delta, c.threshold_sec) + " ("@;
    assert(label_text(delta, c.threshold_sec) =~= before + size_text(magnitude(delta)) + ")"@);
}

/// As long as the wall clock or the chosen time cannot be had, the card stays as
/// it is and no timer is started.
pub proof fn law_no_clock_no_change(c: SetTimeView, now: Option<i64>, target: Option<i64>)
    requires
        now is None || target is None,
    ensures
        c.next(CardEvent::Recompute(as_int(now), as_int(target))) == c,
        arm_order(c, now, target) is None,
{
}

/// A recomputation that announces a restart leaves the button dead and starts
/// one timer, for the arming time and under a number that the card had not the
/// moment before; any other starts none.
pub proof fn law_restart_arms(c: SetTimeView, now: i64, target: i64)
    ensures
        ({
            let after = c.next(CardEvent::Recompute(Some(now as int), Some(target as int)));
            &&& ARM_MS == 600
            &&& after.restarts ==> !after.sensitive && after.generation == (if c.generation
                == u64::MAX {
                0
            } else {
                c.generation + 1
            }) && arm_order(after, Some(now), Some(target)) == Some(
                Arm { generation: after.generation, after_ms: 600 },
            )
            &&& !after.restarts ==> after.generation == c.generation && arm_order(
                after,
                Some(now),
                Some(target),
            ) is None
        }),
{
}

/// Whether nothing in `events` can revive a dead button out of turn: no
/// conversation fails, and no timer runs out but those of a state that was left.
pub open spec fn nothing_revives(c: SetTimeView, events: Seq<CardEvent>) -> bool
    decreases events.len(),
{
    events.len() > 0 ==> {
        &&& nothing_revives(c, events.drop_last())
        &&& events.last() != CardEvent::Finished(false)
        &&& events.last() matches CardEvent::Armed(g) ==> {
            let at = run(c, events.drop_last());
            g != at.generation || !at.restarts
        }
    }
}

/// A correction that restarts the machine cannot be reached by a double tap: from
/// the moment the button says so it stays dead, whatever the operator does, until
/// the timer started for it runs out. (A conversation that fails meanwhile also
/// revives the button.)
pub proof fn law_dead_until_armed(c: SetTimeView, events: Seq<CardEvent>)
    requires
        c.restarts ==> !c.sensitive,
        nothing_revives(c, events),
    ensures
        run(c, events).restarts ==> !run(c, events).sensitive,
    decreases events.len(),
{
    if events.len() > 0 {
        law_dead_until_armed(c, events.drop_last());
    }
}

/// How many of `events` announce a restart.
pub open spec fn announcements(c: SetTimeView, events: Seq<CardEvent>) -> nat
    decreases events.len(),
{
    if events.len() == 0 {
        0
    } else {
        announcements(c, events.drop_last()) + (if announces(
            run(c, events.drop_last()),
            events.last(),
        ) {
            1nat
        } else {
            0nat
        })
    }
}

/// Whether `event` announces a restart.
pub open spec fn announces(c: SetTimeView, event: CardEvent) -> bool {
    event matches CardEvent::Recompute(Some(now), Some(target)) && (target - now
        >= c.threshold_sec || now - target >= c.threshold_sec)
}

/// Every announcement of a restart takes the next number.
pub proof fn law_numbers_count_announcements(c: SetTimeView, events: Seq<CardEvent>)
    requires
        c.generation + announcements(c, events) <= u64::MAX,
    ensures
        run(c, events).generation == c.generation + announcements(c, events),
    decreases events.len(),
{
    if events.len() > 0 {
        law_numbers_count_announcements(c, events.drop_last());
    }
}

/// An arm timer does nothing once another announcement has overtaken it, as long
/// as the numbers last.
pub proof fn law_overtaken_timer_does_nothing(c: SetTimeView, events: Seq<CardEvent>)
    requires
        announcements(c, events) > 0,
        c.generation + announcements(c, events) <= u64::MAX,
    ensures
        run(c, events).next(CardEvent::Armed(c.generation)) == run(c, events),
{
    law_numbers_count_announcements(c, events);
}

/// An arm timer does nothing to a card that has left "& restart" either, whatever
/// happened since: it cannot revive the button of a card that is sending.
pub proof fn law_timer_of_a_left_state_does_nothing(c: SetTimeView, generation: u64)
    ensures
        !c.restarts ==> c.next(CardEvent::Armed(generation)) == c,
{
}

/// A timer touches the button and nothing else, and only to make it live; the one
/// started for the state the card is in does.
pub proof fn law_timer_only_revives(c: SetTimeView, generation: u64)
    ensures
        c.next(CardEvent::Armed(generation)) == c || c.next(CardEvent::Armed(generation)) == (
        SetTimeView { sensitive: true, ..c }),
        c.restarts ==> c.next(CardEvent::Armed(c.generation)).sensitive,
{
}

/// A press on a closed card does nothing; on an open one it makes the button dead
/// and changes nothing else.
pub proof fn law_press(c: SetTimeView)
    ensures
        !c.open ==> c.next(CardEvent::Clicked) == c,
        c.open ==> c.next(CardEvent::Clicked) == (SetTimeView { sensitive: false, ..c }),
{
}

/// Whether a press comes only to a live button, as it does from a toolkit that
/// keeps presses away from dead ones.
pub open spec fn presses_land(c: SetTimeView, events: Seq<CardEvent>) -> bool
    decreases events.len(),
{
    events.len() > 0 ==> {
        &&& presses_land(c, events.drop_last())
        &&& events.last() == CardEvent::Clicked ==> run(c, events.drop_last()).sensitive
    }
}

/// Whether nothing in `events` works the card out again.
pub open spec fn nothing_recomputed(events: Seq<CardEvent>) -> bool {
    forall|k: int| 0 <= k < events.len() ==> !(#[trigger] events[k] is Recompute)
}

/// Where presses come only to a live button, the first press on an open card is
/// the only one, as long as the operator moves nothing, no timer of the state the
/// card is in runs out, and no conversation fails.
pub proof fn law_second_press_finds_none(c: SetTimeView, events: Seq<CardEvent>)
    requires
        c.open,
        presses_land(c.next(CardEvent::Clicked), events),
        nothing_revives(c.next(CardEvent::Clicked), events),
        nothing_recomputed(events),
    ensures
        !run(c.next(CardEvent::Clicked), events).sensitive,
        forall|k: int| 0 <= k < events.len() ==> #[trigger] events[k] != CardEvent::Clicked,
    decreases events.len(),
{
    if events.len() > 0 {
        let sent = c.next(CardEvent::Clicked);
        lemma_run_last(sent, events);
        assert(!(events[events.len() - 1] is Recompute));
        law_second_press_finds_none(c, events.drop_last());
        assert forall|k: int| 0 <= k < events.len() implies #[trigger] events[k]
            != CardEvent::Clicked by {
            if k < events.len() - 1 {
                assert(events.drop_last()[k] == events[k]);
            }
        }
    }
}

/// Being the same card is a matter of which card it is and not of its state: it
/// is an equivalence, and no event on either side changes it.
pub proof fn law_same_whatever_happens(
    c: SetTimeView,
    d: SetTimeView,
    e: SetTimeView,
    events: Seq<CardEvent>,
    more: Seq<CardEvent>,
)
    ensures
        same_card(c, c),
        same_card(c, run(c, events)),
        same_card(c, d) <==> same_card(d, c),
        same_card(c, d) && same_card(d, e) ==> same_card(c, e),
        same_card(run(c, events), run(d, more)) <==> same_card(c, d),
{
    law_settings_never_change(c, events);
    law_settings_never_change(d, more);
}

/// Two cards that were built separately are never the same card: `handed_out` is
/// what the ids' source had handed out when the later of them was built, the
/// earlier one's among them.
pub proof fn law_separate_cards_differ(
    a: SetTimeView,
    b: SetTimeView,
    handed_out: Set<u64>,
    events: Seq<CardEvent>,
    more: Seq<CardEvent>,
)
    requires
        handed_out.contains(a.id),
        !handed_out.contains(b.id),
    ensures
        !same_card(run(a, events), run(b, more)),
{
    law_same_whatever_happens(a, b, b, events, more);
}

/// A failed conversation leaves the card as it was, open if it was open, with the
/// button live for another try, and is reported. A successful one closes the card
/// and leaves the rest; it is reported, or the restart screen takes over.
pub proof fn law_end_of_conversation(c: SetTimeView, end: OutcomeView)
    ensures
        end is Failed ==> {
            &&& c.next(CardEvent::Finished(false)) == (SetTimeView { sensitive: true, ..c })
            &&& report_of(end) == ReportView::Error(end->Failed_0)
        },
        !(end is Failed) ==> {
            &&& c.next(CardEvent::Finished(true)) == (SetTimeView { open: false, ..c })
            &&& report_of(end) == (if end is Restart {
                ReportView::RequestRestart
            } else {
                ReportView::Info("Clock set."@)
            })
        },
{
}

/// Every open orders a start from the current clock, so that the card says "No change."
/// until the operator moves something: it stands at the wall clock's own minute,
/// and that is less than a minute away.
pub proof fn law_open_starts_from_clock(c: SetTimeView, clock: LocalTime, now: int, target: int)
    requires
        i32::MIN < clock.month,
        -60 < target - now < 60,
    ensures
        ({
            let at_clock = c.next(CardEvent::SetOpen(true)).next(CardEvent::Opened(Some(clock)));
            let shown = at_clock.next(CardEvent::Recompute(Some(now), Some(target)));
            let day = CalendarDate {
                year: clock.year,
                month: (clock.month - 1) as i32,
                day: clock.day,
            };
            &&& !c.open ==> toggle_notice(c.open, true) == Some(Toggled::Opened)
            &&& shown.open
            &&& shown.chosen(day) == clock
            &&& shown.summary == "No change."@
        }),
{
}

/// Opening and closing touch nothing but whether the card is open, and the last
/// word counts.
pub proof fn law_open_and_close(c: SetTimeView, a: bool, b: bool)
    ensures
        c.next(CardEvent::SetOpen(a)) == (SetTimeView { open: a, ..c }),
        c.next(CardEvent::SetOpen(a)).next(CardEvent::SetOpen(b)) == c.next(CardEvent::SetOpen(b)),
        c.next(CardEvent::SetOpen(c.open)) == c,
{
}

/// Whether each field of `t` has the digits that the wire format has for it.
pub open spec fn on_the_wire(t: LocalTime) -> bool {
    &&& 0 <= t.year <= 9999
    &&& 0 <= t.month <= 99
    &&& 0 <= t.day <= 99
    &&& 0 <= t.hour <= 99
    &&& 0 <= t.minute <= 99
}

/// The wire format is `YYYY-MM-DD HH:MM`, to the character, and the fields read
/// back out of it are those that went in.
pub proof fn law_wire_format(t: LocalTime)
    requires
        on_the_wire(t),
    ensures
        wire_text(t).len() == 16,
        wire_text(t)[4] == '-',
        wire_text(t)[7] == '-',
        wire_text(t)[10] == ' ',
        wire_text(t)[13] == ':',
        all_digits(wire_text(t).subrange(0, 4)),
        all_digits(wire_text(t).subrange(5, 7)),
        all_digits(wire_text(t).subrange(8, 10)),
        all_digits(wire_text(t).subrange(11, 13)),
        all_digits(wire_text(t).subrange(14, 16)),
        number(wire_text(t).subrange(0, 4)) == t.year,
        number(wire_text(t).subrange(5, 7)) == t.month,
        number(wire_text(t).subrange(8, 10)) == t.day,
        number(wire_text(t).subrange(11, 13)) == t.hour,
        number(wire_text(t).subrange(14, 16)) == t.minute,
{
    law_four_digits(t.year as int);
    law_two_digits(t.month as int);
    law_two_digits(t.day as int);
    law_two_digits(t.hour as int);
    law_two_digits(t.minute as int);
    reveal_strlit("-");
    reveal_strlit(" ");
    reveal_strlit(":");
    let s = wire_text(t);
    assert(s.subrange(0, 4) =~= padded(t.year as int, 4));
    assert(s.subrange(5, 7) =~= padded(t.month as int, 2));
    assert(s.subrange(8, 10) =~= padded(t.day as int, 2));
    assert(s.subrange(11, 13) =~= padded(t.hour as int, 2));
    assert(s.subrange(14, 16) =~= padded(t.minute as int, 2));
}

/// Two minutes that go over the wire as the same text are the same minute.
pub proof fn law_wire_tells_apart(a: LocalTime, b: LocalTime)
    requires
        on_the_wire(a),
        on_the_wire(b),
        wire_text(a) == wire_text(b),
    ensures
        a == b,
{
    law_wire_format(a);
    law_wire_format(b);
}

/// The days, hours and minutes that a size is told in add up to it, to the
/// minute.
pub proof fn law_size_adds_up(delta: int)
    requires
        0 <= delta,
    ensures
        ({
            let d = delta / 86400;
            let h = (delta % 86400) / 3600;
            let m = (delta % 3600) / 60;
            &&& 0 <= d
            &&& 0 <= h < 24
            &&& 0 <= m < 60
            &&& d * 1440 + h * 60 + m == delta / 60
        }),
{
    lemma_split(delta, delta / 86400, (delta % 86400) / 3600, (delta % 3600) / 60);
}

/// Days, hours and minutes below their limits are what whole division leaves of a
/// number of seconds exactly if they add up to it, to the minute.
#[verifier::spinoff_prover]
proof fn lemma_split(secs: int, d: int, h: int, m: int)
    requires
        0 <= secs,
    ensures
        d == secs / 86400 && h == (secs % 86400) / 3600 && m == (secs % 3600) / 60
            <==> is_told_as(secs, d, h, m),
        is_told_as(secs, d, h, m) ==> d * 1440 + h * 60 + m == secs / 60,
{
    let q = secs / 86400;
    let r = secs % 86400;
    assert(secs == 86400 * q + r && 0 <= r < 86400);
    let i = r / 3600;
    let t = r % 3600;
    assert(r == 3600 * i + t && 0 <= t < 3600 && 0 <= i < 24);
    assert(secs == 3600 * (24 * q + i) + t);
    assert(secs % 3600 == t);
    let n = t / 60;
    let u = t % 60;
    assert(t == 60 * n + u && 0 <= u < 60 && 0 <= n < 60);
    assert(secs == 60 * (1440 * q + 60 * i + n) + u);
    assert(secs / 60 == 1440 * q + 60 * i + n);
    if is_told_as(secs, d, h, m) {
        assert(86400 * d <= secs < 86400 * d + 86400);
        assert(d == q);
        assert(3600 * h <= r < 3600 * h + 3600);
        assert(h == i);
        assert(60 * m <= t < 60 * m + 60);
        assert(m == n);
    }
}

proof fn lemma_hours_and_minutes(h: int, m: int, i: int, n: int)
    requires
        0 <= h,
        0 <= m,
        0 <= i,
        0 <= n,
        hours_text(h) + minutes_text(m) == hours_text(i) + minutes_text(n),
    ensures
        h == i,
        m == n,
{
    reveal_strlit(" h ");
    reveal_strlit(" min");
    lemma_hour_parts(h, m);
    lemma_hour_parts(i, n);
    let (a, x) = hour_parts(h, m);
    let (b, y) = hour_parts(i, n);
    lemma_first_number(a, x, b, y);
    assert(x[0] == y[0]);
    if h > 0 {
        assert(minutes_text(m) =~= x.subrange(2, x.len() as int));
        assert(minutes_text(n) =~= y.subrange(2, y.len() as int));
        assert(minutes_text(m) =~= decimal(m as nat) + seq![' '] + seq!['m', 'i', 'n']);
        assert(minutes_text(n) =~= decimal(n as nat) + seq![' '] + seq!['m', 'i', 'n']);
        law_decimal_reads_back(m as nat, 0);
        law_decimal_reads_back(n as nat, 0);
        lemma_first_number(
            decimal(m as nat),
            seq!['m', 'i', 'n'],
            decimal(n as nat),
            seq!['m', 'i', 'n'],
        );
        law_decimal_reads_back(h as nat, 0);
        law_decimal_reads_back(i as nat, 0);
    } else {
        law_decimal_reads_back(m as nat, 0);
        law_decimal_reads_back(n as nat, 0);
    }
}

/// The first number of hours and minutes in words, and what follows the space
/// behind it.
spec fn hour_parts(h: int, m: int) -> (Seq<char>, Seq<char>) {
    if h > 0 {
        (decimal(h as nat), seq!['h', ' '] + minutes_text(m))
    } else {
        (decimal(m as nat), seq!['m', 'i', 'n'])
    }
}

proof fn lemma_hour_parts(h: int, m: int)
    requires
        0 <= h,
        0 <= m,
    ensures
        hours_text(h) + minutes_text(m) == hour_parts(h, m).0 + seq![' '] + hour_parts(h, m).1,
        all_digits(hour_parts(h, m).0),
        hour_parts(h, m).0.len() >= 1,
        hour_parts(h, m).1.len() >= 2,
        hour_parts(h, m).1[0] == (if h > 0 {
            'h'
        } else {
            'm'
        }),
{
    reveal_strlit(" h ");
    reveal_strlit(" min");
    law_decimal_reads_back(h as nat, 0);
    law_decimal_reads_back(m as nat, 0);
    assert(hours_text(h) + minutes_text(m) =~= hour_parts(h, m).0 + seq![' '] + hour_parts(h, m).1);
}

/// The first number of a size in words, and what follows the space behind it.
spec fn size_parts(delta: int) -> (Seq<char>, Seq<char>) {
    let d = delta / 86400;
    let h = (delta % 86400) / 3600;
    let m = (delta % 3600) / 60;
    if d > 0 {
        (decimal(d as nat), seq!['d', ' '] + (hours_text(h) + minutes_text(m)))
    } else {
        hour_parts(h, m)
    }
}

proof fn lemma_size_parts(delta: int)
    requires
        delta >= 60,
    ensures
        size_text(delta) == size_parts(delta).0 + seq![' '] + size_parts(delta).1,
        all_digits(size_parts(delta).0),
        size_parts(delta).0.len() >= 1,
        size_parts(delta).1.len() >= 2,
        (size_parts(delta).1[0] == 'd') == (delta / 86400 > 0),
        is_digit(size_text(delta)[0]),
{
    let d = delta / 86400;
    let h = (delta % 86400) / 3600;
    let m = (delta % 3600) / 60;
    law_size_adds_up(delta);
    reveal_strlit(" d ");
    law_decimal_reads_back(d as nat, 0);
    lemma_hour_parts(h, m);
    if d > 0 {
        assert(size_text(delta) =~= size_parts(delta).0 + seq![' '] + size_parts(delta).1);
    } else {
        assert(size_text(delta) =~= hours_text(h) + minutes_text(m));
    }
    assert(size_text(delta)[0] == size_parts(delta).0[0]);
}

/// The size of a change is told to the minute: two sizes of a minute or more read
/// the same exactly when they are the same number of whole minutes.
pub proof fn law_size_tells_minutes(p: int, q: int)
    requires
        p >= 60,
        q >= 60,
    ensures
        size_text(p) == size_text(q) <==> p / 60 == q / 60,
{
    law_size_adds_up(p);
    law_size_adds_up(q);
    if size_text(p) == size_text(q) {
        lemma_size_parts(p);
        lemma_size_parts(q);
        let (a, x) = size_parts(p);
        let (b, y) = size_parts(q);
        lemma_first_number(a, x, b, y);
        let (h, m) = ((p % 86400) / 3600, (p % 3600) / 60);
        let (i, n) = ((q % 86400) / 3600, (q % 3600) / 60);
        if p / 86400 > 0 {
            law_decimal_reads_back((p / 86400) as nat, 0);
            law_decimal_reads_back((q / 86400) as nat, 0);
            assert(x.subrange(2, x.len() as int) =~= hours_text(h) + minutes_text(m));
            assert(y.subrange(2, y.len() as int) =~= hours_text(i) + minutes_text(n));
        } else {
            assert(size_text(p) =~= hours_text(h) + minutes_text(m));
            assert(size_text(q) =~= hours_text(i) + minutes_text(n));
        }
        lemma_hours_and_minutes(h, m, i, n);
    }
    if p / 60 == q / 60 {
        let (d, h, m) = (p / 86400, (p % 86400) / 3600, (p % 3600) / 60);
        lemma_split(p, d, h, m);
        assert(is_told_as(q, d, h, m));
        lemma_split(q, d, h, m);
    }
}

/// The card says "No change." exactly below a minute.
pub proof fn law_no_change_below_a_minute(delta: int, threshold_sec: u32)
    ensures
        summary_text(delta, threshold_sec) == "No change."@ <==> -60 < delta < 60,
{
    reveal_strlit("No change.");
    if magnitude(delta) >= 60 {
        lemma_size_parts(magnitude(delta));
        assert(summary_text(delta, threshold_sec)[0] == size_text(magnitude(delta))[0]);
        assert("No change."@[0] == 'N');
    }
}

proof fn lemma_ending(delta: int, threshold_sec: u32)
    ensures
        ({
            let e = ending_text(delta, threshold_sec);
            &&& e.len() >= 3
            &&& e[e.len() - 3] == (if needs_restart(delta, threshold_sec) {
                'i'
            } else {
                'r'
            })
        }),
{
    reveal_strlit(" \u{2014} the system will restart to apply it.");
    reveal_strlit(" \u{2014} no restart.");
}

proof fn lemma_direction(delta: int)
    ensures
        ({
            let e = direction_text(delta);
            &&& e.len() >= 5
            &&& e[e.len() - 5] == (if delta >= 0 {
                'r'
            } else {
                'k'
            })
        }),
{
    reveal_strlit(" forward");
    reveal_strlit(" backward");
}

proof fn lemma_cut_end(a: Seq<char>, b: Seq<char>, end: Seq<char>)
    requires
        a + end == b + end,
    ensures
        a == b,
{
    assert(a.len() == (a + end).len() - end.len());
    assert(b.len() == (b + end).len() - end.len());
    assert((a + end).subrange(0, a.len() as int) =~= a);
    assert((b + end).subrange(0, b.len() as int) =~= b);
}

/// What the card says of a change of a minute or more tells how large it is, to
/// the minute, which way it goes, and whether it restarts the machine: two
/// changes of which it says the same agree in all three.
pub proof fn law_summary_tells_change(p: int, q: int, threshold_sec: u32)
    requires
        p >= 60 || p <= -60,
        q >= 60 || q <= -60,
        summary_text(p, threshold_sec) == summary_text(q, threshold_sec),
    ensures
        (if p >= 0 {
            p
        } else {
            -p
        }) / 60 == (if q >= 0 {
            q
        } else {
            -q
        }) / 60,
        p >= 0 <==> q >= 0,
        (p >= threshold_sec || -p >= threshold_sec) <==> (q >= threshold_sec || -q
            >= threshold_sec),
{
    let s = summary_text(p, threshold_sec);
    let t = summary_text(q, threshold_sec);
    lemma_ending(p, threshold_sec);
    lemma_ending(q, threshold_sec);
    let end = ending_text(p, threshold_sec);
    let end2 = ending_text(q, threshold_sec);
    assert(s[s.len() - 3] == end[end.len() - 3]);
    assert(t[t.len() - 3] == end2[end2.len() - 3]);
    let a = size_text(magnitude(p)) + direction_text(p);
    let b = size_text(magnitude(q)) + direction_text(q);
    lemma_cut_end(a, b, end);
    lemma_direction(p);
    lemma_direction(q);
    let way = direction_text(p);
    let way2 = direction_text(q);
    assert(a[a.len() - 5] == way[way.len() - 5]);
    assert(b[b.len() - 5] == way2[way2.len() - 5]);
    lemma_cut_end(size_text(magnitude(p)), size_text(magnitude(q)), way);
    law_size_tells_minutes(magnitude(p), magnitude(q));
}

/// How far two clocks are apart, in seconds, whichever is ahead.
pub open spec fn seconds_apart(now: int, target: int) -> int {
    if target >= now {
        target - now
    } else {
        now - target
    }
}

/// Whether `d` days, `h` hours and `m` minutes are `secs` seconds, but for less than
/// a minute.
pub open spec fn is_told_as(secs: int, d: int, h: int, m: int) -> bool {
    &&& 0 <= d
    &&& 0 <= h < 24
    &&& 0 <= m < 60
    &&& d * 86400 + h * 3600 + m * 60 <= secs < d * 86400 + h * 3600 + m * 60 + 60
}

/// Days, hours and minutes in words: zero days and zero hours are left out, minutes
/// never are.
pub open spec fn in_words(d: int, h: int, m: int) -> Seq<char> {
    (if d > 0 {
        decimal(d as nat) + " d "@
    } else {
        Seq::empty()
    }) + (if h > 0 {
        decimal(h as nat) + " h "@
    } else {
        Seq::empty()
    }) + (decimal(m as nat) + " min"@)
}

/// A size of a minute or more is told as the days, hours and minutes that it is;
/// below that it is told as under a minute.
pub proof fn law_size_in_words(secs: int, d: int, h: int, m: int)
    ensures
        secs < 60 ==> size_text(secs) == "under a minute"@,
        secs >= 60 && is_told_as(secs, d, h, m) ==> size_text(secs) == in_words(d, h, m),
{
    if secs >= 60 {
        lemma_split(secs, d, h, m);
    }
}

/// On any card, open or closed, a change restarts the machine exactly if the two
/// clocks are the threshold or more apart, either way, and there is "No change."
/// exactly if they are less than a minute apart.
pub proof fn law_change_is_the_distance(c: SetTimeView, now: int, target: int)
    ensures
        ({
            let after = c.next(CardEvent::Recompute(Some(now), Some(target)));
            &&& after.restarts <==> (target - now >= c.threshold_sec || now - target
                >= c.threshold_sec)
            &&& after.sensitive <==> (target - now < c.threshold_sec && now - target
                < c.threshold_sec)
            &&& after.summary == "No change."@ <==> -60 < target - now < 60
        }),
{
    law_no_change_below_a_minute(target - now, c.threshold_sec);
}

/// On any card, what is said of a change of a minute or more is the days, hours and
/// minutes that the two clocks are apart, which way, and whether it takes a restart,
/// in these words.
pub proof fn law_summary_in_words(c: SetTimeView, now: int, target: int, d: int, h: int, m: int)
    requires
        target - now >= 60 || now - target >= 60,
        is_told_as(seconds_apart(now, target), d, h, m),
    ensures
        c.next(CardEvent::Recompute(Some(now), Some(target))).summary == in_words(d, h, m) + (
        if target >= now {
            " forward"@
        } else {
            " backward"@
        }) + (if target - now >= c.threshold_sec || now - target >= c.threshold_sec {
            " \u{2014} the system will restart to apply it."@
        } else {
            " \u{2014} no restart."@
        }),
{
    law_size_in_words(seconds_apart(now, target), d, h, m);
}

/// On any card, the button says what a press does and, for a change of a minute or
/// more, the days, hours and minutes that the two clocks are apart.
pub proof fn law_label_in_words(c: SetTimeView, now: int, target: int, d: int, h: int, m: int)
    requires
        is_told_as(seconds_apart(now, target), d, h, m),
    ensures
        ({
            let action = if target - now >= c.threshold_sec || now - target >= c.threshold_sec {
                "Set & restart"@
            } else {
                "Set"@
            };
            let label = c.next(CardEvent::Recompute(Some(now), Some(target))).label;
            &&& -60 < target - now < 60 ==> label == action
            &&& !(-60 < target - now < 60) ==> label == action + " ("@ + in_words(d, h, m) + ")"@
        }),
{
    law_size_in_words(seconds_apart(now, target), d, h, m);
    let action = action_text(target - now, c.threshold_sec);
    let label = label_text(target - now, c.threshold_sec);
    if -60 < target - now < 60 {
        assert(label =~= action);
    } else {
        assert(label =~= action + " ("@ + in_words(d, h, m) + ")"@);
    }
}

/// Whether `c` stands nowhere in `s`.
spec fn lacks(s: Seq<char>, c: char) -> bool {
    forall|k: int| 0 <= k < s.len() ==> #[trigger] s[k] != c
}

proof fn lemma_lacks_both(a: Seq<char>, b: Seq<char>, c: char)
    requires
        lacks(a, c),
        lacks(b, c),
    ensures
        lacks(a + b, c),
{
}

proof fn lemma_decimal_lacks(n: nat, c: char)
    requires
        !is_digit(c),
    ensures
        lacks(decimal(n), c),
{
    law_decimal_reads_back(n, 0);
}

/// Words for a size hold neither of the letters by which the two directions are told
/// apart.
proof fn lemma_words_lack(d: int, h: int, m: int, c: char)
    requires
        c == 'f' || c == 'k',
    ensures
        lacks(in_words(d, h, m), c),
{
    reveal_strlit(" d ");
    reveal_strlit(" h ");
    reveal_strlit(" min");
    lemma_decimal_lacks(d as nat, c);
    lemma_decimal_lacks(h as nat, c);
    lemma_decimal_lacks(m as nat, c);
    lemma_lacks_both(decimal(d as nat), " d "@, c);
    lemma_lacks_both(decimal(h as nat), " h "@, c);
    lemma_lacks_both(decimal(m as nat), " min"@, c);
    let days = if d > 0 {
        decimal(d as nat) + " d "@
    } else {
        Seq::empty()
    };
    let hours = if h > 0 {
        decimal(h as nat) + " h "@
    } else {
        Seq::empty()
    };
    lemma_lacks_both(days, hours, c);
    lemma_lacks_both(days + hours, decimal(m as nat) + " min"@, c);
}

proof fn lemma_lacking_hides(whole: Seq<char>, part: Seq<char>, c: char, at: int)
    requires
        lacks(whole, c),
        0 <= at < part.len(),
        part[at] == c,
    ensures
        !shows(whole, part),
{
    if shows(whole, part) {
        let (before, after) = choose|before: Seq<char>, after: Seq<char>|
            whole == #[trigger] (before + part + after);
        assert(whole[before.len() + at] == c);
    }
}

/// On any card, a change of a minute or more is told as going forward exactly if the
/// chosen time is ahead of the wall clock, and backward exactly if it is behind.
pub proof fn law_summary_tells_direction(c: SetTimeView, now: int, target: int)
    requires
        target - now >= 60 || now - target >= 60,
    ensures
        ({
            let summary = c.next(CardEvent::Recompute(Some(now), Some(target))).summary;
            &&& shows(summary, " forward"@) <==> target > now
            &&& shows(summary, " backward"@) <==> target < now
        }),
{
    let secs = seconds_apart(now, target);
    let (d, h, m) = (secs / 86400, (secs % 86400) / 3600, (secs % 3600) / 60);
    lemma_split(secs, d, h, m);
    law_summary_in_words(c, now, target, d, h, m);
    let words = in_words(d, h, m);
    let end = if target - now >= c.threshold_sec || now - target >= c.threshold_sec {
        " \u{2014} the system will restart to apply it."@
    } else {
        " \u{2014} no restart."@
    };
    let summary = c.next(CardEvent::Recompute(Some(now), Some(target))).summary;
    reveal_strlit(" forward");
    reveal_strlit(" backward");
    reveal_strlit(" \u{2014} the system will restart to apply it.");
    reveal_strlit(" \u{2014} no restart.");
    if target > now {
        assert(summary == words + " forward"@ + end);
        lemma_words_lack(d, h, m, 'k');
        lemma_lacks_both(words, " forward"@, 'k');
        lemma_lacks_both(words + " forward"@, end, 'k');
        lemma_lacking_hides(summary, " backward"@, 'k', 4);
    } else {
        assert(summary == words + " backward"@ + end);
        lemma_words_lack(d, h, m, 'f');
        lemma_lacks_both(words, " backward"@, 'f');
        lemma_lacks_both(words + " backward"@, end, 'f');
        lemma_lacking_hides(summary, " forward"@, 'f', 1);
    }
}

/// Working a card out changes what it says, what stands on its button, whether that
/// restarts and is live, and the number of announcements; nothing else.
pub proof fn law_recompute_leaves_the_rest(c: SetTimeView, now: Option<int>, target: Option<int>)
    ensures
        ({
            let after = c.next(CardEvent::Recompute(now, target));
            &&& after == (SetTimeView {
                summary: after.summary,
                label: after.label,
                restarts: after.restarts,
                sensitive: after.sensitive,
                generation: after.generation,
                ..c
            })
            &&& now is None || target is None ==> after == c
        }),
{
}

/// Clock readings are taken as they are, to the second.
pub proof fn law_readings_as_they_are(t: i64)
    ensures
        as_int(Some(t)) == Some(t as int),
        as_int(None) is None,
{
}

/// In every state of a card the chosen minute is that of the calendar and the two
/// steppers, with the calendar's months, which count from 0, counted from 1.
pub proof fn law_chosen(c: SetTimeView, date: CalendarDate)
    requires
        date.month < i32::MAX,
        i32::MIN <= c.hour.value <= i32::MAX,
        i32::MIN <= c.minute.value <= i32::MAX,
    ensures
        c.chosen(date).year == date.year,
        c.chosen(date).month == date.month + 1,
        c.chosen(date).day == date.day,
        c.chosen(date).hour == c.hour.value,
        c.chosen(date).minute == c.minute.value,
{
}

/// In every state of a card, whether or not it announces a restart, the line that a
/// press sends reads back, field by field, as the calendar's day and the steppers'
/// hour and minute.
pub proof fn law_line_reads_back(c: SetTimeView, date: CalendarDate)
    requires
        0 <= date.year <= 9999,
        0 <= date.month < 99,
        0 <= date.day <= 99,
        0 <= c.hour.value <= 99,
        0 <= c.minute.value <= 99,
    ensures
        ({
            let line = wire_text(c.chosen(date)) + "\n"@;
            &&& line.len() == 17
            &&& number(line.subrange(0, 4)) == date.year
            &&& line[4] == '-'
            &&& number(line.subrange(5, 7)) == date.month + 1
            &&& line[7] == '-'
            &&& number(line.subrange(8, 10)) == date.day
            &&& line[10] == ' '
            &&& number(line.subrange(11, 13)) == c.hour.value
            &&& line[13] == ':'
            &&& number(line.subrange(14, 16)) == c.minute.value
            &&& line[16] == '\n'
            &&& forall|k: int|
                0 <= k < 16 && k != 4 && k != 7 && k != 10 && k != 13 ==> is_digit(
                    #[trigger] line[k],
                )
        }),
{
    let t = c.chosen(date);
    let s = wire_text(t);
    let line = s + "\n"@;
    reveal_strlit("\n");
    law_wire_format(t);
    assert(line.subrange(0, 4) =~= s.subrange(0, 4));
    assert(line.subrange(5, 7) =~= s.subrange(5, 7));
    assert(line.subrange(8, 10) =~= s.subrange(8, 10));
    assert(line.subrange(11, 13) =~= s.subrange(11, 13));
    assert(line.subrange(14, 16) =~= s.subrange(14, 16));
    assert forall|k: int|
        0 <= k < 16 && k != 4 && k != 7 && k != 10 && k != 13 implies is_digit(
        #[trigger] line[k],
    ) by {
        if k < 4 {
            assert(s.subrange(0, 4)[k] == line[k]);
        } else if k < 7 {
            assert(s.subrange(5, 7)[k - 5] == line[k]);
        } else if k < 10 {
            assert(s.subrange(8, 10)[k - 8] == line[k]);
        } else if k < 13 {
            assert(s.subrange(11, 13)[k - 11] == line[k]);
        } else {
            assert(s.subrange(14, 16)[k - 14] == line[k]);
        }
    }
}

/// Whatever the fields are, they stand on the wire in this order, padded to four and
/// to two digits, with these characters between them.
pub proof fn law_wire_order(t: LocalTime)
    ensures
        wire_text(t) == padded(t.year as int, 4) + seq!['-'] + padded(t.month as int, 2) + seq!['-']
            + padded(t.day as int, 2) + seq![' '] + padded(t.hour as int, 2) + seq![':'] + padded(
            t.minute as int,
            2,
        ),
{
    reveal_strlit("-");
    reveal_strlit(" ");
    reveal_strlit(":");
    assert("-"@ =~= seq!['-']);
    assert(" "@ =~= seq![' ']);
    assert(":"@ =~= seq![':']);
}

/// A press of a stepper of any card, open or closed and in whatever state, turns that
/// stepper's clock face and touches nothing else: the hour goes on by `by` modulo 24,
/// the minute modulo 60.
pub proof fn law_press_turns_one_dial(
    id: u64,
    host: Seq<char>,
    port: u16,
    threshold_sec: u32,
    events: Seq<CardEvent>,
    by: int,
)
    ensures
        ({
            let c = run(fresh(id, host, port, threshold_sec), events);
            let hour = c.next(CardEvent::Bump(Dial::Hour, by));
            let minute = c.next(CardEvent::Bump(Dial::Minute, by));
            &&& hour.hour.value == (c.hour.value + by) % 24
            &&& hour == (SetTimeView {
                hour: StepperView { value: hour.hour.value, ..c.hour },
                ..c
            })
            &&& minute.minute.value == (c.minute.value + by) % 60
            &&& minute == (SetTimeView {
                minute: StepperView { value: minute.minute.value, ..c.minute },
                ..c
            })
        }),
{
    let start = fresh(id, host, port, threshold_sec);
    let c = run(start, events);
    law_settings_never_change(start, events);
    law_press_turns(c, by);
}

/// The same of any card whose steppers go from 0 to 23 and from 0 to 59.
pub proof fn law_press_turns(c: SetTimeView, by: int)
    requires
        c.hour.wrap && c.hour.lo == 0 && c.hour.hi == 23,
        c.minute.wrap && c.minute.lo == 0 && c.minute.hi == 59,
    ensures
        c.next(CardEvent::Bump(Dial::Hour, by)) == (SetTimeView {
            hour: StepperView { value: (c.hour.value + by) % 24, ..c.hour },
            ..c
        }),
        c.next(CardEvent::Bump(Dial::Minute, by)) == (SetTimeView {
            minute: StepperView { value: (c.minute.value + by) % 60, ..c.minute },
            ..c
        }),
{
    law_only_the_value_changes(c.hour, by, 0);
    law_only_the_value_changes(c.minute, by, 0);
    assert(c.hour.hi - c.hour.lo + 1 == 24);
    assert(c.minute.hi - c.minute.lo + 1 == 60);
}

/// Whatever has happened to a card, its two readouts are two digits each that read as
/// the hour and the minute.
pub proof fn law_readouts_read_as_the_time(
    id: u64,
    host: Seq<char>,
    port: u16,
    threshold_sec: u32,
    events: Seq<CardEvent>,
)
    requires
        forall|k: int| 0 <= k < events.len() ==> clock_is_sane(#[trigger] events[k]),
    ensures
        ({
            let c = run(fresh(id, host, port, threshold_sec), events);
            &&& c.hour.readout().len() == 2
            &&& all_digits(c.hour.readout())
            &&& number(c.hour.readout()) == c.hour.value
            &&& c.minute.readout().len() == 2
            &&& all_digits(c.minute.readout())
            &&& number(c.minute.readout()) == c.minute.value
        }),
{
    law_always_a_time_of_day(id, host, port, threshold_sec, events);
    let c = run(fresh(id, host, port, threshold_sec), events);
    law_two_digit_readout(c.hour);
    law_two_digit_readout(c.minute);
}

/// The dial of the hour is the hour stepper, and that of the minute the other.
pub proof fn law_dials(c: SetTimeView)
    ensures
        c.dial(Dial::Hour) == c.hour,
        c.dial(Dial::Minute) == c.minute,
{
}

/// A new card is closed and says nothing yet; its button says "Set" and is live; its
/// steppers stand at 0, and turn from 0 to 23 and from 0 to 59.
pub proof fn law_new_card(id: u64, host: Seq<char>, port: u16, threshold_sec: u32)
    ensures
        ({
            let c = fresh(id, host, port, threshold_sec);
            &&& c.id == id && c.host == host && c.port == port && c.threshold_sec == threshold_sec
            &&& !c.open && !c.restarts && c.sensitive
            &&& c.summary.len() == 0
            &&& c.label == "Set"@
            &&& c.generation == 0
            &&& c.hour.caption == "hour"@ && c.minute.caption == "minute"@
            &&& c.hour.wrap && c.hour.lo == 0 && c.hour.hi == 23 && c.hour.value == 0
            &&& c.minute.wrap && c.minute.lo == 0 && c.minute.hi == 59 && c.minute.value == 0
        }),
{
}

/// An opened card stands at the hour and the minute of the wall clock, where that
/// could be read, and is otherwise as it was.
pub proof fn law_opened_at_the_clock(c: SetTimeView, now: LocalTime)
    ensures
        c.next(CardEvent::Opened(Some(now))) == (SetTimeView {
            hour: StepperView { value: now.hour as int, ..c.hour },
            minute: StepperView { value: now.minute as int, ..c.minute },
            ..c
        }),
        c.next(CardEvent::Opened(None)) == c,
{
    law_only_the_value_changes(c.hour, 0, now.hour as int);
    law_only_the_value_changes(c.minute, 0, now.minute as int);
}

/// A timer makes the button live exactly if it was started for the last announcement
/// and the card still announces a restart; it changes nothing else.
pub proof fn law_timer(c: SetTimeView, generation: u64)
    ensures
        c.next(CardEvent::Armed(generation)) == (SetTimeView {
            sensitive: c.sensitive || (c.restarts && generation == c.generation),
            ..c
        }),
{
}

/// A card is told to be open or closed: there is a notice exactly if it was not, and
/// it says which.
pub proof fn law_notice_of_a_change(was_open: bool, open: bool)
    ensures
        toggle_notice(was_open, open) is None <==> was_open == open,
        toggle_notice(was_open, open) == Some(Toggled::Opened) <==> !was_open && open,
        toggle_notice(was_open, open) == Some(Toggled::Closed) <==> was_open && !open,
{
}

/// Two cards are the same exactly if they have the same id.
pub proof fn law_same_is_by_id(c: SetTimeView, d: SetTimeView)
    ensures
        same_card(c, d) <==> c.id == d.id,
{
}

/// A report is meant to the letter: its text is the whole of what the operator is
/// told.
pub proof fn law_report_to_the_letter(text: String)
    ensures
        Report::Error(text)@ == ReportView::Error(text@),
        Report::Info(text)@ == ReportView::Info(text@),
        Report::RequestRestart@ == ReportView::RequestRestart,
{
}

} // verus!
