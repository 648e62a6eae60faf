//! The operator's clock-set card.
//!
//! A calendar for the date, then two steppers, hour and minute, for the time.
//! One primary button that shows the size of the change and, at or above a
//! threshold, says that the machine will restart and goes dead for a moment so
//! that a double tap cannot reach it; a line above it that says the same in full.
//! On confirm the card opens a conversation with the clock service.
//!
//! The card is a state and this module its transitions. The caller reads the
//! wall clock and the calendar, runs the arm timer and the conversation, and
//! shows what the card holds.
use vstd::prelude::*;

use crate::exchange::{send, Exchange, ExchangeView, Outcome, OutcomeView, Stage};
use crate::laws::law_line_reads_back;
use crate::stepper::{stepper, Moved, Stepper, StepperView, TwoDigit};
use crate::text::{decimal, number, padded, push_decimal, push_padded};

verus! {

/// The primary button stays dead this long after it flips into "& restart", so
/// that a correction that will reboot cannot be reached by a double tap.
pub const ARM_MS: u32 = 600;

/// A day as the calendar gives it: its months count from 0.
#[derive(Clone, Copy, PartialEq, Eq, Structural, Debug)]
pub struct CalendarDate {
    pub year: i32,
    pub month: i32,
    pub day: i32,
}

/// A minute of local time. Months count from 1.
#[derive(Clone, Copy, PartialEq, Eq, Structural, Debug)]
pub struct LocalTime {
    pub year: i32,
    pub month: i32,
    pub day: i32,
    pub hour: i32,
    pub minute: i32,
}

/// One of the card's two steppers.
#[derive(Clone, Copy, PartialEq, Eq, Structural, Debug)]
pub enum Dial {
    Hour,
    Minute,
}

/// An order to start a timer: after `after_ms` milliseconds, hand `generation`
/// to [`SetTime::armed`].
#[derive(Clone, Copy, PartialEq, Eq, Structural, Debug)]
pub struct Arm {
    pub generation: u64,
    pub after_ms: u32,
}

/// The notice that a card was opened or closed, for whoever listens for that.
#[must_use]
#[derive(Clone, Copy, PartialEq, Eq, Structural, Debug)]
pub enum Toggled {
    /// It was opened. This is also an order: put the calendar at the wall clock,
    /// where that can be read, hand both to [`SetTime::opened`], and carry out
    /// the order that comes back.
    Opened,
    /// It was closed.
    Closed,
}

/// An order to hand the seconds since the epoch of the wall clock and of `target`
/// to [`SetTime::recompute`].
#[must_use]
#[derive(Clone, Copy, PartialEq, Eq, Structural, Debug)]
pub struct Recompute {
    pub target: LocalTime,
}

/// What the operator is told once a conversation is over, or what to do in its
/// place.
#[derive(Debug)]
pub enum Report {
    Error(String),
    Info(String),
    /// Ask for the restart screen.
    RequestRestart,
}

pub ghost enum ReportView {
    Error(Seq<char>),
    Info(Seq<char>),
    RequestRestart,
}

impl View for Report {
    type V = ReportView;

    open spec fn view(&self) -> ReportView {
        match *self {
            Report::Error(text) => ReportView::Error(text@),
            Report::Info(text) => ReportView::Info(text@),
            Report::RequestRestart => ReportView::RequestRestart,
        }
    }
}

/// The clock-set card of one output.
#[derive(Debug)]
pub struct SetTime {
    id: u64,
    host: String,
    port: u16,
    threshold_sec: u32,
    open: bool,
    hour: Stepper<TwoDigit>,
    minute: Stepper<TwoDigit>,
    summary: String,
    label: String,
    restarts: bool,
    sensitive: bool,
    /// Bumped every time a restart is announced. An arm timer does nothing once
    /// another announcement has taken the next number, nor, whatever its number,
    /// once the button no longer says "& restart".
    generation: u64,
}

pub ghost struct SetTimeView {
    pub id: u64,
    pub host: Seq<char>,
    pub port: u16,
    pub threshold_sec: u32,
    pub open: bool,
    pub hour: StepperView<TwoDigit>,
    pub minute: StepperView<TwoDigit>,
    pub summary: Seq<char>,
    /// What stands on the primary button.
    pub label: Seq<char>,
    pub restarts: bool,
    pub sensitive: bool,
    pub generation: u64,
}

impl View for SetTime {
    type V = SetTimeView;

    closed spec fn view(&self) -> SetTimeView {
        SetTimeView {
            id: self.id,
            host: self.host@,
            port: self.port,
            threshold_sec: self.threshold_sec,
            open: self.open,
            hour: self.hour@,
            minute: self.minute@,
            summary: self.summary@,
            label: self.label@,
            restarts: self.restarts,
            sensitive: self.sensitive,
            generation: self.generation,
        }
    }
}

/// Where cards get the ids from by which they are told apart.
#[derive(Debug)]
pub struct CardIds {
    next: u64,
}

impl View for CardIds {
    type V = Set<u64>;

    /// The ids handed out so far.
    closed spec fn view(&self) -> Set<u64> {
        Set::new(|id: u64| id < self.next)
    }
}

impl CardIds {
    /// How many ids were handed out.
    pub closed spec fn count(&self) -> nat {
        self.next as nat
    }

    /// Whether the ids have run out.
    pub open spec fn spent(&self) -> bool {
        self.count() >= u64::MAX
    }

    /// A source that has handed out none.
    pub fn new() -> (r: CardIds)
        ensures
            r@ == Set::<u64>::empty(),
            r.count() == 0,
    {
        let r = CardIds { next: 0 };
        assert(r@ =~= Set::<u64>::empty());
        r
    }

    /// Whether the ids have run out.
    pub fn is_spent(&self) -> (r: bool)
        ensures
            r == self.spent(),
    {
        self.next == u64::MAX
    }

    /// An id that was not handed out before.
    pub fn next(&mut self) -> (id: u64)
        requires
            !old(self).spent(),
        ensures
            !old(self)@.contains(id),
            final(self)@ == old(self)@.insert(id),
            final(self).count() == old(self).count() + 1,
    {
        let id: u64 = self.next;
        self.next = id + 1;
        assert(self@ =~= old(self)@.insert(id));
        id
    }
}

/// What can happen to a card.
pub ghost enum CardEvent {
    /// It is told to be open or closed.
    SetOpen(bool),
    /// It has just opened, and this is the wall clock, if that could be read.
    Opened(Option<LocalTime>),
    /// A stepper is moved.
    Bump(Dial, int),
    /// A control has moved: the seconds since the epoch of the wall clock and
    /// of the chosen time, as far as there are any.
    Recompute(Option<int>, Option<int>),
    /// An arm timer runs out.
    Armed(u64),
    /// The primary button is pressed.
    Clicked,
    /// A conversation ends, in success or not.
    Finished(bool),
}

/// The size of a change of `delta` seconds in words: days, hours and minutes,
/// where zero days and zero hours are left out.
pub open spec fn size_text(delta: int) -> Seq<char> {
    if delta < 60 {
        "under a minute"@
    } else {
        days_text(delta / 86400) + hours_text((delta % 86400) / 3600) + minutes_text(
            (delta % 3600) / 60,
        )
    }
}

pub open spec fn days_text(d: int) -> Seq<char> {
    if d > 0 {
        decimal(d as nat) + " d "@
    } else {
        Seq::empty()
    }
}

pub open spec fn hours_text(h: int) -> Seq<char> {
    if h > 0 {
        decimal(h as nat) + " h "@
    } else {
        Seq::empty()
    }
}

pub open spec fn minutes_text(m: int) -> Seq<char> {
    decimal(m as nat) + " min"@
}

/// The size of a change, whichever way it goes.
pub open spec fn magnitude(delta: int) -> int {
    if delta >= 0 {
        delta
    } else {
        -delta
    }
}

/// Whether a change of `delta` seconds restarts the machine.
pub open spec fn needs_restart(delta: int, threshold_sec: u32) -> bool {
    magnitude(delta) >= threshold_sec
}

/// What the card says about a change of `delta` seconds.
pub open spec fn summary_text(delta: int, threshold_sec: u32) -> Seq<char> {
    if magnitude(delta) < 60 {
        "No change."@
    } else {
        size_text(magnitude(delta)) + direction_text(delta) + ending_text(delta, threshold_sec)
    }
}

pub open spec fn direction_text(delta: int) -> Seq<char> {
    if delta >= 0 {
        " forward"@
    } else {
        " backward"@
    }
}

pub open spec fn ending_text(delta: int, threshold_sec: u32) -> Seq<char> {
    if needs_restart(delta, threshold_sec) {
        " \u{2014} the system will restart to apply it."@
    } else {
        " \u{2014} no restart."@
    }
}

/// What stands on the primary button for a change of `delta` seconds: what a
/// press does, and from a minute on how large the change is.
pub open spec fn label_text(delta: int, threshold_sec: u32) -> Seq<char> {
    action_text(delta, threshold_sec) + (if magnitude(delta) < 60 {
        Seq::empty()
    } else {
        " ("@ + size_text(magnitude(delta)) + ")"@
    })
}

pub open spec fn action_text(delta: int, threshold_sec: u32) -> Seq<char> {
    if needs_restart(delta, threshold_sec) {
        "Set & restart"@
    } else {
        "Set"@
    }
}

/// A minute as it goes over the wire: `YYYY-MM-DD HH:MM`.
pub open spec fn wire_text(t: LocalTime) -> Seq<char> {
    padded(t.year as int, 4) + "-"@ + padded(t.month as int, 2) + "-"@ + padded(t.day as int, 2)
        + " "@ + padded(t.hour as int, 2) + ":"@ + padded(t.minute as int, 2)
}

/// A new card: closed, both steppers at 0, nothing said yet, the button live.
pub open spec fn fresh(id: u64, host: Seq<char>, port: u16, threshold_sec: u32) -> SetTimeView {
    SetTimeView {
        id,
        host,
        port,
        threshold_sec,
        open: false,
        hour: StepperView {
            caption: "hour"@,
            lo: 0,
            hi: 23,
            wrap: true,
            fmt: TwoDigit,
            value: 0,
        },
        minute: StepperView {
            caption: "minute"@,
            lo: 0,
            hi: 59,
            wrap: true,
            fmt: TwoDigit,
            value: 0,
        },
        summary: Seq::empty(),
        label: "Set"@,
        restarts: false,
        sensitive: true,
        generation: 0,
    }
}

impl SetTimeView {
    pub open spec fn dial(self, dial: Dial) -> StepperView<TwoDigit> {
        match dial {
            Dial::Hour => self.hour,
            Dial::Minute => self.minute,
        }
    }

    /// The minute that the calendar and the two steppers stand for.
    pub open spec fn chosen(self, date: CalendarDate) -> LocalTime {
        LocalTime {
            year: date.year,
            month: (date.month + 1) as i32,
            day: date.day,
            hour: self.hour.value as i32,
            minute: self.minute.value as i32,
        }
    }

    /// The card once it has worked out that the change is `delta` seconds.
    pub open spec fn showing(self, delta: int) -> SetTimeView {
        let restarts = needs_restart(delta, self.threshold_sec);
        SetTimeView {
            summary: summary_text(delta, self.threshold_sec),
            label: label_text(delta, self.threshold_sec),
            restarts,
            sensitive: !restarts,
            generation: if !restarts {
                self.generation
            } else if self.generation == u64::MAX {
                0
            } else {
                (self.generation + 1) as u64
            },
            ..self
        }
    }

    /// The card after `event`.
    pub open spec fn next(self, event: CardEvent) -> SetTimeView {
        match event {
            CardEvent::SetOpen(open) => SetTimeView { open, ..self },
            CardEvent::Opened(Some(now)) => SetTimeView {
                hour: self.hour.at(now.hour as int),
                minute: self.minute.at(now.minute as int),
                ..self
            },
            CardEvent::Opened(None) => self,
            CardEvent::Bump(Dial::Hour, by) => SetTimeView { hour: self.hour.bumped(by), ..self },
            CardEvent::Bump(Dial::Minute, by) => SetTimeView {
                minute: self.minute.bumped(by),
                ..self
            },
            CardEvent::Recompute(Some(now), Some(target)) => self.showing(target - now),
            CardEvent::Recompute(_, _) => self,
            CardEvent::Armed(generation) => if generation == self.generation && self.restarts {
                SetTimeView { sensitive: true, ..self }
            } else {
                self
            },
            CardEvent::Clicked => if self.open {
                SetTimeView { sensitive: false, ..self }
            } else {
                self
            },
            CardEvent::Finished(true) => SetTimeView { open: false, ..self },
            CardEvent::Finished(false) => SetTimeView { sensitive: true, ..self },
        }
    }
}

/// The notice of a card that was open or not being told to be `open`: there is one
/// exactly where that changes something.
pub open spec fn toggle_notice(was_open: bool, open: bool) -> Option<Toggled> {
    if was_open == open {
        None
    } else if open {
        Some(Toggled::Opened)
    } else {
        Some(Toggled::Closed)
    }
}

/// Whether two cards are one and the same, whatever state they are in.
pub open spec fn same_card(c: SetTimeView, d: SetTimeView) -> bool {
    c.id == d.id
}

/// The timer that a recomputation asks for, on a card that is `after` it.
pub open spec fn arm_order(after: SetTimeView, now: Option<i64>, target: Option<i64>) -> Option<
    Arm,
> {
    if now is Some && target is Some && after.restarts {
        Some(Arm { generation: after.generation, after_ms: ARM_MS })
    } else {
        None
    }
}

/// What is reported of the end of a conversation.
pub open spec fn report_of(outcome: OutcomeView) -> ReportView {
    match outcome {
        OutcomeView::Failed(why) => ReportView::Error(why),
        OutcomeView::ClockSet => ReportView::Info("Clock set."@),
        OutcomeView::Restart => ReportView::RequestRestart,
    }
}

pub open spec fn as_int(t: Option<i64>) -> Option<int> {
    match t {
        Some(t) => Some(t as int),
        None => None,
    }
}

/// `d h min` from a second count, omitting zero units, always at least minutes.
pub fn human(delta: i64) -> (r: String)
    ensures
        r@ == size_text(delta as int),
{
    if delta < 60 {
        return "under a minute".to_owned();
    }
    let secs: u64 = delta as u64;
    let d: u64 = secs / 86400;
    let h: u64 = (secs % 86400) / 3600;
    let m: u64 = (secs % 3600) / 60;
    let mut out = String::new();
    if d > 0 {
        push_decimal(&mut out, d);
        out.append(" d ");
    }
    assert(out@ =~= days_text(d as int));
    if h > 0 {
        push_decimal(&mut out, h);
        out.append(" h ");
    }
    assert(out@ =~= days_text(d as int) + hours_text(h as int));
    push_decimal(&mut out, m);
    out.append(" min");
    assert(out@ =~= days_text(d as int) + hours_text(h as int) + minutes_text(m as int));
    out
}

/// What the card says about a change of `delta` seconds.
fn summarize(delta: i64, threshold_sec: u32) -> (r: String)
    requires
        delta > i64::MIN,
    ensures
        r@ == summary_text(delta as int, threshold_sec),
{
    let mag: i64 = if delta >= 0 {
        delta
    } else {
        -delta
    };
    if mag < 60 {
        return "No change.".to_owned();
    }
    let mut out = human(mag);
    if delta >= 0 {
        out.append(" forward");
    } else {
        out.append(" backward");
    }
    if mag >= threshold_sec as i64 {
        out.append(" \u{2014} the system will restart to apply it.");
    } else {
        out.append(" \u{2014} no restart.");
    }
    out
}

/// What stands on the primary button for a change of `delta` seconds.
fn button_label(delta: i64, threshold_sec: u32) -> (r: String)
    requires
        delta > i64::MIN,
    ensures
        r@ == label_text(delta as int, threshold_sec),
{
    let mag: i64 = if delta >= 0 {
        delta
    } else {
        -delta
    };
    let mut out = (if mag >= threshold_sec as i64 {
        "Set & restart"
    } else {
        "Set"
    }).to_owned();
    if mag >= 60 {
        out.append(" (");
        out.append(human(mag).as_str());
        out.append(")");
    }
    assert(out@ =~= label_text(delta as int, threshold_sec));
    out
}

/// A minute as it goes over the wire: `YYYY-MM-DD HH:MM`.
pub fn wire(t: LocalTime) -> (r: String)
    ensures
        r@ == wire_text(t),
{
    let mut out = String::new();
    push_padded(&mut out, t.year, 4);
    out.append("-");
    push_padded(&mut out, t.month, 2);
    out.append("-");
    push_padded(&mut out, t.day, 2);
    out.append(" ");
    push_padded(&mut out, t.hour, 2);
    out.append(":");
    push_padded(&mut out, t.minute, 2);
    assert(out@ =~= wire_text(t));
    out
}

/// A new card, closed, for the clock service at `host`:`port` and a machine that
/// restarts on a correction of `threshold_sec` seconds or more. It is a card of
/// its own: its id is one that `ids` had not handed out.
pub fn build(host: &str, port: u16, threshold_sec: u32, ids: &mut CardIds) -> (r: SetTime)
    requires
        !old(ids).spent(),
    ensures
        r@ == fresh(r@.id, host@, port, threshold_sec),
        !old(ids)@.contains(r@.id),
        final(ids)@ == old(ids)@.insert(r@.id),
        final(ids).count() == old(ids).count() + 1,
{
    SetTime {
        id: ids.next(),
        host: host.to_owned(),
        port,
        threshold_sec,
        open: false,
        hour: stepper("hour", 0, 23, true, TwoDigit),
        minute: stepper("minute", 0, 59, true, TwoDigit),
        summary: String::new(),
        label: "Set".to_owned(),
        restarts: false,
        sensitive: true,
        generation: 0,
    }
}

impl SetTime {
    /// Opens the card; see [`SetTime::set_open`].
    pub fn open(&mut self) -> (toggled: Option<Toggled>)
        ensures
            final(self)@ == old(self)@.next(CardEvent::SetOpen(true)),
            toggled == toggle_notice(old(self)@.open, true),
    {
        self.set_open(true)
    }

    /// Closes the card; see [`SetTime::set_open`].
    pub fn close(&mut self) -> (toggled: Option<Toggled>)
        ensures
            final(self)@ == old(self)@.next(CardEvent::SetOpen(false)),
            toggled == toggle_notice(old(self)@.open, false),
    {
        self.set_open(false)
    }

    /// Whether the card is open.
    pub fn is_open(&self) -> (r: bool)
        ensures
            r == self@.open,
    {
        self.open
    }

    /// Opens or closes the card. What comes back, where that changes anything, is
    /// the notice of it and, for an opening, the order to start from the clock.
    pub fn set_open(&mut self, open: bool) -> (toggled: Option<Toggled>)
        ensures
            final(self)@ == old(self)@.next(CardEvent::SetOpen(open)),
            toggled == toggle_notice(old(self)@.open, open),
    {
        if self.open == open {
            None
        } else {
            self.open = open;
            Some(
                if open {
                    Toggled::Opened
                } else {
                    Toggled::Closed
                },
            )
        }
    }

    /// Whether this is the same card as `other`, whatever state the two are in.
    pub fn same_as(&self, other: &SetTime) -> (r: bool)
        ensures
            r == same_card(self@, other@),
    {
        self.id == other.id
    }

    /// The card has just opened: every open starts from the current clock, where
    /// that could be read. `date` is where the calendar stands by now. The card
    /// is due to be worked out again.
    pub fn opened(&mut self, now: Option<LocalTime>, date: CalendarDate) -> (r: Recompute)
        requires
            date.month < i32::MAX,
        ensures
            final(self)@ == old(self)@.next(CardEvent::Opened(now)),
            r.target == final(self)@.chosen(date),
    {
        if let Some(now) = now {
            self.hour.set(now.hour);
            self.minute.set(now.minute);
        }
        self.picked(date)
    }

    /// The calendar has moved to `date`. The card is due to be worked out again.
    pub fn picked(&self, date: CalendarDate) -> (r: Recompute)
        requires
            date.month < i32::MAX,
        ensures
            r.target == self@.chosen(date),
            r.target.year == date.year && r.target.month == date.month + 1,
            r.target.day == date.day,
            r.target.hour == self@.hour.value && r.target.minute == self@.minute.value,
    {
        Recompute { target: self.chosen(date) }
    }

    /// A `-` or a `+` is pressed: moves one of the steppers, and orders the card,
    /// as it is after the move, to be worked out again.
    pub fn press(&mut self, dial: Dial, by: i32, date: CalendarDate) -> (r: Recompute)
        requires
            old(self)@.dial(dial).can_bump(by as int),
            date.month < i32::MAX,
        ensures
            final(self)@ == old(self)@.next(CardEvent::Bump(dial, by as int)),
            r.target == final(self)@.chosen(date),
            r.target.hour == (if dial == Dial::Hour {
                old(self)@.hour.target(by as int)
            } else {
                old(self)@.hour.value
            }),
            r.target.minute == (if dial == Dial::Minute {
                old(self)@.minute.target(by as int)
            } else {
                old(self)@.minute.value
            }),
    {
        let notice = match dial {
            Dial::Hour => self.hour.bump(by),
            Dial::Minute => self.minute.bump(by),
        };
        self.notified(notice, date)
    }

    /// A stepper was moved: turns its notice into the order to work the card out
    /// again.
    fn notified(&self, _notice: Moved, date: CalendarDate) -> (r: Recompute)
        requires
            date.month < i32::MAX,
        ensures
            r.target == self@.chosen(date),
            r.target.hour == self@.hour.value && r.target.minute == self@.minute.value,
    {
        self.picked(date)
    }

    /// The minute that the calendar and the two steppers stand for.
    pub fn chosen(&self, date: CalendarDate) -> (r: LocalTime)
        requires
            date.month < i32::MAX,
        ensures
            r == self@.chosen(date),
            r.year == date.year && r.month == date.month + 1 && r.day == date.day,
            r.hour == self@.hour.value && r.minute == self@.minute.value,
    {
        LocalTime {
            year: date.year,
            month: date.month + 1,
            day: date.day,
            hour: self.hour.get(),
            minute: self.minute.get(),
        }
    }

    /// Works out what the card says and whether its button is live, from the
    /// seconds since the epoch of the wall clock and of the chosen minute. Where
    /// one of the two is missing the card stays as it is. What comes back is the
    /// timer to start, if any.
    pub fn recompute(&mut self, now: Option<i64>, target: Option<i64>) -> (arm: Option<Arm>)
        requires
            now matches Some(n) ==> target matches Some(t) ==> -i64::MAX <= t - n <= i64::MAX,
        ensures
            final(self)@ == old(self)@.next(CardEvent::Recompute(as_int(now), as_int(target))),
            arm == arm_order(final(self)@, now, target),
            now matches Some(n) ==> target matches Some(t) ==> (final(self)@.restarts <==> t - n
                >= old(self)@.threshold_sec || n - t >= old(self)@.threshold_sec),
            now matches Some(n) ==> target matches Some(t) ==> (arm is Some <==> t - n
                >= old(self)@.threshold_sec || n - t >= old(self)@.threshold_sec),
            now is None || target is None ==> arm is None && final(self)@ == old(self)@,
    {
        let Some(now) = now else {
            return None;
        };
        let Some(target) = target else {
            return None;
        };
        let delta: i64 = target - now;
        let mag: i64 = if delta >= 0 {
            delta
        } else {
            -delta
        };
        let restarts = mag >= self.threshold_sec as i64;
        self.summary = summarize(delta, self.threshold_sec);
        self.label = button_label(delta, self.threshold_sec);
        self.restarts = restarts;
        self.sensitive = !restarts;
        if restarts {
            self.generation = self.generation.wrapping_add(1);
            Some(Arm { generation: self.generation, after_ms: ARM_MS })
        } else {
            None
        }
    }

    /// The arm timer started for `generation` has run out. That makes the button
    /// live, unless the card has left the state the timer was started for.
    pub fn armed(&mut self, generation: u64)
        ensures
            final(self)@ == old(self)@.next(CardEvent::Armed(generation)),
    {
        if generation == self.generation && self.restarts {
            self.sensitive = true;
        }
    }

    /// The primary button is pressed while the calendar stands at `date`. On an
    /// open card that opens a conversation with the clock service and makes the
    /// button dead until it is over.
    pub fn clicked(&mut self, date: CalendarDate) -> (r: Option<Exchange>)
        requires
            old(self)@.open ==> date.month < i32::MAX,
        ensures
            final(self)@ == old(self)@.next(CardEvent::Clicked),
            r is Some <==> old(self)@.open,
            r matches Some(exchange) ==> exchange@ == (ExchangeView {
                host: old(self)@.host,
                port: old(self)@.port,
                line: wire_text(old(self)@.chosen(date)) + "\n"@,
                restarts: old(self)@.restarts,
                stage: Stage::Connecting,
            }),
            r matches Some(exchange) ==> 0 <= date.year <= 9999 && 0 <= date.month < 99 && 0
                <= date.day <= 99 && 0 <= old(self)@.hour.value <= 99 && 0
                <= old(self)@.minute.value <= 99 ==> {
                &&& exchange@.line.len() == 17
                &&& number(exchange@.line.subrange(0, 4)) == date.year
                &&& number(exchange@.line.subrange(5, 7)) == date.month + 1
                &&& number(exchange@.line.subrange(8, 10)) == date.day
                &&& number(exchange@.line.subrange(11, 13)) == old(self)@.hour.value
                &&& number(exchange@.line.subrange(14, 16)) == old(self)@.minute.value
            },
    {
        if !self.open {
            return None;
        }
        proof {
            if 0 <= date.year <= 9999 && 0 <= date.month < 99 && 0 <= date.day <= 99 && 0
                <= self@.hour.value <= 99 && 0 <= self@.minute.value <= 99 {
                law_line_reads_back(self@, date);
            }
        }
        let want = wire(self.chosen(date));
        self.sensitive = false;
        Some(send(self.host.as_str(), self.port, want.as_str(), self.restarts))
    }

    /// The conversation is over. Success closes the card, failure makes its
    /// button live again. What comes back is a notice, as from
    /// [`SetTime::set_open`], and what to report.
    pub fn finished(&mut self, outcome: Outcome) -> (r: (Option<Toggled>, Report))
        ensures
            final(self)@ == old(self)@.next(CardEvent::Finished(!(outcome is Failed))),
            r.0 == toggle_notice(old(self)@.open, final(self)@.open),
            r.1@ == report_of(outcome@),
    {
        match outcome {
            Outcome::Failed(why) => {
                self.sensitive = true;
                (None, Report::Error(why))
            },
            Outcome::ClockSet => (self.close(), Report::Info("Clock set.".to_owned())),
            Outcome::Restart => (self.close(), Report::RequestRestart),
        }
    }

    /// The hour stepper.
    pub fn hour(&self) -> (r: &Stepper<TwoDigit>)
        ensures
            r@ == self@.hour,
    {
        &self.hour
    }

    /// The minute stepper.
    pub fn minute(&self) -> (r: &Stepper<TwoDigit>)
        ensures
            r@ == self@.minute,
    {
        &self.minute
    }

    /// What the card says about the change.
    pub fn summary(&self) -> (r: &str)
        ensures
            r@ == self@.summary,
    {
        self.summary.as_str()
    }

    /// Whether confirming restarts the machine; the button is styled for it.
    pub fn restarts(&self) -> (r: bool)
        ensures
            r == self@.restarts,
    {
        self.restarts
    }

    /// What stands on the primary button.
    pub fn label(&self) -> (r: &str)
        ensures
            r@ == self@.label,
    {
        self.label.as_str()
    }

    /// Whether the primary button is live.
    pub fn sensitive(&self) -> (r: bool)
        ensures
            r == self@.sensitive,
    {
        self.sensitive
    }
}

} // verus!
