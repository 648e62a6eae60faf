//! One `- [ value ] +` control: a number with two ends that a press moves by
//! one.
use vstd::arithmetic::div_mod::{
    lemma_add_mod_noop, lemma_fundamental_div_mod, lemma_mod_add_multiples_vanish, lemma_mod_bound,
    lemma_small_mod,
};
use vstd::prelude::*;

use crate::text::{all_digits, law_padded, law_two_digits, number, padded, push_padded};

verus! {

/// How a control shows its value.
pub trait Format: Sized {
    /// What stands for `v`.
    spec fn text(&self, v: int) -> Seq<char>;

    /// What stands for `v`.
    fn format(&self, v: i32) -> (r: String)
        ensures
            r@ == self.text(v as int),
    ;
}

/// At least two digits.
#[derive(Clone, Copy, PartialEq, Eq, Structural, Debug)]
pub struct TwoDigit;

impl Format for TwoDigit {
    open spec fn text(&self, v: int) -> Seq<char> {
        padded(v, 2)
    }

    fn format(&self, v: i32) -> (r: String) {
        two_digit(v)
    }
}

/// The notice that a control was moved, whether or not that changed its value,
/// with the value it has now.
#[must_use]
#[derive(Clone, Copy, PartialEq, Eq, Structural, Debug)]
pub struct Moved {
    pub value: i32,
}

/// A control for a number from `lo` to `hi`. `wrap` rolls over the ends,
/// otherwise they clamp.
#[derive(Debug)]
pub struct Stepper<F> {
    caption: String,
    lo: i32,
    hi: i32,
    wrap: bool,
    fmt: F,
    value: i32,
}

pub ghost struct StepperView<F> {
    pub caption: Seq<char>,
    pub lo: int,
    pub hi: int,
    pub wrap: bool,
    pub fmt: F,
    pub value: int,
}

impl<F> View for Stepper<F> {
    type V = StepperView<F>;

    closed spec fn view(&self) -> StepperView<F> {
        StepperView {
            caption: self.caption@,
            lo: self.lo as int,
            hi: self.hi as int,
            wrap: self.wrap,
            fmt: self.fmt,
            value: self.value as int,
        }
    }
}

/// Whether `n` is an `i32`.
pub open spec fn fits(n: int) -> bool {
    i32::MIN <= n <= i32::MAX
}

impl<F: Format> StepperView<F> {
    /// What the control shows.
    pub open spec fn readout(self) -> Seq<char> {
        self.fmt.text(self.value)
    }
}

impl<F> StepperView<F> {
    /// How many values there are between the ends.
    pub open spec fn span(self) -> int {
        self.hi - self.lo + 1
    }

    /// Whether the value lies between the ends.
    pub open spec fn in_range(self) -> bool {
        self.lo <= self.value <= self.hi
    }

    /// The same control at another value.
    pub open spec fn at(self, value: int) -> StepperView<F> {
        StepperView { value, ..self }
    }

    /// The value that a move by `by` leads to.
    pub open spec fn target(self, by: int) -> int {
        if self.wrap {
            self.lo + (self.value - self.lo + by) % self.span()
        } else if self.value + by < self.lo {
            self.lo
        } else if self.value + by > self.hi {
            self.hi
        } else {
            self.value + by
        }
    }

    /// The control behind a move by `by`.
    pub open spec fn bumped(self, by: int) -> StepperView<F> {
        self.at(self.target(by))
    }

    /// The control behind all of `moves`, in order.
    pub open spec fn moved(self, moves: Seq<int>) -> StepperView<F>
        decreases moves.len(),
    {
        if moves.len() == 0 {
            self
        } else {
            self.moved(moves.drop_last()).bumped(moves.last())
        }
    }

    /// The values in the notices that `moves` give, in order.
    pub open spec fn notices(self, moves: Seq<int>) -> Seq<int>
        decreases moves.len(),
    {
        if moves.len() == 0 {
            Seq::empty()
        } else {
            self.notices(moves.drop_last()).push(
                self.moved(moves.drop_last()).bumped(moves.last()).value,
            )
        }
    }

    /// Whether the arithmetic of a move by `by` stays within `i32`. Every move
    /// by one of a wrapping control does whose value is in range.
    pub open spec fn can_bump(self, by: int) -> bool {
        if self.wrap {
            &&& fits(self.hi - self.lo)
            &&& fits(self.span())
            &&& self.span() != 0
            &&& fits(self.value - self.lo)
            &&& fits(self.value - self.lo + by)
            &&& !(self.value - self.lo + by == i32::MIN && self.span() == -1)
            &&& fits(self.target(by))
        } else {
            &&& fits(self.value + by)
            &&& self.lo <= self.hi
        }
    }
}

/// `v` with at least two digits.
pub fn two_digit(v: i32) -> (r: String)
    ensures
        r@ == padded(v as int, 2),
{
    let mut out = String::new();
    push_padded(&mut out, v, 2);
    proof {
        assert(Seq::<char>::empty() + padded(v as int, 2) =~= padded(v as int, 2));
    }
    out
}

/// A control that starts at its lower end and shows its value as `fmt` says.
pub fn stepper<F: Format>(caption: &str, lo: i32, hi: i32, wrap: bool, fmt: F) -> (r: Stepper<F>)
    ensures
        r@ == (StepperView {
            caption: caption@,
            lo: lo as int,
            hi: hi as int,
            wrap,
            fmt,
            value: lo as int,
        }),
{
    Stepper { caption: caption.to_owned(), lo, hi, wrap, fmt, value: lo }
}

impl<F: Format> Stepper<F> {
    /// What stands below the control.
    pub fn caption(&self) -> (r: &str)
        ensures
            r@ == self@.caption,
    {
        self.caption.as_str()
    }

    /// The value.
    pub fn get(&self) -> (r: i32)
        ensures
            r == self@.value,
    {
        self.value
    }

    /// The value as it is shown.
    pub fn readout(&self) -> (r: String)
        ensures
            r@ == self@.readout(),
    {
        self.fmt.format(self.value)
    }

    /// Puts the control at `v`, wherever the ends are. Nobody is notified.
    pub fn set(&mut self, v: i32)
        ensures
            final(self)@ == old(self)@.at(v as int),
    {
        self.value = v;
    }

    /// Moves the control by `by`. What comes back is the notice of that, also
    /// where the value stays the same.
    pub fn bump(&mut self, by: i32) -> (r: Moved)
        requires
            old(self)@.can_bump(by as int),
        ensures
            final(self)@ == old(self)@.bumped(by as int),
            r.value == final(self)@.value,
    {
        if self.wrap {
            let span: i32 = self.hi - self.lo + 1;
            let offset: i32 = self.value - self.lo + by;
            if let Some(turned) = offset.checked_rem_euclid(span) {
                self.value = turned + self.lo;
            } else {
                proof {
                    lemma_mod_range(offset as int, span as int);
                    assert(false);
                }
            }
        } else {
            let next: i32 = self.value + by;
            self.value =
            if next < self.lo {
                self.lo
            } else if next > self.hi {
                self.hi
            } else {
                next
            };
        }
        Moved { value: self.value }
    }
}

proof fn lemma_mod_range(a: int, b: int)
    requires
        fits(a),
        fits(b),
        b != 0,
    ensures
        fits(a % b),
{
    assert(0 <= a % b && (b > 0 ==> a % b < b) && (b < 0 ==> a % b < -b)) by (nonlinear_arith)
        requires
            b != 0,
    ;
}

/// A move ends between the ends, wherever it began.
pub proof fn law_bump_ends_in_range<F>(s: StepperView<F>, by: int)
    requires
        s.lo <= s.hi,
    ensures
        s.bumped(by).in_range(),
{
    if s.wrap {
        lemma_mod_bound(s.value - s.lo + by, s.span());
    }
}

/// A move that does not reach past an end is plain addition.
pub proof fn law_bump_inside_adds<F>(s: StepperView<F>, by: int)
    requires
        s.lo <= s.value + by <= s.hi,
    ensures
        s.bumped(by) == s.at(s.value + by),
{
    if s.wrap {
        lemma_small_mod((s.value - s.lo + by) as nat, s.span() as nat);
    }
}

/// A wrapping control rolls over: one up from the upper end is the lower end,
/// one down from the lower end is the upper end.
pub proof fn law_wrap_rolls_over<F>(s: StepperView<F>)
    requires
        s.wrap,
        s.lo <= s.hi,
    ensures
        s.at(s.hi).bumped(1) == s.at(s.lo),
        s.at(s.lo).bumped(-1) == s.at(s.hi),
{
    let span = s.span();
    lemma_mod_add_multiples_vanish(0, span);
    lemma_small_mod(0, span as nat);
    assert((0 + span) % span == 0);
    lemma_mod_add_multiples_vanish(-1, span);
    lemma_small_mod((span - 1) as nat, span as nat);
}

/// A clamping control stops at its ends.
pub proof fn law_clamp_stops<F>(s: StepperView<F>, by: int)
    requires
        !s.wrap,
        s.lo <= s.hi,
    ensures
        s.value + by >= s.hi ==> s.bumped(by) == s.at(s.hi),
        s.value + by <= s.lo ==> s.bumped(by) == s.at(s.lo),
{
}

/// Two moves of a wrapping control are one move by their sum.
pub proof fn law_wrap_moves_add_up<F>(s: StepperView<F>, a: int, b: int)
    requires
        s.wrap,
        s.lo <= s.hi,
    ensures
        s.bumped(a).bumped(b) == s.bumped(a + b),
{
    let span = s.span();
    let x = s.value - s.lo + a;
    lemma_add_mod_noop(x, b, span);
    lemma_add_mod_noop(x % span, b, span);
    lemma_mod_bound(x, span);
    lemma_small_mod((x % span) as nat, span as nat);
}

/// On a wrapping control in range, `+` and `-` undo each other, and so does any
/// move and its opposite.
pub proof fn law_wrap_moves_undo<F>(s: StepperView<F>, by: int)
    requires
        s.wrap,
        s.in_range(),
    ensures
        s.bumped(by).bumped(-by) == s,
{
    law_wrap_moves_add_up(s, by, -by);
    law_bump_inside_adds(s, 0);
}

/// As many presses as there are values bring a wrapping control back.
pub proof fn law_wrap_full_turn<F>(s: StepperView<F>)
    requires
        s.wrap,
        s.in_range(),
    ensures
        s.bumped(s.span()) == s,
        s.bumped(-s.span()) == s,
{
    let x = s.value - s.lo;
    let span = s.span();
    lemma_mod_add_multiples_vanish(x, span);
    lemma_mod_add_multiples_vanish(x - span, span);
    lemma_small_mod(x as nat, span as nat);
}

/// A press always goes through: no arithmetic of a wrapping control in range
/// leaves `i32` as long as the number of its values is in it.
pub proof fn law_press_goes_through<F>(s: StepperView<F>, by: int)
    requires
        s.wrap,
        s.in_range(),
        fits(s.lo),
        fits(s.hi),
        fits(s.span()),
        by == 1 || by == -1,
    ensures
        s.can_bump(by),
{
    law_bump_ends_in_range(s, by);
}

/// One press brings any value back between the ends, wrapping or clamping, and
/// what is shown is the value it led to.
pub proof fn law_press_comes_back<F: Format>(s: StepperView<F>, v: int, by: int)
    requires
        s.lo <= s.hi,
        fits(s.lo),
        fits(s.hi),
        fits(s.span()),
        fits(v - s.lo - 1),
        fits(v - s.lo + 1),
        fits(v - 1),
        fits(v + 1),
        by == 1 || by == -1,
    ensures
        s.at(v).can_bump(by),
        s.at(v).bumped(by).in_range(),
        s.at(v).bumped(by).readout() == s.fmt.text(s.at(v).target(by)),
{
    law_bump_ends_in_range(s.at(v), by);
}

/// `+` and `-`, in either order, leave a wrapping control in range as it was, and
/// what it shows with it, also at its ends.
pub proof fn law_plus_minus_show_the_same<F: Format>(s: StepperView<F>)
    requires
        s.wrap,
        s.in_range(),
    ensures
        s.bumped(1).bumped(-1) == s,
        s.bumped(-1).bumped(1) == s,
        s.bumped(1).bumped(-1).readout() == s.readout(),
        s.bumped(-1).bumped(1).readout() == s.readout(),
{
    law_wrap_moves_undo(s, 1);
    law_wrap_moves_undo(s, -1);
}

/// A move of a wrapping control comes to a value that differs from the plain sum by
/// whole turns, and lies at most one turn above the lower end. That holds wherever
/// the move began, and whichever way round the ends are.
pub proof fn law_wrap_is_whole_turns<F>(s: StepperView<F>, by: int)
    requires
        s.wrap,
        s.hi - s.lo + 1 != 0,
    ensures
        s.lo <= s.bumped(by).value,
        s.hi >= s.lo ==> s.bumped(by).value <= s.hi,
        s.hi < s.lo ==> s.bumped(by).value < s.lo + (s.lo - s.hi - 1),
        exists|turns: int|
            s.bumped(by).value == s.value + by + #[trigger] (turns * (s.hi - s.lo + 1)),
{
    let span = s.hi - s.lo + 1;
    let x = s.value - s.lo + by;
    lemma_fundamental_div_mod(x, span);
    let turns = -(x / span);
    assert(turns * span == -(span * (x / span))) by (nonlinear_arith)
        requires
            turns == -(x / span),
    ;
    assert(s.bumped(by).value == s.value + by + turns * span);
    assert(0 <= x % span && (span > 0 ==> x % span < span) && (span < 0 ==> x % span < -span))
        by (nonlinear_arith)
        requires
            span != 0,
    ;
}

/// A move of a clamping control comes to the plain sum, or to the end that this
/// would pass.
pub proof fn law_clamp_is_sum_or_end<F>(s: StepperView<F>, by: int)
    requires
        !s.wrap,
        s.lo <= s.hi,
    ensures
        s.value + by < s.lo ==> s.bumped(by).value == s.lo,
        s.value + by > s.hi ==> s.bumped(by).value == s.hi,
        s.lo <= s.value + by <= s.hi ==> s.bumped(by).value == s.value + by,
{
}

/// A move or a setting changes the value and nothing else of a control.
pub proof fn law_only_the_value_changes<F>(s: StepperView<F>, by: int, v: int)
    ensures
        s.at(v) == (StepperView { value: v, ..s }),
        s.bumped(by) == (StepperView { value: s.bumped(by).value, ..s }),
{
}

/// A two-digit control shows every number from 0 to 99 as two digits that read as
/// its value.
pub proof fn law_two_digit_readout(s: StepperView<TwoDigit>)
    requires
        0 <= s.value <= 99,
    ensures
        s.readout().len() == 2,
        all_digits(s.readout()),
        number(s.readout()) == s.value,
{
    law_two_digits(s.value);
}

/// What stands for a number in two digits or more reads as the number, has no zero
/// in front that two digits do not take, and for a negative number is the minus
/// sign and the number without it, in one digit or more.
pub proof fn law_two_digit_text(v: int)
    ensures
        v >= 0 ==> {
            &&& all_digits(TwoDigit.text(v))
            &&& number(TwoDigit.text(v)) == v
            &&& TwoDigit.text(v).len() >= 2
            &&& TwoDigit.text(v)[0] == '0' ==> TwoDigit.text(v).len() == 2
        },
        v < 0 ==> {
            &&& TwoDigit.text(v).len() >= 2
            &&& TwoDigit.text(v)[0] == '-'
            &&& all_digits(TwoDigit.text(v).drop_first())
            &&& number(TwoDigit.text(v).drop_first()) == -v
            &&& TwoDigit.text(v)[1] != '0'
        },
{
    law_padded(v, 2);
    if v < 0 {
        law_padded(-v, 1);
        assert(TwoDigit.text(v).drop_first() =~= padded(-v, 1));
        lemma_no_zero_in_front(-v);
    }
}

proof fn lemma_no_zero_in_front(v: int)
    requires
        v > 0,
    ensures
        padded(v, 1)[0] != '0',
{
    law_padded(v, 1);
    let s = padded(v, 1);
    if s[0] == '0' {
        assert(s.len() == 1);
        assert(s.drop_last() =~= Seq::<char>::empty());
        assert(number(Seq::<char>::empty()) == 0);
        assert(number(s) == 0);
    }
}

/// A control stands where it is put, between its ends or not, and shows that.
pub proof fn law_set_keeps_any_value<F: Format>(s: StepperView<F>, v: int)
    ensures
        s.at(v).value == v,
        s.at(v).readout() == s.fmt.text(v),
        s.at(v).at(s.value) == s,
{
}

/// Every move is notified exactly once, and after the update: the notice of each
/// holds the value that the moves up to and with it led to.
pub proof fn law_one_notice_per_move<F>(s: StepperView<F>, moves: Seq<int>)
    ensures
        s.notices(moves).len() == moves.len(),
        forall|k: int|
            0 <= k < moves.len() ==> #[trigger] s.notices(moves)[k] == s.moved(
                moves.take(k + 1),
            ).value,
    decreases moves.len(),
{
    if moves.len() > 0 {
        let before = moves.drop_last();
        law_one_notice_per_move(s, before);
        assert forall|k: int| 0 <= k < moves.len() implies #[trigger] s.notices(moves)[k]
            == s.moved(moves.take(k + 1)).value by {
            if k < before.len() {
                assert(before.take(k + 1) =~= moves.take(k + 1));
                assert(s.notices(moves)[k] == s.notices(before)[k]);
            } else {
                assert(moves.take(k + 1) =~= moves);
            }
        }
    }
}

} // verus!
