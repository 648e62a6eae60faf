//! Text as the card needs it: decimal numbers, zero padding, and a reply
//! stripped of the white space around it.
use vstd::prelude::*;
use vstd::utf8::{decode_utf8, valid_utf8};

verus! {

/// The character for one decimal digit.
pub open spec fn digit_char(d: nat) -> char {
    if d == 0 {
        '0'
    } else if d == 1 {
        '1'
    } else if d == 2 {
        '2'
    } else if d == 3 {
        '3'
    } else if d == 4 {
        '4'
    } else if d == 5 {
        '5'
    } else if d == 6 {
        '6'
    } else if d == 7 {
        '7'
    } else if d == 8 {
        '8'
    } else {
        '9'
    }
}

/// `n` in decimal, without leading zeros.
pub open spec fn decimal(n: nat) -> Seq<char>
    decreases n,
{
    if n < 10 {
        seq![digit_char(n)]
    } else {
        decimal(n / 10).push(digit_char(n % 10))
    }
}

/// `n` zeros.
pub open spec fn zeros(n: int) -> Seq<char> {
    Seq::new(
        if n > 0 {
            n as nat
        } else {
            0
        },
        |i: int| '0',
    )
}

/// The decimal digits of `v`, with zeros between the sign and the digits where
/// the whole would otherwise be shorter than `width`.
pub open spec fn padded(v: int, width: int) -> Seq<char> {
    if v < 0 {
        let digits = decimal((-v) as nat);
        seq!['-'] + zeros(width - 1 - digits.len()) + digits
    } else {
        let digits = decimal(v as nat);
        zeros(width - digits.len()) + digits
    }
}

fn digit(d: u64) -> (s: &'static str)
    requires
        d < 10,
    ensures
        s@ == seq![digit_char(d as nat)],
{
    proof {
        reveal_strlit("0");
        reveal_strlit("1");
        reveal_strlit("2");
        reveal_strlit("3");
        reveal_strlit("4");
        reveal_strlit("5");
        reveal_strlit("6");
        reveal_strlit("7");
        reveal_strlit("8");
        reveal_strlit("9");
    }
    match d {
        0 => "0",
        1 => "1",
        2 => "2",
        3 => "3",
        4 => "4",
        5 => "5",
        6 => "6",
        7 => "7",
        8 => "8",
        _ => "9",
    }
}

/// Writes `n` behind `out`, in decimal.
pub fn push_decimal(out: &mut String, n: u64)
    ensures
        final(out)@ == old(out)@ + decimal(n as nat),
    decreases n,
{
    if n >= 10 {
        push_decimal(out, n / 10);
    }
    out.append(digit(n % 10));
}

/// Writes `v` behind `out`, padded with zeros to `width` characters.
pub fn push_padded(out: &mut String, v: i32, width: usize)
    ensures
        final(out)@ == old(out)@ + padded(v as int, width as int),
{
    let mut digits = String::new();
    let mut room: usize = width;
    if v < 0 {
        out.append("-");
        if room > 0 {
            room = room - 1;
        }
        push_decimal(&mut digits, (-(v as i64)) as u64);
        proof {
            reveal_strlit("-");
        }
    } else {
        push_decimal(&mut digits, v as u64);
    }
    let ghost start = out@;
    let mut used: usize = digits.as_str().unicode_len();
    let ghost len = used as int;
    proof {
        reveal_strlit("0");
    }
    while used < room
        invariant
            len <= used,
            used <= room || used == len,
            out@ == start + zeros(used - len),
            "0"@ == seq!['0'],
        decreases room - used,
    {
        out.append("0");
        used = used + 1;
        assert(zeros(used - len) =~= zeros(used - 1 - len) + "0"@);
    }
    out.append(digits.as_str());
    proof {
        assert(zeros(used - len) =~= zeros(room - len));
        if v < 0 {
            assert(zeros(room - len) =~= zeros(width - 1 - len));
        }
        assert(out@ =~= old(out)@ + padded(v as int, width as int));
    }
}

/// Whether `c` is a decimal digit.
pub open spec fn is_digit(c: char) -> bool {
    '0' <= c <= '9'
}

/// Whether `s` is made of decimal digits throughout.
pub open spec fn all_digits(s: Seq<char>) -> bool {
    forall|k: int| 0 <= k < s.len() ==> is_digit(#[trigger] s[k])
}

/// The number that a run of decimal digits stands for.
pub open spec fn number(s: Seq<char>) -> int
    decreases s.len(),
{
    if s.len() == 0 {
        0
    } else {
        10 * number(s.drop_last()) + (s.last() as int - '0' as int)
    }
}

/// A number in decimal is one or more digits, and reads as the number, also with
/// zeros before it.
pub proof fn law_decimal_reads_back(n: nat, k: int)
    ensures
        decimal(n).len() >= 1,
        all_digits(decimal(n)),
        number(zeros(k) + decimal(n)) == n,
        number(decimal(n)) == n,
        n > 0 ==> decimal(n)[0] != '0',
        n == 0 ==> decimal(n) == seq!['0'],
    decreases n,
{
    let s = zeros(k) + decimal(n);
    if n < 10 {
        assert(s.drop_last() =~= zeros(k));
        assert(decimal(n).drop_last() =~= Seq::<char>::empty());
        assert(number(Seq::<char>::empty()) == 0);
        lemma_zeros_read_zero(k);
    } else {
        law_decimal_reads_back(n / 10, k);
        assert(s.drop_last() =~= zeros(k) + decimal(n / 10));
        assert(decimal(n).drop_last() =~= decimal(n / 10));
    }
}

proof fn lemma_zeros_read_zero(k: int)
    ensures
        number(zeros(k)) == 0,
    decreases k,
{
    if k > 0 {
        assert(zeros(k).drop_last() =~= zeros(k - 1));
        lemma_zeros_read_zero(k - 1);
    }
}

/// A padded number reads as the number and is as wide as asked for; it begins with
/// a zero only where that takes one. A negative one is a minus sign and then its
/// opposite, one place narrower.
pub proof fn law_padded(v: int, width: int)
    ensures
        v >= 0 ==> {
            &&& all_digits(padded(v, width))
            &&& number(padded(v, width)) == v
            &&& padded(v, width).len() >= 1
            &&& padded(v, width).len() >= width
            &&& padded(v, width).len() > 1 && padded(v, width)[0] == '0' ==> padded(v, width).len()
                == width
        },
        v < 0 ==> padded(v, width) == seq!['-'] + padded(-v, width - 1),
{
    if v >= 0 {
        let digits = decimal(v as nat);
        law_decimal_reads_back(v as nat, width - digits.len());
        lemma_padded_digits(v, width);
        if width <= digits.len() {
            assert(padded(v, width) =~= digits);
        }
    } else {
        assert(padded(v, width) =~= seq!['-'] + padded(-v, width - 1));
    }
}

/// What counts as white space: tab to carriage return, the space, next line, the
/// no-break space, and the spaces and separators of general punctuation, ogham and
/// ideographic script. Letters, digits and ASCII punctuation do not.
pub proof fn law_white_space(c: char)
    ensures
        c == ' ' || c == '\t' || c == '\n' || c == '\r' ==> white_space(c),
        '!' <= c <= '~' ==> !white_space(c),
        white_space(c) <==> ({
            let u = c as u32;
            u <= 0x20 && (u >= 0x20 || (u >= 0x09 && u <= 0x0d)) || u == 0x85 || u == 0xa0 || u
                == 0x1680 || (u >= 0x2000 && u <= 0x200a) || u == 0x2028 || u == 0x2029 || u
                == 0x202f || u == 0x205f || u == 0x3000
        }),
{
}

/// A number from 0 to 99 takes two digits, and reads as the number.
pub proof fn law_two_digits(v: int)
    requires
        0 <= v < 100,
    ensures
        padded(v, 2).len() == 2,
        all_digits(padded(v, 2)),
        number(padded(v, 2)) == v,
{
    reveal_with_fuel(decimal, 2);
    law_decimal_reads_back(v as nat, 2 - decimal(v as nat).len());
    lemma_padded_digits(v, 2);
}

/// A number from 0 to 9999 takes four digits, and reads as the number.
pub proof fn law_four_digits(v: int)
    requires
        0 <= v < 10000,
    ensures
        padded(v, 4).len() == 4,
        all_digits(padded(v, 4)),
        number(padded(v, 4)) == v,
{
    reveal_with_fuel(decimal, 4);
    law_decimal_reads_back(v as nat, 4 - decimal(v as nat).len());
    lemma_padded_digits(v, 4);
}

proof fn lemma_padded_digits(v: int, width: int)
    requires
        0 <= v,
    ensures
        all_digits(padded(v, width)),
{
    law_decimal_reads_back(v as nat, 0);
    let digits = decimal(v as nat);
    let lead = zeros(width - digits.len());
    assert forall|k: int| 0 <= k < padded(v, width).len() implies is_digit(
        #[trigger] padded(v, width)[k],
    ) by {
        if k >= lead.len() {
            assert(padded(v, width)[k] == digits[k - lead.len()]);
        }
    }
}

/// Two texts that each begin with digits and a space, and are the same, have the
/// same digits and the same rest.
pub proof fn lemma_first_number(a: Seq<char>, x: Seq<char>, b: Seq<char>, y: Seq<char>)
    requires
        all_digits(a),
        all_digits(b),
        a + seq![' '] + x == b + seq![' '] + y,
    ensures
        a == b,
        x == y,
{
    let s = a + seq![' '] + x;
    let t = b + seq![' '] + y;
    if a.len() < b.len() {
        assert(s[a.len() as int] == ' ');
        assert(t[a.len() as int] == b[a.len() as int]);
        assert(is_digit(b[a.len() as int]));
    } else if b.len() < a.len() {
        assert(t[b.len() as int] == ' ');
        assert(s[b.len() as int] == a[b.len() as int]);
        assert(is_digit(a[b.len() as int]));
    }
    assert forall|k: int| 0 <= k < a.len() implies a[k] == b[k] by {
        assert(s[k] == a[k]);
        assert(t[k] == b[k]);
    }
    assert(a =~= b);
    assert(s.len() == a.len() + 1 + x.len());
    assert(t.len() == b.len() + 1 + y.len());
    assert forall|k: int| 0 <= k < x.len() implies x[k] == y[k] by {
        assert(s[a.len() + 1 + k] == x[k]);
        assert(t[a.len() + 1 + k] == y[k]);
    }
    assert(x =~= y);
}

/// The characters with the Unicode property White_Space.
pub open spec fn white_space(c: char) -> bool {
    let u = c as u32;
    ||| 0x09 <= u <= 0x0d
    ||| u == 0x20
    ||| u == 0x85
    ||| u == 0xa0
    ||| u == 0x1680
    ||| 0x2000 <= u <= 0x200a
    ||| u == 0x2028
    ||| u == 0x2029
    ||| u == 0x202f
    ||| u == 0x205f
    ||| u == 0x3000
}

/// `s` without the white space at its two ends.
pub open spec fn trimmed(s: Seq<char>) -> Seq<char>
    decreases s.len(),
{
    if s.len() == 0 {
        s
    } else if white_space(s.first()) {
        trimmed(s.drop_first())
    } else if white_space(s.last()) {
        trimmed(s.drop_last())
    } else {
        s
    }
}

/// Whether `c` has the Unicode property White_Space.
pub fn is_white_space(c: char) -> (r: bool)
    ensures
        r == white_space(c),
{
    let u: u32 = c as u32;
    (0x09 <= u && u <= 0x0d) || u == 0x20 || u == 0x85 || u == 0xa0 || u == 0x1680 || (0x2000 <= u
        && u <= 0x200a) || u == 0x2028 || u == 0x2029 || u == 0x202f || u == 0x205f || u == 0x3000
}

/// `s` without the white space at its two ends.
pub fn trim(s: &str) -> (r: String)
    ensures
        r@ == trimmed(s@),
{
    let n: usize = s.unicode_len();
    let mut i: usize = 0;
    let mut j: usize = n;
    assert(s@.subrange(0, n as int) =~= s@);
    while i < j && is_white_space(s.get_char(i))
        invariant
            i <= j,
            j == n,
            n == s@.len(),
            trimmed(s@.subrange(i as int, j as int)) == trimmed(s@),
        decreases j - i,
    {
        assert(s@.subrange(i as int, j as int).drop_first() =~= s@.subrange(i + 1, j as int));
        i = i + 1;
    }
    while i < j && is_white_space(s.get_char(j - 1))
        invariant
            i <= j <= n,
            n == s@.len(),
            i < j ==> !white_space(s@[i as int]),
            trimmed(s@.subrange(i as int, j as int)) == trimmed(s@),
        decreases j - i,
    {
        assert(s@.subrange(i as int, j as int).drop_last() =~= s@.subrange(i as int, j - 1));
        j = j - 1;
    }
    s.substring_char(i, j).to_owned()
}

/// Whether `s` is white space throughout.
pub open spec fn all_white(s: Seq<char>) -> bool {
    forall|k: int| 0 <= k < s.len() ==> white_space(#[trigger] s[k])
}

/// Whether `trimmed` cuts `s` down to what stands from `i` up to `j`: there is
/// only white space before and behind it, and none at its own ends.
pub open spec fn strips(s: Seq<char>, i: int, j: int) -> bool {
    &&& 0 <= i <= j <= s.len()
    &&& trimmed(s) == s.subrange(i, j)
    &&& forall|k: int| 0 <= k < i ==> white_space(#[trigger] s[k])
    &&& forall|k: int| j <= k < s.len() ==> white_space(#[trigger] s[k])
    &&& i < j ==> !white_space(s[i]) && !white_space(s[j - 1])
}

/// `strips`, for any class of characters in place of white space.
spec fn clears(s: Seq<char>, i: int, j: int, class: spec_fn(char) -> bool) -> bool {
    &&& forall|k: int| 0 <= k < i ==> class(#[trigger] s[k])
    &&& forall|k: int| j <= k < s.len() ==> class(#[trigger] s[k])
    &&& i < j ==> !class(s[i]) && !class(s[j - 1])
}

proof fn lemma_clears_first(s: Seq<char>, i: int, j: int, class: spec_fn(char) -> bool)
    requires
        s.len() > 0,
        0 <= i <= j < s.len(),
        class(s.first()),
        clears(s.drop_first(), i, j, class),
    ensures
        clears(s, i + 1, j + 1, class),
        s.drop_first().subrange(i, j) == s.subrange(i + 1, j + 1),
{
    let rest = s.drop_first();
    assert(forall|k: int| 0 < k < s.len() ==> #[trigger] s[k] == rest[k - 1]);
    assert(rest.subrange(i, j) =~= s.subrange(i + 1, j + 1));
}

proof fn lemma_clears_last(s: Seq<char>, i: int, j: int, class: spec_fn(char) -> bool)
    requires
        s.len() > 0,
        0 <= i <= j < s.len(),
        class(s.last()),
        clears(s.drop_last(), i, j, class),
    ensures
        clears(s, i, j, class),
        s.drop_last().subrange(i, j) == s.subrange(i, j),
{
    let rest = s.drop_last();
    assert(forall|k: int| 0 <= k < rest.len() ==> #[trigger] s[k] == rest[k]);
    assert(rest.subrange(i, j) =~= s.subrange(i, j));
}

proof fn lemma_strips_clears(s: Seq<char>, i: int, j: int)
    requires
        0 <= i <= j <= s.len(),
    ensures
        strips(s, i, j) <==> trimmed(s) == s.subrange(i, j) && clears(
            s,
            i,
            j,
            |c: char| white_space(c),
        ),
{
    let class = |c: char| white_space(c);
    if clears(s, i, j, class) {
        assert(forall|k: int| 0 <= k < i ==> class(#[trigger] s[k]));
        assert(forall|k: int| j <= k < s.len() ==> class(#[trigger] s[k]));
    }
}

/// Trimming takes white space away at the two ends, all of it and nothing else.
pub proof fn law_trim_strips_white_space(s: Seq<char>)
    ensures
        exists|i: int, j: int| #[trigger] strips(s, i, j),
    decreases s.len(),
{
    if s.len() == 0 {
        assert(s.subrange(0, 0) =~= s);
        assert(strips(s, 0, 0));
    } else if white_space(s.first()) {
        let rest = s.drop_first();
        law_trim_strips_white_space(rest);
        let (i, j) = choose|i: int, j: int| #[trigger] strips(rest, i, j);
        lemma_strips_clears(rest, i, j);
        lemma_clears_first(s, i, j, |c: char| white_space(c));
        lemma_strips_clears(s, i + 1, j + 1);
        assert(strips(s, i + 1, j + 1));
    } else if white_space(s.last()) {
        let rest = s.drop_last();
        law_trim_strips_white_space(rest);
        let (i, j) = choose|i: int, j: int| #[trigger] strips(rest, i, j);
        lemma_strips_clears(rest, i, j);
        lemma_clears_last(s, i, j, |c: char| white_space(c));
        lemma_strips_clears(s, i, j);
        assert(strips(s, i, j));
    } else {
        assert(s.subrange(0, s.len() as int) =~= s);
        assert(strips(s, 0, s.len() as int));
    }
}

/// White space around a text makes no difference to what trimming leaves of it.
pub proof fn law_trim_ignores_white_space(before: Seq<char>, s: Seq<char>, after: Seq<char>)
    requires
        all_white(before),
        all_white(after),
    ensures
        trimmed(before + s + after) == trimmed(s),
    decreases before.len() + s.len() + after.len(),
{
    let whole = before + s + after;
    if before.len() > 0 {
        let rest = before.drop_first();
        assert(whole.first() == before[0]);
        assert(whole.drop_first() =~= rest + s + after);
        assert forall|k: int| 0 <= k < rest.len() implies white_space(#[trigger] rest[k]) by {
            assert(rest[k] == before[k + 1]);
        }
        law_trim_ignores_white_space(rest, s, after);
    } else if after.len() > 0 {
        let rest = after.drop_last();
        assert(whole.last() == after.last());
        assert(after.last() == after[after.len() - 1]);
        assert forall|k: int| 0 <= k < rest.len() implies white_space(#[trigger] rest[k]) by {
            assert(rest[k] == after[k]);
        }
        if white_space(whole.first()) {
            if s.len() > 0 {
                assert(whole.first() == s.first());
                assert(whole.drop_first() =~= before + s.drop_first() + after);
                law_trim_ignores_white_space(before, s.drop_first(), after);
            } else {
                let tail = after.drop_first();
                assert(whole.drop_first() =~= before + s + tail);
                assert forall|k: int| 0 <= k < tail.len() implies white_space(#[trigger] tail[k]) by {
                    assert(tail[k] == after[k + 1]);
                }
                law_trim_ignores_white_space(before, s, tail);
            }
        } else {
            assert(whole.drop_last() =~= before + s + rest);
            law_trim_ignores_white_space(before, s, rest);
        }
    } else {
        assert(whole =~= s);
    }
}

/// Trimming keeps every character that is not white space.
pub proof fn law_trim_keeps_the_rest(s: Seq<char>, c: char)
    requires
        s.contains(c),
        !white_space(c),
    ensures
        trimmed(s).contains(c),
    decreases s.len(),
{
    let k = s.index_of(c);
    if white_space(s.first()) {
        assert(s.drop_first()[k - 1] == c);
        law_trim_keeps_the_rest(s.drop_first(), c);
    } else if white_space(s.last()) {
        assert(s.drop_last()[k] == c);
        law_trim_keeps_the_rest(s.drop_last(), c);
    }
}

/// The text that the standard library reads out of bytes that need not be
/// UTF-8.
pub uninterp spec fn lossy_text(bytes: Seq<u8>) -> Seq<char>;

/// Calls `String::from_utf8_lossy`. Taken on trust: the text is a function of
/// the bytes; bytes that are UTF-8 give the characters they encode; any others
/// give a text with a replacement character, U+FFFD, in it.
#[verifier::external_body]
pub(crate) fn utf8_lossy(bytes: &[u8]) -> (s: String)
    ensures
        s@ == lossy_text(bytes@),
        valid_utf8(bytes@) ==> s@ == decode_utf8(bytes@),
        !valid_utf8(bytes@) ==> s@.contains('\u{fffd}'),
{
    String::from_utf8_lossy(bytes).into_owned()
}

} // verus!
