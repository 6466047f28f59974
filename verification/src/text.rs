//! Text building blocks: decimal rendering of integers and the joining of
//! fixed words with computed parts.
use vstd::prelude::*;
use vstd::string::*;

verus! {

/// The character of a decimal digit `d` (`0 <= d < 10`).
pub open spec fn digit_char(d: nat) -> char {
    (48 + d) as char
}

/// The decimal digits of `n`, most significant first, without leading zeros
/// (zero itself is the single digit `0`).
pub open spec fn decimal_digits(n: nat) -> Seq<char>
    decreases n,
{
    if n < 10 {
        seq![digit_char(n)]
    } else {
        decimal_digits(n / 10) + seq![digit_char(n % 10)]
    }
}

/// The decimal text of an integer: a minus sign before the digits of its
/// magnitude when it is negative, and no sign otherwise.
pub open spec fn decimal_text(i: int) -> Seq<char> {
    if i < 0 {
        seq!['-'] + decimal_digits((-i) as nat)
    } else {
        decimal_digits(i as nat)
    }
}

/// The number that a string of decimal digits denotes, most significant first.
pub open spec fn digits_value(s: Seq<char>) -> int
    decreases s.len(),
{
    if s.len() == 0 {
        0
    } else {
        digits_value(s.drop_last()) * 10 + (s.last() as int - 48)
    }
}

/// Every character is one of `0` to `9`.
pub open spec fn all_digits(s: Seq<char>) -> bool {
    forall|i: int| 0 <= i < s.len() ==> '0' <= #[trigger] s[i] <= '9'
}

proof fn lemma_digit_char(d: nat)
    requires
        d < 10,
    ensures
        digit_char(d) as int == 48 + d,
        '0' <= digit_char(d) <= '9',
        d > 0 ==> digit_char(d) != '0',
{
}

/// The decimal digits of `n` are digits, begin with a non-zero digit unless
/// `n` is zero, and denote `n`: reading them back gives `n` again.
pub proof fn lemma_decimal_digits_denote(n: nat)
    ensures
        decimal_digits(n).len() > 0,
        all_digits(decimal_digits(n)),
        digits_value(decimal_digits(n)) == n,
        n > 0 ==> decimal_digits(n)[0] != '0',
        n == 0 ==> decimal_digits(n) == seq!['0'],
    decreases n,
{
    lemma_digit_char(n % 10);
    if n < 10 {
        assert(decimal_digits(n) == seq![digit_char(n)]);
        assert(seq![digit_char(n)].drop_last() =~= Seq::<char>::empty());
        assert(digits_value(Seq::<char>::empty()) == 0);
        assert(n % 10 == n);
    } else {
        lemma_decimal_digits_denote(n / 10);
        let d = decimal_digits(n);
        assert(d.drop_last() =~= decimal_digits(n / 10));
        assert(d.last() == digit_char(n % 10));
        assert(digits_value(d) == digits_value(d.drop_last()) * 10 + (d.last() as int - 48));
        assert((n / 10) * 10 + n % 10 == n);
        assert(d[0] == decimal_digits(n / 10)[0]);
        assert forall|i: int| 0 <= i < d.len() implies '0' <= #[trigger] d[i] <= '9' by {
            if i < d.len() - 1 {
                assert(d[i] == decimal_digits(n / 10)[i]);
            }
        }
    }
}

/// The decimal text of an integer denotes it: after an optional minus sign
/// come digits whose value is the integer's magnitude, and the sign is there
/// exactly when the integer is negative.
pub proof fn lemma_decimal_text_denotes(i: int)
    ensures
        i < 0 ==> decimal_text(i)[0] == '-' && digits_value(decimal_text(i).drop_first()) == -i
            && all_digits(decimal_text(i).drop_first()),
        i >= 0 ==> digits_value(decimal_text(i)) == i && all_digits(decimal_text(i)),
{
    if i < 0 {
        lemma_decimal_digits_denote((-i) as nat);
        assert(decimal_text(i).drop_first() =~= decimal_digits((-i) as nat));
    } else {
        lemma_decimal_digits_denote(i as nat);
    }
}

/// The one-character text of the digit `d`.
fn digit_text(d: u128) -> (s: &'static str)
    requires
        d < 10,
    ensures
        s@ == seq![digit_char(d as nat)],
{
    proof {
        reveal_strlit("0");
        reveal_strlit("1");
        reveal_strlit("2");
        reveal_strlit("3");
        reveal_strlit("4");
        reveal_strlit("5");
        reveal_strlit("6");
        reveal_strlit("7");
        reveal_strlit("8");
        reveal_strlit("9");
    }
    if d == 0 {
        "0"
    } else if d == 1 {
        "1"
    } else if d == 2 {
        "2"
    } else if d == 3 {
        "3"
    } else if d == 4 {
        "4"
    } else if d == 5 {
        "5"
    } else if d == 6 {
        "6"
    } else if d == 7 {
        "7"
    } else if d == 8 {
        "8"
    } else {
        "9"
    }
}

/// The decimal text of an integer: its digits without leading zeros, after a
/// minus sign when it is negative.
pub(crate) fn integer_text(n: i128) -> (s: String)
    ensures
        s@ == decimal_text(n as int),
{
    let magnitude: u128 = if n < 0 {
        ((-(n + 1)) as u128) + 1
    } else {
        n as u128
    };
    assert(magnitude as int == if n < 0 { -(n as int) } else { n as int });
    let mut m: u128 = magnitude;
    let mut s = String::new();
    while m >= 10
        invariant
            decimal_digits(magnitude as nat) == decimal_digits(m as nat) + s@,
        decreases m,
    {
        let d = m % 10;
        let digit = String::from_str(digit_text(d));
        let ghost tail = s@;
        s = digit.concat(s.as_str());
        assert(decimal_digits(m as nat) == decimal_digits((m / 10) as nat) + seq![
            digit_char(d as nat),
        ]);
        assert(decimal_digits((m / 10) as nat) + s@ =~= decimal_digits((m / 10) as nat) + seq![
            digit_char(d as nat),
        ] + tail);
        m = m / 10;
    }
    let ghost tail = s@;
    s = String::from_str(digit_text(m)).concat(s.as_str());
    assert(decimal_digits(magnitude as nat) =~= s@);
    if n < 0 {
        proof {
            reveal_strlit("-");
        }
        String::from_str("-").concat(s.as_str())
    } else {
        s
    }
}

/// A new string holding `head` followed by `tail`.
pub(crate) fn joined(head: &str, tail: &str) -> (s: String)
    ensures
        s@ == head@ + tail@,
{
    let mut s = String::from_str(head);
    s.append(tail);
    s
}

/// A new string holding `a`, `b` and `c` one after the other.
pub(crate) fn joined3(a: &str, b: &str, c: &str) -> (s: String)
    ensures
        s@ == a@ + b@ + c@,
{
    let mut s = String::from_str(a);
    s.append(b);
    s.append(c);
    s
}

} // verus!
