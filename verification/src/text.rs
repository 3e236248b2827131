//! The decimal text of an id: how the session cookie carries a user id, and
//! how a column is compared with a value written as text.
use vstd::prelude::*;

verus! {

/// Whether `c` is an ASCII decimal digit.
pub open spec fn is_digit(c: char) -> bool {
    48 <= (c as int) && (c as int) <= 57
}

/// The value of the decimal digit `c`.
pub open spec fn digit_value(c: char) -> int {
    (c as int) - 48
}

/// The digit that writes `d`, for `0 <= d < 10`.
pub open spec fn digit_char(d: int) -> char {
    if d == 0 {
        '0'
    } else if d == 1 {
        '1'
    } else if d == 2 {
        '2'
    } else if d == 3 {
        '3'
    } else if d == 4 {
        '4'
    } else if d == 5 {
        '5'
    } else if d == 6 {
        '6'
    } else if d == 7 {
        '7'
    } else if d == 8 {
        '8'
    } else {
        '9'
    }
}

/// The digits of `n` in base ten, most significant first, without leading
/// zeros (`0` is written `"0"`).
pub open spec fn digits_of(n: nat) -> Seq<char>
    decreases n,
{
    if n < 10 {
        seq![digit_char(n as int)]
    } else {
        digits_of(n / 10).push(digit_char((n % 10) as int))
    }
}

/// The decimal text of an integer, as `to_string` writes it: a minus sign
/// for a negative number, then its digits.
pub open spec fn decimal(n: int) -> Seq<char> {
    if n < 0 {
        seq!['-'] + digits_of((-n) as nat)
    } else {
        digits_of(n as nat)
    }
}

/// The value of a sequence of decimal digits, most significant first.
pub open spec fn digits_value(s: Seq<char>) -> int
    decreases s.len(),
{
    if s.len() == 0 {
        0
    } else {
        digits_value(s.drop_last()) * 10 + digit_value(s.last())
    }
}

/// `s` is one or more decimal digits.
pub open spec fn all_digits(s: Seq<char>) -> bool {
    s.len() > 0 && forall|i: int| 0 <= i < s.len() ==> is_digit(#[trigger] s[i])
}

/// The integer that `s` writes: an optional `+` or `-`, then one or more
/// decimal digits, and nothing else.
pub open spec fn integer_value(s: Seq<char>) -> Option<int> {
    if all_digits(s) {
        Some(digits_value(s))
    } else if s.len() > 0 && s[0] == '+' && all_digits(s.drop_first()) {
        Some(digits_value(s.drop_first()))
    } else if s.len() > 0 && s[0] == '-' && all_digits(s.drop_first()) {
        Some(-digits_value(s.drop_first()))
    } else {
        None
    }
}

/// What `str::parse::<i32>` gives for `s`: the integer it writes, when that
/// integer fits in an `i32`.
pub open spec fn parse_i32(s: Seq<char>) -> Option<i32> {
    match integer_value(s) {
        Some(v) => if i32::MIN <= v <= i32::MAX {
            Some(v as i32)
        } else {
            None
        },
        None => None,
    }
}

proof fn lemma_digit_char(d: int)
    requires
        0 <= d < 10,
    ensures
        is_digit(digit_char(d)),
        digit_value(digit_char(d)) == d,
{
}

proof fn lemma_digits_of(n: nat)
    ensures
        all_digits(digits_of(n)),
        digits_value(digits_of(n)) == n,
    decreases n,
{
    if n < 10 {
        lemma_digit_char(n as int);
        let s = digits_of(n);
        assert(s.drop_last() =~= Seq::<char>::empty());
        assert(digits_value(s.drop_last()) == 0);
    } else {
        lemma_digits_of(n / 10);
        lemma_digit_char((n % 10) as int);
        let s = digits_of(n);
        assert(s.drop_last() =~= digits_of(n / 10));
        assert((n / 10) * 10 + n % 10 == n);
        assert forall|i: int| 0 <= i < s.len() implies is_digit(#[trigger] s[i]) by {
            if i < s.len() - 1 {
                assert(s[i] == digits_of(n / 10)[i]);
            }
        }
    }
}

/// Reading back the decimal text of an `i32` gives that `i32`.
pub proof fn lemma_parse_decimal(n: i32)
    ensures
        parse_i32(decimal(n as int)) == Some(n),
{
    if n < 0 {
        let m = (-(n as int)) as nat;
        lemma_digits_of(m);
        let s = decimal(n as int);
        assert(s.drop_first() =~= digits_of(m));
        assert(!is_digit(s[0]));
        assert(!all_digits(s));
    } else {
        lemma_digits_of(n as nat);
    }
}

/// Two `i32` have the same decimal text exactly when they are equal.
pub proof fn lemma_decimal_injective(a: i32, b: i32)
    ensures
        (decimal(a as int) == decimal(b as int)) <==> (a == b),
{
    lemma_parse_decimal(a);
    lemma_parse_decimal(b);
}

/// The one-digit text of `d`.
fn digit_str(d: u32) -> (s: &'static str)
    requires
        d < 10,
    ensures
        s@ == seq![digit_char(d as int)],
{
    if d == 0 {
        proof { reveal_strlit("0"); }
        "0"
    } else if d == 1 {
        proof { reveal_strlit("1"); }
        "1"
    } else if d == 2 {
        proof { reveal_strlit("2"); }
        "2"
    } else if d == 3 {
        proof { reveal_strlit("3"); }
        "3"
    } else if d == 4 {
        proof { reveal_strlit("4"); }
        "4"
    } else if d == 5 {
        proof { reveal_strlit("5"); }
        "5"
    } else if d == 6 {
        proof { reveal_strlit("6"); }
        "6"
    } else if d == 7 {
        proof { reveal_strlit("7"); }
        "7"
    } else if d == 8 {
        proof { reveal_strlit("8"); }
        "8"
    } else {
        proof { reveal_strlit("9"); }
        "9"
    }
}

/// Appends the digits of `m` to `s`.
fn push_digits(s: &mut String, m: u32)
    ensures
        final(s)@ == old(s)@ + digits_of(m as nat),
    decreases m,
{
    if m >= 10 {
        push_digits(s, m / 10);
    }
    s.append(digit_str(m % 10));
    proof {
        if m >= 10 {
            assert(old(s)@ + digits_of((m / 10) as nat) + seq![digit_char((m % 10) as int)]
                =~= old(s)@ + digits_of(m as nat));
        } else {
            assert(old(s)@ + seq![digit_char((m % 10) as int)] =~= old(s)@ + digits_of(m as nat));
        }
    }
}

/// The decimal text of `id`, as `to_string` writes it; the session cookie
/// carries a user id in this form.
pub fn to_decimal(id: i32) -> (s: String)
    ensures
        s@ == decimal(id as int),
{
    let mut s = String::new();
    if id < 0 {
        s.append("-");
        proof { reveal_strlit("-"); }
        let magnitude: u32 = if id == i32::MIN {
            2147483648u32
        } else {
            (-id) as u32
        };
        push_digits(&mut s, magnitude);
        assert(s@ =~= decimal(id as int));
    } else {
        push_digits(&mut s, id as u32);
        assert(s@ =~= decimal(id as int));
    }
    s
}

/// The largest value the digit loop of `parse_user_id` keeps exactly; any
/// larger value is held as this one.
const DIGITS_CAP: i64 = 2147483649;

/// Reads a user id back from its text, as `str::parse::<i32>` does: an
/// optional sign, then decimal digits, within the range of `i32`.
pub fn parse_user_id(text: &str) -> (r: Option<i32>)
    ensures
        r == parse_i32(text@),
{
    let n = text.unicode_len();
    if n == 0 {
        return None;
    }
    let first = text.get_char(0);
    let negative: bool = first == '-';
    let start: usize = if first == '-' || first == '+' { 1 } else { 0 };
    if start == n {
        proof {
            assert(!all_digits(text@.drop_first()));
            if first == '-' || first == '+' {
                assert(!is_digit(text@[0]));
            }
        }
        return None;
    }
    let mut acc: i64 = 0;
    let mut i: usize = start;
    while i < n
        invariant
            n == text@.len(),
            n > 0,
            text@[0] == first,
            negative == (first == '-'),
            (start == 1) == (first == '-' || first == '+'),
            start == 0 || start == 1,
            start <= i <= n,
            forall|j: int| start <= j < i ==> is_digit(#[trigger] text@[j]),
            acc == (if digits_value(text@.subrange(start as int, i as int)) < DIGITS_CAP {
                digits_value(text@.subrange(start as int, i as int))
            } else {
                DIGITS_CAP as int
            }),
            digits_value(text@.subrange(start as int, i as int)) >= 0,
        decreases n - i,
    {
        let c = text.get_char(i);
        let code = c as u32;
        if code < 48 || code > 57 {
            proof {
                assert(!is_digit(text@[i as int]));
                assert(!all_digits(text@));
                if start == 1 {
                    assert(text@.drop_first()[i - 1] == text@[i as int]);
                    assert(!all_digits(text@.drop_first()));
                    assert(!is_digit(text@[0]));
                } else {
                    assert(text@[0] != '+' && text@[0] != '-');
                }
            }
            return None;
        }
        let d = (code - 48) as i64;
        let ghost prev = digits_value(text@.subrange(start as int, i as int));
        proof {
            let next = text@.subrange(start as int, i + 1);
            assert(next.drop_last() =~= text@.subrange(start as int, i as int));
            assert(next.last() == c);
            assert(digits_value(next) == prev * 10 + d);
        }
        if acc < DIGITS_CAP {
            acc = acc * 10 + d;
            if acc > DIGITS_CAP {
                acc = DIGITS_CAP;
            }
        }
        i = i + 1;
    }
    proof {
        let digits = text@.subrange(start as int, n as int);
        if start == 1 {
            assert(digits =~= text@.drop_first());
            assert(!is_digit(text@[0]));
        } else {
            assert(digits =~= text@);
        }
        assert(all_digits(digits));
    }
    if negative {
        if acc <= 2147483648 {
            Some((-acc) as i32)
        } else {
            None
        }
    } else {
        if acc <= 2147483647 {
            Some(acc as i32)
        } else {
            None
        }
    }
}

} // verus!
