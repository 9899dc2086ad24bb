//! Integers as text: the decimal form that a ratio is rendered in, and the
//! digits in a radix from 2 to 36 that one is parsed from.

use vstd::prelude::*;
use crate::backing::Arith;
use crate::euclid::lemma_quotient_fits;
use crate::math::{abs, lemma_trunc_div_bounds, lemma_trunc_div_rem};

verus! {

/// The character for a decimal digit.
pub open spec fn digit_char(d: int) -> char {
    if d == 0 {
        '0'
    } else if d == 1 {
        '1'
    } else if d == 2 {
        '2'
    } else if d == 3 {
        '3'
    } else if d == 4 {
        '4'
    } else if d == 5 {
        '5'
    } else if d == 6 {
        '6'
    } else if d == 7 {
        '7'
    } else if d == 8 {
        '8'
    } else {
        '9'
    }
}

/// The decimal digits of a natural number, without leading zeros.
pub open spec fn decimal_digits(v: int) -> Seq<char>
    decreases v,
{
    if v < 10 {
        seq![digit_char(v)]
    } else {
        decimal_digits(v / 10).push(digit_char(v % 10))
    }
}

/// The decimal form of an integer: a minus sign where it is negative, then
/// the digits of its size.
pub open spec fn decimal_text(v: int) -> Seq<char> {
    if v < 0 {
        seq!['-'] + decimal_digits(-v)
    } else {
        decimal_digits(v)
    }
}

/// The value of a character as a digit: 0 to 9, then the letters of
/// either case from 10 to 35.
pub open spec fn digit_value(c: char) -> Option<int> {
    if '0' <= c <= '9' {
        Some(c as int - '0' as int)
    } else if 'a' <= c <= 'z' {
        Some(c as int - 'a' as int + 10)
    } else if 'A' <= c <= 'Z' {
        Some(c as int - 'A' as int + 10)
    } else {
        None
    }
}

/// Whether `c` is a digit in `radix`.
pub open spec fn is_digit(c: char, radix: int) -> bool {
    digit_value(c) matches Some(d) && d < radix
}

/// Whether every character of `s` is a digit in `radix`.
pub open spec fn all_digits(s: Seq<char>, radix: int) -> bool {
    forall|i: int| 0 <= i < s.len() ==> is_digit(#[trigger] s[i], radix)
}

/// The number that a run of digits in `radix` stands for, the most
/// significant digit first.
pub open spec fn digits_value(s: Seq<char>, radix: int) -> int
    decreases s.len(),
{
    if s.len() == 0 {
        0
    } else {
        digits_value(s.drop_last(), radix) * radix + digit_value(s.last()).unwrap()
    }
}

/// Whether `s` starts with a sign that a number may carry: `+`, or `-`
/// where `minus` allows it.
pub open spec fn has_sign(s: Seq<char>, minus: bool) -> bool {
    s.len() > 0 && (s[0] == '+' || (minus && s[0] == '-'))
}

/// `s` without the sign that it may start with.
pub open spec fn unsigned_part(s: Seq<char>, minus: bool) -> Seq<char> {
    if has_sign(s, minus) {
        s.subrange(1, s.len() as int)
    } else {
        s
    }
}

/// The integer that a text stands for in `radix`: an optional sign, `-`
/// only where `minus` allows it, and then at least one digit and nothing
/// else. `None` for any other text.
pub open spec fn int_text_value(s: Seq<char>, radix: int, minus: bool) -> Option<int> {
    let body = unsigned_part(s, minus);
    if body.len() > 0 && all_digits(body, radix) {
        if has_sign(s, minus) && s[0] == '-' {
            Some(-digits_value(body, radix))
        } else {
            Some(digits_value(body, radix))
        }
    } else {
        None
    }
}

/// The digits of a natural number are decimal digits, and stand for it.
pub proof fn lemma_decimal_digits(v: int)
    requires
        v >= 0,
    ensures
        decimal_digits(v).len() > 0,
        all_digits(decimal_digits(v), 10),
        digits_value(decimal_digits(v), 10) == v,
        forall|i: int|
            0 <= i < decimal_digits(v).len() ==> '0' <= #[trigger] decimal_digits(v)[i] <= '9',
    decreases v,
{
    let s = decimal_digits(v);
    if v < 10 {
        assert(s.drop_last() =~= Seq::<char>::empty());
        assert(digits_value(s.drop_last(), 10) == 0);
        assert(digit_value(digit_char(v)) == Some(v));
    } else {
        lemma_decimal_digits(v / 10);
        let head = decimal_digits(v / 10);
        assert(s.drop_last() =~= head);
        assert(digit_value(digit_char(v % 10)) == Some(v % 10));
        assert forall|i: int| 0 <= i < s.len() implies is_digit(#[trigger] s[i], 10) && '0'
            <= s[i] <= '9' by {
            if i < head.len() {
                assert(s[i] == head[i]);
            }
        }
    }
}

/// The decimal form of an integer stands for it, read with or without
/// leave to carry a minus sign, as long as it carries none.
pub proof fn lemma_decimal_round_trip(v: int, minus: bool)
    requires
        v >= 0 || minus,
    ensures
        int_text_value(decimal_text(v), 10, minus) == Some(v),
        forall|i: int|
            0 <= i < decimal_text(v).len() ==> #[trigger] decimal_text(v)[i] != '/'
                && decimal_text(v)[i] != '_',
        decimal_text(v).len() > 0,
{
    let s = decimal_text(v);
    if v < 0 {
        lemma_decimal_digits(-v);
        let body = decimal_digits(-v);
        assert(s.subrange(1, s.len() as int) =~= body);
        assert forall|i: int| 0 <= i < s.len() implies #[trigger] s[i] != '/' && s[i] != '_' by {
            if i > 0 {
                assert(s[i] == body[i - 1]);
            }
        }
    } else {
        lemma_decimal_digits(v);
        assert(s[0] != '+' && s[0] != '-');
    }
}

/// A run of digits stands for no less than any of its beginnings, and for
/// no less than a beginning shifted by one digit.
pub proof fn lemma_digits_prefix(s: Seq<char>, k: int, radix: int)
    requires
        all_digits(s, radix),
        0 <= k <= s.len(),
        radix >= 2,
    ensures
        0 <= digits_value(s.subrange(0, k), radix) <= digits_value(s, radix),
        k < s.len() ==> digits_value(s.subrange(0, k), radix) * radix <= digits_value(
            s.subrange(0, k + 1),
            radix,
        ) <= digits_value(s, radix),
        k < s.len() ==> digits_value(s.subrange(0, k + 1), radix) == digits_value(
            s.subrange(0, k),
            radix,
        ) * radix + digit_value(s[k]).unwrap(),
    decreases s.len() - k,
{
    let head = s.subrange(0, k);
    lemma_digits_nonnegative(head, radix);
    if k == s.len() {
        assert(head =~= s);
    } else {
        let next = s.subrange(0, k + 1);
        assert(next.drop_last() =~= head);
        assert(next.last() == s[k]);
        assert(is_digit(s[k], radix));
        lemma_digits_prefix(s, k + 1, radix);
        let low = digits_value(head, radix);
        assert(low <= low * radix) by (nonlinear_arith)
            requires
                low >= 0,
                radix >= 2,
        ;
    }
}

/// A run of digits stands for a number that is not negative.
pub proof fn lemma_digits_nonnegative(s: Seq<char>, radix: int)
    requires
        all_digits(s, radix),
        radix >= 2,
    ensures
        digits_value(s, radix) >= 0,
    decreases s.len(),
{
    if s.len() > 0 {
        lemma_digits_nonnegative(s.drop_last(), radix);
        assert(is_digit(s.last(), radix));
        assert(digits_value(s.drop_last(), radix) * radix >= 0) by (nonlinear_arith)
            requires
                digits_value(s.drop_last(), radix) >= 0,
                radix >= 2,
        ;
    }
}

/// The value of a character as a digit.
pub fn digit_of(c: char) -> (r: Option<u8>)
    ensures
        r is Some <==> digit_value(c) is Some,
        r matches Some(d) ==> digit_value(c) == Some(d as int),
{
    if '0' <= c && c <= '9' {
        Some((c as u32 - '0' as u32) as u8)
    } else if 'a' <= c && c <= 'z' {
        Some((c as u32 - 'a' as u32 + 10) as u8)
    } else if 'A' <= c && c <= 'Z' {
        Some((c as u32 - 'A' as u32 + 10) as u8)
    } else {
        None
    }
}

/// The integer that `s` stands for in `radix`, with a minus sign only
/// where `minus` allows one, or `None` where it stands for none or for one
/// that `T` cannot hold.
pub fn parse_int_of<T: Arith>(s: &str, radix: u32, minus: bool) -> (r: Option<T>)
    requires
        2 <= radix <= 36,
    ensures
        r is Some <==> (int_text_value(s@, radix as int, minus) matches Some(v) && T::fits(v)),
        r matches Some(t) ==> int_text_value(s@, radix as int, minus) == Some(t.val()),
{
    let n = s.unicode_len();
    if n == 0 {
        return None;
    }
    let first = s.get_char(0);
    let negative = minus && first == '-';
    let start: usize = if first == '+' || negative {
        1
    } else {
        0
    };
    if start == n {
        return None;
    }
    proof {
        T::lemma_fits_small();
        T::lemma_fits_between(0, radix as int, 36);
    }
    let ghost body = unsigned_part(s@, minus);
    assert(body =~= s@.subrange(start as int, n as int));
    let radix_t = T::from_small(radix as u8);
    let mut acc = T::zero();
    let mut i: usize = start;
    assert(body.subrange(0, 0) =~= Seq::<char>::empty());
    while i < n
        invariant
            2 <= radix <= 36,
            start <= i <= n,
            n == s@.len(),
            start < n,
            body == s@.subrange(start as int, n as int),
            radix_t.val() == radix,
            all_digits(body.subrange(0, i - start), radix as int),
            acc.val() == if negative {
                -digits_value(body.subrange(0, i - start), radix as int)
            } else {
                digits_value(body.subrange(0, i - start), radix as int)
            },
            negative == (has_sign(s@, minus) && s@[0] == '-'),
            body == unsigned_part(s@, minus),
        decreases n - i,
    {
        let ghost k = i - start;
        let ghost head = body.subrange(0, k);
        let ghost next = body.subrange(0, k + 1);
        let c = s.get_char(i);
        assert(c == body[k]);
        let d = match digit_of(c) {
            Some(d) => d,
            None => {
                assert(!is_digit(body[k], radix as int));
                return None;
            },
        };
        if d as u32 >= radix {
            assert(!is_digit(body[k], radix as int));
            return None;
        }
        proof {
            T::lemma_fits_small();
            T::lemma_fits_between(0, d as int, 36);
            assert(next.drop_last() =~= head);
            assert(next.last() == body[k]);
            if all_digits(body, radix as int) {
                lemma_digits_prefix(body, k, radix as int);
                let total = digits_value(body, radix as int);
                let low = digits_value(head, radix as int) * radix;
                let high = digits_value(next, radix as int);
                // what cannot be held on the way cannot be held at the end
                if negative {
                    if T::fits(-total) {
                        T::lemma_fits_between(-total, -low, 0);
                        T::lemma_fits_between(-total, -high, 0);
                    }
                    assert(acc.val() * radix_t.val() == -low) by (nonlinear_arith)
                        requires
                            acc.val() == -digits_value(head, radix as int),
                            low == digits_value(head, radix as int) * radix,
                            radix_t.val() == radix,
                    ;
                } else {
                    assert(acc.val() * radix_t.val() == low) by (nonlinear_arith)
                        requires
                            acc.val() == digits_value(head, radix as int),
                            low == digits_value(head, radix as int) * radix,
                            radix_t.val() == radix,
                    ;
                    if T::fits(total) {
                        T::lemma_fits_between(0, low, total);
                        T::lemma_fits_between(0, high, total);
                    }
                }
            }
        }
        let d_t = T::from_small(d);
        let scaled = match acc.checked_times(&radix_t) {
            Some(v) => v,
            None => {
                return None;
            },
        };
        let stepped = if negative {
            scaled.checked_minus(&d_t)
        } else {
            scaled.checked_plus(&d_t)
        };
        acc = match stepped {
            Some(v) => v,
            None => {
                return None;
            },
        };
        proof {
            assert forall|j: int| 0 <= j < next.len() implies is_digit(
                #[trigger] next[j],
                radix as int,
            ) by {
                if j < k {
                    assert(next[j] == head[j]);
                }
            }
            assert(acc.val() == if negative {
                -digits_value(next, radix as int)
            } else {
                digits_value(next, radix as int)
            }) by (nonlinear_arith)
                requires
                    digits_value(next, radix as int) == digits_value(head, radix as int) * radix
                        + d,
                    scaled.val() == (if negative {
                        -digits_value(head, radix as int)
                    } else {
                        digits_value(head, radix as int)
                    }) * radix,
                    acc.val() == if negative {
                        scaled.val() - d
                    } else {
                        scaled.val() + d
                    },
            ;
        }
        i = i + 1;
    }
    proof {
        assert(body.subrange(0, n - start) =~= body);
        acc.lemma_val_fits();
    }
    Some(acc)
}

/// The text of one decimal digit.
fn digit_text(d: u8) -> (r: &'static str)
    requires
        d < 10,
    ensures
        r@ == seq![digit_char(d as int)],
{
    proof {
        reveal_strlit("0");
        reveal_strlit("1");
        reveal_strlit("2");
        reveal_strlit("3");
        reveal_strlit("4");
        reveal_strlit("5");
        reveal_strlit("6");
        reveal_strlit("7");
        reveal_strlit("8");
        reveal_strlit("9");
    }
    let r = if d == 0 {
        "0"
    } else if d == 1 {
        "1"
    } else if d == 2 {
        "2"
    } else if d == 3 {
        "3"
    } else if d == 4 {
        "4"
    } else if d == 5 {
        "5"
    } else if d == 6 {
        "6"
    } else if d == 7 {
        "7"
    } else if d == 8 {
        "8"
    } else {
        "9"
    };
    assert(r@ =~= seq![digit_char(d as int)]);
    r
}

/// The decimal form of `v`.
pub fn decimal_of<T: Arith>(v: &T) -> (r: String)
    ensures
        r@ == decimal_text(v.val()),
{
    proof {
        T::lemma_fits_small();
        T::lemma_fits_between(0, 10, 36);
    }
    let ten = T::from_small(10);
    let zero = T::zero();
    let negative = v.less(&zero);
    let mut rest = v.dup();
    let mut text = String::from_str("");
    proof {
        reveal_strlit("");
        assert(decimal_digits(abs(v.val())) =~= decimal_digits(abs(rest.val())) + text@);
    }
    loop
        invariant_except_break
            ten.val() == 10,
            decimal_digits(abs(v.val())) == decimal_digits(abs(rest.val())) + text@,
        ensures
            decimal_digits(abs(v.val())) == text@,
        decreases abs(rest.val()),
    {
        proof {
            rest.lemma_val_fits();
            T::lemma_fits_small();
            T::lemma_fits_between(0, 10, 36);
            lemma_quotient_fits::<T>(rest.val(), 10);
            lemma_trunc_div_rem(rest.val(), 10);
            lemma_trunc_div_bounds(rest.val(), 10);
        }
        let (q, rem) = rest.checked_div_rem(&ten).unwrap();
        let low = rem.to_i128().unwrap();
        let d: u8 = if low < 0 {
            (-low) as u8
        } else {
            low as u8
        };
        let ghost size = abs(rest.val());
        assert(d == size % 10);
        assert(abs(q.val()) == size / 10);
        let digit = String::from_str(digit_text(d));
        let ghost before = text@;
        text = digit.concat(text.as_str());
        if q.is_zero() {
            assert(decimal_digits(size) =~= seq![digit_char(d as int)]);
            assert(decimal_digits(abs(v.val())) =~= text@);
            break;
        }
        proof {
            assert(decimal_digits(size) == decimal_digits(size / 10).push(digit_char(d as int)));
            assert(decimal_digits(size / 10).push(digit_char(d as int)) + before
                =~= decimal_digits(size / 10) + text@);
        }
        rest = q;
    }
    if negative {
        proof {
            reveal_strlit("-");
        }
        let r = String::from_str("-").concat(text.as_str());
        assert(r@ =~= decimal_text(v.val()));
        r
    } else {
        text
    }
}

} // verus!
