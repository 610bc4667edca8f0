//! Decimal numerals: parsing a string as an unsigned 64-bit integer, and
//! rendering an integer back as its decimal digit string.
//!
//! The parse accepts exactly what `u64::from_str` accepts: an optional
//! leading `+`, then one or more ASCII digits, with values above `u64::MAX`
//! rejected.

use vstd::prelude::*;

verus! {

/// An ASCII decimal digit, `'0'` through `'9'`.
pub open spec fn is_dec_digit(c: char) -> bool {
    48 <= c as int <= 57
}

/// The numeric value of a decimal digit character.
pub open spec fn dec_digit_val(c: char) -> int {
    c as int - 48
}

/// Every character of `s` is a decimal digit.
pub open spec fn all_dec_digits(s: Seq<char>) -> bool {
    forall|i: int| 0 <= i < s.len() ==> is_dec_digit(s[i])
}

/// The value of a digit string read most-significant first.
pub open spec fn dec_val(s: Seq<char>) -> int
    decreases s.len(),
{
    if s.len() == 0 {
        0
    } else {
        dec_val(s.drop_last()) * 10 + dec_digit_val(s.last())
    }
}

/// The digits of a numeral with any single leading `+` sign removed.
pub open spec fn unsigned_body(s: Seq<char>) -> Seq<char> {
    if s.len() > 0 && s[0] == '+' {
        s.subrange(1, s.len() as int)
    } else {
        s
    }
}

/// `s` is a numeral that `u64::from_str` would accept: after an optional
/// leading `+`, one or more decimal digits whose value fits in a `u64`.
pub open spec fn is_u64_numeral(s: Seq<char>) -> bool {
    let t = unsigned_body(s);
    t.len() > 0 && all_dec_digits(t) && dec_val(t) <= u64::MAX
}

/// A digit string's value is non-negative.
proof fn lemma_dec_val_nonneg(s: Seq<char>)
    requires
        all_dec_digits(s),
    ensures
        dec_val(s) >= 0,
    decreases s.len(),
{
    if s.len() > 0 {
        assert(all_dec_digits(s.drop_last()));
        lemma_dec_val_nonneg(s.drop_last());
    }
}

/// Extending a digit string with further digits never lowers its value.
proof fn lemma_dec_val_take_mono(s: Seq<char>, i: int)
    requires
        all_dec_digits(s),
        0 <= i <= s.len(),
    ensures
        dec_val(s.take(i)) <= dec_val(s),
    decreases s.len() - i,
{
    if i < s.len() {
        let t = s.take(i + 1);
        assert(t.drop_last() =~= s.take(i));
        assert(all_dec_digits(s.take(i)));
        lemma_dec_val_nonneg(s.take(i));
        assert(dec_val(t) == dec_val(s.take(i)) * 10 + dec_digit_val(s[i]));
        lemma_dec_val_take_mono(s, i + 1);
    } else {
        assert(s.take(i) =~= s);
    }
}

/// Parses `s` as a non-negative 64-bit decimal numeral, returning `None` on
/// exactly the inputs that `u64::from_str` rejects: an empty digit string, a
/// non-digit character (so in particular any `-` sign), or a value above
/// `u64::MAX`.
pub fn parse_u64_numeral(s: &str) -> (r: Option<u64>)
    ensures
        r is Some <==> is_u64_numeral(s@),
        r matches Some(v) ==> v == dec_val(unsigned_body(s@)),
{
    let n: usize = s.unicode_len();
    let start: usize = if n > 0 && s.get_char(0) == '+' {
        1
    } else {
        0
    };
    let ghost t = unsigned_body(s@);
    proof {
        assert(t =~= s@.subrange(start as int, n as int));
    }
    if start == n {
        return None;
    }
    let mut acc: u64 = 0;
    let mut i: usize = start;
    while i < n
        invariant
            start <= i <= n,
            n == s@.len(),
            start <= 1,
            t == unsigned_body(s@),
            t =~= s@.subrange(start as int, n as int),
            all_dec_digits(t.take(i - start)),
            acc == dec_val(t.take(i - start)),
        decreases n - i,
    {
        let c = s.get_char(i);
        let cv: u32 = c as u32;
        if cv < 48 || cv > 57 {
            proof {
                assert(t[i - start] == s@[i as int]);
                assert(!is_dec_digit(t[i - start]));
            }
            return None;
        }
        let d: u64 = (cv - 48) as u64;
        proof {
            assert(t[i - start] == s@[i as int]);
            assert(is_dec_digit(t[i - start]));
            assert(t.take(i - start + 1).drop_last() =~= t.take(i - start));
        }
        if acc > (u64::MAX - d) / 10 {
            proof {
                let k = i - start;
                assert(dec_val(t.take(k + 1)) == acc * 10 + d);
                assert(acc * 10 + d > u64::MAX) by {
                    let m = (u64::MAX - d) as int;
                    assert(acc >= m / 10 + 1);
                    assert((m / 10 + 1) * 10 == (m / 10) * 10 + 10) by (nonlinear_arith);
                    assert(acc * 10 >= (m / 10 + 1) * 10) by (nonlinear_arith)
                        requires acc >= m / 10 + 1;
                    assert((m / 10) * 10 + m % 10 == m);
                    assert(m % 10 < 10);
                };
                if all_dec_digits(t) {
                    lemma_dec_val_take_mono(t, k + 1);
                    assert(dec_val(t) > u64::MAX);
                }
            }
            return None;
        }
        proof {
            assert(acc * 10 + d <= u64::MAX) by {
                let m = (u64::MAX - d) as int;
                assert(acc <= m / 10);
                assert(acc * 10 <= (m / 10) * 10) by (nonlinear_arith)
                    requires acc <= m / 10;
                assert((m / 10) * 10 + m % 10 == m);
                assert(m % 10 >= 0);
            };
        }
        acc = acc * 10 + d;
        i = i + 1;
    }
    proof {
        assert(t.take(n - start) =~= t);
    }
    Some(acc)
}

/// The digit character for a value below ten.
pub open spec fn dec_digit_char(d: int) -> char {
    if d == 0 {
        '0'
    } else if d == 1 {
        '1'
    } else if d == 2 {
        '2'
    } else if d == 3 {
        '3'
    } else if d == 4 {
        '4'
    } else if d == 5 {
        '5'
    } else if d == 6 {
        '6'
    } else if d == 7 {
        '7'
    } else if d == 8 {
        '8'
    } else {
        '9'
    }
}

/// The decimal digit string of `n`, most significant digit first, with no
/// leading zeros except for `n == 0` itself.
pub open spec fn dec_digits_of(n: nat) -> Seq<char>
    decreases n,
{
    if n < 10 {
        seq![dec_digit_char(n as int)]
    } else {
        dec_digits_of(n / 10).push(dec_digit_char((n % 10) as int))
    }
}

/// The one-character string for a digit value.
fn dec_digit_str(d: u64) -> (r: &'static str)
    requires
        d < 10,
    ensures
        r@ =~= seq![dec_digit_char(d as int)],
{
    proof {
        reveal_strlit("0");
        reveal_strlit("1");
        reveal_strlit("2");
        reveal_strlit("3");
        reveal_strlit("4");
        reveal_strlit("5");
        reveal_strlit("6");
        reveal_strlit("7");
        reveal_strlit("8");
        reveal_strlit("9");
    }
    match d {
        0 => "0",
        1 => "1",
        2 => "2",
        3 => "3",
        4 => "4",
        5 => "5",
        6 => "6",
        7 => "7",
        8 => "8",
        _ => "9",
    }
}

/// Renders `n` as its decimal digit string.
pub fn u64_to_decimal(n: u64) -> (r: String)
    ensures
        r@ == dec_digits_of(n as nat),
    decreases n,
{
    if n < 10 {
        String::from_str(dec_digit_str(n))
    } else {
        let mut s = u64_to_decimal(n / 10);
        s.append(dec_digit_str(n % 10));
        proof {
            assert(s@ =~= dec_digits_of((n / 10) as nat).push(dec_digit_char((n % 10) as int)));
        }
        s
    }
}

} // verus!
