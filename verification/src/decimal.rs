//! Decimal formatting and parsing over plain integers, specified exactly.

use vstd::prelude::*;

verus! {

/// The character for one decimal digit value.
pub open spec fn digit_char(d: int) -> char {
    if d == 0 {
        '0'
    } else if d == 1 {
        '1'
    } else if d == 2 {
        '2'
    } else if d == 3 {
        '3'
    } else if d == 4 {
        '4'
    } else if d == 5 {
        '5'
    } else if d == 6 {
        '6'
    } else if d == 7 {
        '7'
    } else if d == 8 {
        '8'
    } else {
        '9'
    }
}

/// Decimal digits of `n`, most significant first, without sign or leading
/// zeros (zero itself is the single digit `'0'`).
pub open spec fn uint_string(n: nat) -> Seq<char>
    decreases n,
{
    if n < 10 {
        seq![digit_char(n as int)]
    } else {
        uint_string(n / 10).push(digit_char((n % 10) as int))
    }
}

/// Decimal form of a signed value: a `'-'` prefix for negative values.
pub open spec fn int_string(v: int) -> Seq<char> {
    if v >= 0 {
        uint_string(v as nat)
    } else {
        seq!['-'] + uint_string((-v) as nat)
    }
}

pub open spec fn is_digit(c: char) -> bool {
    48 <= c as int && c as int <= 57
}

pub open spec fn digit_value(c: char) -> int {
    c as int - 48
}

pub open spec fn all_digits(s: Seq<char>) -> bool {
    forall|i: int| 0 <= i < s.len() ==> is_digit(#[trigger] s[i])
}

/// The numeric value of a digit string, most significant digit first.
pub open spec fn digits_value(s: Seq<char>) -> int
    decreases s.len(),
{
    if s.len() == 0 {
        0
    } else {
        digits_value(s.drop_last()) * 10 + digit_value(s.last())
    }
}

/// The digit part of an unsigned decimal string: an optional `'+'` prefix is
/// skipped.
pub open spec fn unsigned_body(s: Seq<char>) -> Seq<char> {
    if s.len() > 0 && s[0] == '+' {
        s.subrange(1, s.len() as int)
    } else {
        s
    }
}

/// What `u64` accepts in decimal: an optional `'+'`, then one or more digits,
/// with a value that fits.
pub open spec fn is_u64_string(s: Seq<char>) -> bool {
    let b = unsigned_body(s);
    b.len() > 0 && all_digits(b) && digits_value(b) <= u64::MAX
}

/// The digit part of a signed decimal string: an optional `'+'` or `'-'`
/// prefix is skipped.
pub open spec fn signed_body(s: Seq<char>) -> Seq<char> {
    if s.len() > 0 && (s[0] == '+' || s[0] == '-') {
        s.subrange(1, s.len() as int)
    } else {
        s
    }
}

pub open spec fn has_minus_sign(s: Seq<char>) -> bool {
    s.len() > 0 && s[0] == '-'
}

/// What `i64` accepts in decimal: an optional sign, then one or more digits,
/// with a value that fits.
pub open spec fn is_i64_string(s: Seq<char>) -> bool {
    let b = signed_body(s);
    b.len() > 0 && all_digits(b) && (if has_minus_sign(s) {
        digits_value(b) <= 0x8000_0000_0000_0000
    } else {
        digits_value(b) <= i64::MAX
    })
}

/// The value denoted by a signed decimal string.
pub open spec fn i64_string_value(s: Seq<char>) -> int {
    if has_minus_sign(s) {
        -digits_value(signed_body(s))
    } else {
        digits_value(signed_body(s))
    }
}

pub proof fn lemma_digits_value_nonneg(s: Seq<char>)
    requires
        all_digits(s),
    ensures
        digits_value(s) >= 0,
    decreases s.len(),
{
    if s.len() > 0 {
        assert(all_digits(s.drop_last()));
        lemma_digits_value_nonneg(s.drop_last());
        let x = digits_value(s.drop_last());
        assert(x * 10 >= 0) by (nonlinear_arith)
            requires
                x >= 0,
        ;
    }
}

/// A digit string's value only grows as more digits follow.
pub proof fn lemma_digits_value_prefix_le(s: Seq<char>, k: int)
    requires
        all_digits(s),
        0 <= k <= s.len(),
    ensures
        digits_value(s.take(k)) <= digits_value(s),
    decreases s.len() - k,
{
    if k == s.len() {
        assert(s.take(k) =~= s);
    } else {
        let p = s.take(k);
        let q = s.take(k + 1);
        assert(q.drop_last() =~= p);
        assert(all_digits(p));
        lemma_digits_value_nonneg(p);
        let x = digits_value(p);
        assert(x * 10 >= x) by (nonlinear_arith)
            requires
                x >= 0,
        ;
        assert(digits_value(q) == x * 10 + digit_value(s[k]));
        lemma_digits_value_prefix_le(s, k + 1);
    }
}

fn digit_str(d: u64) -> (r: &'static str)
    requires
        d < 10,
    ensures
        r@ == seq![digit_char(d as int)],
{
    match d {
        0 => {
            proof {
                reveal_strlit("0");
                assert("0"@ =~= seq![digit_char(0int)]);
            }
            "0"
        },
        1 => {
            proof {
                reveal_strlit("1");
                assert("1"@ =~= seq![digit_char(1int)]);
            }
            "1"
        },
        2 => {
            proof {
                reveal_strlit("2");
                assert("2"@ =~= seq![digit_char(2int)]);
            }
            "2"
        },
        3 => {
            proof {
                reveal_strlit("3");
                assert("3"@ =~= seq![digit_char(3int)]);
            }
            "3"
        },
        4 => {
            proof {
                reveal_strlit("4");
                assert("4"@ =~= seq![digit_char(4int)]);
            }
            "4"
        },
        5 => {
            proof {
                reveal_strlit("5");
                assert("5"@ =~= seq![digit_char(5int)]);
            }
            "5"
        },
        6 => {
            proof {
                reveal_strlit("6");
                assert("6"@ =~= seq![digit_char(6int)]);
            }
            "6"
        },
        7 => {
            proof {
                reveal_strlit("7");
                assert("7"@ =~= seq![digit_char(7int)]);
            }
            "7"
        },
        8 => {
            proof {
                reveal_strlit("8");
                assert("8"@ =~= seq![digit_char(8int)]);
            }
            "8"
        },
        _ => {
            proof {
                reveal_strlit("9");
                assert("9"@ =~= seq![digit_char(9int)]);
            }
            "9"
        },
    }
}

/// Formats an unsigned value in decimal.
pub fn u64_to_string(n: u64) -> (r: String)
    ensures
        r@ == uint_string(n as nat),
{
    if n == 0 {
        let s = "0".to_owned();
        proof {
            reveal_strlit("0");
            assert(s@ =~= uint_string(0));
        }
        return s;
    }
    let mut s = String::new();
    let mut m: u64 = n;
    proof {
        assert(uint_string(n as nat) =~= uint_string(m as nat) + s@);
    }
    while m > 0
        invariant
            m > 0 ==> uint_string(n as nat) == uint_string(m as nat) + s@,
            m == 0 ==> uint_string(n as nat) == s@,
        decreases m,
    {
        let d: u64 = m % 10;
        let rest: u64 = m / 10;
        let snew = digit_str(d).to_owned().concat(s.as_str());
        proof {
            if rest > 0 {
                assert(uint_string(m as nat) == uint_string(rest as nat).push(digit_char(d as int)));
                assert(uint_string(rest as nat) + snew@ =~= uint_string(m as nat) + s@);
            } else {
                assert(m < 10);
                assert(uint_string(m as nat) =~= seq![digit_char(d as int)]);
                assert(snew@ =~= uint_string(m as nat) + s@);
            }
        }
        s = snew;
        m = rest;
    }
    s
}

/// Formats a signed value in decimal.
pub fn i64_to_string(v: i64) -> (r: String)
    ensures
        r@ == int_string(v as int),
{
    if v >= 0 {
        u64_to_string(v as u64)
    } else {
        let mag: u64 = if v == i64::MIN {
            9223372036854775808u64
        } else {
            (-v) as u64
        };
        let r = "-".to_owned().concat(u64_to_string(mag).as_str());
        proof {
            reveal_strlit("-");
            assert(r@ =~= int_string(v as int));
        }
        r
    }
}

/// Parses the digit run that starts at `start` and reaches the end of `s`,
/// rejecting anything that is not a digit and values over `u64::MAX`.
fn parse_digits(s: &str, start: usize) -> (r: Option<u64>)
    requires
        start <= s@.len(),
    ensures
        ({
            let b = s@.subrange(start as int, s@.len() as int);
            &&& (r is Some <==> b.len() > 0 && all_digits(b) && digits_value(b) <= u64::MAX)
            &&& (r matches Some(v) ==> v == digits_value(b))
        }),
{
    let ghost b = s@.subrange(start as int, s@.len() as int);
    let len = s.unicode_len();
    if start >= len {
        return None;
    }
    let mut acc: u64 = 0;
    let mut j: usize = start;
    while j < len
        invariant
            start <= j <= len,
            len == s@.len(),
            b == s@.subrange(start as int, s@.len() as int),
            all_digits(b.take(j - start)),
            acc == digits_value(b.take(j - start)),
        decreases len - j,
    {
        let c = s.get_char(j);
        let u = c as u32;
        proof {
            assert(b[j - start] == s@[j as int]);
        }
        if u < 48 || u > 57 {
            proof {
                assert(!is_digit(b[j - start]));
            }
            return None;
        }
        let d = (u - 48) as u64;
        proof {
            assert(b.take(j - start + 1).drop_last() =~= b.take(j - start));
        }
        let next = match acc.checked_mul(10) {
            Some(x) => x.checked_add(d),
            None => None,
        };
        match next {
            Some(x) => {
                acc = x;
            },
            None => {
                proof {
                    lemma_digits_value_nonneg(b.take(j - start));
                    assert(digits_value(b.take(j - start + 1)) > u64::MAX);
                    if all_digits(b) {
                        lemma_digits_value_prefix_le(b, j - start + 1);
                    }
                }
                return None;
            },
        }
        j = j + 1;
    }
    proof {
        assert(b.take(len - start) =~= b);
    }
    Some(acc)
}

/// Parses an unsigned decimal string as `u64` accepts it: an optional `'+'`,
/// then one or more digits, rejecting overflow.
pub fn parse_u64(s: &str) -> (r: Option<u64>)
    ensures
        r is Some <==> is_u64_string(s@),
        r matches Some(v) ==> v == digits_value(unsigned_body(s@)),
{
    let len = s.unicode_len();
    let start: usize = if len > 0 && s.get_char(0) == '+' {
        1
    } else {
        0
    };
    proof {
        assert(unsigned_body(s@) =~= s@.subrange(start as int, s@.len() as int));
    }
    parse_digits(s, start)
}

/// Parses a signed decimal string as `i64` accepts it: an optional sign,
/// then one or more digits, rejecting overflow.
pub fn parse_i64(s: &str) -> (r: Option<i64>)
    ensures
        r is Some <==> is_i64_string(s@),
        r matches Some(v) ==> v as int == i64_string_value(s@),
{
    let len = s.unicode_len();
    let mut negative = false;
    let mut start: usize = 0;
    if len > 0 {
        let c = s.get_char(0);
        if c == '+' {
            start = 1;
        } else if c == '-' {
            start = 1;
            negative = true;
        }
    }
    proof {
        assert(signed_body(s@) =~= s@.subrange(start as int, s@.len() as int));
    }
    let mag = match parse_digits(s, start) {
        Some(m) => m,
        None => {
            return None;
        },
    };
    if negative {
        if mag > 9223372036854775808u64 {
            return None;
        }
        if mag == 9223372036854775808u64 {
            Some(i64::MIN)
        } else {
            Some(-(mag as i64))
        }
    } else {
        if mag > i64::MAX as u64 {
            return None;
        }
        Some(mag as i64)
    }
}

} // verus!
