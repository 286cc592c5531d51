//! Amount normalization: decimal amount literals are parsed into and rendered
//! from a plain integer count of minor units (hundredths).
//!
//! An amount literal is an optional sign, one to fifteen integer digits, and
//! optionally a decimal point followed by one or two fraction digits; no
//! thousands separators and no currency symbols. The digit bounds keep every
//! amount, and every sum of amounts one per statement line, within machine
//! integers.

use vstd::prelude::*;

use crate::error::ParsingError;
use crate::strutil::all_digits;
use crate::strutil::dec_digits;
use crate::strutil::digit_val;
use crate::strutil::digits_val;
use crate::strutil::is_digit_char;
use crate::strutil::pad2_digits;
use crate::strutil::pad2_string;
use crate::strutil::u128_to_string;

verus! {

/// Every parsed amount is strictly below this many minor units in magnitude
/// (one above the largest fifteen-integer-digit amount).
pub const AMOUNT_LIMIT: i64 = 100_000_000_000_000_000;

pub open spec fn pow10(n: nat) -> int
    decreases n,
{
    if n == 0 {
        1
    } else {
        10 * pow10((n - 1) as nat)
    }
}

/// Position of the first `.` in `s` at or after `from`.
pub open spec fn dot_position(s: Seq<char>, from: int) -> Option<int>
    decreases s.len() - from + 1,
{
    if from < 0 || from >= s.len() {
        None
    } else if s[from] == '.' {
        Some(from)
    } else {
        dot_position(s, from + 1)
    }
}

/// The literal with its sign character removed.
pub open spec fn amount_body(s: Seq<char>) -> Seq<char> {
    if s.len() > 0 && (s[0] == '+' || s[0] == '-') {
        s.drop_first()
    } else {
        s
    }
}

pub open spec fn amount_negative(s: Seq<char>) -> bool {
    s.len() > 0 && s[0] == '-'
}

/// Minor units denoted by an unsigned literal body, when it is well formed:
/// one to fifteen integer digits, optionally a point and one or two fraction
/// digits.
pub open spec fn amount_minor_of(body: Seq<char>) -> Option<int> {
    match dot_position(body, 0) {
        None => if 1 <= body.len() <= 15 && all_digits(body) {
            Some(digits_val(body) * 100)
        } else {
            None
        },
        Some(p) => {
            let ip = body.subrange(0, p);
            let fp = body.subrange(p + 1, body.len() as int);
            if 1 <= ip.len() <= 15 && all_digits(ip) && 1 <= fp.len() <= 2 && all_digits(fp) {
                Some(digits_val(ip) * 100 + if fp.len() == 1 {
                    digits_val(fp) * 10
                } else {
                    digits_val(fp)
                })
            } else {
                None
            }
        },
    }
}

/// Minor units denoted by a signed amount literal, when it is well formed.
pub open spec fn spec_parse_amount(s: Seq<char>) -> Option<int> {
    match amount_minor_of(amount_body(s)) {
        Some(v) => Some(
            if amount_negative(s) {
                -v
            } else {
                v
            },
        ),
        None => None,
    }
}

/// The two-fraction-digit rendering of a count of minor units, with a leading
/// minus sign when negative.
pub open spec fn amount_str_spec(v: int) -> Seq<char> {
    let a = if v < 0 {
        -v
    } else {
        v
    };
    (if v < 0 {
        seq!['-']
    } else {
        Seq::<char>::empty()
    }) + dec_digits(a / 100) + seq!['.'] + pad2_digits(a % 100)
}

proof fn lemma_digits_val_bound(s: Seq<char>)
    requires
        all_digits(s),
    ensures
        0 <= digits_val(s) < pow10(s.len()),
    decreases s.len(),
{
    if s.len() > 0 {
        let t = s.drop_last();
        assert(all_digits(t));
        lemma_digits_val_bound(t);
        assert(0 <= digit_val(s.last()) <= 9);
    }
}

proof fn lemma_pow10_15()
    ensures
        pow10(15) == 1000000000000000,
        pow10(2) == 100,
{
    assert(pow10(0) == 1);
    assert(pow10(1) == 10);
    assert(pow10(2) == 100);
    assert(pow10(3) == 1000);
    assert(pow10(4) == 10000);
    assert(pow10(5) == 100000);
    assert(pow10(6) == 1000000);
    assert(pow10(7) == 10000000);
    assert(pow10(8) == 100000000);
    assert(pow10(9) == 1000000000);
    assert(pow10(10) == 10000000000);
    assert(pow10(11) == 100000000000);
    assert(pow10(12) == 1000000000000);
    assert(pow10(13) == 10000000000000);
    assert(pow10(14) == 100000000000000);
    assert(pow10(15) == 1000000000000000);
}

proof fn lemma_dot_position_step(s: Seq<char>, from: int)
    requires
        0 <= from < s.len(),
        s[from] != '.',
    ensures
        dot_position(s, from) == dot_position(s, from + 1),
{
}

fn find_dot(b: &str) -> (r: Option<usize>)
    ensures
        match r {
            Some(i) => dot_position(b@, 0) == Some(i as int) && i < b@.len(),
            None => dot_position(b@, 0) is None,
        },
{
    let n = b.unicode_len();
    let mut i: usize = 0;
    while i < n
        invariant
            n == b@.len(),
            0 <= i <= n,
            dot_position(b@, 0) == dot_position(b@, i as int),
        decreases n - i,
    {
        if b.get_char(i) == '.' {
            return Some(i);
        }
        proof {
            lemma_dot_position_step(b@, i as int);
        }
        i += 1;
    }
    None
}

/// Reads a run of one to fifteen decimal digits as an integer.
fn parse_digits(ds: &str) -> (r: Option<u64>)
    ensures
        match r {
            Some(v) => {
                &&& 1 <= ds@.len() <= 15
                &&& all_digits(ds@)
                &&& v == digits_val(ds@)
                &&& v < 1000000000000000
            },
            None => !(1 <= ds@.len() <= 15 && all_digits(ds@)),
        },
{
    let n = ds.unicode_len();
    if n == 0 || n > 15 {
        return None;
    }
    proof {
        lemma_pow10_15();
    }
    let mut acc: u64 = 0;
    let mut i: usize = 0;
    while i < n
        invariant
            n == ds@.len(),
            1 <= n <= 15,
            0 <= i <= n,
            all_digits(ds@.subrange(0, i as int)),
            acc == digits_val(ds@.subrange(0, i as int)),
            acc < pow10(i as nat),
            pow10(15) == 0x38D7EA4C68000,
        decreases n - i,
    {
        let c = ds.get_char(i);
        if !('0' <= c && c <= '9') {
            assert(!is_digit_char(ds@[i as int]));
            return None;
        }
        let d: u64 = (c as u32 - 48) as u64;
        proof {
            let pre = ds@.subrange(0, i as int);
            let post = ds@.subrange(0, i + 1);
            assert(post.drop_last() =~= pre);
            assert(post.last() == ds@[i as int]);
            lemma_digits_val_bound(post);
            lemma_pow10_upto(i as nat + 1);
        }
        acc = acc * 10 + d;
        i += 1;
    }
    proof {
        assert(ds@.subrange(0, n as int) =~= ds@);
        lemma_pow10_upto(n as nat);
    }
    Some(acc)
}

proof fn lemma_pow10_upto(n: nat)
    requires
        n <= 15,
    ensures
        pow10(n) <= pow10(15),
    decreases 15 - n,
{
    if n < 15 {
        lemma_pow10_upto(n + 1);
        lemma_pow10_nonneg(n);
    }
}

proof fn lemma_pow10_nonneg(n: nat)
    ensures
        pow10(n) >= 1,
    decreases n,
{
    if n > 0 {
        lemma_pow10_nonneg((n - 1) as nat);
    }
}

/// Parses a signed decimal amount literal into minor units. The error carries
/// the rejected text.
pub fn parse_amount(s: &str) -> (r: Result<i64, ParsingError>)
    ensures
        match r {
            Ok(v) => {
                &&& spec_parse_amount(s@) == Some(v as int)
                &&& -AMOUNT_LIMIT < v < AMOUNT_LIMIT
            },
            Err(e) => {
                &&& spec_parse_amount(s@) is None
                &&& e matches ParsingError::InvalidAmount(m) && m@ == s@
            },
        },
{
    let len = s.unicode_len();
    let signed = len > 0 && (s.get_char(0) == '+' || s.get_char(0) == '-');
    let neg = len > 0 && s.get_char(0) == '-';
    let start: usize = if signed {
        1
    } else {
        0
    };
    let body = s.substring_char(start, len);
    proof {
        if signed {
            assert(body@ =~= amount_body(s@));
        } else {
            assert(body@ =~= s@);
            assert(body@ =~= amount_body(s@));
        }
        assert(neg == amount_negative(s@));
    }
    let minor: Option<u64> = match find_dot(body) {
        None => {
            match parse_digits(body) {
                Some(v) => Some(v * 100),
                None => None,
            }
        },
        Some(p) => {
            let blen = body.unicode_len();
            let ip = body.substring_char(0, p);
            let fp = body.substring_char(p + 1, blen);
            proof {
                assert(ip@ =~= body@.subrange(0, p as int));
                assert(fp@ =~= body@.subrange(p + 1, body@.len() as int));
            }
            let flen = fp.unicode_len();
            if flen < 1 || flen > 2 {
                None
            } else {
                match (parse_digits(ip), parse_digits(fp)) {
                    (Some(iv), Some(fv)) => {
                        proof {
                            lemma_digits_val_bound(fp@);
                            lemma_pow10_15();
                            assert(pow10(1) == 10);
                        }
                        let scaled: u64 = if flen == 1 {
                            fv * 10
                        } else {
                            fv
                        };
                        Some(iv * 100 + scaled)
                    },
                    _ => None,
                }
            }
        },
    };
    match minor {
        Some(v) => {
            let signed_v: i64 = if neg {
                -(v as i64)
            } else {
                v as i64
            };
            Ok(signed_v)
        },
        None => Err(ParsingError::InvalidAmount(String::from_str(s))),
    }
}

/// Renders a count of minor units as a decimal literal with exactly two
/// fraction digits.
pub fn amount_to_string(minor: i128) -> (r: String)
    requires
        minor > i128::MIN,
    ensures
        r@ == amount_str_spec(minor as int),
{
    proof {
        reveal_strlit("-");
        reveal_strlit(".");
    }
    let a: u128 = if minor < 0 {
        (-minor) as u128
    } else {
        minor as u128
    };
    let mut s = if minor < 0 {
        String::from_str("-")
    } else {
        String::new()
    };
    let ip = u128_to_string(a / 100);
    s.append(ip.as_str());
    s.append(".");
    let fp = pad2_string((a % 100) as u32);
    s.append(fp.as_str());
    proof {
        assert(s@ =~= amount_str_spec(minor as int));
    }
    s
}

} // verus!
