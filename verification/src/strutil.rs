//! Character-level helpers shared by the normalization utilities and the two
//! transcoders: digit classification, decimal rendering of integers, substring
//! search and whitespace trimming, each with an exact specification.

use vstd::prelude::*;

verus! {

pub open spec fn is_digit_char(c: char) -> bool {
    '0' <= c && c <= '9'
}

/// Numeric value of a decimal digit character.
pub open spec fn digit_val(c: char) -> int {
    c as int - '0' as int
}

pub open spec fn all_digits(s: Seq<char>) -> bool {
    forall|i: int| 0 <= i < s.len() ==> is_digit_char(#[trigger] s[i])
}

/// Value of a digit string read most-significant first.
pub open spec fn digits_val(s: Seq<char>) -> int
    decreases s.len(),
{
    if s.len() == 0 {
        0
    } else {
        digits_val(s.drop_last()) * 10 + digit_val(s.last())
    }
}

/// The decimal digit character for a value below ten.
pub open spec fn digit_char(n: int) -> char {
    if n == 0 { '0' }
    else if n == 1 { '1' }
    else if n == 2 { '2' }
    else if n == 3 { '3' }
    else if n == 4 { '4' }
    else if n == 5 { '5' }
    else if n == 6 { '6' }
    else if n == 7 { '7' }
    else if n == 8 { '8' }
    else { '9' }
}

/// Shortest decimal rendering of a non-negative integer.
pub open spec fn dec_digits(n: int) -> Seq<char>
    decreases n,
{
    if n < 10 {
        seq![digit_char(n)]
    } else {
        dec_digits(n / 10) + seq![digit_char(n % 10)]
    }
}

/// Two-character zero-padded rendering, for values below one hundred.
pub open spec fn pad2_digits(n: int) -> Seq<char> {
    seq![digit_char(n / 10), digit_char(n % 10)]
}

/// Four-character zero-padded rendering, for values below ten thousand.
pub open spec fn pad4_digits(n: int) -> Seq<char> {
    seq![
        digit_char(n / 1000),
        digit_char((n / 100) % 10),
        digit_char((n / 10) % 10),
        digit_char(n % 10),
    ]
}

fn digit_str(d: u8) -> (r: &'static str)
    requires
        d < 10,
    ensures
        r@ =~= seq![digit_char(d as int)],
{
    proof {
        reveal_strlit("0");
        reveal_strlit("1");
        reveal_strlit("2");
        reveal_strlit("3");
        reveal_strlit("4");
        reveal_strlit("5");
        reveal_strlit("6");
        reveal_strlit("7");
        reveal_strlit("8");
        reveal_strlit("9");
    }
    if d == 0 { "0" }
    else if d == 1 { "1" }
    else if d == 2 { "2" }
    else if d == 3 { "3" }
    else if d == 4 { "4" }
    else if d == 5 { "5" }
    else if d == 6 { "6" }
    else if d == 7 { "7" }
    else if d == 8 { "8" }
    else { "9" }
}

/// Decimal rendering of an unsigned integer, wide enough for every count and
/// sum the transcoders produce.
pub fn u128_to_string(n: u128) -> (r: String)
    ensures
        r@ == dec_digits(n as int),
    decreases n,
{
    if n < 10 {
        String::from_str(digit_str(n as u8))
    } else {
        let mut s = u128_to_string(n / 10);
        s.append(digit_str((n % 10) as u8));
        s
    }
}

/// Decimal rendering of a signed integer.
pub open spec fn int_str_spec(v: int) -> Seq<char> {
    if v < 0 {
        seq!['-'] + dec_digits(-v)
    } else {
        dec_digits(v)
    }
}

pub fn i64_to_string(v: i64) -> (r: String)
    requires
        v > i64::MIN,
    ensures
        r@ == int_str_spec(v as int),
{
    if v < 0 {
        proof {
            reveal_strlit("-");
        }
        let mut s = String::from_str("-");
        let d = u128_to_string((-v) as u128);
        s.append(d.as_str());
        proof {
            assert(s@ =~= int_str_spec(v as int));
        }
        s
    } else {
        let s = u128_to_string(v as u128);
        proof {
            assert(s@ =~= int_str_spec(v as int));
        }
        s
    }
}

pub fn usize_to_string(n: usize) -> (r: String)
    ensures
        r@ == dec_digits(n as int),
{
    u128_to_string(n as u128)
}

/// Two-digit zero-padded rendering.
pub fn pad2_string(n: u32) -> (r: String)
    requires
        n < 100,
    ensures
        r@ == pad2_digits(n as int),
{
    let mut s = String::from_str(digit_str((n / 10) as u8));
    s.append(digit_str((n % 10) as u8));
    proof {
        assert(s@ =~= pad2_digits(n as int));
    }
    s
}

/// Four-digit zero-padded rendering.
pub fn pad4_string(n: u32) -> (r: String)
    requires
        n < 10000,
    ensures
        r@ == pad4_digits(n as int),
{
    let mut s = String::from_str(digit_str((n / 1000) as u8));
    s.append(digit_str(((n / 100) % 10) as u8));
    s.append(digit_str(((n / 10) % 10) as u8));
    s.append(digit_str((n % 10) as u8));
    proof {
        assert(s@ =~= pad4_digits(n as int));
    }
    s
}

/// Index of the first occurrence of `pat` in `s` at or after `from`.
pub open spec fn find_from(s: Seq<char>, pat: Seq<char>, from: int) -> Option<int>
    recommends
        0 <= from,
    decreases s.len() - from + 1,
{
    if from + pat.len() > s.len() {
        None
    } else if s.subrange(from, from + pat.len() as int) == pat {
        Some(from)
    } else {
        find_from(s, pat, from + 1)
    }
}

pub open spec fn contains_seq(s: Seq<char>, pat: Seq<char>) -> bool {
    find_from(s, pat, 0) is Some
}

pub open spec fn is_space_char(c: char) -> bool {
    c == ' ' || c == '\t' || c == '\n' || c == '\r'
}

pub open spec fn trim_start_spec(s: Seq<char>) -> Seq<char>
    decreases s.len(),
{
    if s.len() > 0 && is_space_char(s[0]) {
        trim_start_spec(s.drop_first())
    } else {
        s
    }
}

pub open spec fn trim_end_spec(s: Seq<char>) -> Seq<char>
    decreases s.len(),
{
    if s.len() > 0 && is_space_char(s.last()) {
        trim_end_spec(s.drop_last())
    } else {
        s
    }
}

/// The string with leading and trailing whitespace removed.
pub open spec fn trim_spec(s: Seq<char>) -> Seq<char> {
    trim_end_spec(trim_start_spec(s))
}

/// A found position is a real match: it lies within the string and the
/// pattern stands there.
pub proof fn lemma_find_from_in_range(s: Seq<char>, pat: Seq<char>, from: int, i: int)
    requires
        find_from(s, pat, from) == Some(i),
    ensures
        from <= i,
        i + pat.len() <= s.len(),
        s.subrange(i, i + pat.len() as int) == pat,
    decreases s.len() - from + 1,
{
    if from + pat.len() > s.len() {
    } else if s.subrange(from, from + pat.len() as int) == pat {
    } else {
        lemma_find_from_in_range(s, pat, from + 1, i);
    }
}

/// A real match at or after `from` means the search from `from` finds one.
pub proof fn lemma_match_implies_found(s: Seq<char>, pat: Seq<char>, from: int, k: int)
    requires
        0 <= from <= k,
        k + pat.len() <= s.len(),
        s.subrange(k, k + pat.len() as int) == pat,
    ensures
        find_from(s, pat, from) is Some,
    decreases k - from,
{
    if from == k {
    } else if s.subrange(from, from + pat.len() as int) == pat {
    } else {
        lemma_match_implies_found(s, pat, from + 1, k);
    }
}

/// Every character of the decimal rendering of a non-negative integer is a
/// digit, and the rendering is never empty.
pub proof fn lemma_dec_digits_chars(n: int)
    requires
        n >= 0,
    ensures
        all_digits(dec_digits(n)),
        dec_digits(n).len() >= 1,
    decreases n,
{
    if n < 10 {
        assert(is_digit_char(digit_char(n)));
        assert(forall|p: int|
            0 <= p < dec_digits(n).len() ==> is_digit_char(#[trigger] dec_digits(n)[p]));
    } else {
        lemma_dec_digits_chars(n / 10);
        let pre = dec_digits(n / 10);
        assert(dec_digits(n) == pre + seq![digit_char(n % 10)]);
        assert(is_digit_char(digit_char(n % 10)));
        assert(forall|p: int|
            0 <= p < dec_digits(n).len() ==> is_digit_char(#[trigger] dec_digits(n)[p]));
    }
}

proof fn lemma_find_from_step(s: Seq<char>, pat: Seq<char>, from: int)
    requires
        from + pat.len() <= s.len(),
        s.subrange(from, from + pat.len() as int) != pat,
    ensures
        find_from(s, pat, from) == find_from(s, pat, from + 1),
{
}

proof fn lemma_trim_start_subrange(s: Seq<char>, k: int)
    requires
        0 <= k <= s.len(),
        forall|j: int| 0 <= j < k ==> is_space_char(#[trigger] s[j]),
        k == s.len() || !is_space_char(s[k]),
    ensures
        trim_start_spec(s) == s.subrange(k, s.len() as int),
    decreases k,
{
    if k == 0 {
        assert(s.subrange(0, s.len() as int) =~= s);
    } else {
        let t = s.drop_first();
        assert(forall|j: int| 0 <= j < k - 1 ==> is_space_char(#[trigger] t[j]));
        lemma_trim_start_subrange(t, k - 1);
        assert(t.subrange(k - 1, t.len() as int) =~= s.subrange(k, s.len() as int));
    }
}

proof fn lemma_trim_end_subrange(s: Seq<char>, k: int)
    requires
        0 <= k <= s.len(),
        forall|j: int| k <= j < s.len() ==> is_space_char(#[trigger] s[j]),
        k == 0 || !is_space_char(s[k - 1]),
    ensures
        trim_end_spec(s) == s.subrange(0, k),
    decreases s.len() - k,
{
    if k == s.len() {
        assert(s.subrange(0, k) =~= s);
    } else {
        let t = s.drop_last();
        lemma_trim_end_subrange(t, k);
        assert(t.subrange(0, k) =~= s.subrange(0, k));
    }
}

/// Index of the first occurrence of `pat` in `s`, scanning left to right.
pub fn find_str(s: &str, pat: &str) -> (r: Option<usize>)
    requires
        pat@.len() > 0,
    ensures
        match r {
            Some(i) => find_from(s@, pat@, 0) == Some(i as int),
            None => find_from(s@, pat@, 0) is None,
        },
{
    let s_len = s.unicode_len();
    let p_len = pat.unicode_len();
    if p_len > s_len {
        return None;
    }
    let mut i: usize = 0;
    while i <= s_len - p_len
        invariant
            s_len == s@.len(),
            p_len == pat@.len(),
            1 <= p_len <= s_len,
            0 <= i <= s_len - p_len + 1,
            find_from(s@, pat@, 0) == find_from(s@, pat@, i as int),
        decreases s_len - p_len + 1 - i,
    {
        let mut j: usize = 0;
        let mut matched = true;
        while j < p_len
            invariant
                s_len == s@.len(),
                p_len == pat@.len(),
                i + p_len <= s_len,
                0 <= j <= p_len,
                matched ==> forall|m: int| 0 <= m < j ==> s@[i + m] == pat@[m],
                !matched ==> s@.subrange(i as int, i + p_len) != pat@,
            decreases p_len - j,
        {
            if matched && s.get_char(i + j) != pat.get_char(j) {
                proof {
                    assert(s@.subrange(i as int, i + p_len)[j as int] != pat@[j as int]);
                }
                matched = false;
            }
            j += 1;
        }
        if matched {
            proof {
                assert(s@.subrange(i as int, i + p_len) =~= pat@);
            }
            return Some(i);
        }
        proof {
            lemma_find_from_step(s@, pat@, i as int);
        }
        i += 1;
    }
    proof {
        assert(i as int + pat@.len() > s@.len());
    }
    None
}

/// Copy of `s` with leading and trailing whitespace removed.
pub fn trim_str(s: &str) -> (r: String)
    ensures
        r@ == trim_spec(s@),
{
    let len = s.unicode_len();
    let mut start: usize = 0;
    while start < len && is_space(s.get_char(start))
        invariant
            len == s@.len(),
            0 <= start <= len,
            forall|j: int| 0 <= j < start ==> is_space_char(#[trigger] s@[j]),
        decreases len - start,
    {
        start += 1;
    }
    let mut end: usize = len;
    while end > start && is_space(s.get_char(end - 1))
        invariant
            len == s@.len(),
            start <= end <= len,
            forall|j: int| end <= j < len ==> is_space_char(#[trigger] s@[j]),
        decreases end,
    {
        end -= 1;
    }
    proof {
        lemma_trim_start_subrange(s@, start as int);
        let t = s@.subrange(start as int, len as int);
        if end == start {
            lemma_trim_end_subrange(t, 0);
        } else {
            lemma_trim_end_subrange(t, end - start);
        }
        assert(t.subrange(0, end - start) =~= s@.subrange(start as int, end as int));
    }
    String::from_str(s.substring_char(start, end))
}

fn is_space(c: char) -> (r: bool)
    ensures
        r == is_space_char(c),
{
    c == ' ' || c == '\t' || c == '\n' || c == '\r'
}

/// Whether an optional string holds exactly an optional character sequence.
pub open spec fn opt_str_matches(o: Option<String>, v: Option<Seq<char>>) -> bool {
    match o {
        Some(s) => v matches Some(t) && s@ == t,
        None => v is None,
    }
}

/// Character-wise string equality; the executable counterpart of view equality.
pub fn str_eq(a: &str, b: &str) -> (r: bool)
    ensures
        r == (a@ == b@),
{
    let a_len = a.unicode_len();
    let b_len = b.unicode_len();
    if a_len != b_len {
        assert(a@ !~= b@);
        return false;
    }
    let mut i: usize = 0;
    while i < a_len
        invariant
            a_len == a@.len(),
            b_len == b@.len(),
            a_len == b_len,
            0 <= i <= a_len,
            forall|j: int| 0 <= j < i ==> a@[j] == b@[j],
        decreases a_len - i,
    {
        if a.get_char(i) != b.get_char(i) {
            assert(a@ != b@);
            return false;
        }
        i += 1;
    }
    proof {
        assert(a@ =~= b@);
    }
    true
}

} // verus!
