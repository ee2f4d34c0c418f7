//! Character and digit-string helpers shared by every decoder.
//!
//! All decoders in this crate work on short tokens, so the executable
//! helpers here favour simple loops whose contracts are stated over the
//! string views (`Seq<char>`).

use vstd::prelude::*;

verus! {

/// A decimal digit `'0'..='9'`.
pub open spec fn is_digit(c: char) -> bool {
    48 <= c as u32 && c as u32 <= 57
}

/// Numeric value of a decimal digit.
pub open spec fn digit_val(c: char) -> int {
    c as u32 - 48
}

/// Every character of `s` is a decimal digit.
pub open spec fn all_digits(s: Seq<char>) -> bool {
    forall|i: int| 0 <= i < s.len() ==> is_digit(#[trigger] s[i])
}

/// Value of a digit string read in base 10 (most significant digit first).
pub open spec fn digits_int(s: Seq<char>) -> int
    decreases s.len(),
{
    if s.len() == 0 {
        0
    } else {
        digits_int(s.drop_last()) * 10 + digit_val(s.last())
    }
}

pub proof fn lemma_digits_int_nonneg(s: Seq<char>)
    requires
        all_digits(s),
    ensures
        digits_int(s) >= 0,
    decreases s.len(),
{
    if s.len() > 0 {
        assert(all_digits(s.drop_last()));
        lemma_digits_int_nonneg(s.drop_last());
    }
}

/// The value of a digit string is at least the value of any of its prefixes.
pub proof fn lemma_digits_int_prefix(s: Seq<char>, i: int)
    requires
        all_digits(s),
        0 <= i <= s.len(),
    ensures
        digits_int(s.subrange(0, i)) <= digits_int(s),
    decreases s.len() - i,
{
    if i < s.len() {
        lemma_digits_int_prefix(s, i + 1);
        assert(s.subrange(0, i + 1).drop_last() =~= s.subrange(0, i));
        assert(all_digits(s.subrange(0, i)));
        lemma_digits_int_nonneg(s.subrange(0, i));
    } else {
        assert(s.subrange(0, i) =~= s);
    }
}

/// The digit characters of `s`, in order, everything else dropped.
pub open spec fn digit_chars(s: Seq<char>) -> Seq<char>
    decreases s.len(),
{
    if s.len() == 0 {
        Seq::empty()
    } else if is_digit(s.last()) {
        digit_chars(s.drop_last()).push(s.last())
    } else {
        digit_chars(s.drop_last())
    }
}

pub proof fn lemma_digit_chars_all_digits(s: Seq<char>)
    ensures
        all_digits(digit_chars(s)),
    decreases s.len(),
{
    if s.len() > 0 {
        lemma_digit_chars_all_digits(s.drop_last());
    }
}

/// On a string of digits the filter changes nothing.
pub proof fn lemma_digit_chars_of_digits(s: Seq<char>)
    requires
        all_digits(s),
    ensures
        digit_chars(s) == s,
    decreases s.len(),
{
    if s.len() > 0 {
        assert(all_digits(s.drop_last()));
        lemma_digit_chars_of_digits(s.drop_last());
        assert(digit_chars(s) =~= s);
    } else {
        assert(digit_chars(s) =~= s);
    }
}

/// The digit filter distributes over concatenation.
pub proof fn lemma_digit_chars_concat(a: Seq<char>, b: Seq<char>)
    ensures
        digit_chars(a + b) == digit_chars(a) + digit_chars(b),
    decreases b.len(),
{
    if b.len() == 0 {
        assert(a + b =~= a);
        assert(digit_chars(a) + digit_chars(b) =~= digit_chars(a));
    } else {
        lemma_digit_chars_concat(a, b.drop_last());
        assert((a + b).drop_last() =~= a + b.drop_last());
        assert((a + b).last() == b.last());
        if is_digit(b.last()) {
            assert(digit_chars(a) + digit_chars(b) =~= (digit_chars(a) + digit_chars(
                b.drop_last(),
            )).push(b.last()));
        }
    }
}

/// Powers of ten, for bounding digit strings by their length.
pub open spec fn pow10(n: nat) -> int
    decreases n,
{
    if n == 0 {
        1
    } else {
        10 * pow10((n - 1) as nat)
    }
}

/// A digit string of length `n` has a value below `10^n`.
pub proof fn lemma_digits_int_bound(s: Seq<char>)
    requires
        all_digits(s),
    ensures
        0 <= digits_int(s) < pow10(s.len()),
    decreases s.len(),
{
    if s.len() > 0 {
        assert(all_digits(s.drop_last()));
        lemma_digits_int_bound(s.drop_last());
    }
}

/// Character-by-character string equality, with the view equality as its
/// specification.
pub fn str_eq(a: &str, b: &str) -> (r: bool)
    ensures
        r == (a@ == b@),
{
    let n = a.unicode_len();
    let m = b.unicode_len();
    if n != m {
        return false;
    }
    let mut i: usize = 0;
    while i < n
        invariant
            i <= n,
            n == a@.len(),
            n == b@.len(),
            forall|j: int| 0 <= j < i ==> a@[j] == b@[j],
        decreases n - i,
    {
        if a.get_char(i) != b.get_char(i) {
            return false;
        }
        i = i + 1;
    }
    proof {
        assert(a@ =~= b@);
    }
    true
}

/// Does `s` start with the prefix `p`?
pub fn str_starts_with(s: &str, p: &str) -> (r: bool)
    ensures
        r == (s@.len() >= p@.len() && s@.subrange(0, p@.len() as int) == p@),
{
    let n = s.unicode_len();
    let m = p.unicode_len();
    if n < m {
        return false;
    }
    let mut i: usize = 0;
    while i < m
        invariant
            i <= m,
            m <= n,
            n == s@.len(),
            m == p@.len(),
            forall|j: int| 0 <= j < i ==> s@[j] == p@[j],
        decreases m - i,
    {
        if s.get_char(i) != p.get_char(i) {
            proof {
                assert(s@.subrange(0, p@.len() as int)[i as int] != p@[i as int]);
            }
            return false;
        }
        i = i + 1;
    }
    proof {
        assert(s@.subrange(0, p@.len() as int) =~= p@);
    }
    true
}

/// Largest `u64` value, the cap for [`parse_u64`].
pub open spec fn u64_max() -> int {
    0xffff_ffff_ffff_ffff
}

/// Decimal parse of an unsigned number, failing on any non-digit, on the
/// empty string and on values above `u64::MAX`.
pub fn parse_u64(s: &str) -> (r: Option<u64>)
    ensures
        match r {
            Some(v) => s@.len() > 0 && all_digits(s@) && digits_int(s@) == v,
            None => s@.len() == 0 || !all_digits(s@) || digits_int(s@) > u64_max(),
        },
{
    let n = s.unicode_len();
    if n == 0 {
        return None;
    }
    let mut acc: u64 = 0;
    let mut i: usize = 0;
    while i < n
        invariant
            i <= n,
            n == s@.len(),
            all_digits(s@.subrange(0, i as int)),
            acc == digits_int(s@.subrange(0, i as int)),
        decreases n - i,
    {
        let c = s.get_char(i);
        let u = c as u32;
        if u < 48 || u > 57 {
            proof {
                assert(!is_digit(s@[i as int]));
            }
            return None;
        }
        let d = (u - 48) as u64;
        if acc > 1844674407370955161 || (acc == 1844674407370955161 && d > 5) {
            proof {
                let t = s@.subrange(0, i as int + 1);
                assert(t.drop_last() =~= s@.subrange(0, i as int));
                assert(digits_int(t) > u64_max());
                if all_digits(s@) {
                    lemma_digits_int_prefix(s@, i as int + 1);
                }
            }
            return None;
        }
        acc = acc * 10 + d;
        proof {
            assert(s@.subrange(0, i as int + 1).drop_last() =~= s@.subrange(0, i as int));
        }
        i = i + 1;
    }
    proof {
        assert(s@.subrange(0, n as int) =~= s@);
    }
    Some(acc)
}

/// Decimal parse capped at `u32::MAX`.
pub fn parse_u32(s: &str) -> (r: Option<u32>)
    ensures
        match r {
            Some(v) => s@.len() > 0 && all_digits(s@) && digits_int(s@) == v,
            None => s@.len() == 0 || !all_digits(s@) || digits_int(s@) > u32::MAX,
        },
{
    match parse_u64(s) {
        Some(v) => if v <= 0xffff_ffff {
            Some(v as u32)
        } else {
            None
        },
        None => None,
    }
}

/// Decimal parse capped at `u16::MAX`.
pub fn parse_u16(s: &str) -> (r: Option<u16>)
    ensures
        match r {
            Some(v) => s@.len() > 0 && all_digits(s@) && digits_int(s@) == v,
            None => s@.len() == 0 || !all_digits(s@) || digits_int(s@) > u16::MAX,
        },
{
    match parse_u64(s) {
        Some(v) => if v <= 0xffff {
            Some(v as u16)
        } else {
            None
        },
        None => None,
    }
}

/// Decimal parse capped at `u8::MAX`.
pub fn parse_u8(s: &str) -> (r: Option<u8>)
    ensures
        match r {
            Some(v) => s@.len() > 0 && all_digits(s@) && digits_int(s@) == v,
            None => s@.len() == 0 || !all_digits(s@) || digits_int(s@) > u8::MAX,
        },
{
    match parse_u64(s) {
        Some(v) => if v <= 0xff {
            Some(v as u8)
        } else {
            None
        },
        None => None,
    }
}

/// A non-empty digit string whose value is at most `max`.
pub open spec fn uint_in_range(s: Seq<char>, max: int) -> bool {
    s.len() > 0 && all_digits(s) && digits_int(s) <= max
}

/// Index of the first occurrence of `c` at or after `from`, or -1.
pub open spec fn find_char(s: Seq<char>, c: char, from: int) -> int
    decreases s.len() - from,
    when 0 <= from <= s.len()
{
    if from >= s.len() {
        -1
    } else if s[from] == c {
        from
    } else {
        find_char(s, c, from + 1)
    }
}

/// Find the first occurrence of a character, scanning from an offset.
pub fn index_of(s: &str, c: char, from: usize) -> (r: Option<usize>)
    requires
        from <= s@.len(),
    ensures
        match r {
            Some(i) => find_char(s@, c, from as int) == i && from <= i < s@.len()
                && s@[i as int] == c,
            None => find_char(s@, c, from as int) == -1,
        },
{
    let n = s.unicode_len();
    let mut i: usize = from;
    while i < n
        invariant
            from <= i <= n,
            n == s@.len(),
            find_char(s@, c, from as int) == find_char(s@, c, i as int),
        decreases n - i,
    {
        if s.get_char(i) == c {
            return Some(i);
        }
        i = i + 1;
    }
    None
}

/// The digit character of a value `0..=9`.
pub open spec fn digit_char(d: int) -> char {
    if d == 0 {
        '0'
    } else if d == 1 {
        '1'
    } else if d == 2 {
        '2'
    } else if d == 3 {
        '3'
    } else if d == 4 {
        '4'
    } else if d == 5 {
        '5'
    } else if d == 6 {
        '6'
    } else if d == 7 {
        '7'
    } else if d == 8 {
        '8'
    } else {
        '9'
    }
}

/// The decimal digits of a non-negative number, most significant first,
/// without leading zeros (zero itself is the single digit `0`).
pub open spec fn dec_digits(n: int) -> Seq<char>
    decreases n,
    when n >= 0
{
    if n < 10 {
        seq![digit_char(n)]
    } else {
        dec_digits(n / 10).push(digit_char(n % 10))
    }
}

/// A number below `10^k` has at most `k` decimal digits.
pub proof fn lemma_dec_digits_len(n: int, k: nat)
    requires
        0 <= n < pow10(k),
        k >= 1,
    ensures
        1 <= dec_digits(n).len() <= k,
    decreases k,
{
    if n < 10 {
    } else {
        assert(pow10(k) == 10 * pow10((k - 1) as nat));
        assert(n / 10 < pow10((k - 1) as nat));
        lemma_dec_digits_len(n / 10, (k - 1) as nat);
    }
}

/// One decimal digit as a string literal.
pub fn digit_str(d: u8) -> (r: &'static str)
    requires
        d < 10,
    ensures
        r@.len() == 1,
        r@[0] == digit_char(d as int),
{
    proof {
        reveal_strlit("0");
        reveal_strlit("1");
        reveal_strlit("2");
        reveal_strlit("3");
        reveal_strlit("4");
        reveal_strlit("5");
        reveal_strlit("6");
        reveal_strlit("7");
        reveal_strlit("8");
        reveal_strlit("9");
    }
    if d == 0 {
        "0"
    } else if d == 1 {
        "1"
    } else if d == 2 {
        "2"
    } else if d == 3 {
        "3"
    } else if d == 4 {
        "4"
    } else if d == 5 {
        "5"
    } else if d == 6 {
        "6"
    } else if d == 7 {
        "7"
    } else if d == 8 {
        "8"
    } else {
        "9"
    }
}

/// The decimal string of a number.
pub fn u32_dec_string(n: u32) -> (r: String)
    ensures
        r@ == dec_digits(n as int),
    decreases n,
{
    let d = (n % 10) as u8;
    if n < 10 {
        let r = String::from_str(digit_str(d));
        proof {
            assert(r@ =~= dec_digits(n as int));
        }
        r
    } else {
        let r = u32_dec_string(n / 10).concat(digit_str(d));
        proof {
            assert(r@ =~= dec_digits(n as int));
        }
        r
    }
}

/// The decimal string of a number, left-padded with zeros to 11
/// characters.
pub open spec fn zero_pad11_spec(n: int) -> Seq<char> {
    Seq::new((11 - dec_digits(n).len()) as nat, |i: int| '0') + dec_digits(n)
}

/// Render a number as 11 characters with leading zeros.
pub fn u32_zero_pad11(n: u32) -> (r: String)
    ensures
        r@ == zero_pad11_spec(n as int),
{
    let digits = u32_dec_string(n);
    let len = digits.as_str().unicode_len();
    proof {
        reveal_with_fuel(pow10, 11);
        lemma_dec_digits_len(n as int, 10);
        reveal_strlit("0");
    }
    let mut pad = String::new();
    let mut k: usize = len;
    proof {
        assert(pad@ =~= Seq::new((k - len) as nat, |i: int| '0'));
    }
    while k < 11
        invariant
            len <= k <= 11,
            len == dec_digits(n as int).len(),
            digits@ == dec_digits(n as int),
            pad@ == Seq::new((k - len) as nat, |i: int| '0'),
            "0"@.len() == 1 && "0"@[0] == '0',
        decreases 11 - k,
    {
        pad.append("0");
        k = k + 1;
        proof {
            assert(pad@ =~= Seq::new((k - len) as nat, |i: int| '0'));
        }
    }
    let r = pad.concat(digits.as_str());
    proof {
        assert(r@ =~= zero_pad11_spec(n as int));
    }
    r
}

/// A decimal integer with an optional leading sign, as `str::parse` for the
/// signed integer types accepts it.
pub open spec fn is_signed_digits(s: Seq<char>) -> bool {
    if s.len() > 0 && (s[0] == '-' || s[0] == '+') {
        s.len() > 1 && all_digits(s.skip(1))
    } else {
        s.len() > 0 && all_digits(s)
    }
}

/// Value of a signed decimal string.
pub open spec fn signed_int(s: Seq<char>) -> int {
    if s.len() > 0 && s[0] == '-' {
        -digits_int(s.skip(1))
    } else if s.len() > 0 && s[0] == '+' {
        digits_int(s.skip(1))
    } else {
        digits_int(s)
    }
}

/// Decimal parse of an `i16`, accepting an optional leading `-` or `+`.
pub fn parse_i16(s: &str) -> (r: Option<i16>)
    ensures
        match r {
            Some(v) => is_signed_digits(s@) && signed_int(s@) == v,
            None => !is_signed_digits(s@) || signed_int(s@) < i16::MIN || signed_int(s@)
                > i16::MAX,
        },
{
    let n = s.unicode_len();
    if n == 0 {
        return None;
    }
    let first = s.get_char(0);
    if first == '-' {
        let rest = s.substring_char(1, n);
        proof {
            assert(rest@ =~= s@.skip(1));
        }
        match parse_u64(rest) {
            Some(v) => if v <= 32768 {
                let neg: i32 = 0 - (v as i32);
                Some(neg as i16)
            } else {
                None
            },
            None => {
                proof {
                    if all_digits(s@.skip(1)) && s@.len() > 1 {
                        lemma_digits_int_nonneg(s@.skip(1));
                    }
                }
                None
            },
        }
    } else if first == '+' {
        let rest = s.substring_char(1, n);
        proof {
            assert(rest@ =~= s@.skip(1));
        }
        match parse_u64(rest) {
            Some(v) => if v <= 32767 {
                Some(v as i16)
            } else {
                None
            },
            None => None,
        }
    } else {
        match parse_u64(s) {
            Some(v) => if v <= 32767 {
                Some(v as i16)
            } else {
                None
            },
            None => None,
        }
    }
}

} // verus!
