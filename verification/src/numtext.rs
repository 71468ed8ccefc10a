//! Decimal text for the integer quantities of the monitor model.
//!
//! Refresh rates and scales are carried as integer hundredths (centihertz,
//! centiscale), so every number that reaches the compositor is rendered from
//! integers alone: plain decimals, two-decimal fixed point, and the trimmed
//! form the compositor accepts for scales.

use vstd::prelude::*;

verus! {

/// The decimal digit character for a value below ten.
pub open spec fn digit_char(d: nat) -> char {
    if d == 0 {
        '0'
    } else if d == 1 {
        '1'
    } else if d == 2 {
        '2'
    } else if d == 3 {
        '3'
    } else if d == 4 {
        '4'
    } else if d == 5 {
        '5'
    } else if d == 6 {
        '6'
    } else if d == 7 {
        '7'
    } else if d == 8 {
        '8'
    } else {
        '9'
    }
}

/// The usual decimal rendering of a natural number, no leading zeros
/// (a single zero for zero itself).
pub open spec fn dec_digits(n: nat) -> Seq<char>
    decreases n,
{
    if n < 10 {
        seq![digit_char(n)]
    } else {
        dec_digits(n / 10).push(digit_char(n % 10))
    }
}

/// The decimal rendering of an integer: a minus sign for negatives.
pub open spec fn int_digits(n: int) -> Seq<char> {
    if n < 0 {
        seq!['-'] + dec_digits((-n) as nat)
    } else {
        dec_digits(n as nat)
    }
}

/// A quantity of hundredths rendered with exactly two decimal places,
/// as the compositor expects refresh rates.
pub open spec fn centi_2dp(c: nat) -> Seq<char> {
    dec_digits(c / 100) + seq!['.', digit_char((c / 10) % 10), digit_char(c % 10)]
}

/// A quantity of hundredths rendered with trailing zeros dropped, the way
/// a scale factor is written: 100 -> "1", 150 -> "1.5", 125 -> "1.25".
pub open spec fn centi_trimmed(c: nat) -> Seq<char> {
    if c % 100 == 0 {
        dec_digits(c / 100)
    } else if c % 10 == 0 {
        dec_digits(c / 100) + seq!['.', digit_char((c / 10) % 10)]
    } else {
        dec_digits(c / 100) + seq!['.', digit_char((c / 10) % 10), digit_char(c % 10)]
    }
}

/// Appends the single digit character for `d`.
pub fn push_digit(s: &mut String, d: u8)
    requires
        d < 10,
    ensures
        final(s)@ == old(s)@.push(digit_char(d as nat)),
{
    match d {
        0 => {
            s.append("0");
            proof {
                reveal_strlit("0");
                assert(s@ =~= old(s)@.push('0'));
            }
        },
        1 => {
            s.append("1");
            proof {
                reveal_strlit("1");
                assert(s@ =~= old(s)@.push('1'));
            }
        },
        2 => {
            s.append("2");
            proof {
                reveal_strlit("2");
                assert(s@ =~= old(s)@.push('2'));
            }
        },
        3 => {
            s.append("3");
            proof {
                reveal_strlit("3");
                assert(s@ =~= old(s)@.push('3'));
            }
        },
        4 => {
            s.append("4");
            proof {
                reveal_strlit("4");
                assert(s@ =~= old(s)@.push('4'));
            }
        },
        5 => {
            s.append("5");
            proof {
                reveal_strlit("5");
                assert(s@ =~= old(s)@.push('5'));
            }
        },
        6 => {
            s.append("6");
            proof {
                reveal_strlit("6");
                assert(s@ =~= old(s)@.push('6'));
            }
        },
        7 => {
            s.append("7");
            proof {
                reveal_strlit("7");
                assert(s@ =~= old(s)@.push('7'));
            }
        },
        8 => {
            s.append("8");
            proof {
                reveal_strlit("8");
                assert(s@ =~= old(s)@.push('8'));
            }
        },
        _ => {
            s.append("9");
            proof {
                reveal_strlit("9");
                assert(s@ =~= old(s)@.push('9'));
            }
        },
    }
}

/// Appends the decimal rendering of `n`.
pub fn push_u64(s: &mut String, n: u64)
    ensures
        final(s)@ == old(s)@ + dec_digits(n as nat),
    decreases n,
{
    if n < 10 {
        push_digit(s, n as u8);
        proof {
            assert(final(s)@ =~= old(s)@ + dec_digits(n as nat));
        }
    } else {
        push_u64(s, n / 10);
        push_digit(s, (n % 10) as u8);
        proof {
            assert(final(s)@ =~= old(s)@ + dec_digits(n as nat));
        }
    }
}

/// Appends the decimal rendering of `n`, minus sign included.
pub fn push_i64(s: &mut String, n: i64)
    ensures
        final(s)@ == old(s)@ + int_digits(n as int),
{
    if n < 0 {
        s.append("-");
        let mag: u64 = if n == i64::MIN {
            9223372036854775808u64
        } else {
            (-n) as u64
        };
        assert(mag == -(n as int));
        push_u64(s, mag);
        proof {
            reveal_strlit("-");
            assert(final(s)@ =~= old(s)@ + int_digits(n as int));
        }
    } else {
        push_u64(s, n as u64);
    }
}

/// The decimal rendering of `n` as a fresh string.
pub fn u64_string(n: u64) -> (r: String)
    ensures
        r@ == dec_digits(n as nat),
{
    let mut s = String::new();
    push_u64(&mut s, n);
    proof {
        assert(s@ =~= dec_digits(n as nat));
    }
    s
}

/// Appends `c` hundredths with exactly two decimal places, e.g. 14400 -> "144.00".
pub fn push_centi_2dp(s: &mut String, c: u64)
    ensures
        final(s)@ == old(s)@ + centi_2dp(c as nat),
{
    push_u64(s, c / 100);
    s.append(".");
    push_digit(s, ((c / 10) % 10) as u8);
    push_digit(s, (c % 10) as u8);
    proof {
        reveal_strlit(".");
        assert(final(s)@ =~= old(s)@ + centi_2dp(c as nat));
    }
}

/// Whether `c` is a decimal digit character.
pub open spec fn is_digit(c: char) -> bool {
    c == '0' || c == '1' || c == '2' || c == '3' || c == '4' || c == '5' || c == '6' || c == '7'
        || c == '8' || c == '9'
}

/// The numeric value of a decimal digit character.
pub open spec fn digit_val(c: char) -> nat {
    if c == '1' {
        1
    } else if c == '2' {
        2
    } else if c == '3' {
        3
    } else if c == '4' {
        4
    } else if c == '5' {
        5
    } else if c == '6' {
        6
    } else if c == '7' {
        7
    } else if c == '8' {
        8
    } else if c == '9' {
        9
    } else {
        0
    }
}

/// Whether every character of `s` is a decimal digit.
pub open spec fn all_digits(s: Seq<char>) -> bool {
    forall|i: int| 0 <= i < s.len() ==> is_digit(#[trigger] s[i])
}

/// The value of a sequence of decimal digits, most significant first.
pub open spec fn dec_value(s: Seq<char>) -> nat
    decreases s.len(),
{
    if s.len() == 0 {
        0
    } else {
        dec_value(s.drop_last()) * 10 + digit_val(s.last())
    }
}

/// The index of the first occurrence of `c` in `s` at or after `from`,
/// or -1 when there is none.
pub open spec fn find_from(s: Seq<char>, c: char, from: int) -> int
    decreases s.len() - from,
{
    if from < 0 || from >= s.len() {
        -1
    } else if s[from] == c {
        from
    } else {
        find_from(s, c, from + 1)
    }
}

/// Peeling one digit off the end of a prefix: the value of the next-longer
/// prefix is ten times the value of the shorter one plus the new digit.
pub proof fn lemma_dec_value_step(s: Seq<char>, i: int)
    requires
        0 <= i < s.len(),
    ensures
        dec_value(s.take(i + 1)) == dec_value(s.take(i)) * 10 + digit_val(s[i]),
{
    assert(s.take(i + 1).drop_last() =~= s.take(i));
    assert(s.take(i + 1).last() == s[i]);
}

/// A digit string is worth at least as much as any of its prefixes.
pub proof fn lemma_dec_value_prefix(s: Seq<char>, i: int)
    requires
        0 <= i <= s.len(),
    ensures
        dec_value(s) >= dec_value(s.take(i)),
    decreases s.len() - i,
{
    if i == s.len() {
        assert(s.take(i) =~= s);
    } else {
        lemma_dec_value_step(s, i);
        lemma_dec_value_prefix(s, i + 1);
    }
}

/// A scan that saw no `c` before `i`, and `c` at `i`, found the first one.
pub proof fn lemma_find_from_at(s: Seq<char>, c: char, from: int, i: int)
    requires
        0 <= from <= i < s.len(),
        s[i] == c,
        forall|j: int| from <= j < i ==> s[j] != c,
    ensures
        find_from(s, c, from) == i,
    decreases i - from,
{
    if from < i {
        lemma_find_from_at(s, c, from + 1, i);
    }
}

/// A scan that saw no `c` at all finds nothing.
pub proof fn lemma_find_from_none(s: Seq<char>, c: char, from: int)
    requires
        0 <= from <= s.len(),
        forall|j: int| from <= j < s.len() ==> s[j] != c,
    ensures
        find_from(s, c, from) == -1,
    decreases s.len() - from,
{
    if from < s.len() {
        lemma_find_from_none(s, c, from + 1);
    }
}

/// The first occurrence of `c` in `s` at or after `from`.
pub fn find_char(s: &str, c: char, from: usize) -> (r: Option<usize>)
    requires
        from <= s@.len(),
    ensures
        r matches Some(i) ==> from <= i < s@.len() && find_from(s@, c, from as int) == i,
        r is None ==> find_from(s@, c, from as int) == -1,
{
    let len = s.unicode_len();
    let mut i = from;
    while i < len
        invariant
            from <= i <= len == s@.len(),
            forall|j: int| from <= j < i ==> s@[j] != c,
        decreases len - i,
    {
        if s.get_char(i) == c {
            proof {
                lemma_find_from_at(s@, c, from as int, i as int);
            }
            return Some(i);
        }
        i = i + 1;
    }
    proof {
        lemma_find_from_none(s@, c, from as int);
    }
    None
}

/// The digit value of a digit character; 10 marks a non-digit.
fn digit_of(c: char) -> (r: u8)
    ensures
        r < 10 ==> is_digit(c) && r == digit_val(c),
        r == 10 ==> !is_digit(c),
        r <= 10,
{
    match c {
        '0' => 0,
        '1' => 1,
        '2' => 2,
        '3' => 3,
        '4' => 4,
        '5' => 5,
        '6' => 6,
        '7' => 7,
        '8' => 8,
        '9' => 9,
        _ => 10,
    }
}

/// Parses an unsigned decimal integer: the whole of `s` must be digits and
/// the value must fit, and then the value is exactly the digits' worth.
pub fn parse_u64(s: &str) -> (r: Option<u64>)
    ensures
        r is Some <==> s@.len() > 0 && all_digits(s@) && dec_value(s@) <= u64::MAX,
        r matches Some(v) ==> v == dec_value(s@),
{
    let len = s.unicode_len();
    if len == 0 {
        return None;
    }
    let mut acc: u64 = 0;
    let mut i: usize = 0;
    while i < len
        invariant
            0 <= i <= len == s@.len(),
            forall|j: int| 0 <= j < i ==> is_digit(#[trigger] s@[j]),
            acc == dec_value(s@.take(i as int)),
        decreases len - i,
    {
        let c = s.get_char(i);
        let d = digit_of(c);
        if d == 10 {
            assert(!all_digits(s@));
            return None;
        }
        proof {
            lemma_dec_value_step(s@, i as int);
        }
        let next = match acc.checked_mul(10) {
            Some(m) => m.checked_add(d as u64),
            None => None,
        };
        match next {
            Some(v) => {
                acc = v;
            },
            None => {
                proof {
                    lemma_dec_value_prefix(s@, i + 1);
                }
                return None;
            },
        }
        i = i + 1;
    }
    proof {
        assert(s@.take(len as int) =~= s@);
    }
    Some(acc)
}

/// Parses an unsigned decimal integer that must fit in 32 bits.
pub fn parse_u32(s: &str) -> (r: Option<u32>)
    ensures
        r is Some <==> s@.len() > 0 && all_digits(s@) && dec_value(s@) <= u32::MAX,
        r matches Some(v) ==> v == dec_value(s@),
{
    match parse_u64(s) {
        Some(v) => {
            if v <= 0xffff_ffff {
                Some(v as u32)
            } else {
                None
            }
        },
        None => {
            proof {
                if s@.len() > 0 && all_digits(s@) && dec_value(s@) <= u32::MAX {
                    assert(dec_value(s@) <= u64::MAX);
                }
            }
            None
        },
    }
}

/// Whether `s` is a well-formed optionally-signed decimal integer.
pub open spec fn is_int_seq(s: Seq<char>) -> bool {
    if s.len() > 0 && s[0] == '-' {
        s.len() > 1 && all_digits(s.skip(1))
    } else {
        s.len() > 0 && all_digits(s)
    }
}

/// The value of an optionally-signed decimal integer.
pub open spec fn int_value(s: Seq<char>) -> int {
    if s.len() > 0 && s[0] == '-' {
        -(dec_value(s.skip(1)) as int)
    } else {
        dec_value(s) as int
    }
}

/// Parses a signed decimal integer into 32 bits.
pub fn parse_i32(s: &str) -> (r: Option<i32>)
    ensures
        r is Some <==> is_int_seq(s@) && i32::MIN <= int_value(s@) <= i32::MAX,
        r matches Some(v) ==> v == int_value(s@),
{
    let len = s.unicode_len();
    if len > 0 && s.get_char(0) == '-' {
        let rest = s.substring_char(1, len);
        match parse_u64(rest) {
            Some(v) => {
                if v <= 2147483648 {
                    let r: i32 = if v == 2147483648 {
                        i32::MIN
                    } else {
                        -(v as i32)
                    };
                    Some(r)
                } else {
                    None
                }
            },
            None => {
                proof {
                    if is_int_seq(s@) && i32::MIN <= int_value(s@) {
                        assert(dec_value(s@.skip(1)) <= 2147483648);
                    }
                }
                None
            },
        }
    } else {
        match parse_u64(s) {
            Some(v) => {
                if v <= 2147483647 {
                    Some(v as i32)
                } else {
                    None
                }
            },
            None => {
                proof {
                    if is_int_seq(s@) && int_value(s@) <= i32::MAX {
                        assert(dec_value(s@) <= u64::MAX);
                    }
                }
                None
            },
        }
    }
}

/// The worth, in hundredths, of the first two fractional digits.
pub open spec fn frac_centi(f: Seq<char>) -> nat {
    if f.len() == 0 {
        0
    } else if f.len() == 1 {
        digit_val(f[0]) * 10
    } else {
        digit_val(f[0]) * 10 + digit_val(f[1])
    }
}

/// A decimal number "123" or "123.45" read into hundredths; fractional
/// digits past the second are ignored. Either part may be empty, not both.
pub open spec fn spec_parse_centi(s: Seq<char>) -> Option<u32> {
    let dot = find_from(s, '.', 0);
    if dot < 0 {
        if s.len() > 0 && all_digits(s) && dec_value(s) * 100 <= u32::MAX {
            Some((dec_value(s) * 100) as u32)
        } else {
            None
        }
    } else {
        let ip = s.take(dot);
        let fp = s.skip(dot + 1);
        if (ip.len() > 0 || fp.len() > 0) && all_digits(ip) && all_digits(fp) && dec_value(ip) * 100
            + frac_centi(fp) <= u32::MAX {
            Some((dec_value(ip) * 100 + frac_centi(fp)) as u32)
        } else {
            None
        }
    }
}

/// Parses a decimal number into hundredths, e.g. "143.96" -> 14396.
#[verifier::loop_isolation(false)]
pub fn parse_centi(s: &str) -> (r: Option<u32>)
    ensures
        r == spec_parse_centi(s@),
{
    let len = s.unicode_len();
    match find_char(s, '.', 0) {
        None => {
            match parse_u64(s) {
                Some(v) => {
                    if v <= 42949672 {
                        Some((v as u32) * 100)
                    } else {
                        None
                    }
                },
                None => None,
            }
        },
        Some(dot) => {
            let ip = s.substring_char(0, dot);
            let fp = s.substring_char(dot + 1, len);
            proof {
                assert(ip@ =~= s@.take(find_from(s@, '.', 0)));
                assert(fp@ =~= s@.skip(find_from(s@, '.', 0) + 1));
            }
            if ip.unicode_len() == 0 && fp.unicode_len() == 0 {
                return None;
            }
            let ival: u64 = if ip.unicode_len() == 0 {
                0
            } else {
                match parse_u64(ip) {
                    Some(v) => v,
                    None => {
                        return None;
                    },
                }
            };
            if ival > 42949672 {
                return None;
            }
            let mut cval: u64 = ival * 100;
            let flen = fp.unicode_len();
            if flen >= 1 {
                let d0 = digit_of(fp.get_char(0));
                if d0 == 10 {
                    proof {
                        assert(!is_digit(fp@[0]));
                        assert(!all_digits(fp@));
                    }
                    return None;
                }
                cval = cval + (d0 as u64) * 10;
                if flen >= 2 {
                    let d1 = digit_of(fp.get_char(1));
                    if d1 == 10 {
                        proof {
                            assert(!is_digit(fp@[1]));
                            assert(!all_digits(fp@));
                        }
                        return None;
                    }
                    cval = cval + d1 as u64;
                }
                let mut k: usize = 2;
                while k < flen
                    invariant
                        2 <= k,
                        flen == fp@.len(),
                        forall|j: int| 0 <= j < k && j < flen ==> is_digit(#[trigger] fp@[j]),
                    decreases flen - k,
                {
                    if digit_of(fp.get_char(k)) == 10 {
                        assert(!all_digits(fp@));
                        return None;
                    }
                    k = k + 1;
                }
            }
            if cval <= 0xffff_ffff {
                Some(cval as u32)
            } else {
                None
            }
        },
    }
}

/// Whether `c` is one of the blank characters stripped from the ends of a
/// field before it is parsed.
pub open spec fn is_space(c: char) -> bool {
    c == ' ' || c == '\t' || c == '\n' || c == '\r'
}

/// `s` without its leading blanks.
pub open spec fn drop_leading_spaces(s: Seq<char>) -> Seq<char>
    decreases s.len(),
{
    if s.len() > 0 && is_space(s[0]) {
        drop_leading_spaces(s.skip(1))
    } else {
        s
    }
}

/// `s` without its trailing blanks.
pub open spec fn drop_trailing_spaces(s: Seq<char>) -> Seq<char>
    decreases s.len(),
{
    if s.len() > 0 && is_space(s.last()) {
        drop_trailing_spaces(s.drop_last())
    } else {
        s
    }
}

/// `s` without blanks at either end.
pub open spec fn trimmed(s: Seq<char>) -> Seq<char> {
    drop_trailing_spaces(drop_leading_spaces(s))
}

proof fn lemma_drop_leading(s: Seq<char>, k: int)
    requires
        0 <= k <= s.len(),
        forall|j: int| 0 <= j < k ==> is_space(#[trigger] s[j]),
        k < s.len() ==> !is_space(s[k]),
    ensures
        drop_leading_spaces(s) == s.skip(k),
    decreases k,
{
    if k == 0 {
        assert(s.skip(0) =~= s);
    } else {
        lemma_drop_leading(s.skip(1), k - 1);
        assert(s.skip(1).skip(k - 1) =~= s.skip(k));
    }
}

proof fn lemma_drop_trailing(s: Seq<char>, k: int)
    requires
        0 <= k <= s.len(),
        forall|j: int| k <= j < s.len() ==> is_space(#[trigger] s[j]),
        k > 0 ==> !is_space(s[k - 1]),
    ensures
        drop_trailing_spaces(s) == s.take(k),
    decreases s.len() - k,
{
    if k == s.len() {
        assert(s.take(k) =~= s);
    } else {
        lemma_drop_trailing(s.drop_last(), k);
        assert(s.drop_last().take(k) =~= s.take(k));
    }
}

fn is_space_char(c: char) -> (r: bool)
    ensures
        r == is_space(c),
{
    c == ' ' || c == '\t' || c == '\n' || c == '\r'
}

/// The bounds of the non-blank middle of `s`: everything before the start
/// and from the end on is blank, and the middle is exactly the trimmed view.
pub fn trim_bounds(s: &str) -> (r: (usize, usize))
    ensures
        r.0 <= r.1 <= s@.len(),
        trimmed(s@) == s@.subrange(r.0 as int, r.1 as int),
{
    let len = s.unicode_len();
    let mut lo: usize = 0;
    while lo < len && is_space_char(s.get_char(lo))
        invariant
            0 <= lo <= len == s@.len(),
            forall|j: int| 0 <= j < lo ==> is_space(#[trigger] s@[j]),
        decreases len - lo,
    {
        lo = lo + 1;
    }
    let mut hi: usize = len;
    while hi > lo && is_space_char(s.get_char(hi - 1))
        invariant
            lo <= hi <= len == s@.len(),
            forall|j: int| hi <= j < len ==> is_space(#[trigger] s@[j]),
            lo < len ==> !is_space(s@[lo as int]),
        decreases hi,
    {
        hi = hi - 1;
    }
    proof {
        lemma_drop_leading(s@, lo as int);
        let mid = s@.skip(lo as int);
        lemma_drop_trailing(mid, hi - lo);
        assert(mid.take(hi - lo) =~= s@.subrange(lo as int, hi as int));
    }
    (lo, hi)
}

/// Appends `c` hundredths with trailing zeros dropped, e.g. 150 -> "1.5".
pub fn push_centi_trimmed(s: &mut String, c: u64)
    ensures
        final(s)@ == old(s)@ + centi_trimmed(c as nat),
{
    push_u64(s, c / 100);
    if c % 100 == 0 {
        return ;
    }
    s.append(".");
    push_digit(s, ((c / 10) % 10) as u8);
    if c % 10 != 0 {
        push_digit(s, (c % 10) as u8);
        proof {
            reveal_strlit(".");
            assert(final(s)@ =~= old(s)@ + centi_trimmed(c as nat));
        }
    } else {
        proof {
            reveal_strlit(".");
            assert(final(s)@ =~= old(s)@ + centi_trimmed(c as nat));
        }
    }
}

} // verus!
