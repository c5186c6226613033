//! Integer parsing as `str::parse` does it for `u16` and `i64`: an optional
//! sign (`+`, and `-` for signed types) followed by one or more ASCII
//! digits, with no other character, and a value within the type's range.

use vstd::prelude::*;

verus! {

/// The decimal digit character of `0 <= d < 10`.
pub open spec fn digit_char(d: int) -> char {
    ('0' as int + d) as char
}

/// The decimal digits of a natural number, without leading zeros.
pub open spec fn nat_text(n: nat) -> Seq<char>
    decreases n,
{
    if n < 10 {
        seq![digit_char(n as int)]
    } else {
        nat_text(n / 10).push(digit_char((n % 10) as int))
    }
}

/// The decimal text of an integer, with `-` before a negative one.
pub open spec fn int_text(n: int) -> Seq<char> {
    if n < 0 {
        seq!['-'] + nat_text((-n) as nat)
    } else {
        nat_text(n as nat)
    }
}

pub open spec fn is_digit(c: char) -> bool {
    '0' <= c && c <= '9'
}

pub open spec fn all_digits(s: Seq<char>) -> bool {
    forall|i: int| 0 <= i < s.len() ==> is_digit(#[trigger] s[i])
}

/// The number that a string of decimal digits writes.
pub open spec fn digits_value(s: Seq<char>) -> int
    decreases s.len(),
{
    if s.len() == 0 {
        0
    } else {
        digits_value(s.drop_last()) * 10 + (s.last() as int - '0' as int)
    }
}

/// The text after an optional leading `+`.
pub open spec fn unsigned_body(s: Seq<char>) -> Seq<char> {
    if s.len() > 0 && s[0] == '+' {
        s.skip(1)
    } else {
        s
    }
}

/// What `str::parse::<u16>` yields.
pub open spec fn parsed_u16(s: Seq<char>) -> Option<u16> {
    let body = unsigned_body(s);
    if body.len() > 0 && all_digits(body) && digits_value(body) <= u16::MAX {
        Some(digits_value(body) as u16)
    } else {
        None
    }
}

/// The text after an optional leading `+` or `-`.
pub open spec fn signed_body(s: Seq<char>) -> Seq<char> {
    if s.len() > 0 && (s[0] == '+' || s[0] == '-') {
        s.skip(1)
    } else {
        s
    }
}

pub open spec fn is_negative_text(s: Seq<char>) -> bool {
    s.len() > 0 && s[0] == '-'
}

/// The value that a signed decimal text writes.
pub open spec fn signed_value(s: Seq<char>) -> int {
    if is_negative_text(s) {
        -digits_value(signed_body(s))
    } else {
        digits_value(signed_body(s))
    }
}

/// What `str::parse::<i64>` yields.
pub open spec fn parsed_i64(s: Seq<char>) -> Option<i64> {
    let body = signed_body(s);
    if body.len() > 0 && all_digits(body) && i64::MIN <= signed_value(s) <= i64::MAX {
        Some(signed_value(s) as i64)
    } else {
        None
    }
}

/// The characters of a text.
pub fn chars_of(s: &str) -> (r: Vec<char>)
    ensures
        r@ == s@,
{
    let mut r: Vec<char> = Vec::new();
    for c in it: s.chars()
        invariant
            it.seq() == s@,
            r@ == s@.take(it.index() as int),
    {
        proof {
            assert(s@.take(it.index() + 1) =~= s@.take(it.index() as int).push(c));
        }
        r.push(c);
    }
    proof {
        assert(s@.take(s@.len() as int) =~= s@);
    }
    r
}

proof fn lemma_digits_value_nonneg(s: Seq<char>)
    requires
        all_digits(s),
    ensures
        digits_value(s) >= 0,
    decreases s.len(),
{
    if s.len() > 0 {
        lemma_digits_value_nonneg(s.drop_last());
    }
}

/// A number written with more digits is at least the number of its prefix.
proof fn lemma_digits_value_grows(s: Seq<char>, k: int)
    requires
        all_digits(s),
        0 <= k <= s.len(),
    ensures
        digits_value(s.take(k)) <= digits_value(s),
    decreases s.len() - k,
{
    if k < s.len() {
        let t = s.take(k + 1);
        assert(t.drop_last() =~= s.take(k));
        assert(all_digits(s.take(k)));
        lemma_digits_value_nonneg(s.take(k));
        lemma_digits_value_grows(s, k + 1);
    } else {
        assert(s.take(k) =~= s);
    }
}

/// Reads the digits `s[start..]` as a number, stopping with `None` once the
/// number passes `bound`, or where a character is not a digit.
fn digits_up_to(s: &Vec<char>, start: usize, bound: u64) -> (r: Option<u64>)
    requires
        start <= s@.len(),
        9 <= bound <= 0x8000_0000_0000_0000u64,
    ensures
        match r {
            Some(v) => all_digits(s@.skip(start as int)) && v == digits_value(s@.skip(start as int)) && v <= bound,
            None => !(all_digits(s@.skip(start as int)) && digits_value(s@.skip(start as int)) <= bound),
        },
{
    let ghost body = s@.skip(start as int);
    let mut acc: u64 = 0;
    let mut i: usize = start;
    proof {
        assert(body.take(0) =~= Seq::<char>::empty());
    }
    while i < s.len()
        invariant
            start <= i <= s@.len(),
            body == s@.skip(start as int),
            9 <= bound <= 0x8000_0000_0000_0000u64,
            all_digits(body.take(i - start)),
            acc == digits_value(body.take(i - start)),
            acc <= bound,
        decreases s@.len() - i,
    {
        let c = s[i];
        proof {
            assert(body[i - start] == c);
        }
        if !('0' <= c && c <= '9') {
            proof {
                assert(!is_digit(body[i - start]));
            }
            return None;
        }
        let d = (c as u32 - '0' as u32) as u64;
        proof {
            let t = body.take(i - start + 1);
            assert(t.drop_last() =~= body.take(i - start));
            assert(t.last() == c);
            assert(all_digits(t));
        }
        if acc > (bound - d) / 10 {
            proof {
                let t = body.take(i - start + 1);
                assert(digits_value(t) == acc * 10 + d);
                assert(acc * 10 + d > bound) by (nonlinear_arith)
                    requires
                        acc > (bound - d) / 10,
                        d <= 9,
                        d <= bound,
                ;
                if all_digits(body) {
                    lemma_digits_value_grows(body, i - start + 1);
                }
            }
            return None;
        }
        proof {
            assert(acc * 10 + d <= bound) by (nonlinear_arith)
                requires
                    acc <= (bound - d) / 10,
                    d <= bound,
            ;
        }
        acc = acc * 10 + d;
        i = i + 1;
    }
    proof {
        assert(body.take(i - start) =~= body);
    }
    Some(acc)
}

/// `text.parse::<u16>()`.
pub fn parse_u16(text: &str) -> (r: Option<u16>)
    ensures
        r == parsed_u16(text@),
{
    let s = chars_of(text);
    let start: usize = if s.len() > 0 && s[0] == '+' { 1 } else { 0 };
    proof {
        assert(unsigned_body(s@) =~= s@.skip(start as int));
    }
    if start == s.len() {
        return None;
    }
    match digits_up_to(&s, start, 65535) {
        Some(v) => Some(v as u16),
        None => None,
    }
}

/// `text.parse::<i64>()`.
pub fn parse_i64(text: &str) -> (r: Option<i64>)
    ensures
        r == parsed_i64(text@),
{
    let s = chars_of(text);
    proof {
        assert(s@.skip(0) =~= s@);
    }
    parse_i64_at(&s, 0)
}

/// `parse::<i64>()` of the characters `chars[from..]`.
pub fn parse_i64_at(chars: &Vec<char>, from: usize) -> (r: Option<i64>)
    requires
        from <= chars@.len(),
    ensures
        r == parsed_i64(chars@.skip(from as int)),
{
    let ghost t = chars@.skip(from as int);
    let n = chars.len();
    let neg = from < n && chars[from] == '-';
    let start: usize = if from < n && (chars[from] == '+' || chars[from] == '-') { from + 1 } else { from };
    let s = chars;
    proof {
        assert(signed_body(t) =~= s@.skip(start as int));
        assert(neg == is_negative_text(t));
    }
    if start == s.len() {
        return None;
    }
    let bound: u64 = if neg { 0x8000_0000_0000_0000u64 } else { 0x7FFF_FFFF_FFFF_FFFFu64 };
    match digits_up_to(&s, start, bound) {
        Some(v) => if neg {
            if v == 0x8000_0000_0000_0000u64 {
                Some(i64::MIN)
            } else {
                Some(0 - (v as i64))
            }
        } else {
            Some(v as i64)
        },
        None => None,
    }
}

} // verus!
