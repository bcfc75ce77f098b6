//! Base-10 numeric text, as the kernel's sysfs files and the command line hold it.
use vstd::prelude::*;
use vstd::slice::slice_subrange;

verus! {

/// A byte that `char::is_whitespace` accepts within ASCII.
pub open spec fn is_space(b: u8) -> bool {
    b == 32 || (9 <= b && b <= 13)
}

pub open spec fn is_digit(b: u8) -> bool {
    48 <= b && b <= 57
}

pub open spec fn all_digits(s: Seq<u8>) -> bool {
    forall|i: int| 0 <= i < s.len() ==> is_digit(#[trigger] s[i])
}

/// The number that a run of decimal digits denotes, most significant first.
pub open spec fn digits_value(s: Seq<u8>) -> nat
    decreases s.len(),
{
    if s.len() == 0 {
        0
    } else {
        digits_value(s.drop_last()) * 10 + (s.last() - 48) as nat
    }
}

/// What `u64::from_str` makes of the text: an optional `+`, then one or more
/// digits whose value fits in 64 bits.
pub open spec fn decimal_value(s: Seq<u8>) -> Option<u64> {
    let body = if s.len() > 0 && s[0] == 43 { s.drop_first() } else { s };
    if body.len() > 0 && all_digits(body) && digits_value(body) <= u64::MAX {
        Some(digits_value(body) as u64)
    } else {
        None
    }
}

/// The text with leading whitespace removed.
pub open spec fn trim_start(s: Seq<u8>) -> Seq<u8>
    decreases s.len(),
{
    if s.len() > 0 && is_space(s[0]) {
        trim_start(s.drop_first())
    } else {
        s
    }
}

/// The text with trailing whitespace removed.
pub open spec fn trim_end(s: Seq<u8>) -> Seq<u8>
    decreases s.len(),
{
    if s.len() > 0 && is_space(s.last()) {
        trim_end(s.drop_last())
    } else {
        s
    }
}

/// The text with whitespace removed at both ends, as `str::trim` does.
pub open spec fn trim(s: Seq<u8>) -> Seq<u8> {
    trim_end(trim_start(s))
}

/// The decimal digits of `n`, most significant first, without leading zeros.
pub open spec fn decimal_digits(n: nat) -> Seq<u8>
    decreases n,
{
    if n < 10 {
        seq![(n + 48) as u8]
    } else {
        decimal_digits(n / 10).push(((n % 10) + 48) as u8)
    }
}

fn is_space_byte(b: u8) -> (r: bool)
    ensures
        r == is_space(b),
{
    b == 32 || (9 <= b && b <= 13)
}

/// Reads an unsigned 64-bit number in base 10, as `u64::from_str` does.
pub fn parse_u64(text: &[u8]) -> (r: Option<u64>)
    ensures
        r == decimal_value(text@),
{
    let len = text.len();
    let start: usize = if len > 0 && text[0] == 43u8 { 1 } else { 0 };
    let ghost body = if text@.len() > 0 && text@[0] == 43 { text@.drop_first() } else { text@ };
    assert(body =~= text@.subrange(start as int, len as int));
    if start == len {
        return None;
    }
    let mut value: u64 = 0;
    let mut i: usize = start;
    while i < len
        invariant
            start <= i <= len,
            len == text@.len(),
            body == (if text@.len() > 0 && text@[0] == 43 { text@.drop_first() } else { text@ }),
            body =~= text@.subrange(start as int, len as int),
            all_digits(text@.subrange(start as int, i as int)),
            value as nat == digits_value(text@.subrange(start as int, i as int)),
        decreases len - i,
    {
        let b = text[i];
        let ghost prefix = text@.subrange(start as int, i as int);
        let ghost next = text@.subrange(start as int, i + 1);
        assert(next.drop_last() =~= prefix);
        if b < 48u8 || b > 57u8 {
            assert(body[i - start] == b);
            assert(!is_digit(body[i - start]));
            assert(!all_digits(body));
            return None;
        }
        let d = (b - 48u8) as u64;
        if value > (u64::MAX - d) / 10 {
            proof {
                assert(value * 10 + d > u64::MAX) by (nonlinear_arith)
                    requires
                        value > (u64::MAX - d) / 10,
                        d <= 9,
                ;
                assert(digits_value(next) == value * 10 + d);
                if all_digits(body) {
                    lemma_digits_value_grows(body, (i + 1 - start) as int);
                    assert(body.subrange(0, (i + 1 - start) as int) =~= next);
                    assert(digits_value(body) > u64::MAX);
                }
            }
            return None;
        }
        proof {
            assert(value * 10 + d <= u64::MAX) by (nonlinear_arith)
                requires
                    value <= (u64::MAX - d) / 10,
                    d <= 9,
            ;
        }
        value = value * 10 + d;
        assert(all_digits(next));
        i = i + 1;
    }
    assert(text@.subrange(start as int, len as int) =~= body);
    Some(value)
}

/// The text between the first and the last byte that is not whitespace.
pub fn trim_bytes(text: &[u8]) -> (r: &[u8])
    ensures
        r@ == trim(text@),
{
    let len = text.len();
    let mut start: usize = 0;
    assert(text@.subrange(0, len as int) =~= text@);
    while start < len && is_space_byte(text[start])
        invariant
            start <= len,
            len == text@.len(),
            trim_start(text@) == trim_start(text@.subrange(start as int, len as int)),
        decreases len - start,
    {
        assert(text@.subrange(start as int, len as int).drop_first() =~= text@.subrange(
            start + 1,
            len as int,
        ));
        start = start + 1;
    }
    let mut end: usize = len;
    while end > start && is_space_byte(text[end - 1])
        invariant
            start <= end <= len,
            len == text@.len(),
            trim(text@) == trim_end(text@.subrange(start as int, end as int)),
        decreases end - start,
    {
        assert(text@.subrange(start as int, end as int).drop_last() =~= text@.subrange(
            start as int,
            end - 1,
        ));
        end = end - 1;
    }
    slice_subrange(text, start, end)
}

/// Reads a number from text that may carry whitespace at either end, as
/// `str::trim` followed by `u64::from_str` does.
pub fn parse_trimmed_u64(text: &[u8]) -> (r: Option<u64>)
    ensures
        r == decimal_value(trim(text@)),
{
    parse_u64(trim_bytes(text))
}

/// Appends the decimal digits of `n` to `out`.
pub fn push_decimal(n: u64, out: &mut Vec<u8>)
    ensures
        final(out)@ == old(out)@ + decimal_digits(n as nat),
    decreases n,
{
    if n >= 10 {
        push_decimal(n / 10, out);
    }
    out.push((n % 10) as u8 + 48u8);
    assert(out@ =~= old(out)@ + decimal_digits(n as nat));
}

/// The value of digits never shrinks as more digits are read.
proof fn lemma_digits_value_grows(s: Seq<u8>, k: int)
    requires
        0 <= k <= s.len(),
        all_digits(s),
    ensures
        digits_value(s.subrange(0, k)) <= digits_value(s),
    decreases s.len() - k,
{
    if k < s.len() {
        lemma_digits_value_grows(s, k + 1);
        let next = s.subrange(0, k + 1);
        assert(next.drop_last() =~= s.subrange(0, k));
        assert(is_digit(s[k]));
        assert(digits_value(next) == digits_value(s.subrange(0, k)) * 10 + (next.last() - 48) as nat);
    } else {
        assert(s.subrange(0, k) =~= s);
    }
}

} // verus!
