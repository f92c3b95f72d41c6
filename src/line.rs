//! One line of the taxonomy text: `<numeric id> - <category name>`.
//!
//! The line splits at the first occurrence of `" - "`; the name may hold further ones. The
//! id is decimal, with an optional leading `+`, and must fit in 32 bits.
use vstd::prelude::*;

verus! {

/// Why a line of the taxonomy text does not hold an entry.
#[derive(Debug, Clone, Copy, PartialEq, Eq, Structural)]
pub enum LineError {
    /// The line has no `" - "` separator.
    MissingSeparator,
    /// The text before the separator is not an unsigned 32-bit number.
    BadId,
}

/// `" - "` starts at position `k` of `s`.
pub open spec fn separator_at(s: Seq<char>, k: int) -> bool {
    0 <= k && k + 3 <= s.len() && s[k] == ' ' && s[k + 1] == '-' && s[k + 2] == ' '
}

/// `k` is the first position where `" - "` starts.
pub open spec fn first_separator(s: Seq<char>, k: int) -> bool {
    separator_at(s, k) && forall|j: int| 0 <= j < k ==> !#[trigger] separator_at(s, j)
}

/// An ASCII decimal digit.
pub open spec fn is_digit(c: char) -> bool {
    48 <= (c as u32) <= 57
}

/// Every character is a decimal digit.
pub open spec fn all_digits(d: Seq<char>) -> bool {
    forall|i: int| 0 <= i < d.len() ==> is_digit(#[trigger] d[i])
}

/// The number that a string of decimal digits writes.
pub open spec fn digits_value(d: Seq<char>) -> nat
    decreases d.len(),
{
    if d.len() == 0 {
        0
    } else {
        10 * digits_value(d.drop_last()) + ((d.last() as u32) - 48) as nat
    }
}

/// The digits of a number text, after an optional leading `+`.
pub open spec fn unsigned_body(d: Seq<char>) -> Seq<char> {
    if d.len() > 0 && d[0] == '+' {
        d.drop_first()
    } else {
        d
    }
}

/// The unsigned 32-bit number that `d` writes, if it writes one.
pub open spec fn parse_u32_spec(d: Seq<char>) -> Option<u32> {
    let body = unsigned_body(d);
    if body.len() > 0 && all_digits(body) && digits_value(body) <= u32::MAX {
        Some(digits_value(body) as u32)
    } else {
        None
    }
}

proof fn lemma_value_grows(d: Seq<char>, i: int)
    requires
        0 <= i <= d.len(),
        all_digits(d),
    ensures
        digits_value(d.take(i)) <= digits_value(d),
    decreases d.len() - i,
{
    if i < d.len() {
        lemma_value_grows(d, i + 1);
        assert(d.take(i + 1).drop_last() =~= d.take(i));
        assert(is_digit(d[i]));
    } else {
        assert(d.take(i) =~= d);
    }
}

/// Reads an unsigned 32-bit decimal number.
pub fn parse_u32(s: &str) -> (r: Option<u32>)
    ensures
        r == parse_u32_spec(s@),
{
    let n = s.unicode_len();
    let mut i: usize = 0;
    if n > 0 && s.get_char(0) == '+' {
        i = 1;
    }
    let start = i;
    let ghost body = unsigned_body(s@);
    assert(body =~= s@.skip(start as int));
    if start == n {
        return None;
    }
    let mut acc: u64 = 0;
    while i < n
        invariant
            n == s@.len(),
            start <= i <= n,
            body == s@.skip(start as int),
            body == unsigned_body(s@),
            body.len() > 0,
            acc <= u32::MAX,
            all_digits(body.take(i - start)),
            acc == digits_value(body.take(i - start)),
        decreases n - i,
    {
        let c = s.get_char(i);
        let v = c as u32;
        if v < 48 || v > 57 {
            proof {
                assert(body[i - start] == c);
                assert(!is_digit(body[i - start]));
            }
            return None;
        }
        let next = acc * 10 + (v - 48) as u64;
        proof {
            let t = body.take(i - start + 1);
            assert(t.drop_last() =~= body.take(i - start));
            assert(t.last() == c);
            assert forall|k: int| 0 <= k < t.len() implies is_digit(#[trigger] t[k]) by {
                if k < t.len() - 1 {
                    assert(t[k] == body.take(i - start)[k]);
                }
            }
            assert(digits_value(t) == next);
        }
        if next > u32::MAX as u64 {
            proof {
                if all_digits(body) {
                    lemma_value_grows(body, i - start + 1);
                    assert(digits_value(body) > u32::MAX);
                }
            }
            return None;
        }
        acc = next;
        i = i + 1;
    }
    proof {
        assert(body.take(n - start) =~= body);
    }
    Some(acc as u32)
}

/// Splits a line at its first `" - "` into the id and the name.
pub fn parse_line(line: &str) -> (r: Result<(u32, &str), LineError>)
    ensures
        match r {
            Ok((id, name)) => exists|k: int|
                first_separator(line@, k) && parse_u32_spec(line@.take(k)) == Some(id) && name@
                    == line@.skip(k + 3),
            Err(LineError::MissingSeparator) => forall|k: int| !#[trigger] separator_at(line@, k),
            Err(LineError::BadId) => exists|k: int|
                first_separator(line@, k) && parse_u32_spec(line@.take(k)) is None,
        },
{
    let n = line.unicode_len();
    let mut k: usize = 0;
    while n >= 3 && k <= n - 3
        invariant
            n == line@.len(),
            forall|j: int| 0 <= j < k ==> !#[trigger] separator_at(line@, j),
        decreases n - k,
    {
        if line.get_char(k) == ' ' && line.get_char(k + 1) == '-' && line.get_char(k + 2) == ' ' {
            assert(first_separator(line@, k as int));
            let left = line.substring_char(0, k);
            let name = line.substring_char(k + 3, n);
            assert(left@ =~= line@.take(k as int));
            assert(name@ =~= line@.skip(k + 3));
            return match parse_u32(left) {
                Some(id) => Ok((id, name)),
                None => Err(LineError::BadId),
            };
        }
        k = k + 1;
    }
    Err(LineError::MissingSeparator)
}

} // verus!
