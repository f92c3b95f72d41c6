//! Identifier-safe symbolic names for categories: `&` reads as `And`, and every character
//! that is not an ASCII letter or digit is dropped.
use vstd::prelude::*;

verus! {

/// An ASCII letter or digit.
pub open spec fn is_ascii_alphanumeric(c: char) -> bool {
    (48 <= (c as u32) <= 57) || (65 <= (c as u32) <= 90) || (97 <= (c as u32) <= 122)
}

/// What one character of a name contributes to its symbolic name.
pub open spec fn symbol_piece(c: char) -> Seq<char> {
    if c == '&' {
        seq!['A', 'n', 'd']
    } else if is_ascii_alphanumeric(c) {
        seq![c]
    } else {
        Seq::empty()
    }
}

/// The symbolic name of `s`: the pieces of its characters, in order.
pub open spec fn symbol_of(s: Seq<char>) -> Seq<char>
    decreases s.len(),
{
    if s.len() == 0 {
        Seq::empty()
    } else {
        symbol_of(s.drop_last()) + symbol_piece(s.last())
    }
}

fn is_alphanumeric(c: char) -> (r: bool)
    ensures
        r == is_ascii_alphanumeric(c),
{
    let v = c as u32;
    (48 <= v && v <= 57) || (65 <= v && v <= 90) || (97 <= v && v <= 122)
}

/// The symbolic name of a category name, as used for its named accessor.
pub fn variant_name(name: &str) -> (r: String)
    ensures
        r@ == symbol_of(name@),
{
    let n = name.unicode_len();
    let mut out = String::new();
    let mut i: usize = 0;
    proof {
        assert(name@.take(0) =~= Seq::<char>::empty());
        reveal_strlit("And");
    }
    while i < n
        invariant
            n == name@.len(),
            i <= n,
            out@ == symbol_of(name@.take(i as int)),
            "And"@ == seq!['A', 'n', 'd'],
        decreases n - i,
    {
        let c = name.get_char(i);
        if c == '&' {
            out.append("And");
        } else if is_alphanumeric(c) {
            let one = name.substring_char(i, i + 1);
            assert(one@ =~= seq![c]);
            out.append(one);
        }
        proof {
            let t = name@.take(i + 1);
            assert(t.drop_last() =~= name@.take(i as int));
            assert(t.last() == c);
        }
        i = i + 1;
    }
    proof {
        assert(name@.take(n as int) =~= name@);
    }
    out
}

} // verus!
