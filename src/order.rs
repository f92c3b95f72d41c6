//! Lexicographic order on category names, character by character (code point order).
use core::cmp::Ordering;
use vstd::prelude::*;

verus! {

/// `a` comes strictly before `b`: either `a` is a proper prefix of `b`, or at the first
/// position where they differ the character of `a` has the smaller code point.
pub open spec fn lex_lt(a: Seq<char>, b: Seq<char>) -> bool {
    exists|k: int|
        #![trigger a.take(k), b.take(k)]
        0 <= k <= a.len() && k <= b.len() && a.take(k) == b.take(k) && ((k == a.len() && k
            < b.len()) || (k < a.len() && k < b.len() && (a[k] as u32) < (b[k] as u32)))
}

/// Two names that agree before position `k` and differ at `k` are ordered by that character.
pub proof fn lemma_first_difference(a: Seq<char>, b: Seq<char>, k: int)
    requires
        0 <= k < a.len(),
        k < b.len(),
        forall|i: int| 0 <= i < k ==> a[i] == b[i],
        (a[k] as u32) < (b[k] as u32),
    ensures
        lex_lt(a, b),
{
    assert(a.take(k) =~= b.take(k));
}

/// A proper prefix comes first.
pub proof fn lemma_prefix_lt(a: Seq<char>, b: Seq<char>)
    requires
        a.len() < b.len(),
        forall|i: int| 0 <= i < a.len() ==> a[i] == b[i],
    ensures
        lex_lt(a, b),
{
    assert(a.take(a.len() as int) =~= b.take(a.len() as int));
}

/// No name comes before itself.
pub proof fn lemma_lex_irreflexive(a: Seq<char>)
    ensures
        !lex_lt(a, a),
{
}

/// The order is transitive.
pub proof fn lemma_lex_transitive(a: Seq<char>, b: Seq<char>, c: Seq<char>)
    requires
        lex_lt(a, b),
        lex_lt(b, c),
    ensures
        lex_lt(a, c),
{
    let k1 = choose|k: int|
        #![trigger a.take(k), b.take(k)]
        0 <= k <= a.len() && k <= b.len() && a.take(k) == b.take(k) && ((k == a.len() && k
            < b.len()) || (k < a.len() && k < b.len() && (a[k] as u32) < (b[k] as u32)));
    let k2 = choose|k: int|
        #![trigger b.take(k), c.take(k)]
        0 <= k <= b.len() && k <= c.len() && b.take(k) == c.take(k) && ((k == b.len() && k
            < c.len()) || (k < b.len() && k < c.len() && (b[k] as u32) < (c[k] as u32)));
    assert forall|i: int| 0 <= i < k1 implies a[i] == b[i] by {
        assert(a.take(k1)[i] == b.take(k1)[i]);
    }
    assert forall|i: int| 0 <= i < k2 implies b[i] == c[i] by {
        assert(b.take(k2)[i] == c.take(k2)[i]);
    }
    if k1 < k2 {
        if k1 == a.len() {
            lemma_prefix_lt(a, c);
        } else {
            lemma_first_difference(a, c, k1);
        }
    } else if k2 < k1 {
        lemma_first_difference(a, c, k2);
    } else {
        if k1 == a.len() {
            lemma_prefix_lt(a, c);
        } else {
            lemma_first_difference(a, c, k1);
        }
    }
}

/// A name that comes before another differs from it.
pub proof fn lemma_lex_lt_ne(a: Seq<char>, b: Seq<char>)
    requires
        lex_lt(a, b),
    ensures
        a != b,
        !lex_lt(b, a),
{
    lemma_lex_irreflexive(a);
    if lex_lt(b, a) {
        lemma_lex_transitive(a, b, a);
    }
}

/// Compares two names in the order `lex_lt`.
pub fn compare_names(a: &str, b: &str) -> (r: Ordering)
    ensures
        (r == Ordering::Less) == lex_lt(a@, b@),
        (r == Ordering::Equal) == (a@ == b@),
        (r == Ordering::Greater) == lex_lt(b@, a@),
{
    let la = a.unicode_len();
    let lb = b.unicode_len();
    let mut i: usize = 0;
    while i < la && i < lb
        invariant
            la == a@.len(),
            lb == b@.len(),
            i <= la,
            i <= lb,
            forall|j: int| 0 <= j < i ==> a@[j] == b@[j],
        decreases la - i,
    {
        let ca = a.get_char(i);
        let cb = b.get_char(i);
        if (ca as u32) < (cb as u32) {
            proof {
                lemma_first_difference(a@, b@, i as int);
                lemma_lex_lt_ne(a@, b@);
            }
            return Ordering::Less;
        }
        if (cb as u32) < (ca as u32) {
            proof {
                lemma_first_difference(b@, a@, i as int);
                lemma_lex_lt_ne(b@, a@);
            }
            return Ordering::Greater;
        }
        assert((ca as u32) == (cb as u32));
        assert(ca == cb);
        i = i + 1;
    }
    if la < lb {
        proof {
            lemma_prefix_lt(a@, b@);
            lemma_lex_lt_ne(a@, b@);
        }
        Ordering::Less
    } else if lb < la {
        proof {
            lemma_prefix_lt(b@, a@);
            lemma_lex_lt_ne(b@, a@);
        }
        Ordering::Greater
    } else {
        assert(a@ =~= b@);
        proof {
            lemma_lex_irreflexive(a@);
        }
        Ordering::Equal
    }
}

} // verus!
