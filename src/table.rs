//! The two sorted arrays of a taxonomy and the binary searches over them.
//!
//! The name table holds `(id, name)` entries sorted by name; the position of an entry
//! is its handle. The id index holds `(id, handle)` pairs sorted by id.
use crate::order::{compare_names, lemma_lex_lt_ne, lemma_lex_transitive, lex_lt};
use core::cmp::Ordering;
use vstd::prelude::*;

verus! {

/// Names strictly increase along the name table.
pub open spec fn names_increasing(t: Seq<(u32, &str)>) -> bool {
    forall|i: int, j: int| 0 <= i < j < t.len() ==> lex_lt(#[trigger] t[i].1@, #[trigger] t[j].1@)
}

/// Ids strictly increase along the id index.
pub open spec fn ids_increasing(t: Seq<(u32, u16)>) -> bool {
    forall|i: int, j: int| 0 <= i < j < t.len() ==> #[trigger] t[i].0 < #[trigger] t[j].0
}

/// The id index pairs each id with the handle of the entry that carries it, and lists
/// every handle.
pub open spec fn index_matches(by_name: Seq<(u32, &str)>, by_id: Seq<(u32, u16)>) -> bool {
    &&& forall|j: int|
        0 <= j < by_id.len() ==> (#[trigger] by_id[j]).1 < by_name.len() && by_name[by_id[j].1 as int].0
            == by_id[j].0
    &&& forall|h: int| 0 <= h < by_name.len() ==> #[trigger] lists_handle(by_id, h)
}

/// Some pair of the id index points at handle `h`.
pub open spec fn lists_handle(by_id: Seq<(u32, u16)>, h: int) -> bool {
    exists|j: int| 0 <= j < by_id.len() && (#[trigger] by_id[j]).1 == h as u16
}

/// Both arrays are sorted on their keys, of one length that handles can count, and agree.
pub open spec fn tables_wf(by_name: Seq<(u32, &str)>, by_id: Seq<(u32, u16)>) -> bool {
    &&& by_name.len() == by_id.len()
    &&& by_name.len() <= 0x10000
    &&& names_increasing(by_name)
    &&& ids_increasing(by_id)
    &&& index_matches(by_name, by_id)
}

proof fn lemma_names_chain(t: Seq<(u32, &str)>, i: int, j: int)
    requires
        forall|m: int| 0 <= m < t.len() - 1 ==> lex_lt(#[trigger] t[m].1@, t[m + 1].1@),
        0 <= i < j < t.len(),
    ensures
        lex_lt(t[i].1@, t[j].1@),
    decreases j - i,
{
    if i + 1 < j {
        lemma_names_chain(t, i, j - 1);
        lemma_lex_transitive(t[i].1@, t[j - 1].1@, t[j].1@);
    }
}

/// Sortedness follows from each entry coming before the next one.
pub proof fn lemma_names_increasing(t: Seq<(u32, &str)>)
    requires
        forall|i: int| 0 <= i < t.len() - 1 ==> lex_lt(#[trigger] t[i].1@, t[i + 1].1@),
    ensures
        names_increasing(t),
{
    assert forall|i: int, j: int| 0 <= i < j < t.len() implies lex_lt(
        #[trigger] t[i].1@,
        #[trigger] t[j].1@,
    ) by {
        lemma_names_chain(t, i, j);
    }
}

proof fn lemma_ids_chain(t: Seq<(u32, u16)>, i: int, j: int)
    requires
        forall|m: int| 0 <= m < t.len() - 1 ==> #[trigger] t[m].0 < t[m + 1].0,
        0 <= i < j < t.len(),
    ensures
        t[i].0 < t[j].0,
    decreases j - i,
{
    if i + 1 < j {
        lemma_ids_chain(t, i, j - 1);
    }
}

/// Sortedness follows from each id being below the next one.
pub proof fn lemma_ids_increasing(t: Seq<(u32, u16)>)
    requires
        forall|i: int| 0 <= i < t.len() - 1 ==> #[trigger] t[i].0 < t[i + 1].0,
    ensures
        ids_increasing(t),
{
    assert forall|i: int, j: int| 0 <= i < j < t.len() implies #[trigger] t[i].0 < #[trigger] t[j].0 by {
        lemma_ids_chain(t, i, j);
    }
}

/// In a well-formed pair of tables no two entries carry one id.
pub proof fn lemma_ids_distinct(by_name: Seq<(u32, &str)>, by_id: Seq<(u32, u16)>, h1: int, h2: int)
    requires
        tables_wf(by_name, by_id),
        0 <= h1 < by_name.len(),
        0 <= h2 < by_name.len(),
        by_name[h1].0 == by_name[h2].0,
    ensures
        h1 == h2,
{
    assert(lists_handle(by_id, h1) && lists_handle(by_id, h2));
    let j1 = choose|j: int| 0 <= j < by_id.len() && (#[trigger] by_id[j]).1 == h1 as u16;
    let j2 = choose|j: int| 0 <= j < by_id.len() && (#[trigger] by_id[j]).1 == h2 as u16;
    assert(by_id[j1].0 == by_name[h1].0);
    assert(by_id[j2].0 == by_name[h2].0);
    if j1 < j2 {
        assert(by_id[j1].0 < by_id[j2].0);
    } else if j2 < j1 {
        assert(by_id[j2].0 < by_id[j1].0);
    }
}

/// In a well-formed pair of tables no two entries carry one name.
pub proof fn lemma_names_distinct(by_name: Seq<(u32, &str)>, h1: int, h2: int)
    requires
        names_increasing(by_name),
        0 <= h1 < by_name.len(),
        0 <= h2 < by_name.len(),
        by_name[h1].1@ == by_name[h2].1@,
    ensures
        h1 == h2,
{
    if h1 < h2 {
        lemma_lex_lt_ne(by_name[h1].1@, by_name[h2].1@);
    } else if h2 < h1 {
        lemma_lex_lt_ne(by_name[h2].1@, by_name[h1].1@);
    }
}

/// Binary search of the id index: the position of `id`, or `None` where no pair has it.
pub fn search_by_id(t: &[(u32, u16)], id: u32) -> (r: Option<usize>)
    requires
        ids_increasing(t@),
    ensures
        match r {
            Some(j) => j < t@.len() && t@[j as int].0 == id,
            None => forall|j: int| 0 <= j < t@.len() ==> (#[trigger] t@[j]).0 != id,
        },
{
    let mut lo: usize = 0;
    let mut hi: usize = t.len();
    while lo < hi
        invariant
            lo <= hi <= t@.len(),
            ids_increasing(t@),
            forall|j: int| 0 <= j < lo ==> (#[trigger] t@[j]).0 != id,
            forall|j: int| hi <= j < t@.len() ==> (#[trigger] t@[j]).0 != id,
        decreases hi - lo,
    {
        let mid = lo + (hi - lo) / 2;
        let key = t[mid].0;
        if id < key {
            assert forall|j: int| mid <= j < t@.len() implies (#[trigger] t@[j]).0 != id by {
                if mid < j {
                    assert(t@[mid as int].0 < t@[j].0);
                }
            }
            hi = mid;
        } else if key < id {
            assert forall|j: int| 0 <= j <= mid implies (#[trigger] t@[j]).0 != id by {
                if j < mid {
                    assert(t@[j].0 < t@[mid as int].0);
                }
            }
            lo = mid + 1;
        } else {
            return Some(mid);
        }
    }
    None
}

/// Binary search of the name table: the position of `name`, or `None` where no entry has it.
pub fn search_by_name(t: &[(u32, &str)], name: &str) -> (r: Option<usize>)
    requires
        names_increasing(t@),
    ensures
        match r {
            Some(h) => h < t@.len() && t@[h as int].1@ == name@,
            None => forall|h: int| 0 <= h < t@.len() ==> (#[trigger] t@[h]).1@ != name@,
        },
{
    let mut lo: usize = 0;
    let mut hi: usize = t.len();
    while lo < hi
        invariant
            lo <= hi <= t@.len(),
            names_increasing(t@),
            forall|h: int| 0 <= h < lo ==> (#[trigger] t@[h]).1@ != name@,
            forall|h: int| hi <= h < t@.len() ==> (#[trigger] t@[h]).1@ != name@,
        decreases hi - lo,
    {
        let mid = lo + (hi - lo) / 2;
        let entry_name = t[mid].1;
        match compare_names(name, entry_name) {
            Ordering::Less => {
                assert forall|h: int| mid <= h < t@.len() implies (#[trigger] t@[h]).1@
                    != name@ by {
                    if mid < h {
                        lemma_lex_transitive(name@, t@[mid as int].1@, t@[h].1@);
                    }
                    lemma_lex_lt_ne(name@, t@[h].1@);
                }
                hi = mid;
            },
            Ordering::Greater => {
                assert forall|h: int| 0 <= h <= mid implies (#[trigger] t@[h]).1@ != name@ by {
                    if h < mid {
                        lemma_lex_transitive(t@[h].1@, t@[mid as int].1@, name@);
                    }
                    lemma_lex_lt_ne(t@[h].1@, name@);
                }
                lo = mid + 1;
            },
            Ordering::Equal => {
                return Some(mid);
            },
        }
    }
    None
}

} // verus!
