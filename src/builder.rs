//! Building the two sorted arrays from raw `(id, name)` pairs.
//!
//! Entries are sorted by name, which assigns each its handle; the id index then pairs every
//! id with that handle, sorted by id. Raw data that repeats a name or an id is rejected.
use crate::order::{compare_names, lemma_lex_lt_ne, lemma_lex_transitive, lex_lt};
use crate::table::{
    ids_increasing, index_matches, lemma_ids_distinct, lists_handle, names_increasing, tables_wf,
};
use core::cmp::Ordering;
use vstd::prelude::*;

verus! {

/// Why raw entries cannot form a taxonomy.
#[derive(Debug, Clone, Copy, PartialEq, Eq, Structural)]
pub enum BuildError {
    /// More entries than a handle can count.
    TooManyEntries,
    /// Two entries share a name.
    DuplicateName,
    /// Two entries share an id.
    DuplicateId,
}

/// The name table and the id index of a taxonomy.
#[derive(Debug)]
pub struct Tables<'a> {
    pub by_name: Vec<(u32, &'a str)>,
    pub by_id: Vec<(u32, u16)>,
}

/// Largest number of entries, so that every handle fits in 16 bits.
pub const MAX_ENTRIES: usize = 0x10000;

/// No two entries share a name.
pub open spec fn names_distinct(e: Seq<(u32, &str)>) -> bool {
    forall|i: int, j: int| 0 <= i < j < e.len() ==> #[trigger] e[i].1@ != #[trigger] e[j].1@
}

/// No two entries share an id.
pub open spec fn ids_distinct(e: Seq<(u32, &str)>) -> bool {
    forall|i: int, j: int| 0 <= i < j < e.len() ==> #[trigger] e[i].0 != #[trigger] e[j].0
}

proof fn lemma_same_name_repeats(e: Seq<(u32, &str)>, a: int, b: int)
    requires
        0 <= a < e.len(),
        0 <= b < e.len(),
        a != b,
        e[a].1@ == e[b].1@,
    ensures
        !names_distinct(e),
{
    if a < b {
        assert(e[a].1@ == e[b].1@);
    } else {
        assert(e[b].1@ == e[a].1@);
    }
}

proof fn lemma_same_id_repeats(e: Seq<(u32, &str)>, a: int, b: int)
    requires
        0 <= a < e.len(),
        0 <= b < e.len(),
        a != b,
        e[a].0 == e[b].0,
    ensures
        !ids_distinct(e),
{
    if a < b {
        assert(e[a].0 == e[b].0);
    } else {
        assert(e[b].0 == e[a].0);
    }
}

/// Sorts the entries by name, rejecting a repeated name.
fn sort_by_name<'a>(entries: &[(u32, &'a str)]) -> (r: Result<Vec<(u32, &'a str)>, BuildError>)
    ensures
        match r {
            Ok(v) => {
                &&& names_distinct(entries@)
                &&& names_increasing(v@)
                &&& v@.len() == entries@.len()
                &&& forall|x: (u32, &str)| v@.contains(x) <==> entries@.contains(x)
            },
            Err(e) => e == BuildError::DuplicateName && !names_distinct(entries@),
        },
{
    let mut out: Vec<(u32, &'a str)> = Vec::new();
    let mut i: usize = 0;
    while i < entries.len()
        invariant
            i <= entries@.len(),
            out@.len() == i,
            names_increasing(out@),
            names_distinct(entries@.take(i as int)),
            forall|x: (u32, &str)| out@.contains(x) <==> entries@.take(i as int).contains(x),
        decreases entries@.len() - i,
    {
        let x = entries[i];
        let mut p: usize = 0;
        let mut stop = false;
        while p < out.len() && !stop
            invariant
                i < entries@.len(),
                x == entries@[i as int],
                out@.len() == i,
                names_increasing(out@),
                names_distinct(entries@.take(i as int)),
                forall|y: (u32, &str)| out@.contains(y) <==> entries@.take(i as int).contains(y),
                p <= out@.len(),
                forall|q: int| 0 <= q < p ==> lex_lt(#[trigger] out@[q].1@, x.1@),
                stop ==> p < out@.len() && lex_lt(x.1@, out@[p as int].1@),
            decreases out@.len() - p + (if stop { 0int } else { 1int }),
        {
            match compare_names(x.1, out[p].1) {
                Ordering::Less => {
                    stop = true;
                },
                Ordering::Equal => {
                    proof {
                        let t0 = entries@.take(i as int);
                        assert(out@.contains(out@[p as int]));
                        let k = choose|k: int| 0 <= k < t0.len() && t0[k] == out@[p as int];
                        assert(entries@[k] == t0[k]);
                        lemma_same_name_repeats(entries@, k, i as int);
                    }
                    return Err(BuildError::DuplicateName);
                },
                Ordering::Greater => {
                    p = p + 1;
                },
            }
        }
        proof {
            assert forall|q: int| p <= q < out@.len() implies lex_lt(x.1@, #[trigger] out@[q].1@) by {
                if p < q {
                    lemma_lex_transitive(x.1@, out@[p as int].1@, out@[q].1@);
                }
            }
        }
        let ghost old_out = out@;
        out.insert(p, x);
        proof {
            let e = entries@;
            let n = out@;
            let t0 = e.take(i as int);
            let t1 = e.take(i + 1);
            assert(t1 =~= t0.push(x));
            assert forall|a: int, b: int| 0 <= a < b < n.len() implies lex_lt(
                #[trigger] n[a].1@,
                #[trigger] n[b].1@,
            ) by {
                if b < p {
                    assert(n[a] == old_out[a] && n[b] == old_out[b]);
                    assert(lex_lt(old_out[a].1@, old_out[b].1@));
                } else if b == p {
                    assert(n[a] == old_out[a] && n[b] == x);
                    assert(lex_lt(old_out[a].1@, x.1@));
                } else if a < p {
                    assert(n[a] == old_out[a] && n[b] == old_out[b - 1]);
                    assert(lex_lt(old_out[a].1@, x.1@));
                    assert(lex_lt(x.1@, old_out[b - 1].1@));
                    lemma_lex_transitive(n[a].1@, x.1@, n[b].1@);
                } else if a == p {
                    assert(n[a] == x && n[b] == old_out[b - 1]);
                    assert(lex_lt(x.1@, old_out[b - 1].1@));
                } else {
                    assert(n[a] == old_out[a - 1] && n[b] == old_out[b - 1]);
                    assert(lex_lt(old_out[a - 1].1@, old_out[b - 1].1@));
                }
            }
            assert forall|a: int, b: int| 0 <= a < b < i + 1 implies #[trigger] t1[a].1@ != #[trigger] t1[b].1@ by {
                if b == i {
                    let y = t0[a];
                    assert(t0.contains(y));
                    assert(old_out.contains(y));
                    let q = choose|q: int| 0 <= q < old_out.len() && old_out[q] == y;
                    if q < p {
                        assert(lex_lt(old_out[q].1@, x.1@));
                        lemma_lex_lt_ne(y.1@, x.1@);
                    } else {
                        assert(lex_lt(x.1@, old_out[q].1@));
                        lemma_lex_lt_ne(x.1@, y.1@);
                    }
                    assert(t1[a] == y && t1[b] == x);
                } else {
                    assert(t0[a] == t1[a]);
                    assert(t0[b] == t1[b]);
                    assert(t0[a].1@ != t0[b].1@);
                }
            }
            assert forall|y: (u32, &str)| n.contains(y) <==> t1.contains(y) by {
                if n.contains(y) {
                    let q = choose|q: int| 0 <= q < n.len() && n[q] == y;
                    if q < p {
                        assert(old_out[q] == y);
                    } else if q > p {
                        assert(old_out[q - 1] == y);
                    }
                    if y != x {
                        assert(old_out.contains(y));
                        let k = choose|k: int| 0 <= k < i && t0[k] == y;
                        assert(t1[k] == y);
                    } else {
                        assert(t1[i as int] == y);
                    }
                }
                if t1.contains(y) {
                    let k = choose|k: int| 0 <= k < i + 1 && t1[k] == y;
                    if k < i {
                        assert(t0[k] == y);
                        assert(t0.contains(y));
                        assert(old_out.contains(y));
                        let q = choose|q: int| 0 <= q < old_out.len() && old_out[q] == y;
                        if q < p {
                            assert(n[q] == y);
                        } else {
                            assert(n[q + 1] == y);
                        }
                    } else {
                        assert(n[p as int] == y);
                    }
                }
            }
        }
        i = i + 1;
    }
    proof {
        assert(entries@.take(i as int) =~= entries@);
    }
    Ok(out)
}

/// Pairs every entry's id with its position, sorted by id, rejecting a repeated id.
fn index_by_id(by_name: &[(u32, &str)]) -> (r: Result<Vec<(u32, u16)>, BuildError>)
    requires
        by_name@.len() <= MAX_ENTRIES,
    ensures
        match r {
            Ok(v) => {
                &&& ids_distinct(by_name@)
                &&& v@.len() == by_name@.len()
                &&& ids_increasing(v@)
                &&& index_matches(by_name@, v@)
            },
            Err(e) => e == BuildError::DuplicateId && !ids_distinct(by_name@),
        },
{
    let mut v: Vec<(u32, u16)> = Vec::new();
    let mut h: usize = 0;
    while h < by_name.len()
        invariant
            by_name@.len() <= MAX_ENTRIES,
            h <= by_name@.len(),
            v@.len() == h,
            ids_increasing(v@),
            forall|j: int|
                0 <= j < v@.len() ==> (#[trigger] v@[j]).1 < h && by_name@[v@[j].1 as int].0
                    == v@[j].0,
            forall|k: int| 0 <= k < h ==> #[trigger] lists_handle(v@, k),
        decreases by_name@.len() - h,
    {
        let x: (u32, u16) = (by_name[h].0, h as u16);
        let mut p: usize = 0;
        let mut stop = false;
        while p < v.len() && !stop
            invariant
                h < by_name@.len() <= MAX_ENTRIES,
                x == (by_name@[h as int].0, h as u16),
                v@.len() == h,
                ids_increasing(v@),
                forall|j: int|
                    0 <= j < v@.len() ==> (#[trigger] v@[j]).1 < h && by_name@[v@[j].1 as int].0
                        == v@[j].0,
                p <= v@.len(),
                forall|q: int| 0 <= q < p ==> (#[trigger] v@[q]).0 < x.0,
                stop ==> p < v@.len() && x.0 < v@[p as int].0,
            decreases v@.len() - p + (if stop { 0int } else { 1int }),
        {
            let id = v[p].0;
            if x.0 < id {
                stop = true;
            } else if x.0 == id {
                proof {
                    let k = v@[p as int].1 as int;
                    assert(by_name@[k].0 == by_name@[h as int].0);
                    assert(!ids_distinct(by_name@)) by {
                        assert(k < h);
                        assert(by_name@[k].0 == by_name@[h as int].0);
                    }
                }
                return Err(BuildError::DuplicateId);
            } else {
                p = p + 1;
            }
        }
        let ghost old_v = v@;
        v.insert(p, x);
        proof {
            let n = v@;
            assert forall|a: int, b: int| 0 <= a < b < n.len() implies #[trigger] n[a].0
                < #[trigger] n[b].0 by {
                if b < p {
                    assert(n[a] == old_v[a] && n[b] == old_v[b]);
                } else if b == p {
                    assert(n[a] == old_v[a]);
                } else if a < p {
                    assert(n[a] == old_v[a] && n[b] == old_v[b - 1]);
                    if b - 1 > p {
                        assert(old_v[p as int].0 < old_v[b - 1].0);
                    }
                } else if a == p {
                    assert(n[b] == old_v[b - 1]);
                    if b - 1 > p {
                        assert(old_v[p as int].0 < old_v[b - 1].0);
                    }
                } else {
                    assert(n[a] == old_v[a - 1] && n[b] == old_v[b - 1]);
                }
            }
            assert forall|j: int| 0 <= j < n.len() implies (#[trigger] n[j]).1 < h + 1
                && by_name@[n[j].1 as int].0 == n[j].0 by {
                if j < p {
                    assert(n[j] == old_v[j]);
                } else if j > p {
                    assert(n[j] == old_v[j - 1]);
                }
            }
            assert forall|k: int| 0 <= k < h + 1 implies #[trigger] lists_handle(n, k) by {
                if k < h {
                    assert(lists_handle(old_v, k));
                    let j0 = choose|j: int| 0 <= j < old_v.len() && (#[trigger] old_v[j]).1 == k as u16;
                    if j0 < p {
                        assert(n[j0] == old_v[j0]);
                    } else {
                        assert(n[j0 + 1] == old_v[j0]);
                    }
                } else {
                    assert(n[p as int].1 == k as u16);
                }
            }
        }
        h = h + 1;
    }
    proof {
        assert forall|a: int, b: int| 0 <= a < b < by_name@.len() implies #[trigger] by_name@[a].0
            != #[trigger] by_name@[b].0 by {
            assert(lists_handle(v@, a) && lists_handle(v@, b));
            let ja = choose|j: int| 0 <= j < v@.len() && (#[trigger] v@[j]).1 == a as u16;
            let jb = choose|j: int| 0 <= j < v@.len() && (#[trigger] v@[j]).1 == b as u16;
            if ja < jb {
                assert(v@[ja].0 < v@[jb].0);
            } else if jb < ja {
                assert(v@[jb].0 < v@[ja].0);
            }
        }
    }
    Ok(v)
}

/// Builds the name table and the id index from raw `(id, name)` entries.
///
/// Fails with `TooManyEntries` where handles cannot count the entries, else with
/// `DuplicateName` where two entries share a name, else with `DuplicateId` where two share
/// an id. Otherwise the name table holds exactly the entries, sorted by name.
pub fn build_tables<'a>(entries: &[(u32, &'a str)]) -> (r: Result<Tables<'a>, BuildError>)
    ensures
        match r {
            Ok(t) => {
                &&& entries@.len() <= MAX_ENTRIES
                &&& names_distinct(entries@)
                &&& ids_distinct(entries@)
                &&& tables_wf(t.by_name@, t.by_id@)
                &&& t.by_name@.len() == entries@.len()
                &&& forall|x: (u32, &str)| t.by_name@.contains(x) <==> entries@.contains(x)
            },
            Err(BuildError::TooManyEntries) => entries@.len() > MAX_ENTRIES,
            Err(BuildError::DuplicateName) => entries@.len() <= MAX_ENTRIES && !names_distinct(
                entries@,
            ),
            Err(BuildError::DuplicateId) => {
                &&& entries@.len() <= MAX_ENTRIES
                &&& names_distinct(entries@)
                &&& !ids_distinct(entries@)
            },
        },
{
    if entries.len() > MAX_ENTRIES {
        return Err(BuildError::TooManyEntries);
    }
    let by_name = match sort_by_name(entries) {
        Ok(v) => v,
        Err(e) => {
            return Err(e);
        },
    };
    match index_by_id(by_name.as_slice()) {
        Ok(by_id) => {
            proof {
                let e = entries@;
                let t = by_name@;
                assert forall|a: int, b: int| 0 <= a < b < e.len() implies #[trigger] e[a].0
                    != #[trigger] e[b].0 by {
                    assert(t.contains(e[a]) && t.contains(e[b]));
                    let ha = choose|h: int| 0 <= h < t.len() && t[h] == e[a];
                    let hb = choose|h: int| 0 <= h < t.len() && t[h] == e[b];
                    if ha < hb {
                        assert(t[ha].0 != t[hb].0);
                    } else if hb < ha {
                        assert(t[hb].0 != t[ha].0);
                    } else {
                        assert(e[a].1@ != e[b].1@);
                    }
                }
            }
            Ok(Tables { by_name, by_id })
        },
        Err(err) => {
            proof {
                let e = entries@;
                let t = by_name@;
                let (a, b) = choose|a: int, b: int|
                    0 <= a < b < t.len() && #[trigger] t[a].0 == #[trigger] t[b].0;
                assert(e.contains(t[a]) && e.contains(t[b]));
                let ka = choose|k: int| 0 <= k < e.len() && e[k] == t[a];
                let kb = choose|k: int| 0 <= k < e.len() && e[k] == t[b];
                lemma_lex_lt_ne(t[a].1@, t[b].1@);
                lemma_same_id_repeats(e, ka, kb);
            }
            Err(err)
        },
    }
}

/// Once built, the id of every raw entry is carried by exactly one handle of the name table.
pub proof fn lemma_each_entry_id_once(
    entries: Seq<(u32, &str)>,
    by_name: Seq<(u32, &str)>,
    by_id: Seq<(u32, u16)>,
    k: int,
)
    requires
        tables_wf(by_name, by_id),
        forall|x: (u32, &str)| by_name.contains(x) <==> entries.contains(x),
        0 <= k < entries.len(),
    ensures
        exists|h: int| 0 <= h < by_name.len() && #[trigger] by_name[h].0 == entries[k].0,
        forall|h1: int, h2: int|
            0 <= h1 < by_name.len() && 0 <= h2 < by_name.len() && #[trigger] by_name[h1].0
                == entries[k].0 && #[trigger] by_name[h2].0 == entries[k].0 ==> h1 == h2,
{
    assert(entries.contains(entries[k]));
    assert(by_name.contains(entries[k]));
    let w = choose|h: int| 0 <= h < by_name.len() && by_name[h] == entries[k];
    assert(by_name[w].0 == entries[k].0);
    assert forall|h1: int, h2: int|
        0 <= h1 < by_name.len() && 0 <= h2 < by_name.len() && #[trigger] by_name[h1].0
            == entries[k].0 && #[trigger] by_name[h2].0 == entries[k].0 implies h1 == h2 by {
        lemma_ids_distinct(by_name, by_id, h1, h2);
    }
}

} // verus!
