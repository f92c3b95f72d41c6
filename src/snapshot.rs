//! The categories of the taxonomy this library carries, as the two sorted arrays.
//!
//! The name table is sorted by name and indexed by handle; the id index is sorted by id.
use crate::order::{lemma_first_difference, lemma_prefix_lt, lex_lt};
use crate::table::{
    index_matches, lemma_ids_increasing, lemma_names_increasing, lists_handle, tables_wf,
};
use vstd::prelude::*;

verus! {

/// Number of categories in the taxonomy.
pub const CATEGORY_COUNT: usize = 32;

/// `(id, name)` of every category, sorted by name; the position is the category's handle.
pub const BY_NAME: [(u32, &'static str); 32] = [
    (1, "Animals & Pet Supplies"),
    (3237, "Animals & Pet Supplies > Live Animals"),
    (2, "Animals & Pet Supplies > Pet Supplies"),
    (166, "Apparel & Accessories"),
    (1604, "Apparel & Accessories > Clothing"),
    (167, "Apparel & Accessories > Clothing Accessories"),
    (499972, "Apparel & Accessories > Clothing Accessories > Sashes"),
    (187, "Apparel & Accessories > Shoes"),
    (8, "Arts & Entertainment"),
    (499969, "Arts & Entertainment > Event Tickets"),
    (5710, "Arts & Entertainment > Hobbies & Creative Arts"),
    (55, "Arts & Entertainment > Hobbies & Creative Arts > Musical Instrument & Orchestra Accessories"),
    (62, "Arts & Entertainment > Hobbies & Creative Arts > Musical Instrument & Orchestra Accessories > Woodwind Instrument Accessories"),
    (4958, "Arts & Entertainment > Hobbies & Creative Arts > Musical Instrument & Orchestra Accessories > Woodwind Instrument Accessories > Saxophone Accessories > Saxophone Parts > Saxophone Mouthpieces"),
    (537, "Baby & Toddler"),
    (111, "Business & Industrial"),
    (141, "Cameras & Optics"),
    (222, "Electronics"),
    (412, "Food, Beverages & Tobacco"),
    (436, "Furniture"),
    (632, "Hardware"),
    (469, "Health & Beauty"),
    (536, "Home & Garden"),
    (5181, "Luggage & Bags"),
    (772, "Mature"),
    (783, "Media"),
    (922, "Office Supplies"),
    (5605, "Religious & Ceremonial"),
    (2092, "Software"),
    (988, "Sporting Goods"),
    (1239, "Toys & Games"),
    (888, "Vehicles & Parts"),
];

/// `(id, handle)` of every category, sorted by id.
pub const BY_ID: [(u32, u16); 32] = [
    (1, 0),
    (2, 2),
    (8, 8),
    (55, 11),
    (62, 12),
    (111, 15),
    (141, 16),
    (166, 3),
    (167, 5),
    (187, 7),
    (222, 17),
    (412, 18),
    (436, 19),
    (469, 21),
    (536, 22),
    (537, 14),
    (632, 20),
    (772, 24),
    (783, 25),
    (888, 31),
    (922, 26),
    (988, 29),
    (1239, 30),
    (1604, 4),
    (2092, 28),
    (3237, 1),
    (4958, 13),
    (5181, 23),
    (5605, 27),
    (5710, 10),
    (499969, 9),
    (499972, 6),
];

/// `p` holds at every index from `i` up to, not including, `n`.
pub open spec fn holds_from(p: spec_fn(int) -> bool, i: int, n: int) -> bool
    decreases n - i,
{
    i >= n || (p(i) && holds_from(p, i + 1, n))
}

proof fn lemma_holds_from(p: spec_fn(int) -> bool, i: int, n: int)
    requires
        holds_from(p, i, n),
    ensures
        forall|k: int| i <= k < n ==> #[trigger] p(k),
    decreases n - i,
{
    if i < n {
        lemma_holds_from(p, i + 1, n);
    }
}

proof fn lemma_names_adjacent()
    ensures
        forall|i: int|
            0 <= i < 31 ==> lex_lt(#[trigger] BY_NAME@[i].1@, BY_NAME@[i + 1].1@),
{
    assert forall|i: int| 0 <= i < 31 implies lex_lt(
        #[trigger] BY_NAME@[i].1@,
        BY_NAME@[i + 1].1@,
    ) by {
        if i == 0 {
            reveal_strlit("Animals & Pet Supplies");
            reveal_strlit("Animals & Pet Supplies > Live Animals");
            lemma_prefix_lt(BY_NAME@[0].1@, BY_NAME@[1].1@);
        } else if i == 1 {
            reveal_strlit("Animals & Pet Supplies > Live Animals");
            reveal_strlit("Animals & Pet Supplies > Pet Supplies");
            lemma_first_difference(BY_NAME@[1].1@, BY_NAME@[2].1@, 25);
        } else if i == 2 {
            reveal_strlit("Animals & Pet Supplies > Pet Supplies");
            reveal_strlit("Apparel & Accessories");
            lemma_first_difference(BY_NAME@[2].1@, BY_NAME@[3].1@, 1);
        } else if i == 3 {
            reveal_strlit("Apparel & Accessories");
            reveal_strlit("Apparel & Accessories > Clothing");
            lemma_prefix_lt(BY_NAME@[3].1@, BY_NAME@[4].1@);
        } else if i == 4 {
            reveal_strlit("Apparel & Accessories > Clothing");
            reveal_strlit("Apparel & Accessories > Clothing Accessories");
            lemma_prefix_lt(BY_NAME@[4].1@, BY_NAME@[5].1@);
        } else if i == 5 {
            reveal_strlit("Apparel & Accessories > Clothing Accessories");
            reveal_strlit("Apparel & Accessories > Clothing Accessories > Sashes");
            lemma_prefix_lt(BY_NAME@[5].1@, BY_NAME@[6].1@);
        } else if i == 6 {
            reveal_strlit("Apparel & Accessories > Clothing Accessories > Sashes");
            reveal_strlit("Apparel & Accessories > Shoes");
            lemma_first_difference(BY_NAME@[6].1@, BY_NAME@[7].1@, 24);
        } else if i == 7 {
            reveal_strlit("Apparel & Accessories > Shoes");
            reveal_strlit("Arts & Entertainment");
            lemma_first_difference(BY_NAME@[7].1@, BY_NAME@[8].1@, 1);
        } else if i == 8 {
            reveal_strlit("Arts & Entertainment");
            reveal_strlit("Arts & Entertainment > Event Tickets");
            lemma_prefix_lt(BY_NAME@[8].1@, BY_NAME@[9].1@);
        } else if i == 9 {
            reveal_strlit("Arts & Entertainment > Event Tickets");
            reveal_strlit("Arts & Entertainment > Hobbies & Creative Arts");
            lemma_first_difference(BY_NAME@[9].1@, BY_NAME@[10].1@, 23);
        } else if i == 10 {
            reveal_strlit("Arts & Entertainment > Hobbies & Creative Arts");
            reveal_strlit("Arts & Entertainment > Hobbies & Creative Arts > Musical Instrument & Orchestra Accessories");
            lemma_prefix_lt(BY_NAME@[10].1@, BY_NAME@[11].1@);
        } else if i == 11 {
            reveal_strlit("Arts & Entertainment > Hobbies & Creative Arts > Musical Instrument & Orchestra Accessories");
            reveal_strlit("Arts & Entertainment > Hobbies & Creative Arts > Musical Instrument & Orchestra Accessories > Woodwind Instrument Accessories");
            lemma_prefix_lt(BY_NAME@[11].1@, BY_NAME@[12].1@);
        } else if i == 12 {
            reveal_strlit("Arts & Entertainment > Hobbies & Creative Arts > Musical Instrument & Orchestra Accessories > Woodwind Instrument Accessories");
            reveal_strlit("Arts & Entertainment > Hobbies & Creative Arts > Musical Instrument & Orchestra Accessories > Woodwind Instrument Accessories > Saxophone Accessories > Saxophone Parts > Saxophone Mouthpieces");
            lemma_prefix_lt(BY_NAME@[12].1@, BY_NAME@[13].1@);
        } else if i == 13 {
            reveal_strlit("Arts & Entertainment > Hobbies & Creative Arts > Musical Instrument & Orchestra Accessories > Woodwind Instrument Accessories > Saxophone Accessories > Saxophone Parts > Saxophone Mouthpieces");
            reveal_strlit("Baby & Toddler");
            lemma_first_difference(BY_NAME@[13].1@, BY_NAME@[14].1@, 0);
        } else if i == 14 {
            reveal_strlit("Baby & Toddler");
            reveal_strlit("Business & Industrial");
            lemma_first_difference(BY_NAME@[14].1@, BY_NAME@[15].1@, 1);
        } else if i == 15 {
            reveal_strlit("Business & Industrial");
            reveal_strlit("Cameras & Optics");
            lemma_first_difference(BY_NAME@[15].1@, BY_NAME@[16].1@, 0);
        } else if i == 16 {
            reveal_strlit("Cameras & Optics");
            reveal_strlit("Electronics");
            lemma_first_difference(BY_NAME@[16].1@, BY_NAME@[17].1@, 0);
        } else if i == 17 {
            reveal_strlit("Electronics");
            reveal_strlit("Food, Beverages & Tobacco");
            lemma_first_difference(BY_NAME@[17].1@, BY_NAME@[18].1@, 0);
        } else if i == 18 {
            reveal_strlit("Food, Beverages & Tobacco");
            reveal_strlit("Furniture");
            lemma_first_difference(BY_NAME@[18].1@, BY_NAME@[19].1@, 1);
        } else if i == 19 {
            reveal_strlit("Furniture");
            reveal_strlit("Hardware");
            lemma_first_difference(BY_NAME@[19].1@, BY_NAME@[20].1@, 0);
        } else if i == 20 {
            reveal_strlit("Hardware");
            reveal_strlit("Health & Beauty");
            lemma_first_difference(BY_NAME@[20].1@, BY_NAME@[21].1@, 1);
        } else if i == 21 {
            reveal_strlit("Health & Beauty");
            reveal_strlit("Home & Garden");
            lemma_first_difference(BY_NAME@[21].1@, BY_NAME@[22].1@, 1);
        } else if i == 22 {
            reveal_strlit("Home & Garden");
            reveal_strlit("Luggage & Bags");
            lemma_first_difference(BY_NAME@[22].1@, BY_NAME@[23].1@, 0);
        } else if i == 23 {
            reveal_strlit("Luggage & Bags");
            reveal_strlit("Mature");
            lemma_first_difference(BY_NAME@[23].1@, BY_NAME@[24].1@, 0);
        } else if i == 24 {
            reveal_strlit("Mature");
            reveal_strlit("Media");
            lemma_first_difference(BY_NAME@[24].1@, BY_NAME@[25].1@, 1);
        } else if i == 25 {
            reveal_strlit("Media");
            reveal_strlit("Office Supplies");
            lemma_first_difference(BY_NAME@[25].1@, BY_NAME@[26].1@, 0);
        } else if i == 26 {
            reveal_strlit("Office Supplies");
            reveal_strlit("Religious & Ceremonial");
            lemma_first_difference(BY_NAME@[26].1@, BY_NAME@[27].1@, 0);
        } else if i == 27 {
            reveal_strlit("Religious & Ceremonial");
            reveal_strlit("Software");
            lemma_first_difference(BY_NAME@[27].1@, BY_NAME@[28].1@, 0);
        } else if i == 28 {
            reveal_strlit("Software");
            reveal_strlit("Sporting Goods");
            lemma_first_difference(BY_NAME@[28].1@, BY_NAME@[29].1@, 1);
        } else if i == 29 {
            reveal_strlit("Sporting Goods");
            reveal_strlit("Toys & Games");
            lemma_first_difference(BY_NAME@[29].1@, BY_NAME@[30].1@, 0);
        } else if i == 30 {
            reveal_strlit("Toys & Games");
            reveal_strlit("Vehicles & Parts");
            lemma_first_difference(BY_NAME@[30].1@, BY_NAME@[31].1@, 0);
        }
    }
}

proof fn lemma_ids_adjacent()
    ensures
        forall|i: int| 0 <= i < 31 ==> #[trigger] BY_ID@[i].0 < BY_ID@[i + 1].0,
{
    let p = |i: int| BY_ID@[i].0 < BY_ID@[i + 1].0;
    reveal_with_fuel(holds_from, 32);
    assert(holds_from(p, 0, 31));
    lemma_holds_from(p, 0, 31);
    assert forall|i: int| 0 <= i < 31 implies #[trigger] BY_ID@[i].0 < BY_ID@[i + 1].0 by {
        assert(p(i));
    }
}

proof fn lemma_index_points_back()
    ensures
        forall|j: int|
            0 <= j < 32 ==> (#[trigger] BY_ID@[j]).1 < 32 && BY_NAME@[BY_ID@[j].1 as int].0
                == BY_ID@[j].0,
{
    let p = |j: int| BY_ID@[j].1 < 32 && BY_NAME@[BY_ID@[j].1 as int].0 == BY_ID@[j].0;
    reveal_with_fuel(holds_from, 33);
    assert(holds_from(p, 0, 32));
    lemma_holds_from(p, 0, 32);
    assert forall|j: int| 0 <= j < 32 implies (#[trigger] BY_ID@[j]).1 < 32
        && BY_NAME@[BY_ID@[j].1 as int].0 == BY_ID@[j].0 by {
        assert(p(j));
    }
}

proof fn lemma_index_lists_every_handle()
    ensures
        forall|i: int| 0 <= i < 32 ==> #[trigger] lists_handle(BY_ID@, i),
{
    assert forall|i: int| 0 <= i < 32 implies #[trigger] lists_handle(BY_ID@, i) by {
        if i == 0 {
            assert(BY_ID@[0].1 == 0);
        } else if i == 1 {
            assert(BY_ID@[25].1 == 1);
        } else if i == 2 {
            assert(BY_ID@[1].1 == 2);
        } else if i == 3 {
            assert(BY_ID@[7].1 == 3);
        } else if i == 4 {
            assert(BY_ID@[23].1 == 4);
        } else if i == 5 {
            assert(BY_ID@[8].1 == 5);
        } else if i == 6 {
            assert(BY_ID@[31].1 == 6);
        } else if i == 7 {
            assert(BY_ID@[9].1 == 7);
        } else if i == 8 {
            assert(BY_ID@[2].1 == 8);
        } else if i == 9 {
            assert(BY_ID@[30].1 == 9);
        } else if i == 10 {
            assert(BY_ID@[29].1 == 10);
        } else if i == 11 {
            assert(BY_ID@[3].1 == 11);
        } else if i == 12 {
            assert(BY_ID@[4].1 == 12);
        } else if i == 13 {
            assert(BY_ID@[26].1 == 13);
        } else if i == 14 {
            assert(BY_ID@[15].1 == 14);
        } else if i == 15 {
            assert(BY_ID@[5].1 == 15);
        } else if i == 16 {
            assert(BY_ID@[6].1 == 16);
        } else if i == 17 {
            assert(BY_ID@[10].1 == 17);
        } else if i == 18 {
            assert(BY_ID@[11].1 == 18);
        } else if i == 19 {
            assert(BY_ID@[12].1 == 19);
        } else if i == 20 {
            assert(BY_ID@[16].1 == 20);
        } else if i == 21 {
            assert(BY_ID@[13].1 == 21);
        } else if i == 22 {
            assert(BY_ID@[14].1 == 22);
        } else if i == 23 {
            assert(BY_ID@[27].1 == 23);
        } else if i == 24 {
            assert(BY_ID@[17].1 == 24);
        } else if i == 25 {
            assert(BY_ID@[18].1 == 25);
        } else if i == 26 {
            assert(BY_ID@[20].1 == 26);
        } else if i == 27 {
            assert(BY_ID@[28].1 == 27);
        } else if i == 28 {
            assert(BY_ID@[24].1 == 28);
        } else if i == 29 {
            assert(BY_ID@[21].1 == 29);
        } else if i == 30 {
            assert(BY_ID@[22].1 == 30);
        } else if i == 31 {
            assert(BY_ID@[19].1 == 31);
        }
    }
}

/// The two arrays are sorted on their keys and agree with each other.
pub proof fn lemma_snapshot_wf()
    ensures
        tables_wf(BY_NAME@, BY_ID@),
        BY_NAME@.len() == CATEGORY_COUNT,
{
    lemma_names_adjacent();
    lemma_names_increasing(BY_NAME@);
    lemma_ids_adjacent();
    lemma_ids_increasing(BY_ID@);
    lemma_index_points_back();
    lemma_index_lists_every_handle();
    assert(index_matches(BY_NAME@, BY_ID@));
}

} // verus!
