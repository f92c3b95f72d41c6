//! A resolved product category: a compact handle into the name-sorted table.
use crate::order::lex_lt;
use crate::snapshot::{lemma_snapshot_wf, BY_ID, BY_NAME, CATEGORY_COUNT};
use crate::table::{
    lemma_ids_distinct, lemma_names_distinct, lists_handle, search_by_id, search_by_name,
};
use core::cmp::Ordering;
use vstd::std_specs::cmp::PartialOrdSpec;
use vstd::prelude::*;

verus! {

/// A category of the taxonomy. It holds the category's position in the name-sorted table,
/// not its taxonomy id, so handles order by name.
#[derive(Debug, Clone, Copy, PartialEq, Eq, Structural, Hash, Ord)]
pub struct ProductCategory(u16);

/// Why a category could not be resolved.
#[derive(Debug, Clone, Copy, PartialEq, Eq, Structural)]
pub enum Error {
    /// Product category ID does not exist
    IdNotFound,
    /// Product category name does not exist
    NameNotFound,
}

impl View for ProductCategory {
    type V = nat;

    /// The handle: the category's position in the name-sorted table.
    closed spec fn view(&self) -> nat {
        self.0 as nat
    }
}

impl ProductCategory {
    #[verifier::type_invariant]
    spec fn inv(self) -> bool {
        (self.0 as int) < CATEGORY_COUNT
    }

    /// The handle points into the table.
    pub open spec fn is_valid(self) -> bool {
        self@ < CATEGORY_COUNT
    }

    /// The taxonomy id of the category.
    pub open spec fn spec_id(self) -> u32 {
        BY_NAME@[self@ as int].0
    }

    /// The full name of the category.
    pub open spec fn spec_name(self) -> Seq<char> {
        BY_NAME@[self@ as int].1@
    }

    /// What resolving `id` gives: the one category that carries it, or `IdNotFound`.
    pub open spec fn spec_from_id(id: u32) -> Result<ProductCategory, Error> {
        if exists|h: ProductCategory| h.is_valid() && h.spec_id() == id {
            Ok(choose|h: ProductCategory| h.is_valid() && h.spec_id() == id)
        } else {
            Err(Error::IdNotFound)
        }
    }

    /// What resolving `name` gives: the one category with exactly that name, or `NameNotFound`.
    pub open spec fn spec_from_name(name: Seq<char>) -> Result<ProductCategory, Error> {
        if exists|h: ProductCategory| h.is_valid() && h.spec_name() == name {
            Ok(choose|h: ProductCategory| h.is_valid() && h.spec_name() == name)
        } else {
            Err(Error::NameNotFound)
        }
    }

    /// What resolving an integer of any width gives: `IdNotFound` outside the range of ids,
    /// else the category that carries it.
    pub open spec fn spec_from_int(value: int) -> Result<ProductCategory, Error> {
        if 0 <= value <= u32::MAX {
            Self::spec_from_id(value as u32)
        } else {
            Err(Error::IdNotFound)
        }
    }

    /// Every handle value denotes its own category.
    proof fn lemma_view_injective(a: ProductCategory, b: ProductCategory)
        requires
            a@ == b@,
        ensures
            a == b,
    {
    }

    /// The full name of the category.
    pub fn name(&self) -> (r: &'static str)
        ensures
            r@ == self.spec_name(),
            self.is_valid(),
    {
        proof {
            use_type_invariant(self);
        }
        BY_NAME[self.0 as usize].1
    }

    /// The taxonomy id of the category.
    pub fn id(&self) -> (r: u32)
        ensures
            r == self.spec_id(),
            self.is_valid(),
    {
        proof {
            use_type_invariant(self);
        }
        BY_NAME[self.0 as usize].0
    }

    /// The full name of the category as an owned string.
    pub fn to_string(&self) -> (r: String)
        ensures
            r@ == self.spec_name(),
            self.is_valid(),
    {
        String::from_str(self.name())
    }

    /// Resolves a taxonomy id by binary search of the id index.
    pub fn from_id(id: u32) -> (r: Result<Self, Error>)
        ensures
            r == Self::spec_from_id(id),
            r matches Ok(h) ==> h.is_valid() && h.spec_id() == id,
    {
        proof {
            lemma_snapshot_wf();
        }
        match search_by_id(BY_ID.as_slice(), id) {
            Some(j) => {
                let h = ProductCategory(BY_ID[j].1);
                proof {
                    assert(h.is_valid() && h.spec_id() == id);
                    let c = choose|c: ProductCategory| c.is_valid() && c.spec_id() == id;
                    lemma_ids_distinct(BY_NAME@, BY_ID@, c@ as int, h@ as int);
                    Self::lemma_view_injective(c, h);
                }
                Ok(h)
            },
            None => {
                proof {
                    assert forall|c: ProductCategory| c.is_valid() implies c.spec_id() != id by {
                        assert(lists_handle(BY_ID@, c@ as int));
                    }
                }
                Err(Error::IdNotFound)
            },
        }
    }

    /// Resolves an exact, case-sensitive name by binary search of the name table.
    pub fn from_name(name: &str) -> (r: Result<Self, Error>)
        ensures
            r == Self::spec_from_name(name@),
            r matches Ok(h) ==> h.is_valid() && h.spec_name() == name@,
    {
        proof {
            lemma_snapshot_wf();
        }
        match search_by_name(BY_NAME.as_slice(), name) {
            Some(i) => {
                let h = ProductCategory(i as u16);
                proof {
                    assert(h.is_valid() && h.spec_name() == name@);
                    let c = choose|c: ProductCategory| c.is_valid() && c.spec_name() == name@;
                    lemma_names_distinct(BY_NAME@, c@ as int, h@ as int);
                    Self::lemma_view_injective(c, h);
                }
                Ok(h)
            },
            None => {
                proof {
                    assert forall|c: ProductCategory| c.is_valid() implies c.spec_name() != name@ by {
                        assert(BY_NAME@[c@ as int].1@ != name@);
                    }
                }
                Err(Error::NameNotFound)
            },
        }
    }
    /// Every category, in handle order, which is name order.
    pub fn all() -> (r: Vec<ProductCategory>)
        ensures
            r@.len() == CATEGORY_COUNT,
            forall|i: int| 0 <= i < r@.len() ==> (#[trigger] r@[i])@ == i,
    {
        let mut v: Vec<ProductCategory> = Vec::new();
        let mut i: usize = 0;
        while i < CATEGORY_COUNT
            invariant
                i <= CATEGORY_COUNT,
                v@.len() == i,
                forall|k: int| 0 <= k < i ==> (#[trigger] v@[k])@ == k,
            decreases CATEGORY_COUNT - i,
        {
            v.push(ProductCategory(i as u16));
            i = i + 1;
        }
        v
    }

    /// Resolving a category's own id, or its own name, gives the category back.
    pub proof fn lemma_round_trip(h: ProductCategory)
        requires
            h.is_valid(),
        ensures
            Self::spec_from_id(h.spec_id()) == Ok::<ProductCategory, Error>(h),
            Self::spec_from_name(h.spec_name()) == Ok::<ProductCategory, Error>(h),
    {
        lemma_snapshot_wf();
        let c = choose|c: ProductCategory| c.is_valid() && c.spec_id() == h.spec_id();
        lemma_ids_distinct(BY_NAME@, BY_ID@, c@ as int, h@ as int);
        Self::lemma_view_injective(c, h);
        let d = choose|d: ProductCategory| d.is_valid() && d.spec_name() == h.spec_name();
        lemma_names_distinct(BY_NAME@, d@ as int, h@ as int);
        Self::lemma_view_injective(d, h);
    }

    /// Each id of the table belongs to exactly one category: the one at its entry's position.
    pub proof fn lemma_each_id_once(k: int)
        requires
            0 <= k < CATEGORY_COUNT,
        ensures
            exists|h: ProductCategory| h.is_valid() && h@ == k && h.spec_id() == BY_NAME@[k].0,
            forall|h1: ProductCategory, h2: ProductCategory|
                h1.is_valid() && h2.is_valid() && h1.spec_id() == BY_NAME@[k].0 && h2.spec_id()
                    == BY_NAME@[k].0 ==> h1 == h2,
    {
        lemma_snapshot_wf();
        let w = ProductCategory(k as u16);
        assert(w.is_valid() && w@ == k && w.spec_id() == BY_NAME@[k].0);
        assert forall|h1: ProductCategory, h2: ProductCategory|
            h1.is_valid() && h2.is_valid() && h1.spec_id() == BY_NAME@[k].0 && h2.spec_id()
                == BY_NAME@[k].0 implies h1 == h2 by {
            lemma_ids_distinct(BY_NAME@, BY_ID@, h1@ as int, h2@ as int);
            Self::lemma_view_injective(h1, h2);
        }
    }

    /// Ids strictly increase along the id index, and names strictly increase with the handle.
    pub proof fn lemma_sorted()
        ensures
            forall|j1: int, j2: int|
                0 <= j1 < j2 < CATEGORY_COUNT ==> #[trigger] BY_ID@[j1].0 < #[trigger] BY_ID@[j2].0,
            forall|h1: ProductCategory, h2: ProductCategory|
                h1.is_valid() && h2.is_valid() && h1@ < h2@ ==> lex_lt(
                    #[trigger] h1.spec_name(),
                    #[trigger] h2.spec_name(),
                ),
    {
        lemma_snapshot_wf();
    }

    /// Handle order is name order, not id order: some category with the smaller id comes
    /// after one with a larger id.
    pub proof fn lemma_order_independent_of_ids()
        ensures
            exists|h1: ProductCategory, h2: ProductCategory|
                h1.is_valid() && h2.is_valid() && h1.spec_id() < h2.spec_id()
                    && h1.partial_cmp_spec(&h2) == Some(Ordering::Greater),
    {
        let h1 = ProductCategory(15);
        let h2 = ProductCategory(1);
        assert(h1.spec_id() == 111 && h2.spec_id() == 3237);
        assert(h1.partial_cmp_spec(&h2) == Some(Ordering::Greater));
    }
}

impl Error {
    /// A human-readable message naming the field that failed to resolve.
    pub fn message(&self) -> (r: &'static str)
        ensures
            r@ == match self {
                Error::IdNotFound => "the product category id does not exist"@,
                Error::NameNotFound => "the product category name does not exist"@,
            },
    {
        match self {
            Error::IdNotFound => "the product category id does not exist",
            Error::NameNotFound => "the product category name does not exist",
        }
    }
}

impl PartialOrd for ProductCategory {
    fn partial_cmp(&self, other: &ProductCategory) -> Option<Ordering> {
        if self.0 < other.0 {
            Some(Ordering::Less)
        } else if self.0 == other.0 {
            Some(Ordering::Equal)
        } else {
            Some(Ordering::Greater)
        }
    }
}

impl vstd::std_specs::cmp::PartialOrdSpecImpl for ProductCategory {
    open spec fn obeys_partial_cmp_spec() -> bool {
        true
    }

    /// Handles compare by their position in the name-sorted table.
    open spec fn partial_cmp_spec(&self, other: &ProductCategory) -> Option<Ordering> {
        if self@ < other@ {
            Some(Ordering::Less)
        } else if self@ == other@ {
            Some(Ordering::Equal)
        } else {
            Some(Ordering::Greater)
        }
    }
}

/// Named accessors, one per category of the taxonomy.
#[allow(non_snake_case)]
impl ProductCategory {
    /// `Animals & Pet Supplies`, id 1.
    pub fn AnimalsAndPetSupplies() -> (r: ProductCategory)
        ensures
            r@ == 0,
            r.is_valid(),
            r.spec_id() == 1,
            r.spec_name() == "Animals & Pet Supplies"@,
    {
        ProductCategory(0)
    }

    /// `Animals & Pet Supplies > Live Animals`, id 3237.
    pub fn AnimalsAndPetSuppliesLiveAnimals() -> (r: ProductCategory)
        ensures
            r@ == 1,
            r.is_valid(),
            r.spec_id() == 3237,
            r.spec_name() == "Animals & Pet Supplies > Live Animals"@,
    {
        ProductCategory(1)
    }

    /// `Animals & Pet Supplies > Pet Supplies`, id 2.
    pub fn AnimalsAndPetSuppliesPetSupplies() -> (r: ProductCategory)
        ensures
            r@ == 2,
            r.is_valid(),
            r.spec_id() == 2,
            r.spec_name() == "Animals & Pet Supplies > Pet Supplies"@,
    {
        ProductCategory(2)
    }

    /// `Apparel & Accessories`, id 166.
    pub fn ApparelAndAccessories() -> (r: ProductCategory)
        ensures
            r@ == 3,
            r.is_valid(),
            r.spec_id() == 166,
            r.spec_name() == "Apparel & Accessories"@,
    {
        ProductCategory(3)
    }

    /// `Apparel & Accessories > Clothing`, id 1604.
    pub fn ApparelAndAccessoriesClothing() -> (r: ProductCategory)
        ensures
            r@ == 4,
            r.is_valid(),
            r.spec_id() == 1604,
            r.spec_name() == "Apparel & Accessories > Clothing"@,
    {
        ProductCategory(4)
    }

    /// `Apparel & Accessories > Clothing Accessories`, id 167.
    pub fn ApparelAndAccessoriesClothingAccessories() -> (r: ProductCategory)
        ensures
            r@ == 5,
            r.is_valid(),
            r.spec_id() == 167,
            r.spec_name() == "Apparel & Accessories > Clothing Accessories"@,
    {
        ProductCategory(5)
    }

    /// `Apparel & Accessories > Clothing Accessories > Sashes`, id 499972.
    pub fn ApparelAndAccessoriesClothingAccessoriesSashes() -> (r: ProductCategory)
        ensures
            r@ == 6,
            r.is_valid(),
            r.spec_id() == 499972,
            r.spec_name() == "Apparel & Accessories > Clothing Accessories > Sashes"@,
    {
        ProductCategory(6)
    }

    /// `Apparel & Accessories > Shoes`, id 187.
    pub fn ApparelAndAccessoriesShoes() -> (r: ProductCategory)
        ensures
            r@ == 7,
            r.is_valid(),
            r.spec_id() == 187,
            r.spec_name() == "Apparel & Accessories > Shoes"@,
    {
        ProductCategory(7)
    }

    /// `Arts & Entertainment`, id 8.
    pub fn ArtsAndEntertainment() -> (r: ProductCategory)
        ensures
            r@ == 8,
            r.is_valid(),
            r.spec_id() == 8,
            r.spec_name() == "Arts & Entertainment"@,
    {
        ProductCategory(8)
    }

    /// `Arts & Entertainment > Event Tickets`, id 499969.
    pub fn ArtsAndEntertainmentEventTickets() -> (r: ProductCategory)
        ensures
            r@ == 9,
            r.is_valid(),
            r.spec_id() == 499969,
            r.spec_name() == "Arts & Entertainment > Event Tickets"@,
    {
        ProductCategory(9)
    }

    /// `Arts & Entertainment > Hobbies & Creative Arts`, id 5710.
    pub fn ArtsAndEntertainmentHobbiesAndCreativeArts() -> (r: ProductCategory)
        ensures
            r@ == 10,
            r.is_valid(),
            r.spec_id() == 5710,
            r.spec_name() == "Arts & Entertainment > Hobbies & Creative Arts"@,
    {
        ProductCategory(10)
    }

    /// `Arts & Entertainment > Hobbies & Creative Arts > Musical Instrument & Orchestra Accessories`, id 55.
    pub fn ArtsAndEntertainmentHobbiesAndCreativeArtsMusicalInstrumentAndOrchestraAccessories() -> (r: ProductCategory)
        ensures
            r@ == 11,
            r.is_valid(),
            r.spec_id() == 55,
            r.spec_name() == "Arts & Entertainment > Hobbies & Creative Arts > Musical Instrument & Orchestra Accessories"@,
    {
        ProductCategory(11)
    }

    /// `Arts & Entertainment > Hobbies & Creative Arts > Musical Instrument & Orchestra Accessories > Woodwind Instrument Accessories`, id 62.
    pub fn ArtsAndEntertainmentHobbiesAndCreativeArtsMusicalInstrumentAndOrchestraAccessoriesWoodwindInstrumentAccessories() -> (r: ProductCategory)
        ensures
            r@ == 12,
            r.is_valid(),
            r.spec_id() == 62,
            r.spec_name() == "Arts & Entertainment > Hobbies & Creative Arts > Musical Instrument & Orchestra Accessories > Woodwind Instrument Accessories"@,
    {
        ProductCategory(12)
    }

    /// `Arts & Entertainment > Hobbies & Creative Arts > Musical Instrument & Orchestra Accessories > Woodwind Instrument Accessories > Saxophone Accessories > Saxophone Parts > Saxophone Mouthpieces`, id 4958.
    pub fn ArtsAndEntertainmentHobbiesAndCreativeArtsMusicalInstrumentAndOrchestraAccessoriesWoodwindInstrumentAccessoriesSaxophoneAccessoriesSaxophonePartsSaxophoneMouthpieces() -> (r: ProductCategory)
        ensures
            r@ == 13,
            r.is_valid(),
            r.spec_id() == 4958,
            r.spec_name() == "Arts & Entertainment > Hobbies & Creative Arts > Musical Instrument & Orchestra Accessories > Woodwind Instrument Accessories > Saxophone Accessories > Saxophone Parts > Saxophone Mouthpieces"@,
    {
        ProductCategory(13)
    }

    /// `Baby & Toddler`, id 537.
    pub fn BabyAndToddler() -> (r: ProductCategory)
        ensures
            r@ == 14,
            r.is_valid(),
            r.spec_id() == 537,
            r.spec_name() == "Baby & Toddler"@,
    {
        ProductCategory(14)
    }

    /// `Business & Industrial`, id 111.
    pub fn BusinessAndIndustrial() -> (r: ProductCategory)
        ensures
            r@ == 15,
            r.is_valid(),
            r.spec_id() == 111,
            r.spec_name() == "Business & Industrial"@,
    {
        ProductCategory(15)
    }

    /// `Cameras & Optics`, id 141.
    pub fn CamerasAndOptics() -> (r: ProductCategory)
        ensures
            r@ == 16,
            r.is_valid(),
            r.spec_id() == 141,
            r.spec_name() == "Cameras & Optics"@,
    {
        ProductCategory(16)
    }

    /// `Electronics`, id 222.
    pub fn Electronics() -> (r: ProductCategory)
        ensures
            r@ == 17,
            r.is_valid(),
            r.spec_id() == 222,
            r.spec_name() == "Electronics"@,
    {
        ProductCategory(17)
    }

    /// `Food, Beverages & Tobacco`, id 412.
    pub fn FoodBeveragesAndTobacco() -> (r: ProductCategory)
        ensures
            r@ == 18,
            r.is_valid(),
            r.spec_id() == 412,
            r.spec_name() == "Food, Beverages & Tobacco"@,
    {
        ProductCategory(18)
    }

    /// `Furniture`, id 436.
    pub fn Furniture() -> (r: ProductCategory)
        ensures
            r@ == 19,
            r.is_valid(),
            r.spec_id() == 436,
            r.spec_name() == "Furniture"@,
    {
        ProductCategory(19)
    }

    /// `Hardware`, id 632.
    pub fn Hardware() -> (r: ProductCategory)
        ensures
            r@ == 20,
            r.is_valid(),
            r.spec_id() == 632,
            r.spec_name() == "Hardware"@,
    {
        ProductCategory(20)
    }

    /// `Health & Beauty`, id 469.
    pub fn HealthAndBeauty() -> (r: ProductCategory)
        ensures
            r@ == 21,
            r.is_valid(),
            r.spec_id() == 469,
            r.spec_name() == "Health & Beauty"@,
    {
        ProductCategory(21)
    }

    /// `Home & Garden`, id 536.
    pub fn HomeAndGarden() -> (r: ProductCategory)
        ensures
            r@ == 22,
            r.is_valid(),
            r.spec_id() == 536,
            r.spec_name() == "Home & Garden"@,
    {
        ProductCategory(22)
    }

    /// `Luggage & Bags`, id 5181.
    pub fn LuggageAndBags() -> (r: ProductCategory)
        ensures
            r@ == 23,
            r.is_valid(),
            r.spec_id() == 5181,
            r.spec_name() == "Luggage & Bags"@,
    {
        ProductCategory(23)
    }

    /// `Mature`, id 772.
    pub fn Mature() -> (r: ProductCategory)
        ensures
            r@ == 24,
            r.is_valid(),
            r.spec_id() == 772,
            r.spec_name() == "Mature"@,
    {
        ProductCategory(24)
    }

    /// `Media`, id 783.
    pub fn Media() -> (r: ProductCategory)
        ensures
            r@ == 25,
            r.is_valid(),
            r.spec_id() == 783,
            r.spec_name() == "Media"@,
    {
        ProductCategory(25)
    }

    /// `Office Supplies`, id 922.
    pub fn OfficeSupplies() -> (r: ProductCategory)
        ensures
            r@ == 26,
            r.is_valid(),
            r.spec_id() == 922,
            r.spec_name() == "Office Supplies"@,
    {
        ProductCategory(26)
    }

    /// `Religious & Ceremonial`, id 5605.
    pub fn ReligiousAndCeremonial() -> (r: ProductCategory)
        ensures
            r@ == 27,
            r.is_valid(),
            r.spec_id() == 5605,
            r.spec_name() == "Religious & Ceremonial"@,
    {
        ProductCategory(27)
    }

    /// `Software`, id 2092.
    pub fn Software() -> (r: ProductCategory)
        ensures
            r@ == 28,
            r.is_valid(),
            r.spec_id() == 2092,
            r.spec_name() == "Software"@,
    {
        ProductCategory(28)
    }

    /// `Sporting Goods`, id 988.
    pub fn SportingGoods() -> (r: ProductCategory)
        ensures
            r@ == 29,
            r.is_valid(),
            r.spec_id() == 988,
            r.spec_name() == "Sporting Goods"@,
    {
        ProductCategory(29)
    }

    /// `Toys & Games`, id 1239.
    pub fn ToysAndGames() -> (r: ProductCategory)
        ensures
            r@ == 30,
            r.is_valid(),
            r.spec_id() == 1239,
            r.spec_name() == "Toys & Games"@,
    {
        ProductCategory(30)
    }

    /// `Vehicles & Parts`, id 888.
    pub fn VehiclesAndParts() -> (r: ProductCategory)
        ensures
            r@ == 31,
            r.is_valid(),
            r.spec_id() == 888,
            r.spec_name() == "Vehicles & Parts"@,
    {
        ProductCategory(31)
    }

}

} // verus!
