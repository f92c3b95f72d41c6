use google_taxonomy::order::compare_names;
use google_taxonomy::snapshot::{BY_ID, CATEGORY_COUNT};
use google_taxonomy::table::{search_by_id, search_by_name};
use google_taxonomy::{Error, ProductCategory};
use std::cmp::Ordering;

#[test]
fn every_category_resolves_back_from_its_id_and_name() {
    for h in ProductCategory::all() {
        assert_eq!(ProductCategory::from_id(h.id()), Ok(h));
        assert_eq!(ProductCategory::from_name(h.name()), Ok(h));
    }
}

#[test]
fn all_lists_each_category_once() {
    let all = ProductCategory::all();
    assert_eq!(all.len(), CATEGORY_COUNT);
    let mut ids: Vec<u32> = all.iter().map(|h| h.id()).collect();
    ids.sort();
    ids.dedup();
    assert_eq!(ids.len(), CATEGORY_COUNT);
    for (id, _) in BY_ID.iter() {
        assert_eq!(all.iter().filter(|h| h.id() == *id).count(), 1);
    }
}

#[test]
fn names_increase_along_all_and_ids_along_the_index() {
    let all = ProductCategory::all();
    for w in all.windows(2) {
        assert!(w[0].name() < w[1].name());
        assert!(w[0] < w[1]);
    }
    for w in BY_ID.windows(2) {
        assert!(w[0].0 < w[1].0);
    }
}

#[test]
fn largest_id_is_not_found() {
    assert_eq!(ProductCategory::from_id(u32::MAX), Err(Error::IdNotFound));
    assert_eq!(ProductCategory::try_from(u32::MAX), Err(Error::IdNotFound));
}

#[test]
fn out_of_range_integers_are_not_found() {
    assert_eq!(ProductCategory::try_from(-1_i8), Err(Error::IdNotFound));
    assert_eq!(ProductCategory::try_from(-111_i16), Err(Error::IdNotFound));
    assert_eq!(ProductCategory::try_from(-111_i64), Err(Error::IdNotFound));
    assert_eq!(ProductCategory::try_from(isize::MIN), Err(Error::IdNotFound));
    assert_eq!(ProductCategory::try_from(i64::MAX), Err(Error::IdNotFound));
    // 2^32 + 111 must not wrap around to id 111.
    assert_eq!(ProductCategory::try_from(4_294_967_407_u64), Err(Error::IdNotFound));
    assert_eq!(ProductCategory::try_from(4_294_967_407_i64), Err(Error::IdNotFound));
    assert_eq!(ProductCategory::try_from(4_294_967_407_usize), Err(Error::IdNotFound));
}

#[test]
fn handle_order_differs_from_id_order() {
    let business = ProductCategory::BusinessAndIndustrial();
    let live_animals = ProductCategory::AnimalsAndPetSuppliesLiveAnimals();
    assert!(business.id() < live_animals.id());
    assert!(business > live_animals);
}

#[test]
fn live_animals_by_id_and_by_name() {
    let by_id = ProductCategory::from_id(3237).unwrap();
    assert_eq!(by_id.name(), "Animals & Pet Supplies > Live Animals");
    let by_name = ProductCategory::from_name("Animals & Pet Supplies > Live Animals").unwrap();
    assert_eq!(by_name, by_id);
}

#[test]
fn business_and_industrial_by_id() {
    assert_eq!(ProductCategory::from_id(111).unwrap().name(), "Business & Industrial");
}

#[test]
fn unknown_name_and_id_fail() {
    assert_eq!(
        ProductCategory::from_name("Some Nonexistent Category"),
        Err(Error::NameNotFound)
    );
    assert_eq!(ProductCategory::from_id(151515), Err(Error::IdNotFound));
    assert_eq!(ProductCategory::from_id(0), Err(Error::IdNotFound));
}

#[test]
fn names_match_exactly() {
    assert_eq!(ProductCategory::from_name("business & industrial"), Err(Error::NameNotFound));
    assert_eq!(ProductCategory::from_name("Business & Industrial "), Err(Error::NameNotFound));
    assert_eq!(ProductCategory::from_name("Business"), Err(Error::NameNotFound));
    assert_eq!(ProductCategory::from_name(""), Err(Error::NameNotFound));
}

#[test]
fn baby_and_toddler_text_round_trip() {
    let cat = ProductCategory::from_name("Baby & Toddler").unwrap();
    assert_eq!(cat, ProductCategory::BabyAndToddler());
    assert_eq!(cat.to_string(), "Baby & Toddler");
    assert_eq!(cat.id(), 537);
}

#[test]
fn first_and_last_categories() {
    let all = ProductCategory::all();
    assert_eq!(all[0].name(), "Animals & Pet Supplies");
    assert_eq!(all[0].id(), 1);
    assert_eq!(all[CATEGORY_COUNT - 1].name(), "Vehicles & Parts");
    assert_eq!(ProductCategory::from_id(499972).unwrap().name(),
        "Apparel & Accessories > Clothing Accessories > Sashes");
}

#[test]
fn error_messages_name_the_field() {
    assert_eq!(Error::IdNotFound.message(), "the product category id does not exist");
    assert_eq!(Error::NameNotFound.message(), "the product category name does not exist");
}

#[test]
fn names_compare_by_code_point() {
    assert_eq!(compare_names("Media", "Mature"), Ordering::Greater);
    assert_eq!(compare_names("Arts", "Arts & Entertainment"), Ordering::Less);
    assert_eq!(compare_names("Arts", "Arts"), Ordering::Equal);
    assert_eq!(compare_names("", "A"), Ordering::Less);
    assert_eq!(compare_names("Z", "a"), Ordering::Less);
    assert_eq!(compare_names("é", "z"), Ordering::Greater);
}

#[test]
fn binary_searches_on_small_tables() {
    let by_id: [(u32, u16); 4] = [(3, 2), (7, 0), (10, 3), (42, 1)];
    assert_eq!(search_by_id(&by_id, 3), Some(0));
    assert_eq!(search_by_id(&by_id, 42), Some(3));
    assert_eq!(search_by_id(&by_id, 10), Some(2));
    assert_eq!(search_by_id(&by_id, 8), None);
    assert_eq!(search_by_id(&by_id, 0), None);
    assert_eq!(search_by_id(&[], 3), None);
    let by_name: [(u32, &str); 3] = [(7, "Alpha"), (42, "Beta"), (3, "Beta > Gamma")];
    assert_eq!(search_by_name(&by_name, "Beta"), Some(1));
    assert_eq!(search_by_name(&by_name, "Beta > Gamma"), Some(2));
    assert_eq!(search_by_name(&by_name, "Alpha"), Some(0));
    assert_eq!(search_by_name(&by_name, "Bet"), None);
    assert_eq!(search_by_name(&by_name, "Zeta"), None);
}
