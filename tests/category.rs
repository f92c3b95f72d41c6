use google_taxonomy::{Error, ProductCategory};
use std::convert::TryInto;
use std::str::FromStr;

#[test]
fn casts_to_category_id() {
    assert_eq!(ProductCategory::AnimalsAndPetSuppliesLiveAnimals().id(), 3237);
}

#[test]
fn casts_to_category_name() {
    assert_eq!(
        ProductCategory::AnimalsAndPetSuppliesLiveAnimals().to_string(),
        "Animals & Pet Supplies > Live Animals"
    );
}

#[test]
fn id_to_constant() {
    let cat: ProductCategory = 499972.try_into().unwrap();
    assert_eq!(
        cat,
        ProductCategory::ApparelAndAccessoriesClothingAccessoriesSashes()
    );
}

#[test]
fn id_u8_to_constant() {
    let cat = ProductCategory::try_from(111_u8).unwrap();
    assert_eq!(cat, ProductCategory::BusinessAndIndustrial());
}

#[test]
fn id_u16_to_constant() {
    let cat = ProductCategory::try_from(111_u16).unwrap();
    assert_eq!(cat, ProductCategory::BusinessAndIndustrial());
}

#[test]
fn id_u32_to_constant() {
    let cat = ProductCategory::try_from(111_u32).unwrap();
    assert_eq!(cat, ProductCategory::BusinessAndIndustrial());
}

#[test]
fn id_u64_to_constant() {
    let cat = ProductCategory::try_from(111_u64).unwrap();
    assert_eq!(cat, ProductCategory::BusinessAndIndustrial());
}

#[test]
fn id_usize_to_constant() {
    let cat = ProductCategory::try_from(111_usize).unwrap();
    assert_eq!(cat, ProductCategory::BusinessAndIndustrial());
}

#[test]
fn id_i8_to_constant() {
    let cat = ProductCategory::try_from(111_i8).unwrap();
    assert_eq!(cat, ProductCategory::BusinessAndIndustrial());
}

#[test]
fn id_i16_to_constant() {
    let cat = ProductCategory::try_from(111_i16).unwrap();
    assert_eq!(cat, ProductCategory::BusinessAndIndustrial());
}

#[test]
fn id_i32_to_constant() {
    let cat = ProductCategory::try_from(111_i32).unwrap();
    assert_eq!(cat, ProductCategory::BusinessAndIndustrial());
}

#[test]
fn id_i64_to_constant() {
    let cat = ProductCategory::try_from(111_i64).unwrap();
    assert_eq!(cat, ProductCategory::BusinessAndIndustrial());
}

#[test]
fn id_isize_to_constant() {
    let cat = ProductCategory::try_from(111_isize).unwrap();
    assert_eq!(cat, ProductCategory::BusinessAndIndustrial());
}

#[test]
fn positive_id_not_found_error() {
    assert_eq!(ProductCategory::try_from(u64::MAX), Err(Error::IdNotFound));
}

#[test]
fn negative_id_not_found_error() {
    assert_eq!(ProductCategory::try_from(-1), Err(Error::IdNotFound));
}

#[test]
fn size_of_product_category() {
    assert_eq!(
        std::mem::size_of_val(&ProductCategory::BusinessAndIndustrial()),
        2
    );
}

#[test]
fn implements_from_str() {
    assert_eq!(
        ProductCategory::from_str("Animals & Pet Supplies"),
        Ok(ProductCategory::AnimalsAndPetSupplies())
    );
    assert_eq!(
        ProductCategory::from_str("Arts & Entertainment > Event Tickets"),
        Ok(ProductCategory::ArtsAndEntertainmentEventTickets())
    );
    assert_eq!(ProductCategory::from_str(
        "Arts & Entertainment > Hobbies & Creative Arts > Musical Instrument & Orchestra Accessories > Woodwind Instrument Accessories > Saxophone Accessories > Saxophone Parts > Saxophone Mouthpieces"),
        Ok(ProductCategory::ArtsAndEntertainmentHobbiesAndCreativeArtsMusicalInstrumentAndOrchestraAccessoriesWoodwindInstrumentAccessoriesSaxophoneAccessoriesSaxophonePartsSaxophoneMouthpieces()),
    );
    assert_eq!(
        ProductCategory::from_str("Some Nonexistent Category"),
        Err(Error::NameNotFound)
    );
}
