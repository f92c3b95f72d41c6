use google_taxonomy::line::{parse_line, parse_u32, LineError};
use google_taxonomy::naming::variant_name;
use google_taxonomy::snapshot::BY_NAME;

#[test]
fn symbolic_names_spell_out_ampersands() {
    assert_eq!(
        variant_name("Animals & Pet Supplies > Live Animals"),
        "AnimalsAndPetSuppliesLiveAnimals"
    );
    assert_eq!(variant_name("Food, Beverages & Tobacco"), "FoodBeveragesAndTobacco");
    assert_eq!(variant_name("Apparel & Accessories > Clothing Accessories > Sashes"),
        "ApparelAndAccessoriesClothingAccessoriesSashes");
}

#[test]
fn symbolic_names_drop_other_characters() {
    assert_eq!(variant_name(""), "");
    assert_eq!(variant_name(" > - , "), "");
    assert_eq!(variant_name("Café 24/7"), "Caf247");
}

#[test]
fn symbolic_names_of_the_embedded_taxonomy_are_distinct() {
    let mut names: Vec<String> = BY_NAME.iter().map(|(_, n)| variant_name(n)).collect();
    names.sort();
    names.dedup();
    assert_eq!(names.len(), BY_NAME.len());
}

#[test]
fn line_splits_at_first_separator() {
    assert_eq!(
        parse_line("3237 - Animals & Pet Supplies > Live Animals"),
        Ok((3237, "Animals & Pet Supplies > Live Animals"))
    );
    assert_eq!(parse_line("1 - A - B"), Ok((1, "A - B")));
    assert_eq!(parse_line("7 - "), Ok((7, "")));
}

#[test]
fn line_without_separator_is_rejected() {
    assert_eq!(parse_line("Google_Product_Taxonomy_Version: 2021-09-21"), Err(LineError::MissingSeparator));
    assert_eq!(parse_line("12-Toys"), Err(LineError::MissingSeparator));
    assert_eq!(parse_line(""), Err(LineError::MissingSeparator));
}

#[test]
fn line_with_bad_id_is_rejected() {
    assert_eq!(parse_line("abc - Toys"), Err(LineError::BadId));
    assert_eq!(parse_line(" - Toys"), Err(LineError::BadId));
    assert_eq!(parse_line("4294967296 - Toys"), Err(LineError::BadId));
    assert_eq!(parse_line("-1 - Toys"), Err(LineError::BadId));
}

#[test]
fn numbers_read_as_u32() {
    assert_eq!(parse_u32("4294967295"), Some(u32::MAX));
    assert_eq!(parse_u32("4294967296"), None);
    assert_eq!(parse_u32("99999999999999999999"), None);
    assert_eq!(parse_u32("+5"), Some(5));
    assert_eq!(parse_u32("+"), None);
    assert_eq!(parse_u32(""), None);
    assert_eq!(parse_u32("007"), Some(7));
    assert_eq!(parse_u32("1 "), None);
    for s in ["0", "42", "499972", "+17", "4294967295", "4294967296", "x1", "1x", "++1"] {
        assert_eq!(parse_u32(s), s.parse::<u32>().ok());
    }
}
