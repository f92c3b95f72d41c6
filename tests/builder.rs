use google_taxonomy::builder::{build_tables, BuildError};
use google_taxonomy::snapshot::{BY_ID, BY_NAME};
use google_taxonomy::table::{search_by_id, search_by_name};

#[test]
fn builds_sorted_tables_from_raw_entries() {
    let raw: Vec<(u32, &str)> = vec![
        (111, "Business & Industrial"),
        (3237, "Animals & Pet Supplies > Live Animals"),
        (1, "Animals & Pet Supplies"),
        (8, "Arts & Entertainment"),
    ];
    let t = build_tables(&raw).unwrap();
    assert_eq!(
        t.by_name,
        vec![
            (1, "Animals & Pet Supplies"),
            (3237, "Animals & Pet Supplies > Live Animals"),
            (8, "Arts & Entertainment"),
            (111, "Business & Industrial"),
        ]
    );
    assert_eq!(t.by_id, vec![(1, 0), (8, 2), (111, 3), (3237, 1)]);
}

#[test]
fn built_tables_resolve_both_ways() {
    let raw: Vec<(u32, &str)> = vec![(30, "Gamma"), (10, "Beta"), (20, "Alpha")];
    let t = build_tables(&raw).unwrap();
    for (id, name) in raw.iter() {
        let j = search_by_id(&t.by_id, *id).unwrap();
        let h = t.by_id[j].1 as usize;
        assert_eq!(t.by_name[h], (*id, *name));
        assert_eq!(search_by_name(&t.by_name, name), Some(h));
    }
}

#[test]
fn rebuilding_the_embedded_tables_gives_them_back() {
    let mut raw: Vec<(u32, &str)> = BY_NAME.to_vec();
    raw.reverse();
    let t = build_tables(&raw).unwrap();
    assert_eq!(t.by_name, BY_NAME.to_vec());
    assert_eq!(t.by_id, BY_ID.to_vec());
}

#[test]
fn empty_input_builds_empty_tables() {
    let t = build_tables(&[]).unwrap();
    assert!(t.by_name.is_empty());
    assert!(t.by_id.is_empty());
}

#[test]
fn repeated_name_is_rejected() {
    let raw: Vec<(u32, &str)> = vec![(1, "Alpha"), (2, "Beta"), (3, "Alpha")];
    assert_eq!(build_tables(&raw).unwrap_err(), BuildError::DuplicateName);
}

#[test]
fn repeated_id_is_rejected() {
    let raw: Vec<(u32, &str)> = vec![(1, "Alpha"), (2, "Beta"), (1, "Gamma")];
    assert_eq!(build_tables(&raw).unwrap_err(), BuildError::DuplicateId);
}

#[test]
fn repeated_name_is_reported_before_repeated_id() {
    let raw: Vec<(u32, &str)> = vec![(1, "Alpha"), (1, "Beta"), (2, "Beta")];
    assert_eq!(build_tables(&raw).unwrap_err(), BuildError::DuplicateName);
}

#[test]
fn too_many_entries_are_rejected() {
    let names: Vec<String> = (0..65537u32).map(|i| format!("{:06}", i)).collect();
    let raw: Vec<(u32, &str)> = names.iter().enumerate().map(|(i, n)| (i as u32, n.as_str())).collect();
    assert_eq!(build_tables(&raw).unwrap_err(), BuildError::TooManyEntries);
}
