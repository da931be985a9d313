use sector_geometry::decimal::decimal_string;
use sector_geometry::params::{get_parameter_data, parameter_id, ParameterCatalog, ParameterData};

fn record(cid: &str, digest: &str, sector_size: u64) -> ParameterData {
    ParameterData { cid: cid.to_string(), digest: digest.to_string(), sector_size }
}

#[test]
fn parameter_id_has_version_and_suffix() {
    assert_eq!(parameter_id(27, "abc"), "v27-abc.params");
    assert_eq!(parameter_id(28, "abc"), "v28-abc.params");
    assert_eq!(
        parameter_id(27, "stacked-proof-of-replication-merkletree-poseidon_hasher-8-0-0"),
        "v27-stacked-proof-of-replication-merkletree-poseidon_hasher-8-0-0.params"
    );
}

#[test]
fn parameter_id_of_edge_inputs() {
    assert_eq!(parameter_id(0, ""), "v0-.params");
    assert_eq!(parameter_id(9, "x"), "v9-x.params");
    assert_eq!(parameter_id(10, "x"), "v10-x.params");
    assert_eq!(parameter_id(100, "a-b.params"), "v100-a-b.params.params");
    assert_eq!(parameter_id(7, "\u{e9}t\u{e9}"), "v7-\u{e9}t\u{e9}.params");
}

#[test]
fn parameter_id_agrees_with_format() {
    for version in [0usize, 1, 9, 10, 11, 27, 28, 99, 100, 101, 12345, usize::MAX] {
        assert_eq!(parameter_id(version, "id"), format!("v{}-{}.params", version, "id"));
    }
}

#[test]
fn decimal_string_writes_decimal() {
    assert_eq!(decimal_string(0), "0");
    assert_eq!(decimal_string(7), "7");
    assert_eq!(decimal_string(10), "10");
    assert_eq!(decimal_string(1234567890), "1234567890");
    assert_eq!(decimal_string(99), "99");
    assert_eq!(decimal_string(100), "100");
    assert_eq!(decimal_string(u64::MAX), u64::MAX.to_string());
}

#[test]
fn empty_catalog_has_nothing() {
    let catalog = ParameterCatalog::new(27);
    assert_eq!(catalog.version(), 27);
    assert!(catalog.get("v27-abc.params").is_none());
    assert!(get_parameter_data(&catalog, "abc").is_none());
}

#[test]
fn lookup_by_cache_id_finds_the_record() {
    let mut catalog = ParameterCatalog::new(27);
    catalog.insert("v27-abc.params".to_string(), record("cid-abc", "digest-abc", 2048));
    catalog.insert("v27-def.params".to_string(), record("cid-def", "digest-def", 4096));
    let found = get_parameter_data(&catalog, "abc").unwrap();
    assert_eq!(found.cid, "cid-abc");
    assert_eq!(found.digest, "digest-abc");
    assert_eq!(found.sector_size, 2048);
    let found = get_parameter_data(&catalog, "def").unwrap();
    assert_eq!(found.cid, "cid-def");
    assert_eq!(found.digest, "digest-def");
    assert_eq!(found.sector_size, 4096);
}

#[test]
fn lookup_of_any_other_id_is_absent() {
    let mut catalog = ParameterCatalog::new(27);
    catalog.insert("v27-abc.params".to_string(), record("cid-abc", "digest-abc", 2048));
    assert!(get_parameter_data(&catalog, "ab").is_none());
    assert!(get_parameter_data(&catalog, "abcd").is_none());
    assert!(get_parameter_data(&catalog, "").is_none());
    assert!(get_parameter_data(&catalog, "v27-abc.params").is_none());
    assert!(get_parameter_data(&catalog, "abc.params").is_none());
    assert!(get_parameter_data(&catalog, "ABC").is_none());
}

#[test]
fn lookup_goes_by_the_protocol_version() {
    let mut catalog = ParameterCatalog::new(28);
    catalog.insert("v27-abc.params".to_string(), record("old", "old", 2048));
    assert!(get_parameter_data(&catalog, "abc").is_none());
    catalog.insert("v28-abc.params".to_string(), record("new", "new", 2048));
    assert_eq!(get_parameter_data(&catalog, "abc").unwrap().cid, "new");
    assert_eq!(catalog.get("v27-abc.params").unwrap().cid, "old");
}

#[test]
fn insert_replaces_the_record_under_a_key() {
    let mut catalog = ParameterCatalog::new(27);
    catalog.insert("v27-abc.params".to_string(), record("first", "d1", 2048));
    catalog.insert("v27-xyz.params".to_string(), record("other", "d2", 4096));
    catalog.insert("v27-abc.params".to_string(), record("second", "d3", 8192));
    let found = get_parameter_data(&catalog, "abc").unwrap();
    assert_eq!(found.cid, "second");
    assert_eq!(found.digest, "d3");
    assert_eq!(found.sector_size, 8192);
    assert_eq!(get_parameter_data(&catalog, "xyz").unwrap().cid, "other");
}

#[test]
fn get_looks_up_the_full_key() {
    let mut catalog = ParameterCatalog::new(27);
    catalog.insert("anything".to_string(), record("c", "d", 1));
    assert_eq!(catalog.get("anything").unwrap().sector_size, 1);
    assert!(catalog.get("anythin").is_none());
    assert!(catalog.get("").is_none());
}

#[test]
fn from_entries_records_every_pair() {
    let entries = vec![
        ("v27-a.params".to_string(), record("ca", "da", 2048)),
        ("v27-b.params".to_string(), record("cb", "db", 4096)),
        ("v27-c.params".to_string(), record("cc", "dc", 1 << 35)),
    ];
    let catalog = ParameterCatalog::from_entries(27, &entries);
    assert_eq!(catalog.version(), 27);
    assert_eq!(get_parameter_data(&catalog, "a").unwrap().cid, "ca");
    assert_eq!(get_parameter_data(&catalog, "b").unwrap().digest, "db");
    assert_eq!(get_parameter_data(&catalog, "c").unwrap().sector_size, 1 << 35);
    assert!(get_parameter_data(&catalog, "d").is_none());
}

#[test]
fn from_entries_keeps_the_last_of_equal_keys() {
    let entries = vec![
        ("v27-a.params".to_string(), record("first", "d", 1)),
        ("v27-b.params".to_string(), record("b", "d", 2)),
        ("v27-a.params".to_string(), record("last", "d", 3)),
    ];
    let catalog = ParameterCatalog::from_entries(27, &entries);
    let found = get_parameter_data(&catalog, "a").unwrap();
    assert_eq!(found.cid, "last");
    assert_eq!(found.sector_size, 3);
    assert_eq!(get_parameter_data(&catalog, "b").unwrap().cid, "b");
}

#[test]
fn from_entries_of_nothing_is_empty() {
    let catalog = ParameterCatalog::from_entries(3, &Vec::new());
    assert_eq!(catalog.version(), 3);
    assert!(get_parameter_data(&catalog, "a").is_none());
}

#[test]
fn clone_of_a_record_keeps_its_fields() {
    let source = record("cid", "digest", 77);
    let copy = source.clone();
    assert_eq!(copy.cid, "cid");
    assert_eq!(copy.digest, "digest");
    assert_eq!(copy.sector_size, 77);
}

#[test]
fn lookup_in_a_catalog_of_published_records() {
    let entries = vec![
        (
            "v28-proof-of-spacetime-fallback-merkletree-poseidon_hasher-8-0-0-0170db1f394b35d995252228ee359194b13199d259380541dc529fb0099096b0.params".to_string(),
            record("QmVxjFRyhmyQaZEtCh7nk2abc7LhFkzhnRX4rcHqCCpikR", "7610b9f82bfc88405b7a832b651ce2f6", 2048),
        ),
        (
            "v28-proof-of-spacetime-fallback-merkletree-poseidon_hasher-8-0-0-0170db1f394b35d995252228ee359194b13199d259380541dc529fb0099096b0.vk".to_string(),
            record("QmcS5JZs8X3TdtkEBpHAdUYjdNDqcL7fWQFtQz69mpnu2X", "0e0958009936b9d5e515ec97b8cb792d", 2048),
        ),
        (
            "v28-proof-of-spacetime-fallback-merkletree-poseidon_hasher-8-0-0-0cfb4f178bbb71cf2ecfcd42accce558b27199ab4fb59cb78f2483fe21ef36d9.params".to_string(),
            record("QmUiRx71uxfmUE8V3H9sWAsAXoM88KR4eo1ByvvcFNeTLR", "1a7d4a9c8a502a497ed92a54366af33f", 536870912),
        ),
    ];
    let catalog = ParameterCatalog::from_entries(28, &entries);
    let found = get_parameter_data(
        &catalog,
        "proof-of-spacetime-fallback-merkletree-poseidon_hasher-8-0-0-0170db1f394b35d995252228ee359194b13199d259380541dc529fb0099096b0",
    )
    .unwrap();
    assert_eq!(found.cid, "QmVxjFRyhmyQaZEtCh7nk2abc7LhFkzhnRX4rcHqCCpikR");
    assert_eq!(found.digest, "7610b9f82bfc88405b7a832b651ce2f6");
    assert_eq!(found.sector_size, 2048);
    let found = get_parameter_data(
        &catalog,
        "proof-of-spacetime-fallback-merkletree-poseidon_hasher-8-0-0-0cfb4f178bbb71cf2ecfcd42accce558b27199ab4fb59cb78f2483fe21ef36d9",
    )
    .unwrap();
    assert_eq!(found.sector_size, 536870912);
    assert!(get_parameter_data(
        &catalog,
        "proof-of-spacetime-fallback-merkletree-poseidon_hasher-8-0-0-0000000000000000000000000000000000000000000000000000000000000000",
    )
    .is_none());
    let other_version = ParameterCatalog::from_entries(27, &entries);
    assert!(get_parameter_data(
        &other_version,
        "proof-of-spacetime-fallback-merkletree-poseidon_hasher-8-0-0-0170db1f394b35d995252228ee359194b13199d259380541dc529fb0099096b0",
    )
    .is_none());
}

#[test]
fn len_counts_the_keys() {
    let mut catalog = ParameterCatalog::new(27);
    assert_eq!(catalog.len(), 0);
    catalog.insert("v27-a.params".to_string(), record("a", "d", 1));
    catalog.insert("v27-b.params".to_string(), record("b", "d", 2));
    assert_eq!(catalog.len(), 2);
    catalog.insert("v27-a.params".to_string(), record("a2", "d", 3));
    assert_eq!(catalog.len(), 2);
}
