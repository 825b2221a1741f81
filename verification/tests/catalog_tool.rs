use dosio::catalog::{build_catalog, io_list, normalize_name, sort_dedup, str_lt};
use dosio::kind::all_kinds;

#[test]
fn kind_table_is_the_sorted_deduplicated_curated_list() {
    let names: Vec<String> = all_kinds().iter().map(|k| k.name().to_string()).collect();
    assert_eq!(names, build_catalog(Vec::new()));
}

#[test]
fn normalize_maps_snake_case_to_capitalized_concatenation() {
    assert_eq!(normalize_name("oss_m1_lcl"), "OssM1Lcl");
}

#[test]
fn normalize_handles_single_segment_and_digits() {
    assert_eq!(normalize_name("pssn"), "Pssn");
    assert_eq!(normalize_name("m1_actuators_segment_1"), "M1ActuatorsSegment1");
}

#[test]
fn normalize_skips_empty_segments() {
    assert_eq!(normalize_name("a__b"), "AB");
    assert_eq!(normalize_name("_lead_and_trail_"), "LeadAndTrail");
    assert_eq!(normalize_name(""), "");
}

#[test]
fn normalize_leaves_non_lowercase_heads_alone() {
    assert_eq!(normalize_name("OSS_az_drive"), "OSSAzDrive");
    assert_eq!(normalize_name("m2_pos_FB"), "M2PosFB");
}

#[test]
fn io_list_is_the_curated_list_with_duplicates() {
    let names = io_list();
    assert_eq!(names.len(), 69);
    assert_eq!(names[0], "OSSTopEnd6F");
    assert_eq!(names[names.len() - 1], "M1modes");
    assert_eq!(names.iter().filter(|n| **n == "M1HPLC").count(), 2);
    assert_eq!(names.iter().filter(|n| **n == "TTcmd").count(), 2);
}

#[test]
fn sort_dedup_sorts_and_removes_duplicates() {
    let names = vec![
        "TTcmd".to_string(),
        "Pssn".to_string(),
        "TTcmd".to_string(),
        "M1HPLC".to_string(),
    ];
    let r = sort_dedup(names);
    assert_eq!(r, vec!["M1HPLC", "Pssn", "TTcmd"]);
}

#[test]
fn sort_dedup_orders_by_code_point() {
    let names = vec![
        "M1modes".to_string(),
        "M2posFB".to_string(),
        "MCM2RB6F".to_string(),
        "M1S1ACTF".to_string(),
    ];
    let r = sort_dedup(names);
    assert_eq!(r, vec!["M1S1ACTF", "M1modes", "M2posFB", "MCM2RB6F"]);
}

#[test]
fn str_lt_is_strict_lexicographic_by_code_point() {
    assert!(str_lt("M1", "M1a"));
    assert!(!str_lt("M1a", "M1"));
    assert!(!str_lt("M1", "M1"));
    assert!(str_lt("M1ACTF", "M1modes"));
    assert!(str_lt("", "A"));
}

#[test]
fn build_catalog_of_curated_list_alone_has_67_kinds() {
    let r = build_catalog(Vec::new());
    assert_eq!(r.len(), 67);
    assert_eq!(r[0], "HPFcmd");
    assert_eq!(r[r.len() - 1], "TTcmd");
    assert_eq!(r.iter().filter(|n| *n == "M1HPLC").count(), 1);
    assert!(r.iter().any(|n| n == "Pssn"));
    for w in r.windows(2) {
        assert!(str_lt(&w[0], &w[1]));
    }
}

#[test]
fn build_catalog_merges_discovered_names() {
    let discovered = vec![normalize_name("oss_m1_lcl"), normalize_name("mc_m2_lcl_6d")];
    let r = build_catalog(discovered);
    assert_eq!(r.len(), 69);
    assert!(r.iter().any(|n| n == "OssM1Lcl"));
    assert!(r.iter().any(|n| n == "McM2Lcl6d"));
}

#[test]
fn build_catalog_drops_discovered_duplicates_of_curated_names() {
    let discovered = vec!["Pssn".to_string(), "Extra".to_string()];
    let r = build_catalog(discovered);
    assert_eq!(r.len(), 68);
    assert_eq!(r.iter().filter(|n| *n == "Pssn").count(), 1);
}
