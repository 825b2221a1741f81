use dosio::ceo::CfdDataBase;

#[test]
fn cfd_database_default_is_the_baseline() {
    let db = CfdDataBase::default();
    assert_eq!(db.region(), "us-west-2");
    assert_eq!(db.bucket(), "gmto.modeling");
    assert_eq!(db.path(), "Baseline2020");
}

#[test]
fn cfd_database_new_keeps_its_coordinates() {
    let db = CfdDataBase::new(
        "eu-central-1".to_string(),
        "other.bucket".to_string(),
        "Baseline2025".to_string(),
    );
    assert_eq!(db.region(), "eu-central-1");
    assert_eq!(db.bucket(), "other.bucket");
    assert_eq!(db.path(), "Baseline2025");
}
