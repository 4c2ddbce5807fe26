#[test]
fn test_parse_last_modified_value() {
    let last_modified = "Tue, 30 Sep 2025 22:55:17 GMT".to_string();
    let parsed = chrono::DateTime::parse_from_rfc2822(&last_modified).unwrap();
    println!("{}", parsed.to_utc().to_rfc3339());
    assert_eq!(parsed.timestamp(), 1759272917);
}
