use second_brain::secrets::{DatabaseCredentials, SecretCache};

#[test]
fn cache_fills_on_miss_and_clears_on_rotation() {
    let mut cache = SecretCache::new();
    assert!(cache.lookup("db-secret").is_none());

    cache.insert("db-secret".to_string(), "opaque-payload".to_string());
    assert_eq!(cache.lookup("db-secret").map(|s| s.as_str()), Some("opaque-payload"));
    // Other keys are untouched.
    assert!(cache.lookup("other-secret").is_none());

    cache.insert("other-secret".to_string(), "second-payload".to_string());
    assert_eq!(cache.lookup("db-secret").map(|s| s.as_str()), Some("opaque-payload"));
    assert_eq!(cache.lookup("other-secret").map(|s| s.as_str()), Some("second-payload"));

    cache.clear();
    assert!(cache.lookup("db-secret").is_none());
    assert!(cache.lookup("other-secret").is_none());
}

#[test]
fn credentials_hold_their_fields() {
    let creds = DatabaseCredentials {
        username: "admin".to_string(),
        password: "SECRET-REDACTED".to_string(),
        host: Some("db.example.com".to_string()),
        port: Some(5432),
        dbname: Some("mydb".to_string()),
    };
    assert_eq!(creds.username, "admin");
    assert_eq!(creds.host.as_deref(), Some("db.example.com"));
}
