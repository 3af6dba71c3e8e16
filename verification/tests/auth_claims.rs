use second_brain::auth::{AuthenticatedUser, CognitoClaims};

#[test]
fn test_parse_family_ids() {
    let claims = CognitoClaims {
        sub: "user-123".to_string(),
        email: Some("test@example.com".to_string()),
        cognito_username: None,
        token_use: "access".to_string(),
        client_id: None,
        iat: 0,
        exp: 0,
        iss: "https://cognito-idp.us-east-1.amazonaws.com/pool-id".to_string(),
        family_ids: Some("family-1, family-2".to_string()),
    };

    let user = AuthenticatedUser::try_from(claims).unwrap();
    assert_eq!(user.family_ids, vec!["family-1", "family-2"]);
}

#[test]
fn missing_family_claim_yields_no_ids() {
    let claims = CognitoClaims {
        sub: "user-9".to_string(),
        email: None,
        cognito_username: Some("fallback-name".to_string()),
        token_use: "id".to_string(),
        client_id: None,
        iat: 1,
        exp: 2,
        iss: "issuer".to_string(),
        family_ids: None,
    };

    let user = AuthenticatedUser::try_from(claims).unwrap();
    assert_eq!(user.user_id, "user-9");
    assert_eq!(user.email, Some("fallback-name".to_string()));
    assert!(user.family_ids.is_empty());
}

#[test]
fn family_ids_are_trimmed_of_surrounding_whitespace() {
    let ids = second_brain::auth::parse_family_ids("  a \t,\nb ,c");
    assert_eq!(ids, vec!["a", "b", "c"]);
}

#[test]
fn empty_family_claim_gives_one_empty_id() {
    let ids = second_brain::auth::parse_family_ids("");
    assert_eq!(ids, vec![""]);
}
