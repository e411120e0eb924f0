use health_check::auth::{authorize, AuthError, AuthOutcome};

fn s(text: &str) -> Option<String> {
    Some(text.to_string())
}

#[test]
fn admits_any_request_when_no_secret_is_configured() {
    assert_eq!(authorize(&None, &None), AuthOutcome::Admitted);
    assert_eq!(authorize(&None, &s("anything")), AuthOutcome::Admitted);
    assert_eq!(authorize(&None, &s("")), AuthOutcome::Admitted);
}

#[test]
fn admits_any_request_when_secret_is_empty() {
    assert_eq!(authorize(&s(""), &None), AuthOutcome::Admitted);
    assert_eq!(authorize(&s(""), &s("whatever")), AuthOutcome::Admitted);
}

#[test]
fn rejects_mismatching_header_as_invalid() {
    assert_eq!(
        authorize(&s("abc"), &s("xyz")),
        AuthOutcome::Rejected(AuthError::Invalid)
    );
}

#[test]
fn rejects_absent_header_as_missing() {
    assert_eq!(
        authorize(&s("abc"), &None),
        AuthOutcome::Rejected(AuthError::Missing)
    );
}

#[test]
fn admits_matching_header() {
    assert_eq!(authorize(&s("abc"), &s("abc")), AuthOutcome::Admitted);
}

#[test]
fn comparison_is_case_sensitive_and_exact() {
    assert_eq!(
        authorize(&s("abc"), &s("ABC")),
        AuthOutcome::Rejected(AuthError::Invalid)
    );
    assert_eq!(
        authorize(&s("abc"), &s("abc ")),
        AuthOutcome::Rejected(AuthError::Invalid)
    );
    assert_eq!(
        authorize(&s("abc"), &s("")),
        AuthOutcome::Rejected(AuthError::Invalid)
    );
}
