use jwt_gateway::gate::{extract_bearer, validator, GateDecision, GateStep, UNAUTHORIZED};
use jwt_gateway::token::VerifyError;

#[test]
fn missing_header_is_rejected_before_verification() {
    assert_eq!(extract_bearer(None), GateStep::Reject);
}

#[test]
fn bearer_token_is_taken_from_header() {
    assert_eq!(
        extract_bearer(Some("Bearer abc.def.ghi")),
        GateStep::Verify("abc.def.ghi".to_string())
    );
    assert_eq!(extract_bearer(Some("Bearer  ")), GateStep::Verify(" ".to_string()));
}

#[test]
fn malformed_header_is_rejected() {
    assert_eq!(extract_bearer(Some("Basic dXNlcjpwdw==")), GateStep::Reject);
    assert_eq!(extract_bearer(Some("Bearer")), GateStep::Reject);
    assert_eq!(extract_bearer(Some("Bearer ")), GateStep::Reject);
    assert_eq!(extract_bearer(Some("bearer abcdef")), GateStep::Reject);
    assert_eq!(extract_bearer(Some("Bearerabcdef")), GateStep::Reject);
    assert_eq!(extract_bearer(Some("Bearer caf\u{e9}")), GateStep::Reject);
    assert_eq!(extract_bearer(Some("")), GateStep::Reject);
}

#[test]
fn verified_token_is_admitted() {
    assert_eq!(validator(Ok(())), GateDecision::Admit);
    assert_eq!(GateDecision::Admit.reject_status(), None);
}

#[test]
fn every_verification_error_is_one_rejection() {
    for e in [
        VerifyError::MalformedToken,
        VerifyError::FetchFailed,
        VerifyError::KeyNotFound,
        VerifyError::ClaimValidation,
    ] {
        let d = validator(Err(e));
        assert_eq!(d, GateDecision::Reject);
        assert_eq!(d.reject_status(), Some(UNAUTHORIZED));
        assert_eq!(UNAUTHORIZED, 401);
    }
}
