use jwt_gateway::cors::CorsPolicy;

#[test]
fn gateway_cors_policy() {
    let p = CorsPolicy::gateway_default();
    assert!(p.allow_any_origin);
    assert_eq!(p.allowed_methods, vec!["GET".to_string()]);
    assert_eq!(
        p.allowed_headers,
        vec!["authorization".to_string(), "accept".to_string(), "content-type".to_string()]
    );
    assert!(p.supports_credentials);
    assert_eq!(p.max_age_secs, 3600);
}
