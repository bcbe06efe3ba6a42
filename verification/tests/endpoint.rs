use cobalt_s3::client::{plan_endpoint, EndpointPlan};

#[test]
fn test_endpoint_override() {
    let p = plan_endpoint(Some("http://localhost:4566".to_string()));
    assert!(p.forces_path_style());
    match p {
        EndpointPlan::LocalOverride { uri } => assert_eq!(uri, "http://localhost:4566"),
        EndpointPlan::Standard => panic!("an override must redirect the endpoint"),
    }
}

#[test]
fn test_endpoint_default() {
    let p = plan_endpoint(None);
    assert!(!p.forces_path_style());
    assert!(matches!(p, EndpointPlan::Standard));
}
