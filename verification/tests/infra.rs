use lucard::infra::{
    EnvironmentInfra, EnvironmentService, LucardCreateDirsService, LucardEnvironmentService,
    LucardFileReadService, LucardFileRemoveService, LucardInfra,
};
use std::path::PathBuf;
use std::sync::Arc;

#[test]
fn infra_reports_its_restricted_flag() {
    let infra = LucardInfra::new(true, PathBuf::from("/tmp/work"));
    assert!(infra.is_restricted());
    assert_eq!(infra.cwd(), &PathBuf::from("/tmp/work"));
    let infra = LucardInfra::new(false, PathBuf::from("/"));
    assert!(!infra.is_restricted());
}

#[test]
fn environment_service_answers_from_infra() {
    let svc = LucardEnvironmentService::new(Arc::new(LucardInfra::new(true, PathBuf::from("."))));
    assert!(svc.is_restricted());
    let svc = LucardEnvironmentService::new(Arc::new(LucardInfra::new(false, PathBuf::from("."))));
    assert!(!svc.is_restricted());
}

#[test]
fn cloned_infra_keeps_its_settings() {
    let infra = LucardInfra::new(true, PathBuf::from("/x"));
    let copy = infra.clone();
    assert!(copy.is_restricted());
    assert_eq!(copy.cwd(), &PathBuf::from("/x"));
}

#[test]
fn services_can_be_built() {
    let _ = LucardFileReadService::new();
    let _ = LucardFileReadService::default();
    let _ = LucardFileRemoveService::new();
    let _ = LucardFileRemoveService::default();
    let _ = LucardCreateDirsService::default();
}
