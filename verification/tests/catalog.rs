use deployer::dockerfile::{
    DockerBuild, DockerBuildAdvanced, DockerContainer, DockerFile, DockerService, RestartDiag,
};

fn svc(build: Option<DockerBuild>, restart: Option<&str>) -> DockerService {
    DockerService { build, restart: restart.map(|s| s.to_string()) }
}

fn file(services: Vec<(&str, DockerService)>) -> DockerFile {
    DockerFile { services: services.into_iter().map(|(n, s)| (n.to_string(), s)).collect() }
}

#[test]
fn catalog_counts_buildable_services() {
    let f = file(vec![
        ("cache", svc(None, Some("always"))),
        ("api", svc(Some(DockerBuild::Str("./api".to_string())), Some("always"))),
        (
            "worker",
            svc(
                Some(DockerBuild::Advanced(DockerBuildAdvanced {
                    context: "./worker".to_string(),
                    dockerfile: Some("Dockerfile.worker".to_string()),
                    target: Some("release".to_string()),
                })),
                Some("unless-stopped"),
            ),
        ),
    ]);
    let catalog = DockerContainer::from_docker_file(f);
    assert_eq!(catalog.len(), 2);
    assert_eq!(catalog[0].name, "api");
    assert_eq!(catalog[0].build_dir, "./api");
    assert_eq!(catalog[0].dockerfile, None);
    assert_eq!(catalog[0].target, None);
    assert_eq!(catalog[1].name, "worker");
    assert_eq!(catalog[1].build_dir, "./worker");
    assert_eq!(catalog[1].dockerfile, Some("Dockerfile.worker".to_string()));
    assert_eq!(catalog[1].target, Some("release".to_string()));
}

#[test]
fn catalog_is_sorted_by_name() {
    let f = file(vec![
        ("zeta", svc(Some(DockerBuild::Str("./z".to_string())), Some("always"))),
        ("alpha", svc(Some(DockerBuild::Str("./a".to_string())), Some("always"))),
        ("midway", svc(Some(DockerBuild::Str("./m".to_string())), Some("always"))),
    ]);
    let catalog = DockerContainer::from_docker_file(f);
    let names: Vec<&str> = catalog.iter().map(|c| c.name.as_str()).collect();
    assert_eq!(names, vec!["alpha", "midway", "zeta"]);
}

#[test]
fn catalog_of_empty_manifest_is_empty() {
    let f = file(vec![]);
    let catalog = DockerContainer::from_docker_file(f);
    assert!(catalog.is_empty());
}

#[test]
fn nonstandard_restart_warns_but_keeps_service() {
    let f = file(vec![
        ("api", svc(Some(DockerBuild::Str("./api".to_string())), Some("on-failure"))),
        ("cache", svc(None, None)),
    ]);
    let diags = deployer::dockerfile::restart_diagnostics(&f);
    assert_eq!(diags.len(), 1);
    match &diags[0] {
        RestartDiag::NonStandardRestart { name, value } => {
            assert_eq!(name, "api");
            assert_eq!(value, "on-failure");
        },
        _ => panic!("expected a non-standard restart diagnostic"),
    }
    let catalog = DockerContainer::from_docker_file(f);
    assert_eq!(catalog.len(), 1);
    assert_eq!(catalog[0].name, "api");
}

#[test]
fn missing_restart_warns_only_for_buildable_services() {
    let f = file(vec![
        ("api", svc(Some(DockerBuild::Str("./api".to_string())), None)),
        ("cache", svc(None, None)),
    ]);
    let diags = deployer::dockerfile::restart_diagnostics(&f);
    assert_eq!(diags.len(), 1);
    match &diags[0] {
        RestartDiag::MissingRestart { name } => assert_eq!(name, "api"),
        _ => panic!("expected a missing restart diagnostic"),
    }
}

#[test]
fn accepted_restart_values_give_no_diagnostic() {
    let f = file(vec![
        ("api", svc(Some(DockerBuild::Str("./api".to_string())), Some("always"))),
        ("worker", svc(Some(DockerBuild::Str("./w".to_string())), Some("unless-stopped"))),
    ]);
    let diags = deployer::dockerfile::restart_diagnostics(&f);
    assert!(diags.is_empty());
}
