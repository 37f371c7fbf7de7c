use deployer::config::DepConfig;
use deployer::context::{rsync_args, BuildContext, Cmd};
use deployer::dockerfile::DockerContainer;
use deployer::manifest::{ComposeDoc, FieldValue, ServiceEntry, TopValue};
use deployer::pipeline::Pipeline;
use deployer::version::resolve_version;

fn config(build: Option<&str>, extra: Vec<&str>) -> DepConfig {
    DepConfig {
        name: "myapp".to_string(),
        server: "deploy-host".to_string(),
        registry: "reg.example.com".to_string(),
        additional_files: if extra.is_empty() {
            None
        } else {
            Some(extra.into_iter().map(|s| s.to_string()).collect())
        },
        build: build.map(|s| s.to_string()),
    }
}

fn container(name: &str, dir: &str) -> DockerContainer {
    DockerContainer {
        name: name.to_string(),
        build_dir: dir.to_string(),
        dockerfile: None,
        target: None,
    }
}

fn doc_with_services(services: Vec<ServiceEntry>) -> ComposeDoc {
    ComposeDoc { entries: vec![("services".to_string(), TopValue::Services(services))] }
}

fn buildable(name: &str, dir: &str) -> ServiceEntry {
    ServiceEntry {
        name: name.to_string(),
        fields: vec![("build".to_string(), FieldValue::Str(dir.to_string()))],
    }
}

fn args_of(cmd: &Cmd) -> Vec<String> {
    match cmd {
        Cmd::Exec(e) => e.args.clone(),
        _ => panic!("expected a program command"),
    }
}

fn program_of(cmd: &Cmd) -> String {
    match cmd {
        Cmd::Exec(e) => e.program.clone(),
        _ => panic!("expected a program command"),
    }
}

#[test]
fn version_is_fixed_for_identical_state() {
    let a = resolve_version("2024-01-15", "abc1234");
    let b = resolve_version("2024-01-15", "abc1234");
    assert_eq!(a, b);
    assert_eq!(a, "2024-01-15-abc1234");
}

#[test]
fn image_reference_has_registry_name_and_version() {
    let ctx = BuildContext::new(
        "v7".to_string(),
        config(None, vec![]),
        false,
        vec![container("api", "./api")],
    );
    let img = ctx.image(&ctx.containers[0]);
    assert_eq!(img, "reg.example.com/api:v7");
}

#[test]
fn remote_dir_is_server_colon_name() {
    let ctx = BuildContext::new("v1".to_string(), config(None, vec![]), false, vec![]);
    assert_eq!(ctx.remote_dir(), "deploy-host:myapp");
}

#[test]
fn build_command_arguments_are_exact() {
    let ctx = BuildContext::new(
        "v1".to_string(),
        config(None, vec![]),
        true,
        vec![DockerContainer {
            name: "api".to_string(),
            build_dir: "./api".to_string(),
            dockerfile: Some("Dockerfile.api".to_string()),
            target: Some("release".to_string()),
        }],
    );
    let cmd = ctx.build(&ctx.containers[0]);
    assert_eq!(program_of(&cmd), "docker");
    assert_eq!(
        args_of(&cmd),
        vec![
            "build",
            "--build-arg",
            "VERSION=v1",
            "--pull",
            "./api",
            "-f",
            "Dockerfile.api",
            "--target",
            "release",
            "-t",
            "reg.example.com/api:v1",
        ]
    );
}

#[test]
fn build_command_without_flags_is_minimal() {
    let ctx = BuildContext::new(
        "v1".to_string(),
        config(None, vec![]),
        false,
        vec![container("api", "./api")],
    );
    let cmd = ctx.build(&ctx.containers[0]);
    assert_eq!(
        args_of(&cmd),
        vec!["build", "--build-arg", "VERSION=v1", "./api", "-t", "reg.example.com/api:v1"]
    );
}

#[test]
fn build_plan_prefixes_script_and_keeps_catalog_order() {
    let ctx = BuildContext::new(
        "v1".to_string(),
        config(Some("make generate"), vec![]),
        false,
        vec![container("api", "./api"), container("worker", "./worker")],
    );
    let plan = ctx.build_all();
    assert_eq!(plan.len(), 3);
    match &plan[0] {
        Cmd::Script(t) => {
            assert_eq!(t, "set -o errexit\nset -o nounset\nset -o pipefail\nmake generate");
        },
        _ => panic!("expected the script step first"),
    }
    assert_eq!(args_of(&plan[1])[3], "./api");
    assert_eq!(args_of(&plan[2])[3], "./worker");
}

#[test]
fn push_plan_rebuilds_then_pushes_each_image() {
    let ctx = BuildContext::new(
        "v1".to_string(),
        config(None, vec![]),
        false,
        vec![container("api", "./api"), container("worker", "./worker")],
    );
    let plan = ctx.push_containers();
    assert_eq!(plan.len(), 4);
    assert_eq!(args_of(&plan[0])[0], "build");
    assert_eq!(args_of(&plan[1])[0], "build");
    assert_eq!(args_of(&plan[2]), vec!["push", "reg.example.com/api:v1"]);
    assert_eq!(args_of(&plan[3]), vec!["push", "reg.example.com/worker:v1"]);
}

#[test]
fn push_files_plans_only_the_transfer() {
    let ctx = BuildContext::new(
        "v1".to_string(),
        config(None, vec!["extra.env"]),
        false,
        vec![container("api", "./api")],
    );
    let doc = doc_with_services(vec![buildable("api", "./api")]);
    let cmds = ctx.push_files(doc).unwrap();
    assert_eq!(cmds.len(), 1);
    match &cmds[0] {
        Cmd::Transfer(t) => {
            assert_eq!(t.dest, "deploy-host:myapp");
            assert_eq!(t.extra, vec!["extra.env".to_string()]);
        },
        _ => panic!("the transfer-only plan must hold no build or push"),
    }
}

#[test]
fn deploy_plan_ends_with_remote_activation() {
    let ctx = BuildContext::new(
        "v1".to_string(),
        config(None, vec![]),
        true,
        vec![container("api", "./api")],
    );
    let doc = doc_with_services(vec![buildable("api", "./api")]);
    let plan = ctx.deploy(doc).unwrap();
    // build, push, transfer, remote pull, remote activation
    assert_eq!(plan.len(), 5);
    assert_eq!(program_of(&plan[3]), "ssh");
    assert_eq!(
        args_of(&plan[3]),
        vec!["deploy-host", "cd myapp && docker compose pull"]
    );
    assert_eq!(
        args_of(&plan[4]),
        vec!["deploy-host", "cd myapp && docker compose up -d"]
    );
}

#[test]
fn deploy_plan_without_pull_skips_remote_pull() {
    let ctx = BuildContext::new(
        "v1".to_string(),
        config(None, vec![]),
        false,
        vec![container("api", "./api")],
    );
    let doc = doc_with_services(vec![buildable("api", "./api")]);
    let plan = ctx.deploy(doc).unwrap();
    assert_eq!(plan.len(), 4);
    assert_eq!(
        args_of(&plan[3]),
        vec!["deploy-host", "cd myapp && docker compose up -d"]
    );
}

#[test]
fn failed_build_short_circuits_the_pipeline() {
    let ctx = BuildContext::new(
        "v1".to_string(),
        config(None, vec![]),
        false,
        vec![container("api", "./api"), container("worker", "./worker")],
    );
    let doc = doc_with_services(vec![buildable("api", "./api"), buildable("worker", "./worker")]);
    let plan = ctx.push(doc).unwrap();
    let mut p = Pipeline::new(plan);
    {
        let first = p.current().expect("a first command");
        assert_eq!(args_of(first)[0], "build");
    }
    p.report(false);
    assert!(p.has_failed());
    assert!(p.current().is_none());
}

#[test]
fn successful_run_walks_the_whole_plan() {
    let ctx = BuildContext::new(
        "v1".to_string(),
        config(None, vec![]),
        false,
        vec![container("api", "./api")],
    );
    let doc = doc_with_services(vec![buildable("api", "./api")]);
    let plan = ctx.push(doc).unwrap();
    let total = plan.len();
    let mut p = Pipeline::new(plan);
    let mut steps = 0;
    while p.current().is_some() {
        p.report(true);
        steps += 1;
    }
    assert_eq!(steps, total);
    assert!(!p.has_failed());
}

#[test]
fn rsync_arguments_are_exact() {
    let args = rsync_args(
        "/tmp/stage",
        &vec!["extra.env".to_string(), "notes.md".to_string()],
        &"deploy-host:myapp".to_string(),
    );
    assert_eq!(
        args,
        vec![
            "--verbose",
            "--archive",
            "-h",
            "--progress",
            "/tmp/stage/",
            "extra.env",
            "notes.md",
            "deploy-host:myapp",
        ]
    );
}
