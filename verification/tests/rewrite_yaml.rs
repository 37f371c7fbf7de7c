use deployer::config::DepConfig;
use deployer::context::BuildContext;
use deployer::dockerfile::DockerContainer;
use deployer::manifest::{ComposeDoc, FieldValue, ServiceEntry, TopValue};
use deployer::parse::to_docker_file;
use deployer::rewrite::RewriteError;
use serde_yaml::Value;

fn value_to_field(v: Value) -> FieldValue {
    match v {
        Value::String(s) => FieldValue::Str(s),
        Value::Mapping(m) => {
            if m.iter().all(|(k, _)| matches!(k, Value::String(_))) {
                let mut fields = Vec::new();
                for (k, fv) in m {
                    let Value::String(key) = k else { unreachable!() };
                    fields.push((key, value_to_field(fv)));
                }
                FieldValue::Mapping(fields)
            } else {
                FieldValue::Opaque(Value::Mapping(m))
            }
        },
        other => FieldValue::Opaque(other),
    }
}

fn field_to_value(f: FieldValue) -> Value {
    match f {
        FieldValue::Str(s) => Value::String(s),
        FieldValue::Mapping(fields) => {
            let mut m = serde_yaml::Mapping::new();
            for (k, v) in fields {
                m.insert(Value::String(k), field_to_value(v));
            }
            Value::Mapping(m)
        },
        FieldValue::Opaque(v) => v,
    }
}

fn value_to_doc(v: Value) -> ComposeDoc {
    let Value::Mapping(m) = v else { panic!("the manifest root must be a mapping") };
    let mut entries = Vec::new();
    for (k, val) in m {
        let Value::String(key) = k else { panic!("top-level keys must be strings") };
        if key == "services" {
            if let Value::Mapping(sm) = val {
                let mut services = Vec::new();
                for (sk, sv) in sm {
                    let Value::String(name) = sk else { panic!("service names must be strings") };
                    let Value::Mapping(fm) = sv else { panic!("a service must be a mapping") };
                    let mut fields = Vec::new();
                    for (fk, fv) in fm {
                        let Value::String(fkey) = fk else { panic!("field keys must be strings") };
                        fields.push((fkey, value_to_field(fv)));
                    }
                    services.push(ServiceEntry { name, fields });
                }
                entries.push((key, TopValue::Services(services)));
            } else {
                entries.push((key, TopValue::Other(val)));
            }
        } else {
            entries.push((key, TopValue::Other(val)));
        }
    }
    ComposeDoc { entries }
}

fn doc_to_value(doc: ComposeDoc) -> Value {
    let mut m = serde_yaml::Mapping::new();
    for (key, top) in doc.entries {
        let v = match top {
            TopValue::Services(services) => {
                let mut sm = serde_yaml::Mapping::new();
                for e in services {
                    let mut fm = serde_yaml::Mapping::new();
                    for (fk, fv) in e.fields {
                        fm.insert(Value::String(fk), field_to_value(fv));
                    }
                    sm.insert(Value::String(e.name), Value::Mapping(fm));
                }
                Value::Mapping(sm)
            },
            TopValue::Other(v) => v,
        };
        m.insert(Value::String(key), v);
    }
    Value::Mapping(m)
}

fn context_for(containers: Vec<DockerContainer>) -> BuildContext {
    BuildContext::new(
        "v9".to_string(),
        DepConfig {
            name: "myapp".to_string(),
            server: "deploy-host".to_string(),
            registry: "reg.example.com".to_string(),
            additional_files: None,
            build: None,
        },
        false,
        containers,
    )
}

const MANIFEST: &str = "\
version: \"3.9\"
services:
  api:
    build: ./api
    restart: always
    ports:
      - \"8080:80\"
  cache:
    image: redis:7
    restart: always
volumes:
  data: {}
";

#[test]
fn rewrite_replaces_build_with_image_and_keeps_the_rest() {
    let root: Value = serde_yaml::from_str(MANIFEST).unwrap();
    let doc = value_to_doc(root.clone());
    let (file, skipped) = to_docker_file(match &doc.entries[1].1 {
        TopValue::Services(s) => s,
        _ => panic!("services section expected"),
    });
    assert!(skipped.is_empty());
    let catalog = DockerContainer::from_docker_file(file);
    assert_eq!(catalog.len(), 1);
    assert_eq!(catalog[0].name, "api");
    assert_eq!(catalog[0].build_dir, "./api");

    let ctx = context_for(catalog);
    let rewritten = ctx.transform_docker_compose(doc).unwrap();
    let out = doc_to_value(rewritten);

    // The api service now references the built image and has no build field.
    let services = out.get("services").unwrap();
    let api = services.get("api").unwrap();
    assert_eq!(api.get("image"), Some(&Value::String("reg.example.com/api:v9".to_string())));
    assert!(api.get("build").is_none());
    assert_eq!(api.get("restart"), Some(&Value::String("always".to_string())));
    // The image field stands where the build field stood.
    let api_keys: Vec<&str> = api
        .as_mapping()
        .unwrap()
        .iter()
        .map(|(k, _)| k.as_str().unwrap())
        .collect();
    assert_eq!(api_keys, vec!["image", "restart", "ports"]);

    // Every untouched part is byte-identical.
    let cache_before = serde_yaml::to_string(root.get("services").unwrap().get("cache").unwrap())
        .unwrap();
    let cache_after = serde_yaml::to_string(services.get("cache").unwrap()).unwrap();
    assert_eq!(cache_before, cache_after);
    let volumes_before = serde_yaml::to_string(root.get("volumes").unwrap()).unwrap();
    let volumes_after = serde_yaml::to_string(out.get("volumes").unwrap()).unwrap();
    assert_eq!(volumes_before, volumes_after);
    assert_eq!(
        serde_yaml::to_string(root.get("version").unwrap()).unwrap(),
        serde_yaml::to_string(out.get("version").unwrap()).unwrap()
    );
}

#[test]
fn rewrite_replaces_existing_image_in_place() {
    let text = "\
services:
  api:
    image: old/api:stale
    build: ./api
";
    let doc = value_to_doc(serde_yaml::from_str(text).unwrap());
    let ctx = context_for(vec![DockerContainer {
        name: "api".to_string(),
        build_dir: "./api".to_string(),
        dockerfile: None,
        target: None,
    }]);
    let out = doc_to_value(ctx.transform_docker_compose(doc).unwrap());
    let api = out.get("services").unwrap().get("api").unwrap();
    let keys: Vec<&str> =
        api.as_mapping().unwrap().iter().map(|(k, _)| k.as_str().unwrap()).collect();
    assert_eq!(keys, vec!["image"]);
    assert_eq!(api.get("image"), Some(&Value::String("reg.example.com/api:v9".to_string())));
}

#[test]
fn rewrite_without_services_section_fails() {
    let doc = value_to_doc(serde_yaml::from_str("volumes:\n  data: {}\n").unwrap());
    let ctx = context_for(vec![]);
    match ctx.transform_docker_compose(doc) {
        Err(RewriteError::NoServices) => {},
        _ => panic!("a manifest without services must be refused"),
    }
}

#[test]
fn rewrite_with_unresolved_build_fails() {
    let doc = value_to_doc(
        serde_yaml::from_str("services:\n  api:\n    build: ./api\n").unwrap(),
    );
    let ctx = context_for(vec![]);
    match ctx.transform_docker_compose(doc) {
        Err(RewriteError::MissingImage(name)) => assert_eq!(name, "api"),
        _ => panic!("a buildable service without a catalog entry must be refused"),
    }
}

#[test]
fn structured_build_and_bad_shape_parse() {
    let text = "\
services:
  api:
    build:
      context: ./api
      dockerfile: Dockerfile.api
      target: release
    restart: always
  broken:
    build: 17
    restart: always
  plain:
    image: redis:7
";
    let doc = value_to_doc(serde_yaml::from_str(text).unwrap());
    let services = match &doc.entries[0].1 {
        TopValue::Services(s) => s,
        _ => panic!("services section expected"),
    };
    let (file, skipped) = to_docker_file(services);
    assert_eq!(skipped, vec!["broken".to_string()]);
    let catalog = DockerContainer::from_docker_file(file);
    assert_eq!(catalog.len(), 1);
    assert_eq!(catalog[0].name, "api");
    assert_eq!(catalog[0].build_dir, "./api");
    assert_eq!(catalog[0].dockerfile, Some("Dockerfile.api".to_string()));
    assert_eq!(catalog[0].target, Some("release".to_string()));
}
