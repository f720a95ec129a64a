use hypergate::kv::{find_entry, Entry};
use hypergate::merge::{ApiDocument, OpenApiMerger};

fn doc(server: &str, paths: Vec<(&str, &str)>, schemas: Vec<(&str, &str)>) -> ApiDocument {
    ApiDocument {
        server_urls: vec![server.to_string()],
        paths: paths
            .into_iter()
            .map(|(k, v)| Entry { key: k.to_string(), value: v.to_string() })
            .collect(),
        schemas: schemas
            .into_iter()
            .map(|(k, v)| Entry { key: k.to_string(), value: v.to_string() })
            .collect(),
        security_schemes: Vec::new(),
    }
}

#[test]
fn merger_starts_empty_with_its_settings() {
    let m = OpenApiMerger::new("gw.example:8080", "specs/", "out/openapi.yaml");
    assert_eq!(m.url, "gw.example:8080");
    assert_eq!(m.base_path, "specs/");
    assert_eq!(m.output_path, "out/openapi.yaml");
    assert!(m.specs.is_empty());
}

#[test]
fn merged_document_carries_fixed_fields_and_gateway_server() {
    let m = OpenApiMerger::new("gw.example:8080", "specs/", "out/openapi.yaml");
    let merged = m.merge().unwrap();
    assert_eq!(merged.openapi, "3.0.0");
    assert_eq!(merged.title, "API Gateway Documentation");
    assert_eq!(merged.version, "1.0.0");
    assert_eq!(merged.description, "Automatically merged API documentation");
    assert_eq!(merged.server_url, "http://gw.example:8080");
    assert!(merged.paths.is_empty());
}

#[test]
fn distinct_prefixes_mount_paths_side_by_side() {
    let mut m = OpenApiMerger::new("gw.example:8080", "specs/", "out/openapi.yaml");
    m.add_document(
        "svc-a".to_string(),
        doc("http://svc-a:3000/a", vec![("/items", "{get: {responses: {}}}")], vec![]),
    );
    m.add_document(
        "svc-b".to_string(),
        doc("http://svc-b:3000/b/", vec![("/items", "{post: {responses: {}}}")], vec![]),
    );
    let merged = m.merge().unwrap();
    assert_eq!(merged.paths.len(), 2);
    assert_eq!(
        find_entry(&merged.paths, "/a/items"),
        Some(&"{get: {responses: {}}}".to_string())
    );
    assert_eq!(
        find_entry(&merged.paths, "/b/items"),
        Some(&"{post: {responses: {}}}".to_string())
    );
}

#[test]
fn colliding_component_names_keep_the_last_merged_definition() {
    // The collision is resolved silently in favor of the document merged
    // last: a known property of the merge, not a fault.
    let mut m = OpenApiMerger::new("gw.example:8080", "specs/", "out/openapi.yaml");
    m.add_document(
        "svc-a".to_string(),
        doc("http://svc-a:3000/a", vec![], vec![("Error", "{type: string}")]),
    );
    m.add_document(
        "svc-b".to_string(),
        doc("http://svc-b:3000/b", vec![], vec![("Error", "{type: integer}")]),
    );
    let merged = m.merge().unwrap();
    let occurrences = merged.schemas.iter().filter(|e| e.key == "Error").count();
    assert_eq!(occurrences, 1);
    assert_eq!(find_entry(&merged.schemas, "Error"), Some(&"{type: integer}".to_string()));
}

#[test]
fn merge_fails_on_a_document_without_a_usable_server() {
    let mut m = OpenApiMerger::new("gw.example:8080", "specs/", "out/openapi.yaml");
    m.add_document(
        "good".to_string(),
        doc("http://good:3000/g", vec![("/x", "{}")], vec![]),
    );
    m.add_document(
        "broken".to_string(),
        ApiDocument {
            server_urls: Vec::new(),
            paths: Vec::new(),
            schemas: Vec::new(),
            security_schemes: Vec::new(),
        },
    );
    let err = m.merge().unwrap_err();
    assert_eq!(err.service, "broken");
    assert_eq!(err.message(), "No usable server URL in document: broken");
}

#[test]
fn merge_fails_on_an_unparseable_server_url() {
    let mut m = OpenApiMerger::new("gw.example:8080", "specs/", "out/openapi.yaml");
    m.add_document(
        "odd".to_string(),
        doc("http://bad host/x", vec![("/x", "{}")], vec![]),
    );
    let err = m.merge().unwrap_err();
    assert_eq!(err.service, "odd");
}

#[test]
fn reloading_a_service_replaces_its_document() {
    let mut m = OpenApiMerger::new("gw.example:8080", "specs/", "out/openapi.yaml");
    m.add_document(
        "users".to_string(),
        doc("http://users:3000/u", vec![("/old", "{}")], vec![]),
    );
    m.add_document(
        "users".to_string(),
        doc("http://users:3000/u", vec![("/new", "{}")], vec![]),
    );
    assert_eq!(m.specs.len(), 1);
    let merged = m.merge().unwrap();
    assert!(find_entry(&merged.paths, "/u/old").is_none());
    assert_eq!(find_entry(&merged.paths, "/u/new"), Some(&"{}".to_string()));
}

#[test]
fn viewer_page_points_at_the_gateway() {
    let m = OpenApiMerger::new("gw.example:8080", "specs/", "out/openapi.yaml");
    let page = m.swagger_ui_html();
    assert!(page.contains("url: 'http://gw.example:8080/doc/openapi.yaml'"));
    assert!(page.contains("SwaggerUIBundle"));
    assert!(page.starts_with("<!DOCTYPE html>"));
}

fn yaml_value(text: &str) -> serde_yaml::Value {
    serde_yaml::from_str(text).unwrap()
}

#[test]
fn serialized_merged_document_reparses_with_the_same_keys() {
    let mut m = OpenApiMerger::new("gw.example:8080", "specs/", "out/openapi.yaml");
    m.add_document(
        "svc-a".to_string(),
        doc(
            "http://svc-a:3000/a",
            vec![("/items", "{get: {responses: {}}}")],
            vec![("Error", "{type: string}")],
        ),
    );
    m.add_document(
        "svc-b".to_string(),
        doc(
            "http://svc-b:3000/b",
            vec![("/items", "{get: {responses: {}}}"), ("/other", "{put: {responses: {}}}")],
            vec![("User", "{type: object}")],
        ),
    );
    let merged = m.merge().unwrap();

    // Serialize the merged document as one YAML tree.
    let mut info = serde_yaml::Mapping::new();
    info.insert("title".into(), merged.title.clone().into());
    info.insert("version".into(), merged.version.clone().into());
    info.insert("description".into(), merged.description.clone().into());
    let mut server = serde_yaml::Mapping::new();
    server.insert("url".into(), merged.server_url.clone().into());
    let mut paths = serde_yaml::Mapping::new();
    for e in &merged.paths {
        paths.insert(e.key.clone().into(), yaml_value(&e.value));
    }
    let mut schemas = serde_yaml::Mapping::new();
    for e in &merged.schemas {
        schemas.insert(e.key.clone().into(), yaml_value(&e.value));
    }
    let mut components = serde_yaml::Mapping::new();
    components.insert("schemas".into(), serde_yaml::Value::Mapping(schemas));
    let mut root = serde_yaml::Mapping::new();
    root.insert("openapi".into(), merged.openapi.clone().into());
    root.insert("info".into(), serde_yaml::Value::Mapping(info));
    root.insert(
        "servers".into(),
        serde_yaml::Value::Sequence(vec![serde_yaml::Value::Mapping(server)]),
    );
    root.insert("paths".into(), serde_yaml::Value::Mapping(paths));
    root.insert("components".into(), serde_yaml::Value::Mapping(components));
    let text = serde_yaml::to_string(&serde_yaml::Value::Mapping(root)).unwrap();

    // Re-parse as a structured document and compare the key sets.
    let parsed: openapiv3::OpenAPI = serde_yaml::from_str(&text).unwrap();
    let mut parsed_paths: Vec<String> = parsed.paths.paths.keys().cloned().collect();
    parsed_paths.sort();
    let mut merged_paths: Vec<String> = merged.paths.iter().map(|e| e.key.clone()).collect();
    merged_paths.sort();
    assert_eq!(parsed_paths, merged_paths);

    let components = parsed.components.unwrap();
    let mut parsed_schemas: Vec<String> = components.schemas.keys().cloned().collect();
    parsed_schemas.sort();
    let mut merged_schemas: Vec<String> = merged.schemas.iter().map(|e| e.key.clone()).collect();
    merged_schemas.sort();
    assert_eq!(parsed_schemas, merged_schemas);
    assert_eq!(parsed.openapi, "3.0.0");
}
