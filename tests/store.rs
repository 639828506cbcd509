use callisto::model::{CallistoConfig, Variable, Workspace};
use callisto::store::{
    add_workspace, add_workspace_with_id, create_collection, create_collection_with_id,
    create_environment, create_environment_with_id, create_request, delete_collection,
    delete_environment, delete_request, delete_workspace, empty_config, rename_collection,
    update_environment, update_request, StoreError,
};
use std::collections::HashSet;

fn s(x: &str) -> String {
    x.to_string()
}

fn var(k: &str, v: &str) -> Variable {
    Variable { key: s(k), value: s(v) }
}

fn workspace_names(c: &CallistoConfig) -> Vec<(String, String)> {
    c.workspaces.iter().map(|w: &Workspace| (w.id.clone(), w.name.clone())).collect()
}

fn two_workspaces() -> CallistoConfig {
    let c = add_workspace_with_id(empty_config(), s("w1"), s("First"));
    add_workspace_with_id(c, s("w2"), s("Second"))
}

fn is_id(id: &str) -> bool {
    id.chars().count() == 21
        && id.chars().all(|c| c == '_' || c == '-' || c.is_ascii_alphanumeric())
}

#[test]
fn empty_document_has_version_and_no_entities() {
    let c = empty_config();
    assert_eq!(c.version, "1.0");
    assert!(c.workspaces.is_empty());
    assert!(c.environments.is_empty());
}

#[test]
fn personal_auth_login_scenario() {
    let c = add_workspace(empty_config(), s("Personal"));
    assert_eq!(c.workspaces.len(), 1);
    let ws = c.workspaces[0].id.clone();
    assert!(is_id(&ws));
    let c = create_collection(c, &ws, s("Auth")).unwrap();
    let coll = c.workspaces[0].collections[0].id.clone();
    assert!(is_id(&coll));
    let c = create_request(c, &ws, &coll, s("Login"), s("http"), s("POST"), s("curl ...")).unwrap();
    assert_eq!(c.workspaces.len(), 1);
    assert_eq!(c.workspaces[0].name, "Personal");
    assert_eq!(c.workspaces[0].collections.len(), 1);
    assert_eq!(c.workspaces[0].collections[0].name, "Auth");
    let reqs = &c.workspaces[0].collections[0].requests;
    assert_eq!(reqs.len(), 1);
    assert!(!reqs[0].id.is_empty());
    assert!(is_id(&reqs[0].id));
    assert_eq!(reqs[0].name, "Login");
    assert_eq!(reqs[0].req_type, "http");
    assert_eq!(reqs[0].method, "POST");
    assert_eq!(reqs[0].curl, "curl ...");
}

#[test]
fn delete_missing_workspace_keeps_document() {
    let c = two_workspaces();
    let before = c.clone();
    let c = delete_workspace(c, &s("nope"));
    assert_eq!(c, before);
    assert_eq!(
        workspace_names(&c),
        vec![(s("w1"), s("First")), (s("w2"), s("Second"))]
    );
}

#[test]
fn delete_workspace_keeps_order_of_others() {
    let c = add_workspace_with_id(two_workspaces(), s("w3"), s("Third"));
    let c = delete_workspace(c, &s("w2"));
    assert_eq!(
        workspace_names(&c),
        vec![(s("w1"), s("First")), (s("w3"), s("Third"))]
    );
}

#[test]
fn update_environment_replaces_name_and_shrinks_variables() {
    let vars = vec![var("a", "1"), var("b", "2"), var("c", "3")];
    let c = create_environment_with_id(empty_config(), s("e1"), s("Dev"), vars);
    assert_eq!(c.environments[0].variables.len(), 3);
    let c = update_environment(c, &s("e1"), s("Prod"), vec![var("host", "example.com")]).unwrap();
    assert_eq!(c.environments.len(), 1);
    assert_eq!(c.environments[0].id, "e1");
    assert_eq!(c.environments[0].name, "Prod");
    assert_eq!(c.environments[0].variables.len(), 1);
    assert_eq!(c.environments[0].variables[0].key, "host");
    assert_eq!(c.environments[0].variables[0].value, "example.com");
}

#[test]
fn update_missing_environment_fails() {
    let c = create_environment_with_id(empty_config(), s("e1"), s("Dev"), vec![]);
    let r = update_environment(c, &s("e2"), s("X"), vec![]);
    assert_eq!(r.unwrap_err(), StoreError::EnvironmentNotFound);
}

#[test]
fn delete_missing_environment_keeps_document() {
    let c = create_environment_with_id(empty_config(), s("e1"), s("Dev"), vec![var("k", "v")]);
    let before = c.clone();
    let c = delete_environment(c, &s("zzz"));
    assert_eq!(c, before);
    assert_eq!(c.environments.len(), 1);
    assert_eq!(c.environments[0].id, "e1");
    let c = delete_environment(c, &s("e1"));
    assert!(c.environments.is_empty());
}

#[test]
fn create_environment_assigns_fresh_id() {
    let c = create_environment(empty_config(), s("Dev"), vec![var("k", "v")]);
    assert_eq!(c.environments.len(), 1);
    assert!(is_id(&c.environments[0].id));
    assert_eq!(c.environments[0].name, "Dev");
    assert_eq!(c.environments[0].variables[0].key, "k");
}

#[test]
fn collection_under_missing_workspace_fails() {
    let c = two_workspaces();
    let r = create_collection(c, &s("missing"), s("Auth"));
    assert_eq!(r.unwrap_err(), StoreError::WorkspaceNotFound);
    let r = rename_collection(two_workspaces(), &s("missing"), &s("c"), s("N"));
    assert_eq!(r.unwrap_err(), StoreError::WorkspaceNotFound);
}

#[test]
fn request_under_missing_ancestors_fails() {
    let c = create_collection_with_id(two_workspaces(), &s("w1"), s("c1"), s("Auth")).unwrap();
    let r = create_request(c.clone(), &s("w9"), &s("c1"), s("L"), s("http"), s("GET"), s("x"));
    assert_eq!(r.unwrap_err(), StoreError::WorkspaceNotFound);
    let r = create_request(c.clone(), &s("w1"), &s("c9"), s("L"), s("http"), s("GET"), s("x"));
    assert_eq!(r.unwrap_err(), StoreError::CollectionNotFound);
    let r = update_request(c.clone(), &s("w1"), &s("c1"), &s("r9"), s("L"), s("h"), s("GET"), s("x"));
    assert_eq!(r.unwrap_err(), StoreError::RequestNotFound);
    let r = delete_request(c.clone(), &s("w9"), &s("c1"), &s("r1"));
    assert_eq!(r.unwrap_err(), StoreError::WorkspaceNotFound);
    let r = delete_request(c.clone(), &s("w1"), &s("c9"), &s("r1"));
    assert_eq!(r.unwrap_err(), StoreError::CollectionNotFound);
    let r = delete_collection(c, &s("w9"), &s("c1"));
    assert_eq!(r.unwrap_err(), StoreError::WorkspaceNotFound);
}

#[test]
fn delete_missing_collection_and_request_keep_document() {
    let c = create_collection_with_id(two_workspaces(), &s("w1"), s("c1"), s("Auth")).unwrap();
    let c = create_request(c, &s("w1"), &s("c1"), s("L"), s("http"), s("GET"), s("x")).unwrap();
    let before = c.clone();
    let c = delete_request(c, &s("w1"), &s("c1"), &s("nope")).unwrap();
    assert_eq!(c, before);
    assert_eq!(c.workspaces[0].collections[0].requests.len(), 1);
    let c = delete_collection(c, &s("w1"), &s("nope")).unwrap();
    assert_eq!(c, before);
    assert_eq!(c.workspaces[0].collections.len(), 1);
    assert_eq!(c.workspaces[0].collections[0].id, "c1");
    assert_eq!(c.workspaces.len(), 2);
}

#[test]
fn rename_update_and_delete_nested_entities() {
    let c = create_collection_with_id(two_workspaces(), &s("w2"), s("c1"), s("Auth")).unwrap();
    let c = rename_collection(c, &s("w2"), &s("c1"), s("Login flows")).unwrap();
    assert_eq!(c.workspaces[1].collections[0].name, "Login flows");
    assert_eq!(c.workspaces[1].collections[0].id, "c1");
    let c = create_request(c, &s("w2"), &s("c1"), s("L"), s("http"), s("GET"), s("a")).unwrap();
    let rid = c.workspaces[1].collections[0].requests[0].id.clone();
    let c = update_request(c, &s("w2"), &s("c1"), &rid, s("M"), s("curl"), s("PUT"), s("b")).unwrap();
    let r = &c.workspaces[1].collections[0].requests[0];
    assert_eq!(r.id, rid);
    assert_eq!(r.name, "M");
    assert_eq!(r.req_type, "curl");
    assert_eq!(r.method, "PUT");
    assert_eq!(r.curl, "b");
    let c = delete_request(c, &s("w2"), &s("c1"), &rid).unwrap();
    assert!(c.workspaces[1].collections[0].requests.is_empty());
    let c = delete_collection(c, &s("w2"), &s("c1")).unwrap();
    assert!(c.workspaces[1].collections.is_empty());
    assert!(c.workspaces[0].collections.is_empty());
}

#[test]
fn lookup_takes_first_of_equal_ids() {
    let c = add_workspace_with_id(empty_config(), s("w"), s("A"));
    let c = add_workspace_with_id(c, s("w"), s("B"));
    let c = create_collection_with_id(c, &s("w"), s("c"), s("C")).unwrap();
    assert_eq!(c.workspaces[0].collections.len(), 1);
    assert!(c.workspaces[1].collections.is_empty());
    let c = delete_workspace(c, &s("w"));
    assert!(c.workspaces.is_empty());
}

#[test]
fn consecutive_ids_do_not_collide() {
    let mut c = empty_config();
    for _ in 0..500 {
        c = add_workspace(c, s("W"));
    }
    let ws = c.workspaces[0].id.clone();
    for _ in 0..500 {
        c = create_collection(c, &ws, s("C")).unwrap();
    }
    let ids: HashSet<String> = c.workspaces.iter().map(|w| w.id.clone()).collect();
    assert_eq!(ids.len(), 500);
    let cids: HashSet<String> = c.workspaces[0].collections.iter().map(|x| x.id.clone()).collect();
    assert_eq!(cids.len(), 500);
}

#[test]
fn error_messages() {
    assert_eq!(StoreError::WorkspaceNotFound.message(), "Workspace not found");
    assert_eq!(StoreError::CollectionNotFound.message(), "Collection not found");
    assert_eq!(StoreError::RequestNotFound.message(), "Request not found");
    assert_eq!(StoreError::EnvironmentNotFound.message(), "Environment not found");
}

#[test]
fn documents_compare_by_content() {
    let a = two_workspaces();
    let b = two_workspaces();
    assert_eq!(a, b);
    let b = rename_collection(
        create_collection_with_id(b, &s("w1"), s("c1"), s("X")).unwrap(),
        &s("w1"),
        &s("c1"),
        s("Y"),
    )
    .unwrap();
    assert_ne!(a, b);
    let v1 = vec![var("a", "1")];
    let e1 = create_environment_with_id(empty_config(), s("e"), s("E"), v1.clone());
    let e2 = create_environment_with_id(empty_config(), s("e"), s("E"), vec![var("a", "2")]);
    assert_ne!(e1, e2);
    assert_eq!(e1, create_environment_with_id(empty_config(), s("e"), s("E"), v1));
}
