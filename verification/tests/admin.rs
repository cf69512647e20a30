use hookdeploy::admin::{add_update_repo, delete_repo, list_repos, persist_due, AdminToken};
use hookdeploy::config::RepoConfigs;
use hookdeploy::types::{AdminRequest, DeleteRequest, RepoConfig, Status};

fn token() -> AdminToken {
    AdminToken::from_request("letmein", Some("letmein")).unwrap()
}

fn request(name: &str, path: &str, secret: &str, branch: Option<&str>) -> AdminRequest {
    AdminRequest {
        repo_name: name.to_string(),
        path: path.to_string(),
        secret: secret.to_string(),
        branch: branch.map(|b| b.to_string()),
    }
}

#[test]
fn guard_lets_the_configured_token_through() {
    assert!(AdminToken::from_request("letmein", Some("letmein")).is_ok());
}

#[test]
fn guard_refuses_a_wrong_or_missing_token() {
    for presented in [Some("letmeinx"), Some("letmei"), Some("LETMEIN"), Some(""), None] {
        match AdminToken::from_request("letmein", presented) {
            Err(status) => assert_eq!(status, Status::Unauthorized),
            Ok(_) => panic!("let through: {:?}", presented),
        }
    }
}

#[test]
fn guard_without_configured_token_is_an_internal_error() {
    for presented in [Some(""), Some("anything"), None] {
        match AdminToken::from_request("", presented) {
            Err(status) => assert_eq!(status, Status::InternalServerError),
            Ok(_) => panic!("let through: {:?}", presented),
        }
    }
}

#[test]
fn upsert_then_list_holds_the_entry_verbatim() {
    let mut store = RepoConfigs::new();
    let answer = add_update_repo(
        token(),
        Some(&mut store),
        &request("acme/site", "/srv/site", "hunter2", Some("main")),
    )
    .unwrap();
    assert!(answer.success);
    assert_eq!(answer.message, "Repository acme/site configured successfully");
    let listing = list_repos(token(), Some(&store)).unwrap();
    assert_eq!(listing.len(), 1);
    let listed = listing.get("acme/site").unwrap();
    assert_eq!(listed.path, "/srv/site");
    assert_eq!(listed.secret, "hunter2");
    assert_eq!(listed.branch.as_deref(), Some("main"));
}

#[test]
fn upsert_replaces_and_leaves_the_others() {
    let mut store = RepoConfigs::new();
    add_update_repo(token(), Some(&mut store), &request("a", "/a", "1", Some("main"))).unwrap();
    add_update_repo(token(), Some(&mut store), &request("b", "/b", "2", None)).unwrap();
    add_update_repo(token(), Some(&mut store), &request("a", "/a2", "3", None)).unwrap();
    let listing = list_repos(token(), Some(&store)).unwrap();
    assert_eq!(listing.len(), 2);
    assert_eq!(listing.get("a").unwrap().path, "/a2");
    assert_eq!(listing.get("a").unwrap().secret, "3");
    assert_eq!(listing.get("a").unwrap().branch, None);
    assert_eq!(listing.get("b").unwrap().path, "/b");
}

#[test]
fn listing_is_a_snapshot() {
    let mut store = RepoConfigs::new();
    add_update_repo(token(), Some(&mut store), &request("a", "/a", "1", None)).unwrap();
    let listing = list_repos(token(), Some(&store)).unwrap();
    add_update_repo(token(), Some(&mut store), &request("b", "/b", "2", None)).unwrap();
    assert_eq!(listing.len(), 1);
    assert_eq!(store.len(), 2);
}

#[test]
fn delete_of_a_present_repository_removes_it() {
    let mut store = RepoConfigs::new();
    add_update_repo(token(), Some(&mut store), &request("a", "/a", "1", None)).unwrap();
    add_update_repo(token(), Some(&mut store), &request("b", "/b", "2", None)).unwrap();
    let answer =
        delete_repo(token(), Some(&mut store), &DeleteRequest { repo_name: "a".to_string() })
            .unwrap();
    assert!(answer.success);
    assert_eq!(answer.message, "Repository a removed successfully");
    assert_eq!(store.len(), 1);
    assert!(store.get("a").is_none());
    assert_eq!(store.get("b").unwrap().path, "/b");
}

#[test]
fn delete_of_an_absent_repository_is_not_found_and_changes_nothing() {
    let mut store = RepoConfigs::new();
    store.upsert(
        "b".to_string(),
        RepoConfig { path: "/b".to_string(), secret: "2".to_string(), branch: None },
    );
    match delete_repo(token(), Some(&mut store), &DeleteRequest { repo_name: "a".to_string() }) {
        Err((status, error)) => {
            assert_eq!(status, Status::NotFound);
            assert_eq!(error.error, "Repository a not found");
        },
        Ok(other) => panic!("unexpected: {:?}", other),
    }
    assert_eq!(store.len(), 1);
    assert_eq!(store.get("b").unwrap().path, "/b");
    assert_eq!(store.get("b").unwrap().secret, "2");
}

#[test]
fn without_the_lock_edits_are_internal_errors() {
    match add_update_repo(token(), None, &request("a", "/a", "1", None)) {
        Err((status, error)) => {
            assert_eq!(status, Status::InternalServerError);
            assert_eq!(error.error, "Failed to acquire lock on repository configurations");
        },
        Ok(other) => panic!("unexpected: {:?}", other),
    }
    match delete_repo(token(), None, &DeleteRequest { repo_name: "a".to_string() }) {
        Err((status, error)) => {
            assert_eq!(status, Status::InternalServerError);
            assert_eq!(error.error, "Failed to acquire lock on repository configurations");
        },
        Ok(other) => panic!("unexpected: {:?}", other),
    }
}

#[test]
fn without_the_lock_the_listing_is_an_internal_error() {
    match list_repos(token(), None) {
        Err((status, error)) => {
            assert_eq!(status, Status::InternalServerError);
            assert_eq!(status.code(), 500);
            assert_eq!(error.error, "Failed to acquire lock on repository configurations");
        },
        Ok(other) => panic!("unexpected: {:?}", other),
    }
}

#[test]
fn listing_of_an_empty_store_is_empty_and_no_error() {
    let store = RepoConfigs::new();
    let listing = list_repos(token(), Some(&store)).unwrap();
    assert_eq!(listing.len(), 0);
    assert!(listing.entries().is_empty());
}

#[test]
fn store_is_written_out_after_edits_that_were_carried_out() {
    let mut store = RepoConfigs::new();
    let added = add_update_repo(token(), Some(&mut store), &request("a", "/a", "1", None));
    assert!(persist_due(&added));
    let removed =
        delete_repo(token(), Some(&mut store), &DeleteRequest { repo_name: "a".to_string() });
    assert!(persist_due(&removed));
    let absent =
        delete_repo(token(), Some(&mut store), &DeleteRequest { repo_name: "a".to_string() });
    assert!(!persist_due(&absent));
    let locked = add_update_repo(token(), None, &request("a", "/a", "1", None));
    assert!(!persist_due(&locked));
}
