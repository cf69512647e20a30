use hookdeploy::config::RepoConfigs;
use hookdeploy::signature::expected_signature;
use hookdeploy::types::{RepoConfig, Repository, Status, WebhookPayload};
use hookdeploy::webhook::{
    deployment_response, response_status, webhook_handler, WebhookAction, WebhookData,
    WebhookHeaders,
};

const SECRET: &str = "hunter2";

fn store(branch: Option<&str>) -> RepoConfigs {
    let mut configs = RepoConfigs::new();
    configs.upsert(
        "acme/site".to_string(),
        RepoConfig {
            path: "/srv/site".to_string(),
            secret: SECRET.to_string(),
            branch: branch.map(|b| b.to_string()),
        },
    );
    configs
}

fn body_for(git_ref: &str) -> Vec<u8> {
    format!("{{\"repository\":{{\"full_name\":\"acme/site\"}},\"ref\":\"{}\"}}", git_ref)
        .into_bytes()
}

fn delivery(repo: Option<&str>, git_ref: Option<&str>) -> WebhookData {
    WebhookData::Read {
        body: body_for(git_ref.unwrap_or("")),
        payload: Some(WebhookPayload {
            repository: repo.map(|r| Repository { full_name: r.to_string() }),
            git_ref: git_ref.map(|r| r.to_string()),
        }),
    }
}

fn signed(data: &WebhookData, event: Option<&str>) -> WebhookHeaders {
    let body = match data {
        WebhookData::Read { body, .. } => body.clone(),
        WebhookData::Unreadable => Vec::new(),
    };
    WebhookHeaders {
        signature: expected_signature(SECRET, &body),
        event: event.map(|e| e.to_string()),
    }
}

fn rejection(action: WebhookAction) -> (Status, String) {
    match action {
        WebhookAction::Reject { status, error } => (status, error.error),
        other => panic!("not a rejection: {:?}", other),
    }
}

fn ignored(action: WebhookAction) -> String {
    match action {
        WebhookAction::Ignore { message } => message,
        other => panic!("not ignored: {:?}", other),
    }
}

fn deployed(action: WebhookAction) -> (String, RepoConfig) {
    match action {
        WebhookAction::Deploy { repo_name, config } => (repo_name, config),
        other => panic!("not deployed: {:?}", other),
    }
}

#[test]
fn unreadable_body_is_a_bad_request() {
    let headers = WebhookHeaders { signature: None, event: None };
    let action = webhook_handler(Some(&store(None)), &headers, &WebhookData::Unreadable);
    assert_eq!(rejection(action), (Status::BadRequest, "Failed to read request body".to_string()));
}

#[test]
fn unparsed_body_is_a_bad_request() {
    let data = WebhookData::Read { body: b"not json".to_vec(), payload: None };
    let action = webhook_handler(Some(&store(None)), &signed(&data, Some("push")), &data);
    assert_eq!(rejection(action), (Status::BadRequest, "Invalid JSON payload".to_string()));
}

#[test]
fn payload_without_repository_is_a_bad_request() {
    let data = delivery(None, Some("refs/heads/main"));
    let action = webhook_handler(Some(&store(None)), &signed(&data, Some("push")), &data);
    assert_eq!(
        rejection(action),
        (Status::BadRequest, "Repository not specified in payload".to_string())
    );
}

#[test]
fn unconfigured_repository_is_not_found_whatever_the_signature() {
    let data = delivery(Some("acme/other"), Some("refs/heads/main"));
    let expected =
        (Status::NotFound, "No configuration found for repository: acme/other".to_string());
    let valid = signed(&data, Some("push"));
    assert_eq!(rejection(webhook_handler(Some(&store(None)), &valid, &data)), expected);
    let missing = WebhookHeaders { signature: None, event: None };
    assert_eq!(rejection(webhook_handler(Some(&store(None)), &missing, &data)), expected);
    let wrong = WebhookHeaders { signature: Some("sha256=00".to_string()), event: None };
    assert_eq!(rejection(webhook_handler(Some(&store(None)), &wrong, &data)), expected);
    assert_eq!(rejection(webhook_handler(Some(&RepoConfigs::new()), &valid, &data)), expected);
}

#[test]
fn store_out_of_reach_is_an_internal_error() {
    let data = delivery(Some("acme/site"), Some("refs/heads/main"));
    let action = webhook_handler(None, &signed(&data, Some("push")), &data);
    assert_eq!(
        rejection(action),
        (
            Status::InternalServerError,
            "Failed to acquire lock on repository configurations".to_string()
        )
    );
}

#[test]
fn malformed_delivery_is_refused_before_the_store_is_asked() {
    let headers = WebhookHeaders { signature: None, event: None };
    let action = webhook_handler(None, &headers, &WebhookData::Unreadable);
    assert_eq!(rejection(action).0, Status::BadRequest);
    let data = delivery(None, None);
    assert_eq!(rejection(webhook_handler(None, &headers, &data)).0, Status::BadRequest);
}

#[test]
fn missing_signature_is_unauthorized() {
    let data = delivery(Some("acme/site"), Some("refs/heads/main"));
    let headers = WebhookHeaders { signature: None, event: Some("push".to_string()) };
    let action = webhook_handler(Some(&store(None)), &headers, &data);
    assert_eq!(rejection(action), (Status::Unauthorized, "No signature provided".to_string()));
}

#[test]
fn wrong_signature_is_unauthorized_before_event_and_branch_are_looked_at() {
    let data = delivery(Some("acme/site"), Some("refs/heads/dev"));
    let expected = (Status::Unauthorized, "Invalid signature".to_string());
    for event in [None, Some("ping"), Some("push")] {
        let headers = WebhookHeaders {
            signature: expected_signature("not the secret", &body_for("refs/heads/dev")),
            event: event.map(|e| e.to_string()),
        };
        assert_eq!(rejection(webhook_handler(Some(&store(Some("main"))), &headers, &data)), expected);
    }
}

#[test]
fn signature_of_another_body_is_unauthorized() {
    let data = delivery(Some("acme/site"), Some("refs/heads/main"));
    let headers = WebhookHeaders {
        signature: expected_signature(SECRET, &body_for("refs/heads/mainx")),
        event: Some("push".to_string()),
    };
    let action = webhook_handler(Some(&store(None)), &headers, &data);
    assert_eq!(rejection(action), (Status::Unauthorized, "Invalid signature".to_string()));
}

#[test]
fn missing_event_is_a_bad_request() {
    let data = delivery(Some("acme/site"), Some("refs/heads/main"));
    let action = webhook_handler(Some(&store(None)), &signed(&data, None), &data);
    assert_eq!(rejection(action), (Status::BadRequest, "No GitHub event specified".to_string()));
}

#[test]
fn other_event_with_valid_signature_is_ignored_and_the_answer_says_so() {
    let data = delivery(Some("acme/site"), Some("refs/heads/main"));
    for event in ["ping", "issues", "pull_request", "Push", "push ", ""] {
        let action = webhook_handler(Some(&store(Some("main"))), &signed(&data, Some(event)), &data);
        assert_eq!(ignored(action), format!("OK: Ignored event {}", event));
    }
    let action = webhook_handler(Some(&store(None)), &signed(&data, Some("ping")), &data);
    assert_eq!(ignored(action), "OK: Ignored event ping");
}

#[test]
fn other_event_is_ignored_whatever_the_ref_and_the_branch() {
    for git_ref in [Some("refs/heads/main"), Some("refs/heads/dev"), None] {
        for branch in [Some("main"), None] {
            let data = delivery(Some("acme/site"), git_ref);
            let action =
                webhook_handler(Some(&store(branch)), &signed(&data, Some("issues")), &data);
            assert_eq!(ignored(action), "OK: Ignored event issues");
        }
    }
}

#[test]
fn signature_of_another_length_is_unauthorized() {
    let data = delivery(Some("acme/site"), Some("refs/heads/main"));
    let genuine = signed(&data, Some("push")).signature.unwrap();
    let longer = format!("{}0", genuine);
    for asserted in ["sha256=deadbeef", "", "sha256=", &genuine[..70], longer.as_str()] {
        let headers = WebhookHeaders {
            signature: Some(asserted.to_string()),
            event: Some("push".to_string()),
        };
        let action = webhook_handler(Some(&store(Some("main"))), &headers, &data);
        assert_eq!(rejection(action), (Status::Unauthorized, "Invalid signature".to_string()));
    }
}

#[test]
fn push_to_configured_branch_deploys() {
    let data = delivery(Some("acme/site"), Some("refs/heads/main"));
    let action = webhook_handler(Some(&store(Some("main"))), &signed(&data, Some("push")), &data);
    let (repo_name, config) = deployed(action);
    assert_eq!(repo_name, "acme/site");
    assert_eq!(config.path, "/srv/site");
    assert_eq!(config.secret, SECRET);
    assert_eq!(config.branch.as_deref(), Some("main"));
}

#[test]
fn push_to_other_branch_is_ignored() {
    let data = delivery(Some("acme/site"), Some("refs/heads/dev"));
    let action = webhook_handler(Some(&store(Some("main"))), &signed(&data, Some("push")), &data);
    assert_eq!(ignored(action), "OK: Ignored push to dev");
}

#[test]
fn ref_without_heads_prefix_is_compared_whole() {
    let plain = delivery(Some("acme/site"), Some("main"));
    let action = webhook_handler(Some(&store(Some("main"))), &signed(&plain, Some("push")), &plain);
    assert_eq!(deployed(action).0, "acme/site");
    let tag = delivery(Some("acme/site"), Some("refs/tags/main"));
    let action = webhook_handler(Some(&store(Some("main"))), &signed(&tag, Some("push")), &tag);
    assert_eq!(ignored(action), "OK: Ignored push to refs/tags/main");
}

#[test]
fn only_one_leading_prefix_is_taken_off() {
    let data = delivery(Some("acme/site"), Some("refs/heads/refs/heads/main"));
    let action = webhook_handler(Some(&store(Some("main"))), &signed(&data, Some("push")), &data);
    assert_eq!(ignored(action), "OK: Ignored push to refs/heads/main");
    let action =
        webhook_handler(Some(&store(Some("refs/heads/main"))), &signed(&data, Some("push")), &data);
    assert_eq!(deployed(action).0, "acme/site");
}

#[test]
fn push_without_branch_restriction_deploys_any_branch() {
    let data = delivery(Some("acme/site"), Some("refs/heads/dev"));
    let action = webhook_handler(Some(&store(None)), &signed(&data, Some("push")), &data);
    assert_eq!(deployed(action).0, "acme/site");
}

#[test]
fn push_without_ref_deploys_even_with_branch_restriction() {
    let data = delivery(Some("acme/site"), None);
    let action = webhook_handler(Some(&store(Some("main"))), &signed(&data, Some("push")), &data);
    assert_eq!(deployed(action).0, "acme/site");
}

#[test]
fn response_is_due_at_once_unless_deploying() {
    let reject = WebhookAction::Reject {
        status: Status::NotFound,
        error: hookdeploy::types::ApiError { error: "gone".to_string() },
    };
    match reject.response() {
        Some(Err((status, error))) => {
            assert_eq!(status, Status::NotFound);
            assert_eq!(status.code(), 404);
            assert_eq!(error.error, "gone");
        },
        other => panic!("unexpected: {:?}", other),
    }
    let ignore = WebhookAction::Ignore { message: "OK".to_string() };
    match ignore.response() {
        Some(Ok(body)) => assert_eq!(body, "OK"),
        other => panic!("unexpected: {:?}", other),
    }
    let data = delivery(Some("acme/site"), None);
    let deploy = webhook_handler(Some(&store(None)), &signed(&data, Some("push")), &data);
    assert!(deploy.response().is_none());
}

#[test]
fn deployment_response_passes_success_and_wraps_failure() {
    match deployment_response("acme/site", Ok("Deployment successful for acme/site".to_string())) {
        Ok(body) => assert_eq!(body, "Deployment successful for acme/site"),
        Err(other) => panic!("unexpected: {:?}", other),
    }
    match deployment_response("acme/site", Err("boom".to_string())) {
        Err((status, error)) => {
            assert_eq!(status, Status::InternalServerError);
            assert_eq!(status.code(), 500);
            assert_eq!(error.error, "Deployment failed for acme/site: boom");
        },
        Ok(other) => panic!("unexpected: {:?}", other),
    }
}

#[test]
fn answers_are_sent_with_their_status() {
    assert_eq!(response_status(&Ok("OK".to_string())), Status::Success);
    let refused = Err((Status::Unauthorized, hookdeploy::types::ApiError { error: "no".to_string() }));
    assert_eq!(response_status(&refused), Status::Unauthorized);
    let failed = deployment_response("acme/site", Err("boom".to_string()));
    assert_eq!(response_status(&failed).code(), 500);
    let done = deployment_response("acme/site", Ok("fine".to_string()));
    assert_eq!(response_status(&done).code(), 200);
}

#[test]
fn body_limit_is_five_megabytes() {
    assert_eq!(hookdeploy::webhook::BODY_LIMIT, 5 * 1000 * 1000);
}

#[test]
fn status_codes() {
    assert_eq!(Status::Success.code(), 200);
    assert_eq!(Status::BadRequest.code(), 400);
    assert_eq!(Status::Unauthorized.code(), 401);
    assert_eq!(Status::NotFound.code(), 404);
    assert_eq!(Status::InternalServerError.code(), 500);
}
