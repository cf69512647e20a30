//! The data that travels through the service, each with the mathematical
//! value that contracts speak of.

use crate::text::opt_text;
use vstd::prelude::*;

verus! {

/// How one tracked repository is deployed.
#[derive(Debug)]
pub struct RepoConfig {
    /// Where the repository's working copy lies.
    pub path: String,
    /// The secret shared with the sender of webhooks.
    pub secret: String,
    /// If present, only pushes to this branch are deployed.
    pub branch: Option<String>,
}

/// What a `RepoConfig` says, as text.
pub ghost struct RepoConfigView {
    pub path: Seq<char>,
    pub secret: Seq<char>,
    pub branch: Option<Seq<char>>,
}

impl View for RepoConfig {
    type V = RepoConfigView;

    open spec fn view(&self) -> RepoConfigView {
        RepoConfigView {
            path: self.path@,
            secret: self.secret@,
            branch: opt_text(self.branch),
        }
    }
}

impl Clone for RepoConfig {
    fn clone(&self) -> (copy: Self)
        ensures
            copy@ == self@,
    {
        RepoConfig {
            path: self.path.clone(),
            secret: self.secret.clone(),
            branch: match &self.branch {
                Some(b) => Some(b.clone()),
                None => None,
            },
        }
    }
}

/// The repository that a webhook delivery speaks of.
#[derive(Debug)]
pub struct Repository {
    pub full_name: String,
}

/// What is read of a delivery's body once it has been parsed.
#[derive(Debug)]
pub struct WebhookPayload {
    pub repository: Option<Repository>,
    /// The ref that was pushed, such as `refs/heads/main`.
    pub git_ref: Option<String>,
}

/// What a `WebhookPayload` says, as text.
pub ghost struct WebhookPayloadView {
    pub repository: Option<Seq<char>>,
    pub git_ref: Option<Seq<char>>,
}

impl View for WebhookPayload {
    type V = WebhookPayloadView;

    open spec fn view(&self) -> WebhookPayloadView {
        WebhookPayloadView {
            repository: match self.repository {
                Some(r) => Some(r.full_name@),
                None => None,
            },
            git_ref: opt_text(self.git_ref),
        }
    }
}

/// The message posted to the notification endpoint.
#[derive(Debug)]
pub struct NotificationPayload {
    pub content: String,
}

/// An administrator's request to add or replace a repository.
#[derive(Debug)]
pub struct AdminRequest {
    pub repo_name: String,
    pub path: String,
    pub secret: String,
    pub branch: Option<String>,
}

impl AdminRequest {
    /// The configuration that the request asks to store.
    pub open spec fn config(&self) -> RepoConfigView {
        RepoConfigView {
            path: self.path@,
            secret: self.secret@,
            branch: opt_text(self.branch),
        }
    }
}

/// An administrator's request to forget a repository.
#[derive(Debug)]
pub struct DeleteRequest {
    pub repo_name: String,
}

/// The body of a successful administrative answer.
#[derive(Debug)]
pub struct ApiResponse {
    pub success: bool,
    pub message: String,
}

/// The body of every answer that is not a success.
#[derive(Debug)]
pub struct ApiError {
    pub error: String,
}

/// The HTTP statuses that the service answers with.
#[derive(Clone, Copy, Debug, PartialEq, Eq, Structural)]
pub enum Status {
    Success,
    BadRequest,
    Unauthorized,
    NotFound,
    InternalServerError,
}

impl Status {
    /// The numeric code of the status.
    pub open spec fn spec_code(&self) -> u16 {
        match self {
            Status::Success => 200,
            Status::BadRequest => 400,
            Status::Unauthorized => 401,
            Status::NotFound => 404,
            Status::InternalServerError => 500,
        }
    }

    /// The numeric code of the status.
    #[verifier::when_used_as_spec(spec_code)]
    pub fn code(&self) -> (code: u16)
        ensures
            code == self.spec_code(),
    {
        match self {
            Status::Success => 200,
            Status::BadRequest => 400,
            Status::Unauthorized => 401,
            Status::NotFound => 404,
            Status::InternalServerError => 500,
        }
    }
}

} // verus!
