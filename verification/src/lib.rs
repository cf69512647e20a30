//! A continuous-deployment trigger: it authenticates repository webhooks,
//! decides whether a delivery calls for a deployment, and reports how the
//! deployment went.
//!
//! Everything here is a function from plain values to plain values. The
//! surrounding service reads requests, holds the lock on the configuration
//! store, runs the deployment command and sends notifications; this library
//! decides what each of those steps has to do and what is answered.

pub mod admin;
pub mod config;
pub mod deploy;
pub mod server;
pub mod signature;
pub mod text;
pub mod types;
pub mod webhook;

pub use admin::{add_update_repo, delete_repo, list_repos, persist_due, AdminToken};
pub use config::{load_repo_configs, RepoConfigs, RepoEntry};
pub use deploy::{
    deploy_repository, deployment_command, notification_result, notify, Delivery,
    DeploymentOutcome, Execution, NotificationRequest, TIMESTAMP_MIN_LENGTH,
};
pub use server::{listen_port, DEFAULT_PORT};
pub use signature::{expected_signature, verify_signature, SIGNATURE_LENGTH};
pub use types::{
    AdminRequest, ApiError, ApiResponse, DeleteRequest, NotificationPayload, RepoConfig,
    Repository, Status, WebhookPayload,
};
pub use webhook::{
    deployment_response, response_status, webhook_handler, WebhookAction, WebhookData,
    WebhookHeaders, BODY_LIMIT,
};
