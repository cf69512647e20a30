//! The deployment executor's decisions: the command that deploys a
//! repository, what a run of it amounts to, and what is reported of it.
//!
//! The command is run outside this library. What comes back of the run is
//! handed in as an `Execution`; from it follow the answer to the webhook and
//! the notification, if one is due.

use crate::text::{append_decimal, decimal, join2};
use crate::types::{NotificationPayload, RepoConfig};
use vstd::prelude::*;
use vstd::string::*;

verus! {

/// The shell command line that deploys the working copy at `path`: enter the
/// working copy, pull, step up to the parent directory, rebuild and restart
/// the containers, then wait and check that a container is running.
pub open spec fn command_text(path: Seq<char>) -> Seq<char> {
    "cd "@ + path
        + " && git pull && cd .. && docker compose up -d --build && sleep 10 && docker compose ps --filter \"status=running\" | grep -v \"Down\" || (echo \"Deployment verification failed\" && exit 1)"@
}

/// The shell command line that deploys a repository.
pub fn deployment_command(repo_config: &RepoConfig) -> (command: String)
    ensures
        command@ == command_text(repo_config.path@),
{
    let mut command = join2("cd ", repo_config.path.as_str());
    command.append(
        " && git pull && cd .. && docker compose up -d --build && sleep 10 && docker compose ps --filter \"status=running\" | grep -v \"Down\" || (echo \"Deployment verification failed\" && exit 1)",
    );
    command
}

/// What came of running the deployment command.
#[derive(Debug)]
pub enum Execution {
    /// The command could not be started.
    SpawnFailed { reason: String },
    /// The command was started and could not be waited for.
    WaitFailed { reason: String },
    /// The command ran to its end. `code` is its exit code; there is none
    /// where a signal ended it.
    Exited { code: Option<i32>, stdout: String, stderr: String },
}

/// What an `Execution` holds, as text.
pub ghost enum ExecutionView {
    SpawnFailed { reason: Seq<char> },
    WaitFailed { reason: Seq<char> },
    Exited { code: Option<i32>, stdout: Seq<char>, stderr: Seq<char> },
}

impl View for Execution {
    type V = ExecutionView;

    open spec fn view(&self) -> ExecutionView {
        match self {
            Execution::SpawnFailed { reason } => ExecutionView::SpawnFailed { reason: reason@ },
            Execution::WaitFailed { reason } => ExecutionView::WaitFailed { reason: reason@ },
            Execution::Exited { code, stdout, stderr } => ExecutionView::Exited {
                code: *code,
                stdout: stdout@,
                stderr: stderr@,
            },
        }
    }
}

/// One deployment, as it ended: of which repository, from which working
/// copy, what came of the command, and when.
#[derive(Debug)]
pub struct DeploymentOutcome {
    pub repo_name: String,
    pub path: String,
    pub execution: Execution,
    /// The time at which the outcome was recorded, in RFC 3339.
    pub timestamp: String,
}

/// What a `DeploymentOutcome` holds, as text.
pub ghost struct DeploymentOutcomeView {
    pub repo_name: Seq<char>,
    pub path: Seq<char>,
    pub execution: ExecutionView,
    pub timestamp: Seq<char>,
}

impl View for DeploymentOutcome {
    type V = DeploymentOutcomeView;

    open spec fn view(&self) -> DeploymentOutcomeView {
        DeploymentOutcomeView {
            repo_name: self.repo_name@,
            path: self.path@,
            execution: self.execution@,
            timestamp: self.timestamp@,
        }
    }
}

/// An exit code as the messages show it: `None`, or the code in decimal
/// inside `Some(` and `)`.
pub open spec fn exit_code_text(code: Option<i32>) -> Seq<char> {
    match code {
        Some(n) => "Some("@ + decimal(n as int) + ")"@,
        None => "None"@,
    }
}

/// The deployment succeeded: the command ran to its end and left with code
/// zero.
pub open spec fn succeeded(execution: ExecutionView) -> bool {
    execution matches ExecutionView::Exited { code: Some(n), .. } && n == 0
}

/// The text of the result of a deployment.
pub open spec fn result_text(repo_name: Seq<char>, execution: ExecutionView) -> Seq<char> {
    match execution {
        ExecutionView::SpawnFailed { reason } => "Failed to execute command: "@ + reason,
        ExecutionView::WaitFailed { reason } => "Failed to wait for command: "@ + reason,
        ExecutionView::Exited { code, stdout, stderr } => if succeeded(execution) {
            "Deployment successful for "@ + repo_name
        } else {
            "Command failed with exit code: "@ + exit_code_text(code) + "\nStdout: "@ + stdout
                + "\nStderr: "@ + stderr
        },
    }
}

/// The text of the notification about a deployment whose command ran to its
/// end; no notification is due where it did not. Every notification names
/// the repository, the working copy and the time.
pub open spec fn notification_text(outcome: DeploymentOutcomeView) -> Option<Seq<char>> {
    match outcome.execution {
        ExecutionView::Exited { code, stdout, stderr } => if succeeded(outcome.execution) {
            Some(
                "\u{2705} Deployment successful for "@ + outcome.repo_name + "\nPath: "@
                    + outcome.path + "\nTimestamp: "@ + outcome.timestamp,
            )
        } else {
            Some(
                "\u{274c} Deployment failed for "@ + outcome.repo_name + "\nPath: "@ + outcome.path
                    + "\nTimestamp: "@ + outcome.timestamp + "\nExit code: "@ + exit_code_text(
                    code,
                ) + "\nStdOut:```"@ + stdout + "```\nStdErr:```"@ + stderr + "```"@,
            )
        },
        _ => None,
    }
}

/// Writes an exit code at the end of `out`, as the messages show it.
fn append_exit_code(out: &mut String, code: Option<i32>)
    ensures
        final(out)@ == old(out)@ + exit_code_text(code),
{
    match code {
        Some(n) => {
            out.append("Some(");
            append_decimal(out, n);
            out.append(")");
            assert(old(out)@ + "Some("@ + decimal(n as int) + ")"@ =~= old(out)@ + ("Some("@
                + decimal(n as int) + ")"@));
        },
        None => {
            out.append("None");
        },
    }
}

/// The fewest characters that a time written in RFC 3339 has: the date, a
/// `T`, the time to the second and the offset from UTC.
pub const TIMESTAMP_MIN_LENGTH: usize = 25;

/// Reads the clock with `std::time::SystemTime::now`, takes the reading to
/// UTC with chrono's `DateTime::<Utc>::from` and writes it with
/// `chrono::DateTime::to_rfc3339`.
///
/// Trusted: the text has at least `TIMESTAMP_MIN_LENGTH` characters. Nothing
/// else is claimed of it, as it depends on when it is asked for. A clock that
/// stands before 1970 is written like any other.
#[verifier::external_body]
fn current_timestamp() -> (stamp: String)
    ensures
        stamp@.len() >= TIMESTAMP_MIN_LENGTH,
{
    chrono::DateTime::<chrono::Utc>::from(std::time::SystemTime::now()).to_rfc3339()
}

/// Records the outcome of a deployment: what came of the command, for which
/// repository, stamped with the current time.
pub fn deploy_repository(repo_config: &RepoConfig, repo_name: &str, execution: Execution) -> (outcome:
    DeploymentOutcome)
    ensures
        outcome.repo_name@ == repo_name@,
        outcome.path@ == repo_config.path@,
        outcome.execution@ == execution@,
        outcome.timestamp@.len() >= TIMESTAMP_MIN_LENGTH,
{
    DeploymentOutcome {
        repo_name: String::from_str(repo_name),
        path: repo_config.path.clone(),
        execution,
        timestamp: current_timestamp(),
    }
}

impl DeploymentOutcome {
    /// Whether the deployment succeeded.
    pub fn success(&self) -> (ok: bool)
        ensures
            ok == succeeded(self.execution@),
    {
        match &self.execution {
            Execution::Exited { code: Some(n), .. } => *n == 0,
            _ => false,
        }
    }

    /// The result of the deployment: a message of success, or the detail of
    /// the failure with the exit code and what the command wrote.
    pub fn result(&self) -> (result: Result<String, String>)
        ensures
            result is Ok <==> succeeded(self.execution@),
            match result {
                Ok(message) => message@ == result_text(self.repo_name@, self.execution@),
                Err(detail) => detail@ == result_text(self.repo_name@, self.execution@),
            },
    {
        match &self.execution {
            Execution::SpawnFailed { reason } => Err(
                join2("Failed to execute command: ", reason.as_str()),
            ),
            Execution::WaitFailed { reason } => Err(
                join2("Failed to wait for command: ", reason.as_str()),
            ),
            Execution::Exited { code, stdout, stderr } => {
                if self.success() {
                    Ok(join2("Deployment successful for ", self.repo_name.as_str()))
                } else {
                    let mut detail = String::from_str("Command failed with exit code: ");
                    append_exit_code(&mut detail, *code);
                    detail.append("\nStdout: ");
                    detail.append(stdout.as_str());
                    detail.append("\nStderr: ");
                    detail.append(stderr.as_str());
                    Err(detail)
                }
            },
        }
    }

    /// The notification about the deployment, if one is due: none where the
    /// command did not run to its end.
    pub fn notification(&self) -> (notification: Option<NotificationPayload>)
        ensures
            match notification {
                Some(payload) => notification_text(self@) == Some(payload.content@),
                None => notification_text(self@) is None,
            },
    {
        match &self.execution {
            Execution::Exited { code, stdout, stderr } => {
                let mut content;
                if self.success() {
                    content = String::from_str("\u{2705} Deployment successful for ");
                    content.append(self.repo_name.as_str());
                    content.append("\nPath: ");
                    content.append(self.path.as_str());
                    content.append("\nTimestamp: ");
                    content.append(self.timestamp.as_str());
                } else {
                    content = String::from_str("\u{274c} Deployment failed for ");
                    content.append(self.repo_name.as_str());
                    content.append("\nPath: ");
                    content.append(self.path.as_str());
                    content.append("\nTimestamp: ");
                    content.append(self.timestamp.as_str());
                    content.append("\nExit code: ");
                    append_exit_code(&mut content, *code);
                    content.append("\nStdOut:```");
                    content.append(stdout.as_str());
                    content.append("```\nStdErr:```");
                    content.append(stderr.as_str());
                    content.append("```");
                }
                Some(NotificationPayload { content })
            },
            _ => None,
        }
    }
}

/// One message to post: where to, and what.
#[derive(Debug)]
pub struct NotificationRequest {
    pub url: String,
    pub payload: NotificationPayload,
}

/// Decides what the notifier posts about a deployment: the outcome's
/// notification to the configured endpoint, and nothing where no endpoint is
/// configured or no notification is due.
pub fn notify(outcome: &DeploymentOutcome, webhook_url: Option<&str>) -> (request: Option<
    NotificationRequest,
>)
    ensures
        request is Some <==> webhook_url is Some && notification_text(outcome@) is Some,
        request matches Some(r) ==> webhook_url->0@ == r.url@,
        request matches Some(r) ==> notification_text(outcome@) == Some(r.payload.content@),
{
    match webhook_url {
        Some(url) => match outcome.notification() {
            Some(payload) => Some(NotificationRequest { url: String::from_str(url), payload }),
            None => None,
        },
        None => None,
    }
}

/// What came of posting a notification.
#[derive(Debug)]
pub enum Delivery {
    /// The request could not be made.
    Failed { reason: String },
    /// The endpoint answered. `status_line` is the status as it is shown,
    /// code and reason.
    Answered { status: u16, status_line: String },
}

/// The error that a delivery amounts to, if it is one: a request that could
/// not be made, or an answer outside the 2xx statuses.
pub open spec fn delivery_error(delivery: Delivery) -> Option<Seq<char>> {
    match delivery {
        Delivery::Failed { reason } => Some("HTTP request failed: "@ + reason@),
        Delivery::Answered { status, status_line } => if 200 <= status < 300 {
            None
        } else {
            Some("Discord webhook returned status: "@ + status_line@)
        },
    }
}

/// Judges the delivery of a notification.
pub fn notification_result(delivery: &Delivery) -> (result: Result<(), String>)
    ensures
        match result {
            Ok(_) => delivery_error(*delivery) is None,
            Err(detail) => delivery_error(*delivery) == Some(detail@),
        },
{
    match delivery {
        Delivery::Failed { reason } => Err(join2("HTTP request failed: ", reason.as_str())),
        Delivery::Answered { status, status_line } => {
            if 200 <= *status && *status < 300 {
                Ok(())
            } else {
                Err(join2("Discord webhook returned status: ", status_line.as_str()))
            }
        },
    }
}

} // verus!
