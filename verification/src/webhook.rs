//! The webhook dispatcher: from what a delivery holds to what is done about it.
//!
//! A delivery is taken through its checks in a fixed order. The repository is
//! resolved first, the signature is verified next, and only an authentic
//! delivery has its event and its branch looked at.

use crate::config::{store_view, RepoConfigs};
use crate::signature::{signature_valid, verify_signature, SIGNATURE_LENGTH};
use crate::text::{join2, join3, opt_text, text_equal, trim_prefix, without_prefix};
use crate::types::{
    ApiError, RepoConfig, RepoConfigView, Status, WebhookPayload, WebhookPayloadView,
};
use vstd::prelude::*;
use vstd::string::*;

verus! {

/// The most that is read of a delivery's body, in bytes. A longer body is
/// cut off there, and its signature then fails.
pub const BODY_LIMIT: u64 = 5_000_000;

/// The request headers that the dispatcher reads.
#[derive(Debug)]
pub struct WebhookHeaders {
    /// The asserted signature of the body.
    pub signature: Option<String>,
    /// The kind of event that the delivery reports.
    pub event: Option<String>,
}

/// What the headers say, as text.
pub ghost struct WebhookHeadersView {
    pub signature: Option<Seq<char>>,
    pub event: Option<Seq<char>>,
}

impl View for WebhookHeaders {
    type V = WebhookHeadersView;

    open spec fn view(&self) -> WebhookHeadersView {
        WebhookHeadersView { signature: opt_text(self.signature), event: opt_text(self.event) }
    }
}

/// What could be had of a delivery's body.
#[derive(Debug)]
pub enum WebhookData {
    /// The body could not be read.
    Unreadable,
    /// The body was read. `payload` is what it says, if it is a payload at
    /// all; `body` holds the bytes as they arrived.
    Read { body: Vec<u8>, payload: Option<WebhookPayload> },
}

/// What `WebhookData` holds, as bytes and text.
pub ghost enum WebhookDataView {
    Unreadable,
    Read { body: Seq<u8>, payload: Option<WebhookPayloadView> },
}

impl View for WebhookData {
    type V = WebhookDataView;

    open spec fn view(&self) -> WebhookDataView {
        match self {
            WebhookData::Unreadable => WebhookDataView::Unreadable,
            WebhookData::Read { body, payload } => WebhookDataView::Read {
                body: body@,
                payload: match payload {
                    Some(p) => Some(p@),
                    None => None,
                },
            },
        }
    }
}

/// What the dispatcher decides for a delivery.
#[derive(Debug)]
pub enum WebhookAction {
    /// The delivery is refused with an error.
    Reject { status: Status, error: ApiError },
    /// The delivery is accepted and nothing is deployed.
    Ignore { message: String },
    /// The delivery is accepted and the repository is to be deployed, once.
    Deploy { repo_name: String, config: RepoConfig },
}

/// A decision of the dispatcher, as text.
pub ghost enum WebhookActionView {
    Reject { status: Status, error: Seq<char> },
    Ignore { message: Seq<char> },
    Deploy { repo_name: Seq<char>, config: RepoConfigView },
}

impl View for WebhookAction {
    type V = WebhookActionView;

    open spec fn view(&self) -> WebhookActionView {
        match self {
            WebhookAction::Reject { status, error } => WebhookActionView::Reject {
                status: *status,
                error: error.error@,
            },
            WebhookAction::Ignore { message } => WebhookActionView::Ignore { message: message@ },
            WebhookAction::Deploy { repo_name, config } => WebhookActionView::Deploy {
                repo_name: repo_name@,
                config: config@,
            },
        }
    }
}

/// The answer to a delivery: a short text for an accepted one, a status and
/// an error for a refused one.
pub ghost enum ResponseView {
    Accepted { body: Seq<char> },
    Refused { status: Status, error: Seq<char> },
}

impl ResponseView {
    /// The HTTP status of the answer: success for an accepted delivery, the
    /// status of the refusal for a refused one.
    pub open spec fn status(self) -> Status {
        match self {
            ResponseView::Accepted { .. } => Status::Success,
            ResponseView::Refused { status, .. } => status,
        }
    }
}

impl WebhookActionView {
    /// The answer that the decision gives at once. A deployment has none: its
    /// answer waits for the deployment to end.
    pub open spec fn answer(self) -> Option<ResponseView> {
        match self {
            WebhookActionView::Reject { status, error } => Some(
                ResponseView::Refused { status, error },
            ),
            WebhookActionView::Ignore { message } => Some(ResponseView::Accepted { body: message }),
            WebhookActionView::Deploy { .. } => None,
        }
    }
}

/// What an answer says, as text.
pub open spec fn response_view(response: Result<String, (Status, ApiError)>) -> ResponseView {
    match response {
        Ok(body) => ResponseView::Accepted { body: body@ },
        Err((status, error)) => ResponseView::Refused { status, error: error.error@ },
    }
}

/// The branch that a ref names: the ref without a leading `refs/heads/`.
pub open spec fn branch_of(git_ref: Seq<char>) -> Seq<char> {
    without_prefix(git_ref, "refs/heads/"@)
}

/// The branch of a push that is not deployed: the repository is restricted
/// to a branch, the payload names a ref, and the ref's branch is another one.
pub open spec fn other_branch(config: RepoConfigView, payload: WebhookPayloadView) -> Option<
    Seq<char>,
> {
    match (config.branch, payload.git_ref) {
        (Some(wanted), Some(git_ref)) => if branch_of(git_ref) != wanted {
            Some(branch_of(git_ref))
        } else {
            None
        },
        _ => None,
    }
}

/// What is done with an authentic delivery for a configured repository. An
/// event other than a push is ignored, and the answer says so and names the
/// event.
pub open spec fn filter_event(
    repo_name: Seq<char>,
    config: RepoConfigView,
    event: Option<Seq<char>>,
    payload: WebhookPayloadView,
) -> WebhookActionView {
    match event {
        None => WebhookActionView::Reject {
            status: Status::BadRequest,
            error: "No GitHub event specified"@,
        },
        Some(kind) => if kind != "push"@ {
            WebhookActionView::Ignore { message: "OK: Ignored event "@ + kind }
        } else {
            match other_branch(config, payload) {
                Some(branch) => WebhookActionView::Ignore {
                    message: "OK: Ignored push to "@ + branch,
                },
                None => WebhookActionView::Deploy { repo_name, config },
            }
        },
    }
}

/// What is done with a delivery for a configured repository: its signature
/// is required and verified before anything else is looked at.
pub open spec fn authenticate(
    repo_name: Seq<char>,
    config: RepoConfigView,
    headers: WebhookHeadersView,
    body: Seq<u8>,
    payload: WebhookPayloadView,
) -> WebhookActionView {
    match headers.signature {
        None => WebhookActionView::Reject {
            status: Status::Unauthorized,
            error: "No signature provided"@,
        },
        Some(asserted) => if !signature_valid(config.secret, body, asserted) {
            WebhookActionView::Reject { status: Status::Unauthorized, error: "Invalid signature"@ }
        } else {
            filter_event(repo_name, config, headers.event, payload)
        },
    }
}

/// What is done with a delivery, given the configured repositories.
/// `configs` is `None` where the store is out of reach because its lock
/// could not be taken.
pub open spec fn dispatch(
    configs: Option<Map<Seq<char>, RepoConfigView>>,
    headers: WebhookHeadersView,
    data: WebhookDataView,
) -> WebhookActionView {
    match data {
        WebhookDataView::Unreadable => WebhookActionView::Reject {
            status: Status::BadRequest,
            error: "Failed to read request body"@,
        },
        WebhookDataView::Read { body, payload: None } => WebhookActionView::Reject {
            status: Status::BadRequest,
            error: "Invalid JSON payload"@,
        },
        WebhookDataView::Read { body, payload: Some(payload) } => match payload.repository {
            None => WebhookActionView::Reject {
                status: Status::BadRequest,
                error: "Repository not specified in payload"@,
            },
            Some(repo_name) => match configs {
                None => WebhookActionView::Reject {
                    status: Status::InternalServerError,
                    error: "Failed to acquire lock on repository configurations"@,
                },
                Some(store) => if !store.contains_key(repo_name) {
                    WebhookActionView::Reject {
                        status: Status::NotFound,
                        error: "No configuration found for repository: "@ + repo_name,
                    }
                } else {
                    authenticate(repo_name, store[repo_name], headers, body, payload)
                },
            },
        },
    }
}

/// The delivery comes as far as the check of its signature, and what it
/// gives as its signature has not the length that every signature has.
pub open spec fn misshapen_signature(
    configs: Option<Map<Seq<char>, RepoConfigView>>,
    headers: WebhookHeadersView,
    data: WebhookDataView,
) -> bool {
    &&& configs matches Some(store)
    &&& data matches WebhookDataView::Read { body, payload: Some(payload) }
    &&& payload.repository matches Some(repo_name)
    &&& store.contains_key(repo_name)
    &&& headers.signature matches Some(asserted)
    &&& asserted.len() != SIGNATURE_LENGTH
}

/// A refusal with the given status and message.
fn reject(status: Status, message: &str) -> (action: WebhookAction)
    ensures
        action@ == (WebhookActionView::Reject { status, error: message@ }),
{
    WebhookAction::Reject { status, error: ApiError { error: String::from_str(message) } }
}

/// Decides what is done with a webhook delivery.
///
/// The checks run in this order, and the first that fails decides: the body
/// was read; it is a payload; the payload names a repository; the store is
/// within reach; the repository is configured; a signature is given; the
/// signature is that of the raw body under the repository's secret; an event
/// is named. Then an event other than a push is ignored, a push to another
/// branch than the configured one is ignored, and every other push is
/// deployed. A signature that has not the length of a signature is refused
/// like any other that does not match.
pub fn webhook_handler(
    configs: Option<&RepoConfigs>,
    headers: &WebhookHeaders,
    data: &WebhookData,
) -> (action: WebhookAction)
    ensures
        action@ == dispatch(store_view(configs), headers@, data@),
        misshapen_signature(store_view(configs), headers@, data@) ==> action@ == (
        WebhookActionView::Reject { status: Status::Unauthorized, error: "Invalid signature"@ }),
{
    let (body, payload) = match data {
        WebhookData::Unreadable => {
            return reject(Status::BadRequest, "Failed to read request body");
        },
        WebhookData::Read { body, payload: None } => {
            return reject(Status::BadRequest, "Invalid JSON payload");
        },
        WebhookData::Read { body, payload: Some(payload) } => (body, payload),
    };
    let repo_name = match &payload.repository {
        Some(repository) => &repository.full_name,
        None => {
            return reject(Status::BadRequest, "Repository not specified in payload");
        },
    };
    let store = match configs {
        Some(store) => store,
        None => {
            return reject(
                Status::InternalServerError,
                "Failed to acquire lock on repository configurations",
            );
        },
    };
    let config = match store.get(repo_name.as_str()) {
        Some(config) => config,
        None => {
            let error = join2("No configuration found for repository: ", repo_name.as_str());
            return WebhookAction::Reject { status: Status::NotFound, error: ApiError { error } };
        },
    };
    let asserted = match &headers.signature {
        Some(asserted) => asserted,
        None => {
            return reject(Status::Unauthorized, "No signature provided");
        },
    };
    if !verify_signature(config.secret.as_str(), body.as_slice(), asserted.as_str()) {
        return reject(Status::Unauthorized, "Invalid signature");
    }
    let event = match &headers.event {
        Some(event) => event,
        None => {
            return reject(Status::BadRequest, "No GitHub event specified");
        },
    };
    if !text_equal(event.as_str(), "push") {
        return WebhookAction::Ignore { message: join2("OK: Ignored event ", event.as_str()) };
    }
    if let Some(wanted) = &config.branch {
        if let Some(git_ref) = &payload.git_ref {
            let branch = trim_prefix(git_ref.as_str(), "refs/heads/");
            if !text_equal(branch, wanted.as_str()) {
                return WebhookAction::Ignore { message: join2("OK: Ignored push to ", branch) };
            }
        }
    }
    WebhookAction::Deploy { repo_name: repo_name.clone(), config: config.clone() }
}

impl WebhookAction {
    /// The answer that is due at once: none for a delivery that is to be
    /// deployed, whose answer waits for the deployment.
    pub fn response(&self) -> (answer: Option<Result<String, (Status, ApiError)>>)
        ensures
            match answer {
                Some(response) => self@.answer() == Some(response_view(response)),
                None => self@.answer() is None,
            },
    {
        match self {
            WebhookAction::Reject { status, error } => Some(
                Err((*status, ApiError { error: error.error.clone() })),
            ),
            WebhookAction::Ignore { message } => Some(Ok(message.clone())),
            WebhookAction::Deploy { .. } => None,
        }
    }
}

/// The answer to a delivery whose deployment has run: the deployment's own
/// message where it succeeded, an internal error that names the repository
/// and the failure where it did not.
pub open spec fn deployment_response_view(repo_name: Seq<char>, result: Result<String, String>) -> ResponseView {
    match result {
        Ok(message) => ResponseView::Accepted { body: message@ },
        Err(detail) => ResponseView::Refused {
            status: Status::InternalServerError,
            error: "Deployment failed for "@ + repo_name + ": "@ + detail@,
        },
    }
}

/// Turns the result of a deployment into the answer to the delivery that
/// asked for it.
pub fn deployment_response(repo_name: &str, result: Result<String, String>) -> (answer: Result<
    String,
    (Status, ApiError),
>)
    ensures
        response_view(answer) == deployment_response_view(repo_name@, result),
{
    match result {
        Ok(message) => Ok(message),
        Err(detail) => {
            let mut error = join3("Deployment failed for ", repo_name, ": ");
            error.append(detail.as_str());
            Err((Status::InternalServerError, ApiError { error }))
        },
    }
}

/// The HTTP status that an answer is sent with.
pub fn response_status(answer: &Result<String, (Status, ApiError)>) -> (status: Status)
    ensures
        status == response_view(*answer).status(),
{
    match answer {
        Ok(_) => Status::Success,
        Err((status, _)) => *status,
    }
}

/// A delivery for a repository that is not configured is answered with
/// "not found", whatever its headers hold: no signature is looked at, valid
/// or not, before that answer is given.
pub proof fn lemma_unknown_repository_not_found(
    configs: Map<Seq<char>, RepoConfigView>,
    headers: WebhookHeadersView,
    body: Seq<u8>,
    payload: WebhookPayloadView,
    repo_name: Seq<char>,
)
    requires
        payload.repository == Some(repo_name),
        !configs.contains_key(repo_name),
    ensures
        dispatch(Some(configs), headers, WebhookDataView::Read { body, payload: Some(payload) })
            == (WebhookActionView::Reject {
            status: Status::NotFound,
            error: "No configuration found for repository: "@ + repo_name,
        }),
        dispatch(
            Some(configs),
            headers,
            WebhookDataView::Read { body, payload: Some(payload) },
        ).answer()->0.status().code() == 404,
{
}

/// The delivery is authentic: it names a configured repository and carries
/// the signature of its raw body under that repository's secret.
pub open spec fn authentic(
    configs: Map<Seq<char>, RepoConfigView>,
    headers: WebhookHeadersView,
    data: WebhookDataView,
) -> bool {
    &&& data matches WebhookDataView::Read { body, payload: Some(payload) }
    &&& payload.repository matches Some(repo_name)
    &&& configs.contains_key(repo_name)
    &&& headers.signature matches Some(asserted)
    &&& signature_valid(configs[repo_name].secret, body, asserted)
}

/// Nothing but a refusal comes of a delivery that is not authentic: neither
/// the event nor the branch of such a delivery decides anything.
pub proof fn lemma_unauthenticated_is_rejected(
    configs: Map<Seq<char>, RepoConfigView>,
    headers: WebhookHeadersView,
    data: WebhookDataView,
)
    requires
        !authentic(configs, headers, data),
    ensures
        dispatch(Some(configs), headers, data) is Reject,
{
}

/// While the store is out of reach nothing is deployed and nothing is
/// accepted.
pub proof fn lemma_store_out_of_reach_is_rejected(headers: WebhookHeadersView, data: WebhookDataView)
    ensures
        dispatch(None, headers, data) is Reject,
{
}

/// A deployment is asked for exactly when an authentic delivery reports a
/// push that the repository's branch restriction, if it has one, lets
/// through. The decision then names the repository and its configuration,
/// and being one decision it stands for one run of the deployment.
pub proof fn lemma_deploy_exactly_on_accepted_push(
    configs: Map<Seq<char>, RepoConfigView>,
    headers: WebhookHeadersView,
    body: Seq<u8>,
    payload: WebhookPayloadView,
    repo_name: Seq<char>,
)
    requires
        payload.repository == Some(repo_name),
    ensures
        ({
            let data = WebhookDataView::Read { body, payload: Some(payload) };
            let action = dispatch(Some(configs), headers, data);
            &&& action is Deploy <==> {
                &&& authentic(configs, headers, data)
                &&& headers.event == Some("push"@)
                &&& other_branch(configs[repo_name], payload) is None
            }
            &&& action is Deploy ==> action == (WebhookActionView::Deploy {
                repo_name,
                config: configs[repo_name],
            })
        }),
{
}

/// An authentic push to the branch that the repository is restricted to is
/// deployed.
pub proof fn lemma_push_to_configured_branch_deploys(
    configs: Map<Seq<char>, RepoConfigView>,
    headers: WebhookHeadersView,
    body: Seq<u8>,
    payload: WebhookPayloadView,
    repo_name: Seq<char>,
    git_ref: Seq<char>,
)
    requires
        payload.repository == Some(repo_name),
        payload.git_ref == Some(git_ref),
        authentic(configs, headers, WebhookDataView::Read { body, payload: Some(payload) }),
        headers.event == Some("push"@),
        configs[repo_name].branch == Some(branch_of(git_ref)),
    ensures
        dispatch(Some(configs), headers, WebhookDataView::Read { body, payload: Some(payload) })
            == (WebhookActionView::Deploy { repo_name, config: configs[repo_name] }),
{
}

/// An authentic push to another branch than the one that the repository is
/// restricted to is accepted with status 200 and not deployed: the answer
/// names the branch that was pushed.
pub proof fn lemma_push_to_other_branch_ignored(
    configs: Map<Seq<char>, RepoConfigView>,
    headers: WebhookHeadersView,
    body: Seq<u8>,
    payload: WebhookPayloadView,
    repo_name: Seq<char>,
    git_ref: Seq<char>,
    wanted: Seq<char>,
)
    requires
        payload.repository == Some(repo_name),
        payload.git_ref == Some(git_ref),
        authentic(configs, headers, WebhookDataView::Read { body, payload: Some(payload) }),
        headers.event == Some("push"@),
        configs[repo_name].branch == Some(wanted),
        branch_of(git_ref) != wanted,
    ensures
        dispatch(Some(configs), headers, WebhookDataView::Read { body, payload: Some(payload) })
            == (WebhookActionView::Ignore { message: "OK: Ignored push to "@ + branch_of(git_ref) }),
        dispatch(
            Some(configs),
            headers,
            WebhookDataView::Read { body, payload: Some(payload) },
        ).answer()->0.status().code() == 200,
{
}

/// An authentic delivery of any event but a push is accepted with status 200
/// and not deployed, whatever its ref and whatever branch the repository is
/// restricted to. The answer says that the event was ignored and names it.
pub proof fn lemma_other_event_ignored(
    configs: Map<Seq<char>, RepoConfigView>,
    headers: WebhookHeadersView,
    data: WebhookDataView,
    event: Seq<char>,
)
    requires
        authentic(configs, headers, data),
        headers.event == Some(event),
        event != "push"@,
    ensures
        dispatch(Some(configs), headers, data) == (WebhookActionView::Ignore {
            message: "OK: Ignored event "@ + event,
        }),
        dispatch(Some(configs), headers, data).answer()->0.status().code() == 200,
{
}

/// The answer to a delivery that was deployed has status 200 where the
/// deployment succeeded and status 500 where it failed.
pub proof fn lemma_deployment_response_status(repo_name: Seq<char>, result: Result<String, String>)
    ensures
        deployment_response_view(repo_name, result).status().code() == if result is Ok {
            200u16
        } else {
            500u16
        },
{
}

} // verus!
