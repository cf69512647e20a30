//! The administrative surface: who may edit the configuration store, and
//! what each edit does to it and answers.
//!
//! The store lives behind a lock that the service holds. A handler is given
//! the store where the lock could be taken, and nothing where it could not.

use crate::config::{store_view, RepoConfigs};
use crate::text::{join3, opt_str, text_equal};
use crate::types::{
    AdminRequest, ApiError, ApiResponse, DeleteRequest, RepoConfig, RepoConfigView, Status,
};
use vstd::prelude::*;
use vstd::string::*;

verus! {

/// Proof that a request carried the administrator's token. Only
/// `AdminToken::from_request` makes one.
#[derive(Debug)]
pub struct AdminToken {
    granted: (),
}

/// What the guard answers: `None` where the request is let through, the
/// status of the refusal where it is not. A service without a configured
/// token lets nothing through and says that the fault is its own.
pub open spec fn admin_refusal(configured: Seq<char>, presented: Option<Seq<char>>) -> Option<
    Status,
> {
    if configured.len() == 0 {
        Some(Status::InternalServerError)
    } else if presented == Some(configured) {
        None
    } else {
        Some(Status::Unauthorized)
    }
}

impl AdminToken {
    /// Guards the administrative surface: compares the token that a request
    /// presents with the configured one.
    pub fn from_request(configured: &str, presented: Option<&str>) -> (outcome: Result<
        AdminToken,
        Status,
    >)
        ensures
            match outcome {
                Ok(_) => admin_refusal(configured@, opt_str(presented)) is None,
                Err(status) => admin_refusal(configured@, opt_str(presented)) == Some(status),
            },
    {
        if configured.is_empty() {
            return Err(Status::InternalServerError);
        }
        match presented {
            Some(token) => {
                if text_equal(token, configured) {
                    Ok(AdminToken { granted: () })
                } else {
                    Err(Status::Unauthorized)
                }
            },
            None => Err(Status::Unauthorized),
        }
    }
}

/// What an administrative answer says, as text.
pub ghost enum AdminAnswerView {
    Done { success: bool, message: Seq<char> },
    Refused { status: Status, error: Seq<char> },
}

/// What an administrative answer says, as text.
pub open spec fn admin_answer_view(answer: Result<ApiResponse, (Status, ApiError)>) -> AdminAnswerView {
    match answer {
        Ok(response) => AdminAnswerView::Done {
            success: response.success,
            message: response.message@,
        },
        Err((status, error)) => AdminAnswerView::Refused { status, error: error.error@ },
    }
}

/// The answer where the lock on the store could not be taken.
pub open spec fn lock_failure() -> AdminAnswerView {
    AdminAnswerView::Refused {
        status: Status::InternalServerError,
        error: "Failed to acquire lock on repository configurations"@,
    }
}

/// The answer to an upsert that was carried out.
pub open spec fn upsert_answer(repo_name: Seq<char>) -> AdminAnswerView {
    AdminAnswerView::Done {
        success: true,
        message: "Repository "@ + repo_name + " configured successfully"@,
    }
}

/// The answer to a delete: done where the repository was there, "not found"
/// where it was not.
pub open spec fn delete_answer(configs: Map<Seq<char>, RepoConfigView>, repo_name: Seq<char>) -> AdminAnswerView {
    if configs.contains_key(repo_name) {
        AdminAnswerView::Done {
            success: true,
            message: "Repository "@ + repo_name + " removed successfully"@,
        }
    } else {
        AdminAnswerView::Refused {
            status: Status::NotFound,
            error: "Repository "@ + repo_name + " not found"@,
        }
    }
}

/// What a request for the listing comes to: the repositories, or a refusal.
pub ghost enum ListingView {
    Listed { repos: Map<Seq<char>, RepoConfigView> },
    Refused { status: Status, error: Seq<char> },
}

/// What the answer to a request for the listing says.
pub open spec fn listing_view(listing: Result<RepoConfigs, (Status, ApiError)>) -> ListingView {
    match listing {
        Ok(repos) => ListingView::Listed { repos: repos@ },
        Err((status, error)) => ListingView::Refused { status, error: error.error@ },
    }
}

/// What a listing holds: all that the store holds. Where the store is out
/// of reach there is no listing but an internal error; an empty listing is
/// never given in place of the configuration.
pub open spec fn listed(configs: Option<Map<Seq<char>, RepoConfigView>>) -> ListingView {
    match configs {
        Some(store) => ListingView::Listed { repos: store },
        None => ListingView::Refused {
            status: Status::InternalServerError,
            error: "Failed to acquire lock on repository configurations"@,
        },
    }
}

/// The store after an upsert: the configuration stands under the name, and
/// every other name has what it had.
pub open spec fn after_upsert(
    configs: Map<Seq<char>, RepoConfigView>,
    repo_name: Seq<char>,
    config: RepoConfigView,
) -> Map<Seq<char>, RepoConfigView> {
    configs.insert(repo_name, config)
}

/// The store after a delete: the name is gone, and every other name has
/// what it had.
pub open spec fn after_delete(configs: Map<Seq<char>, RepoConfigView>, repo_name: Seq<char>) -> Map<
    Seq<char>,
    RepoConfigView,
> {
    configs.remove(repo_name)
}

/// The refusal that is given where the lock could not be taken.
fn lock_refusal() -> (refusal: (Status, ApiError))
    ensures
        refusal.0 == Status::InternalServerError,
        refusal.1.error@ == "Failed to acquire lock on repository configurations"@,
{
    (
        Status::InternalServerError,
        ApiError { error: String::from_str("Failed to acquire lock on repository configurations") },
    )
}

/// Lists all repositories: a snapshot of the store, secrets included. Where
/// the lock could not be taken the answer is an internal error.
pub fn list_repos(_admin: AdminToken, configs: Option<&RepoConfigs>) -> (listing: Result<
    RepoConfigs,
    (Status, ApiError),
>)
    ensures
        listing_view(listing) == listed(store_view(configs)),
{
    match configs {
        Some(store) => Ok(store.list()),
        None => Err(lock_refusal()),
    }
}

/// Adds a repository, or replaces the configuration of one that is there.
///
/// The store then holds the request's configuration under the request's
/// name, and everything else as before. Where the lock could not be taken
/// the answer is an internal error.
///
/// In the contract `store@` is what the store said before the call, and
/// `final(store)@` what it says after it.
pub fn add_update_repo(
    _admin: AdminToken,
    configs: Option<&mut RepoConfigs>,
    request: &AdminRequest,
) -> (answer: Result<ApiResponse, (Status, ApiError)>)
    ensures
        match configs {
            Some(store) => {
                &&& final(store)@ == after_upsert(store@, request.repo_name@, request.config())
                &&& admin_answer_view(answer) == upsert_answer(request.repo_name@)
            },
            None => admin_answer_view(answer) == lock_failure(),
        },
{
    match configs {
        Some(store) => {
            let config = RepoConfig {
                path: request.path.clone(),
                secret: request.secret.clone(),
                branch: match &request.branch {
                    Some(b) => Some(b.clone()),
                    None => None,
                },
            };
            store.upsert(request.repo_name.clone(), config);
            Ok(
                ApiResponse {
                    success: true,
                    message: join3(
                        "Repository ",
                        request.repo_name.as_str(),
                        " configured successfully",
                    ),
                },
            )
        },
        None => Err(lock_refusal()),
    }
}

/// Deletes a repository.
///
/// Where the store has the repository, it is taken out and everything else
/// stays. Where it has not, the store stays as it is and the answer is "not
/// found". Where the lock could not be taken the answer is an internal error.
///
/// In the contract `store@` is what the store said before the call, and
/// `final(store)@` what it says after it.
pub fn delete_repo(
    _admin: AdminToken,
    configs: Option<&mut RepoConfigs>,
    request: &DeleteRequest,
) -> (answer: Result<ApiResponse, (Status, ApiError)>)
    ensures
        match configs {
            Some(store) => {
                &&& final(store)@ == after_delete(store@, request.repo_name@)
                &&& admin_answer_view(answer) == delete_answer(store@, request.repo_name@)
            },
            None => admin_answer_view(answer) == lock_failure(),
        },
{
    match configs {
        Some(store) => {
            if store.remove(request.repo_name.as_str()) {
                Ok(
                    ApiResponse {
                        success: true,
                        message: join3(
                            "Repository ",
                            request.repo_name.as_str(),
                            " removed successfully",
                        ),
                    },
                )
            } else {
                Err(
                    (
                        Status::NotFound,
                        ApiError {
                            error: join3("Repository ", request.repo_name.as_str(), " not found"),
                        },
                    ),
                )
            }
        },
        None => Err(lock_refusal()),
    }
}

/// Whether the store has to be written out after an edit: exactly where the
/// edit was carried out. What comes of the writing does not change the
/// answer.
pub fn persist_due(answer: &Result<ApiResponse, (Status, ApiError)>) -> (due: bool)
    ensures
        due == (admin_answer_view(*answer) is Done),
{
    answer.is_ok()
}

/// A listing that follows an upsert holds the new entry as it was given, and
/// of every other repository what the store held before.
pub proof fn lemma_upsert_then_list(
    configs: Map<Seq<char>, RepoConfigView>,
    repo_name: Seq<char>,
    config: RepoConfigView,
)
    ensures
        ({
            &&& listed(Some(after_upsert(configs, repo_name, config))) matches ListingView::Listed {
                repos,
            }
            &&& repos.contains_key(repo_name)
            &&& repos[repo_name] == config
            &&& forall|other: Seq<char>|
                other != repo_name ==> (#[trigger] repos.contains_key(other)
                    <==> configs.contains_key(other))
            &&& forall|other: Seq<char>|
                other != repo_name && configs.contains_key(other) ==> #[trigger] repos[other]
                    == configs[other]
        }),
{
}

/// While the store is out of reach a request for the listing is refused
/// with an internal error: no listing is given, least of all an empty one.
pub proof fn lemma_listing_needs_the_store()
    ensures
        listed(None) is Refused,
        listed(None)->status.code() == 500,
{
}

/// Deleting a repository that is there takes it out, leaves the others, and
/// answers with success.
pub proof fn lemma_delete_present(configs: Map<Seq<char>, RepoConfigView>, repo_name: Seq<char>)
    requires
        configs.contains_key(repo_name),
    ensures
        !after_delete(configs, repo_name).contains_key(repo_name),
        forall|other: Seq<char>|
            other != repo_name && configs.contains_key(other) ==> #[trigger] after_delete(
                configs,
                repo_name,
            ).contains_key(other) && after_delete(configs, repo_name)[other] == configs[other],
        delete_answer(configs, repo_name) == (AdminAnswerView::Done {
            success: true,
            message: "Repository "@ + repo_name + " removed successfully"@,
        }),
{
}

/// Deleting a repository that is not there leaves the store as it is and
/// answers "not found".
pub proof fn lemma_delete_absent(configs: Map<Seq<char>, RepoConfigView>, repo_name: Seq<char>)
    requires
        !configs.contains_key(repo_name),
    ensures
        after_delete(configs, repo_name) == configs,
        delete_answer(configs, repo_name) == (AdminAnswerView::Refused {
            status: Status::NotFound,
            error: "Repository "@ + repo_name + " not found"@,
        }),
{
}

} // verus!
