//! The operations that the pages of the server ask for, each as the event
//! that it hands to the repository's state machine.

use crate::config::{fresh_config, validation_failure, RepositoryConfig, ValidationError};
use crate::error::{SyncError, SyncErrorView};
use crate::manager::{
    next, refused, Action, ActionView, Event, EventView, Manager, ManagerView, Report,
};
use vstd::prelude::*;
use vstd::string::*;

verus! {

/// What a request to set a repository up makes of the machine: input that
/// breaks a rule is reported and changes nothing; accepted input becomes
/// the record that the machine is asked to create.
pub open spec fn creation(m: ManagerView, url: Seq<char>, name: Seq<char>, email: Seq<char>) -> (
    ManagerView,
    ActionView,
) {
    match validation_failure(url, name, email) {
        Some(e) => refused(m, SyncErrorView::Validation(e)),
        None => next(m, EventView::Create(fresh_config(url, name, email))),
    }
}

/// Input that breaks a rule never reaches the machine: the rule is
/// reported, and the stored record and the operation under way stay as
/// they are.
pub proof fn lemma_rejected_input_changes_nothing(
    m: ManagerView,
    url: Seq<char>,
    name: Seq<char>,
    email: Seq<char>,
)
    ensures
        !crate::config::http_scheme().is_prefix_of(url) ==> creation(m, url, name, email)
            == refused(m, SyncErrorView::Validation(ValidationError::UrlScheme)),
        crate::config::http_scheme().is_prefix_of(url) && name.len() == 0 ==> creation(
            m,
            url,
            name,
            email,
        ) == refused(m, SyncErrorView::Validation(ValidationError::EmptyAuthorName)),
        crate::config::http_scheme().is_prefix_of(url) && name.len() > 0
            && !crate::config::plausible_email(email) ==> creation(m, url, name, email) == refused(
            m,
            SyncErrorView::Validation(ValidationError::InvalidEmail),
        ),
        validation_failure(url, name, email) is Some ==> creation(m, url, name, email).0 == m,
{
}

/// Asks for a repository to be set up at `remote_url`, with commits signed
/// by `author_name` and `author_email`.
pub fn new_repository(
    manager: Manager,
    remote_url: &str,
    author_name: &str,
    author_email: &str,
) -> (r: (Manager, Action))
    ensures
        (r.0@, r.1@) == creation(manager@, remote_url@, author_name@, author_email@),
{
    match RepositoryConfig::new(remote_url, author_name, author_email) {
        Ok(config) => manager.step(Event::Create(config)),
        Err(e) => (manager, Action::Report(Report::Failed(SyncError::Validation(e)))),
    }
}

/// Asks for the remote's branches.
pub fn list_branches(manager: Manager) -> (r: (Manager, Action))
    ensures
        (r.0@, r.1@) == next(manager@, EventView::ListBranches),
{
    manager.step(Event::ListBranches)
}

/// Asks for `branch` to be the branch that is published.
pub fn set_branch(manager: Manager, branch: &str) -> (r: (Manager, Action))
    ensures
        (r.0@, r.1@) == next(manager@, EventView::SelectBranch(branch@)),
{
    manager.step(Event::SelectBranch(String::from_str(branch)))
}

/// Asks for what is new to be exported and pushed, presenting `credential`
/// to the remote.
pub fn push(manager: Manager, credential: &str) -> (r: (Manager, Action))
    ensures
        (r.0@, r.1@) == next(manager@, EventView::Push(credential@)),
{
    manager.step(Event::Push(String::from_str(credential)))
}

/// Asks for the repository to be forgotten.
pub fn remove_repository(manager: Manager) -> (r: (Manager, Action))
    ensures
        (r.0@, r.1@) == next(manager@, EventView::Remove),
{
    manager.step(Event::Remove)
}

/// What the repository's page has to show.
#[derive(Debug, PartialEq, Eq)]
pub enum Shown {
    /// The visitor has not signed in: send them to do so.
    SignIn,
    /// No repository is configured: the form that sets one up.
    Setup,
    /// The repository and its published branch.
    Detail,
    /// The repository, and the branches to choose from once this action
    /// has been carried out.
    Asking(Action),
}

/// A `Shown` as plain values.
pub enum ShownView {
    SignIn,
    Setup,
    Detail,
    Asking(ActionView),
}

impl View for Shown {
    type V = ShownView;

    open spec fn view(&self) -> ShownView {
        match self {
            Shown::SignIn => ShownView::SignIn,
            Shown::Setup => ShownView::Setup,
            Shown::Detail => ShownView::Detail,
            Shown::Asking(a) => ShownView::Asking(a@),
        }
    }
}

/// What the repository's page shows: to a visitor who has not signed in,
/// the way to sign in; without a repository, the form that sets one up;
/// with a published branch, the repository as it is; otherwise the
/// branches of the remote, which have to be asked for first.
pub open spec fn page(signed_in: bool, m: ManagerView) -> (ManagerView, ShownView) {
    if !signed_in {
        (m, ShownView::SignIn)
    } else {
        match m.record {
            None => (m, ShownView::Setup),
            Some(c) => if c.active_branch is Some {
                (m, ShownView::Detail)
            } else {
                (
                    next(m, EventView::ListBranches).0,
                    ShownView::Asking(next(m, EventView::ListBranches).1),
                )
            },
        }
    }
}

/// Decides what the repository's page shows.
pub fn show(signed_in: bool, manager: Manager) -> (r: (Manager, Shown))
    ensures
        (r.0@, r.1@) == page(signed_in, manager@),
{
    if !signed_in {
        return (manager, Shown::SignIn);
    }
    let selected = match manager.record() {
        None => {
            return (manager, Shown::Setup);
        },
        Some(c) => c.active_branch().is_some(),
    };
    if selected {
        (manager, Shown::Detail)
    } else {
        let (manager, action) = manager.step(Event::ListBranches);
        (manager, Shown::Asking(action))
    }
}

} // verus!
