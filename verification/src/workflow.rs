//! The workflow engine: the two state transitions that tie an issue,
//! a branch, the in-progress label, and a review request together.
//!
//! Each transition is a short-lived sequence of steps. The engine decides;
//! the surrounding binary performs the returned action (a network call, a
//! branch creation, a prompt) and hands the outcome back as the next
//! event. Every decision, derived name, and label mutation is fixed here
//! by contract; nothing is decided outside the library.

use vstd::prelude::*;
use vstd::pervasive::unreached;

use crate::config::Config;
use crate::errors::Error;
use crate::inputs::InputProvider;
use crate::issues::Issue;
use crate::naming::{
    branch_name_for, branch_name_for_number, create_pr_text, is_issue_branch,
    issue_branch_number, parse_issue_branch, pr_text_for,
};
use crate::select::{render_select_lines, select_line};

verus! {

/// The single well-known marker label: `working-on`.
pub open spec fn working_label() -> Seq<char> {
    seq!['w', 'o', 'r', 'k', 'i', 'n', 'g', '-', 'o', 'n']
}

/// The fixed target branch of every review request: `main`.
pub open spec fn target_branch() -> Seq<char> {
    seq!['m', 'a', 'i', 'n']
}

/// Builds the marker label's name.
pub fn working_label_name() -> (r: String)
    ensures
        r@ == working_label(),
{
    let s = "working-on".to_owned();
    proof {
        reveal_strlit("working-on");
        assert(s@ =~= working_label());
    }
    s
}

/// Builds the fixed target branch name.
pub fn target_branch_name() -> (r: String)
    ensures
        r@ == target_branch(),
{
    let s = "main".to_owned();
    proof {
        reveal_strlit("main");
        assert(s@ =~= target_branch());
    }
    s
}

/// Step one of every tracker-touching command: a configured token is
/// required; without one the transition fails with `MissingCredential`.
pub fn require_token(config: &Config) -> (r: Result<String, Error>)
    ensures
        config.github_token matches Some(t) ==> (r matches Ok(tok) && tok == t),
        config.github_token is None ==> r == Err::<String, Error>(Error::MissingCredential),
{
    match &config.github_token {
        Some(t) => Ok(t.clone()),
        None => Err(Error::MissingCredential),
    }
}

/// A title or description for the review request: taken verbatim when
/// supplied directly, collected from the input provider otherwise.
pub fn obtain_text<I: InputProvider>(
    given: Option<String>,
    prompt: &str,
    input_provider: &mut I,
) -> (r: Result<String, Error>)
    ensures
        given matches Some(t) ==> r == Ok::<String, Error>(t),
        given is None ==> (r matches Err(e) ==> e == Error::PromptFailed),
{
    match given {
        Some(t) => Ok(t),
        None => input_provider.get_input(prompt, None),
    }
}

/// Where the Start transition stands:
/// `Idle -> IssuesFetched -> IssueSelected -> Labeled -> Branched -> Done`.
#[derive(Debug)]
pub enum StartState {
    Idle,
    IssuesFetched { issues: Vec<Issue> },
    IssueSelected { issue: Issue },
    Labeled { issue: Issue },
    Branched { issue: Issue, branch: String },
    Done { issue: Issue, branch: String },
}

/// What the binary reports back to the Start transition.
#[derive(Debug)]
pub enum StartEvent {
    /// The open issues were fetched.
    IssuesListed { issues: Vec<Issue> },
    /// The user chose the menu entry at this index.
    IssueChosen { choice: usize },
    /// The marker label was added to the selected issue.
    LabelAdded,
    /// The derived branch was created and checked out.
    BranchCreated,
    /// Success was reported to the user.
    SuccessReported,
}

/// What the binary must do next for the Start transition.
#[derive(Debug)]
pub enum StartAction {
    /// Present the rendered lines as a single-choice menu.
    PromptSelection { lines: Vec<String> },
    /// Add the marker label to the issue.
    AddWorkingLabel { issue_number: u64, label: String },
    /// Create the branch at the current commit and switch to it.
    CreateBranch { name: String },
    /// Report success with the issue and branch worked on.
    ReportSuccess { issue_number: u64, branch: String },
    /// The transition is complete.
    Stop,
}

/// The Start protocol: which event may answer which state.
pub open spec fn start_event_fits(state: StartState, event: StartEvent) -> bool {
    match event {
        StartEvent::IssuesListed { .. } => state is Idle,
        StartEvent::IssueChosen { choice } => state matches StartState::IssuesFetched { issues }
            && choice < issues@.len(),
        StartEvent::LabelAdded => state is IssueSelected,
        StartEvent::BranchCreated => state is Labeled,
        StartEvent::SuccessReported => state is Branched,
    }
}

/// One step of the Start transition. Labeling comes strictly before
/// branch creation: a labeling failure is surfaced by the caller and the
/// transition never reaches `CreateBranch`, while a branch failure leaves
/// the label in place (a documented limitation).
pub fn start_step(state: StartState, event: StartEvent) -> (r: Result<
    (StartState, StartAction),
    Error,
>)
    requires
        start_event_fits(state, event),
    ensures
        event matches StartEvent::IssuesListed { issues } ==> (if issues@.len() == 0 {
            r == Err::<(StartState, StartAction), Error>(Error::NoOpenIssues)
        } else {
            &&& r matches Ok((s2, a))
            &&& s2 matches StartState::IssuesFetched { issues: is2 }
            &&& is2 == issues
            &&& a matches StartAction::PromptSelection { lines }
            &&& lines@.len() == issues@.len()
            &&& forall|i: int|
                0 <= i < issues@.len() ==> #[trigger] lines@[i]@ == select_line(issues@[i])
        }),
        event matches StartEvent::IssueChosen { choice } ==> ({
            &&& state matches StartState::IssuesFetched { issues }
            &&& r matches Ok((s2, a))
            &&& s2 matches StartState::IssueSelected { issue }
            &&& issue == issues@[choice as int]
            &&& a matches StartAction::AddWorkingLabel { issue_number, label }
            &&& issue_number == issues@[choice as int].number
            &&& label@ == working_label()
        }),
        event is LabelAdded ==> ({
            &&& state matches StartState::IssueSelected { issue }
            &&& r matches Ok((s2, a))
            &&& s2 matches StartState::Labeled { issue: i2 }
            &&& i2 == issue
            &&& a matches StartAction::CreateBranch { name }
            &&& name@ == branch_name_for(issue.number)
        }),
        event is BranchCreated ==> ({
            &&& state matches StartState::Labeled { issue }
            &&& r matches Ok((s2, a))
            &&& s2 matches StartState::Branched { issue: i2, branch }
            &&& i2 == issue
            &&& branch@ == branch_name_for(issue.number)
            &&& a matches StartAction::ReportSuccess { issue_number, branch: b2 }
            &&& issue_number == issue.number
            &&& b2@ == branch_name_for(issue.number)
        }),
        event is SuccessReported ==> ({
            &&& state matches StartState::Branched { issue, branch }
            &&& r matches Ok((s2, a))
            &&& s2 matches StartState::Done { issue: i2, branch: br2 }
            &&& i2 == issue
            &&& br2 == branch
            &&& a is Stop
        }),
{
    match (state, event) {
        (StartState::Idle, StartEvent::IssuesListed { issues }) => {
            if issues.len() == 0 {
                Err(Error::NoOpenIssues)
            } else {
                let lines = render_select_lines(&issues);
                Ok(
                    (
                        StartState::IssuesFetched { issues },
                        StartAction::PromptSelection { lines },
                    ),
                )
            }
        },
        (StartState::IssuesFetched { issues }, StartEvent::IssueChosen { choice }) => {
            let mut issues = issues;
            let issue = issues.remove(choice);
            let issue_number = issue.number;
            let label = working_label_name();
            Ok(
                (
                    StartState::IssueSelected { issue },
                    StartAction::AddWorkingLabel { issue_number, label },
                ),
            )
        },
        (StartState::IssueSelected { issue }, StartEvent::LabelAdded) => {
            let name = branch_name_for_number(issue.number);
            Ok((StartState::Labeled { issue }, StartAction::CreateBranch { name }))
        },
        (StartState::Labeled { issue }, StartEvent::BranchCreated) => {
            let branch = branch_name_for_number(issue.number);
            let reported = branch.clone();
            let issue_number = issue.number;
            Ok(
                (
                    StartState::Branched { issue, branch },
                    StartAction::ReportSuccess { issue_number, branch: reported },
                ),
            )
        },
        (StartState::Branched { issue, branch }, StartEvent::SuccessReported) => {
            Ok((StartState::Done { issue, branch }, StartAction::Stop))
        },
        _ => unreached(),
    }
}

/// Where the Finish transition stands:
/// `Idle -> IdentityResolved -> BranchValidated -> TextCollected ->
/// RequestOpened -> Done`.
#[derive(Debug)]
pub enum FinishState {
    Idle,
    IdentityResolved,
    BranchValidated { issue_number: u64, branch: String },
    TextCollected { issue_number: u64, branch: String, title: String, body: String },
    RequestOpened { issue_number: u64, url: String },
    Done { url: String, label_warning: bool },
}

/// What the binary reports back to the Finish transition.
#[derive(Debug)]
pub enum FinishEvent {
    /// The repository identity was resolved.
    ResolvedIdentity,
    /// The current branch carries this name.
    BranchRead { name: String },
    /// A title and a description are available, given directly or
    /// collected from the prompts.
    TextsEntered { title: String, description: String },
    /// The tracker opened the review request at this URL.
    RequestAccepted { url: String },
    /// The marker label was removed from the issue.
    LabelRemoved,
    /// Removing the marker label failed.
    LabelRemovalFailed,
}

/// What the binary must do next for the Finish transition.
#[derive(Debug)]
pub enum FinishAction {
    /// Read the name of the currently checked-out branch.
    ReadCurrentBranch,
    /// Obtain a title and a description, prompting where not given.
    CollectTexts,
    /// Open the review request proposing to merge `source` into `target`.
    OpenRequest { title: String, body: String, source: String, target: String },
    /// Remove the marker label from the issue.
    RemoveWorkingLabel { issue_number: u64, label: String },
    /// Report the request's URL; `label_warning` carries the step-seven
    /// warning that the label could not be removed.
    ReportOutcome { url: String, label_warning: bool },
}

/// The Finish protocol: which event may answer which state.
pub open spec fn finish_event_fits(state: FinishState, event: FinishEvent) -> bool {
    match event {
        FinishEvent::ResolvedIdentity => state is Idle,
        FinishEvent::BranchRead { .. } => state is IdentityResolved,
        FinishEvent::TextsEntered { .. } => state is BranchValidated,
        FinishEvent::RequestAccepted { .. } => state is TextCollected,
        FinishEvent::LabelRemoved => state is RequestOpened,
        FinishEvent::LabelRemovalFailed => state is RequestOpened,
    }
}

/// One step of the Finish transition. A failure before the request is
/// opened is fatal; a failure removing the label afterwards is only a
/// warning attached to the success — the request itself stood.
pub fn finish_step(state: FinishState, event: FinishEvent) -> (r: Result<
    (FinishState, FinishAction),
    Error,
>)
    requires
        finish_event_fits(state, event),
    ensures
        event is ResolvedIdentity ==> r == Ok::<(FinishState, FinishAction), Error>(
            (FinishState::IdentityResolved, FinishAction::ReadCurrentBranch),
        ),
        event matches FinishEvent::BranchRead { name } ==> (if is_issue_branch(name@) {
            &&& r matches Ok((s2, a))
            &&& s2 matches FinishState::BranchValidated { issue_number, branch }
            &&& issue_number as nat == issue_branch_number(name@)
            &&& branch == name
            &&& a is CollectTexts
        } else {
            r == Err::<(FinishState, FinishAction), Error>(Error::NotAnIssueBranch)
        }),
        event matches FinishEvent::TextsEntered { title, description } ==> ({
            &&& state matches FinishState::BranchValidated { issue_number, branch }
            &&& r matches Ok((s2, a))
            &&& s2 matches FinishState::TextCollected {
                issue_number: n2,
                branch: br2,
                title: t2,
                body,
            }
            &&& n2 == issue_number
            &&& br2 == branch
            &&& t2 == title
            &&& body@ == pr_text_for(issue_number, description@)
            &&& a matches FinishAction::OpenRequest { title: t3, body: b3, source, target }
            &&& t3 == title
            &&& b3@ == pr_text_for(issue_number, description@)
            &&& source == branch
            &&& target@ == target_branch()
        }),
        event matches FinishEvent::RequestAccepted { url } ==> ({
            &&& state matches FinishState::TextCollected { issue_number, .. }
            &&& r matches Ok((s2, a))
            &&& s2 matches FinishState::RequestOpened { issue_number: n2, url: u2 }
            &&& n2 == issue_number
            &&& u2 == url
            &&& a matches FinishAction::RemoveWorkingLabel { issue_number: n3, label }
            &&& n3 == issue_number
            &&& label@ == working_label()
        }),
        event is LabelRemoved ==> ({
            &&& state matches FinishState::RequestOpened { issue_number, url }
            &&& r matches Ok((s2, a))
            &&& s2 matches FinishState::Done { url: u2, label_warning }
            &&& u2 == url
            &&& label_warning == false
            &&& a matches FinishAction::ReportOutcome { url: u3, label_warning: w2 }
            &&& u3 == url
            &&& w2 == false
        }),
        event is LabelRemovalFailed ==> ({
            &&& state matches FinishState::RequestOpened { issue_number, url }
            &&& r matches Ok((s2, a))
            &&& s2 matches FinishState::Done { url: u2, label_warning }
            &&& u2 == url
            &&& label_warning == true
            &&& a matches FinishAction::ReportOutcome { url: u3, label_warning: w2 }
            &&& u3 == url
            &&& w2 == true
        }),
{
    match (state, event) {
        (FinishState::Idle, FinishEvent::ResolvedIdentity) => {
            Ok((FinishState::IdentityResolved, FinishAction::ReadCurrentBranch))
        },
        (FinishState::IdentityResolved, FinishEvent::BranchRead { name }) => {
            match parse_issue_branch(name.as_str()) {
                Ok(issue_number) => Ok(
                    (
                        FinishState::BranchValidated { issue_number, branch: name },
                        FinishAction::CollectTexts,
                    ),
                ),
                Err(e) => Err(e),
            }
        },
        (
            FinishState::BranchValidated { issue_number, branch },
            FinishEvent::TextsEntered { title, description },
        ) => {
            let body = create_pr_text(issue_number, description.as_str());
            let source = branch.clone();
            let title_again = title.clone();
            let body_again = body.clone();
            let target = target_branch_name();
            Ok(
                (
                    FinishState::TextCollected { issue_number, branch, title, body },
                    FinishAction::OpenRequest {
                        title: title_again,
                        body: body_again,
                        source,
                        target,
                    },
                ),
            )
        },
        (
            FinishState::TextCollected { issue_number, .. },
            FinishEvent::RequestAccepted { url },
        ) => {
            let label = working_label_name();
            Ok(
                (
                    FinishState::RequestOpened { issue_number, url },
                    FinishAction::RemoveWorkingLabel { issue_number, label },
                ),
            )
        },
        (FinishState::RequestOpened { issue_number: _, url }, FinishEvent::LabelRemoved) => {
            let reported = url.clone();
            Ok(
                (
                    FinishState::Done { url, label_warning: false },
                    FinishAction::ReportOutcome { url: reported, label_warning: false },
                ),
            )
        },
        (FinishState::RequestOpened { issue_number: _, url }, FinishEvent::LabelRemovalFailed) => {
            let reported = url.clone();
            Ok(
                (
                    FinishState::Done { url, label_warning: true },
                    FinishAction::ReportOutcome { url: reported, label_warning: true },
                ),
            )
        },
        _ => unreached(),
    }
}

} // verus!
