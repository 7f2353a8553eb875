//! The dialog that leads to a new issue, as a machine: a state, the action
//! that the state asks for, and the step that an event brings about. The
//! machine asks and decides; whoever runs it shows the prompts, sends the
//! requests and hands back what came of them.

use crate::config::ConfigView;
use crate::jira_client::{
    create_issue, creation_outcome, creation_request, error_text, get_project_issue_types,
    issue_types_outcome, issue_types_request, CreateIssueResponse, CreateIssueResponseView,
    IssueType, IssueTypeView, IssueTypesResponse, IssueTypesResponseView, JiraClient,
    JiraClientError, JiraClientErrorView, Reply, ReplyView, Request, RequestView,
};
use crate::projects::{keys_of, name_of, position};
use crate::selection::{
    display_string, display_strings, issue_type_lines, lemma_round_trip, resolve, resolved,
};
use crate::text::{blank, is_blank, join, lemma_first_index, shorten, shortened};
use vstd::prelude::*;

verus! {

/// In the summary a description is shown in full up to this many characters;
/// of a longer one this many are shown, and the ellipsis follows.
pub const SUMMARY_LIMIT: usize = 50;

/// Why a run ended without an issue.
#[derive(Debug, PartialEq, Eq)]
pub enum IssueCreateError {
    /// A call of the service failed: the project it was made for, and the
    /// error as the client gave it.
    JiraClient(String, JiraClientError),
    /// The project accepts no kind of issue.
    IssueTypesNotFound(String),
    /// The line that was picked stands for no kind of issue.
    SelectOption,
    /// The user declined to create the issue.
    Canceled,
}

/// The cause of a failed run as plain values.
pub enum IssueCreateErrorView {
    JiraClient(Seq<char>, JiraClientErrorView),
    IssueTypesNotFound(Seq<char>),
    SelectOption,
    Canceled,
}

impl View for IssueCreateError {
    type V = IssueCreateErrorView;

    open spec fn view(&self) -> IssueCreateErrorView {
        match self {
            IssueCreateError::JiraClient(project, error) => IssueCreateErrorView::JiraClient(
                project@,
                error@,
            ),
            IssueCreateError::IssueTypesNotFound(project) => {
                IssueCreateErrorView::IssueTypesNotFound(project@)
            },
            IssueCreateError::SelectOption => IssueCreateErrorView::SelectOption,
            IssueCreateError::Canceled => IssueCreateErrorView::Canceled,
        }
    }
}

/// The cause of a failed run in words.
pub open spec fn cause_text(cause: IssueCreateErrorView) -> Seq<char> {
    match cause {
        IssueCreateErrorView::JiraClient(project, error) => "Project: "@ + project
            + ". Jira client error: "@ + error_text(error),
        IssueCreateErrorView::IssueTypesNotFound(project) => "No issue types found for project '"@
            + project + "'"@,
        IssueCreateErrorView::SelectOption => "Failed to select an option"@,
        IssueCreateErrorView::Canceled => "Operation canceled by user"@,
    }
}

impl IssueCreateError {
    /// The cause in words.
    pub fn message(&self) -> (text: String)
        ensures
            text@ == cause_text(self@),
    {
        match self {
            IssueCreateError::JiraClient(project, error) => {
                let mut text = join("Project: ", project.as_str());
                text.append(". Jira client error: ");
                text.append(error.message().as_str());
                text
            },
            IssueCreateError::IssueTypesNotFound(project) => {
                let mut text = join("No issue types found for project '", project.as_str());
                text.append("'");
                text
            },
            IssueCreateError::SelectOption => String::from_str("Failed to select an option"),
            IssueCreateError::Canceled => String::from_str("Operation canceled by user"),
        }
    }
}

impl Clone for IssueCreateError {
    fn clone(&self) -> (copy: Self)
        ensures
            copy@ == self@,
    {
        match self {
            IssueCreateError::JiraClient(project, error) => IssueCreateError::JiraClient(
                project.clone(),
                error.clone(),
            ),
            IssueCreateError::IssueTypesNotFound(project) => IssueCreateError::IssueTypesNotFound(
                project.clone(),
            ),
            IssueCreateError::SelectOption => IssueCreateError::SelectOption,
            IssueCreateError::Canceled => IssueCreateError::Canceled,
        }
    }
}

/// The answers of the user that make up the issue, once all three are in.
#[derive(Debug, PartialEq, Eq)]
pub struct Draft {
    pub project_key: String,
    pub title: String,
    /// `None` where the user wanted no description or wrote a blank one.
    pub description: Option<String>,
}

/// A draft as plain values.
pub struct DraftView {
    pub project_key: Seq<char>,
    pub title: Seq<char>,
    pub description: Option<Seq<char>>,
}

impl View for Draft {
    type V = DraftView;

    open spec fn view(&self) -> DraftView {
        DraftView {
            project_key: self.project_key@,
            title: self.title@,
            description: self.description.deep_view(),
        }
    }
}

/// Where the dialog stands, with the answers given so far.
#[derive(Debug, PartialEq, Eq)]
pub enum Workflow {
    /// The user picks a project.
    SelectProject,
    /// The user writes the title.
    EnterTitle { project_key: String },
    /// The user says whether the issue gets a description.
    OptionalDescription { project_key: String, title: String },
    /// The user, having said yes, writes the description.
    EnterDescription { project_key: String, title: String },
    /// The kinds of issue of the project are asked of the service.
    FetchIssueTypes { draft: Draft },
    /// The user picks a kind of issue.
    SelectIssueType { draft: Draft, issue_types: Vec<IssueType> },
    /// The user sees the summary and says whether to go on.
    Confirm { draft: Draft, issue_type: IssueType },
    /// The issue is sent to the service.
    Submit { draft: Draft, issue_type: IssueType },
    /// The end, with the address of the new issue.
    Succeeded { issue_url: String },
    /// The end, without an issue.
    Failed { cause: IssueCreateError },
}

/// A state as plain values.
pub enum WorkflowView {
    SelectProject,
    EnterTitle { project_key: Seq<char> },
    OptionalDescription { project_key: Seq<char>, title: Seq<char> },
    EnterDescription { project_key: Seq<char>, title: Seq<char> },
    FetchIssueTypes { draft: DraftView },
    SelectIssueType { draft: DraftView, issue_types: Seq<IssueTypeView> },
    Confirm { draft: DraftView, issue_type: IssueTypeView },
    Submit { draft: DraftView, issue_type: IssueTypeView },
    Succeeded { issue_url: Seq<char> },
    Failed { cause: IssueCreateErrorView },
}

impl View for Workflow {
    type V = WorkflowView;

    open spec fn view(&self) -> WorkflowView {
        match self {
            Workflow::SelectProject => WorkflowView::SelectProject,
            Workflow::EnterTitle { project_key } => WorkflowView::EnterTitle {
                project_key: project_key@,
            },
            Workflow::OptionalDescription { project_key, title } => {
                WorkflowView::OptionalDescription { project_key: project_key@, title: title@ }
            },
            Workflow::EnterDescription { project_key, title } => WorkflowView::EnterDescription {
                project_key: project_key@,
                title: title@,
            },
            Workflow::FetchIssueTypes { draft } => WorkflowView::FetchIssueTypes { draft: draft@ },
            Workflow::SelectIssueType { draft, issue_types } => WorkflowView::SelectIssueType {
                draft: draft@,
                issue_types: issue_types.deep_view(),
            },
            Workflow::Confirm { draft, issue_type } => WorkflowView::Confirm {
                draft: draft@,
                issue_type: issue_type@,
            },
            Workflow::Submit { draft, issue_type } => WorkflowView::Submit {
                draft: draft@,
                issue_type: issue_type@,
            },
            Workflow::Succeeded { issue_url } => WorkflowView::Succeeded { issue_url: issue_url@ },
            Workflow::Failed { cause } => WorkflowView::Failed { cause: cause@ },
        }
    }
}

/// What happened after an action: the answer of the user, or the reply of
/// the service.
#[derive(Debug, PartialEq, Eq)]
pub enum Event {
    /// The user picked this one of the options shown.
    Chosen(String),
    /// The user wrote this text.
    Text(String),
    /// The user said yes (`true`) or no.
    Answer(bool),
    /// The service replied to the request for kinds of issue.
    IssueTypes(Reply<IssueTypesResponse>),
    /// The service replied to the creation.
    Created(Reply<CreateIssueResponse>),
}

/// An event as plain values.
pub enum EventView {
    Chosen(Seq<char>),
    Text(Seq<char>),
    Answer(bool),
    IssueTypes(ReplyView<IssueTypesResponseView>),
    Created(ReplyView<CreateIssueResponseView>),
}

impl View for Event {
    type V = EventView;

    open spec fn view(&self) -> EventView {
        match self {
            Event::Chosen(option) => EventView::Chosen(option@),
            Event::Text(text) => EventView::Text(text@),
            Event::Answer(yes) => EventView::Answer(*yes),
            Event::IssueTypes(reply) => EventView::IssueTypes(reply@),
            Event::Created(reply) => EventView::Created(reply@),
        }
    }
}

/// What the user is shown before the last question.
#[derive(Debug, PartialEq, Eq)]
pub struct Summary {
    pub project_key: String,
    /// The name of the project, or its key where the profile has no name for it.
    pub project_name: String,
    pub title: String,
    /// The description, cut short where it is long.
    pub description: Option<String>,
    /// The name of the kind of issue.
    pub issue_type: String,
    pub issue_type_description: Option<String>,
}

/// A summary as plain values.
pub struct SummaryView {
    pub project_key: Seq<char>,
    pub project_name: Seq<char>,
    pub title: Seq<char>,
    pub description: Option<Seq<char>>,
    pub issue_type: Seq<char>,
    pub issue_type_description: Option<Seq<char>>,
}

impl View for Summary {
    type V = SummaryView;

    open spec fn view(&self) -> SummaryView {
        SummaryView {
            project_key: self.project_key@,
            project_name: self.project_name@,
            title: self.title@,
            description: self.description.deep_view(),
            issue_type: self.issue_type@,
            issue_type_description: self.issue_type_description.deep_view(),
        }
    }
}

/// What a state asks of whoever runs the dialog.
#[derive(Debug, PartialEq, Eq)]
pub enum Action {
    /// Let the user pick one of these project keys.
    ChooseProject(Vec<String>),
    /// Ask for the title.
    AskTitle,
    /// Ask whether to add a description.
    AskWhetherDescription,
    /// Ask for the description.
    AskDescription,
    /// Send this request for the kinds of issue.
    FetchIssueTypes(Request),
    /// Let the user pick one of these lines, one for each kind of issue.
    ChooseIssueType(Vec<String>),
    /// Show the summary and ask whether to create the issue.
    Confirm(Summary),
    /// Send this request, which creates the issue.
    CreateIssue(Request),
    /// Nothing more: the run has ended, like this.
    Finish(Result<String, IssueCreateError>),
}

/// An action as plain values.
pub enum ActionView {
    ChooseProject(Seq<Seq<char>>),
    AskTitle,
    AskWhetherDescription,
    AskDescription,
    FetchIssueTypes(RequestView),
    ChooseIssueType(Seq<Seq<char>>),
    Confirm(SummaryView),
    CreateIssue(RequestView),
    Finish(Result<Seq<char>, IssueCreateErrorView>),
}

impl View for Action {
    type V = ActionView;

    open spec fn view(&self) -> ActionView {
        match self {
            Action::ChooseProject(keys) => ActionView::ChooseProject(keys.deep_view()),
            Action::AskTitle => ActionView::AskTitle,
            Action::AskWhetherDescription => ActionView::AskWhetherDescription,
            Action::AskDescription => ActionView::AskDescription,
            Action::FetchIssueTypes(request) => ActionView::FetchIssueTypes(request@),
            Action::ChooseIssueType(lines) => ActionView::ChooseIssueType(lines.deep_view()),
            Action::Confirm(summary) => ActionView::Confirm(summary@),
            Action::CreateIssue(request) => ActionView::CreateIssue(request@),
            Action::Finish(Ok(issue_url)) => ActionView::Finish(Ok(issue_url@)),
            Action::Finish(Err(cause)) => ActionView::Finish(Err(cause@)),
        }
    }
}

/// Where the dialog goes once the service has said which kinds of issue the
/// project accepts: to the choice among them; to a failure where the call
/// failed, and also where it succeeded with no kind at all.
pub open spec fn after_fetch(
    draft: DraftView,
    fetched: Result<Seq<IssueTypeView>, JiraClientErrorView>,
) -> WorkflowView {
    match fetched {
        Err(error) => WorkflowView::Failed {
            cause: IssueCreateErrorView::JiraClient(draft.project_key, error),
        },
        Ok(issue_types) => if issue_types.len() == 0 {
            WorkflowView::Failed {
                cause: IssueCreateErrorView::IssueTypesNotFound(draft.project_key),
            }
        } else {
            WorkflowView::SelectIssueType { draft, issue_types }
        },
    }
}

/// Where the dialog goes once a line was picked: to the last question, with
/// the kind that the line stands for; to a failure where it stands for none.
pub open spec fn after_choice(
    draft: DraftView,
    issue_types: Seq<IssueTypeView>,
    selected: Seq<char>,
) -> WorkflowView {
    match resolved(issue_types, selected) {
        Some(i) => WorkflowView::Confirm { draft, issue_type: issue_types[i] },
        None => WorkflowView::Failed { cause: IssueCreateErrorView::SelectOption },
    }
}

/// How the dialog ends once the service has replied to the creation.
pub open spec fn after_submit(
    draft: DraftView,
    created: Result<Seq<char>, JiraClientErrorView>,
) -> WorkflowView {
    match created {
        Ok(issue_url) => WorkflowView::Succeeded { issue_url },
        Err(error) => WorkflowView::Failed {
            cause: IssueCreateErrorView::JiraClient(draft.project_key, error),
        },
    }
}

/// The state that follows `state` when `event` happens, for a client of the
/// profile `config`, given whether the text that the event brings is blank
/// (`blank_text` counts only where the event is a text). The states follow
/// each other in one order, none is gone back to, and an event that does not
/// answer what the state asks leaves the state as it is: a project that the
/// profile does not know, a blank title, or an event of another kind.
pub open spec fn advanced(
    config: ConfigView,
    state: WorkflowView,
    event: EventView,
    blank_text: bool,
) -> WorkflowView {
    match (state, event) {
        (WorkflowView::SelectProject, EventView::Chosen(key)) => if position(
            config.projects,
            key,
        ) is Some {
            WorkflowView::EnterTitle { project_key: key }
        } else {
            state
        },
        (WorkflowView::EnterTitle { project_key }, EventView::Text(text)) => if blank_text {
            state
        } else {
            WorkflowView::OptionalDescription { project_key, title: text }
        },
        (
            WorkflowView::OptionalDescription { project_key, title },
            EventView::Answer(yes),
        ) => if yes {
            WorkflowView::EnterDescription { project_key, title }
        } else {
            WorkflowView::FetchIssueTypes {
                draft: DraftView { project_key, title, description: None },
            }
        },
        (
            WorkflowView::EnterDescription { project_key, title },
            EventView::Text(text),
        ) => WorkflowView::FetchIssueTypes {
            draft: DraftView {
                project_key,
                title,
                description: if blank_text {
                    None
                } else {
                    Some(text)
                },
            },
        },
        (WorkflowView::FetchIssueTypes { draft }, EventView::IssueTypes(reply)) => after_fetch(
            draft,
            issue_types_outcome(reply),
        ),
        (
            WorkflowView::SelectIssueType { draft, issue_types },
            EventView::Chosen(selected),
        ) => after_choice(draft, issue_types, selected),
        (WorkflowView::Confirm { draft, issue_type }, EventView::Answer(yes)) => if yes {
            WorkflowView::Submit { draft, issue_type }
        } else {
            WorkflowView::Failed { cause: IssueCreateErrorView::Canceled }
        },
        (WorkflowView::Submit { draft, issue_type }, EventView::Created(reply)) => after_submit(
            draft,
            creation_outcome(config, reply),
        ),
        _ => state,
    }
}

/// Whether `event` brings a text that is blank.
pub open spec fn brings_blank(event: EventView) -> bool {
    match event {
        EventView::Text(text) => blank(text),
        _ => false,
    }
}

/// The state that follows `state` when `event` happens, for a client of the
/// profile `config`.
pub open spec fn next_state(
    config: ConfigView,
    state: WorkflowView,
    event: EventView,
) -> WorkflowView {
    advanced(config, state, event, brings_blank(event))
}

/// What the user is shown before the last question.
pub open spec fn summary_of(
    config: ConfigView,
    draft: DraftView,
    issue_type: IssueTypeView,
) -> SummaryView {
    SummaryView {
        project_key: draft.project_key,
        project_name: match name_of(config.projects, draft.project_key) {
            Some(name) => name,
            None => draft.project_key,
        },
        title: draft.title,
        description: match draft.description {
            Some(text) => Some(shortened(text, SUMMARY_LIMIT as nat, SUMMARY_LIMIT as nat)),
            None => None,
        },
        issue_type: issue_type.name,
        issue_type_description: issue_type.description,
    }
}

/// What `state` asks for, for a client of the profile `config`.
pub open spec fn action_of(config: ConfigView, state: WorkflowView) -> ActionView {
    match state {
        WorkflowView::SelectProject => ActionView::ChooseProject(keys_of(config.projects)),
        WorkflowView::EnterTitle { .. } => ActionView::AskTitle,
        WorkflowView::OptionalDescription { .. } => ActionView::AskWhetherDescription,
        WorkflowView::EnterDescription { .. } => ActionView::AskDescription,
        WorkflowView::FetchIssueTypes { draft } => ActionView::FetchIssueTypes(
            issue_types_request(config, draft.project_key),
        ),
        WorkflowView::SelectIssueType { issue_types, .. } => ActionView::ChooseIssueType(
            display_strings(issue_types),
        ),
        WorkflowView::Confirm { draft, issue_type } => ActionView::Confirm(
            summary_of(config, draft, issue_type),
        ),
        WorkflowView::Submit { draft, issue_type } => ActionView::CreateIssue(
            creation_request(
                config,
                draft.project_key,
                draft.title,
                draft.description,
                issue_type.id,
            ),
        ),
        WorkflowView::Succeeded { issue_url } => ActionView::Finish(Ok(issue_url)),
        WorkflowView::Failed { cause } => ActionView::Finish(Err(cause)),
    }
}

/// How far the dialog has come: the states in their order, the two ends last.
pub open spec fn stage(state: WorkflowView) -> nat {
    match state {
        WorkflowView::SelectProject => 0,
        WorkflowView::EnterTitle { .. } => 1,
        WorkflowView::OptionalDescription { .. } => 2,
        WorkflowView::EnterDescription { .. } => 3,
        WorkflowView::FetchIssueTypes { .. } => 4,
        WorkflowView::SelectIssueType { .. } => 5,
        WorkflowView::Confirm { .. } => 6,
        WorkflowView::Submit { .. } => 7,
        WorkflowView::Succeeded { .. } => 8,
        WorkflowView::Failed { .. } => 8,
    }
}

/// The answers in a draft are in order: the project is one that the profile
/// knows, the title is not blank, and a description, where there is one, is
/// not blank either.
pub open spec fn draft_in_order(config: ConfigView, draft: DraftView) -> bool {
    &&& position(config.projects, draft.project_key) is Some
    &&& !blank(draft.title)
    &&& draft.description matches Some(text) ==> !blank(text)
}

/// The answers that a state holds are in order, and a list to pick a kind of
/// issue from is not empty.
pub open spec fn in_order(config: ConfigView, state: WorkflowView) -> bool {
    match state {
        WorkflowView::SelectProject => true,
        WorkflowView::EnterTitle { project_key } => position(config.projects, project_key) is Some,
        WorkflowView::OptionalDescription { project_key, title } => position(
            config.projects,
            project_key,
        ) is Some && !blank(title),
        WorkflowView::EnterDescription { project_key, title } => position(
            config.projects,
            project_key,
        ) is Some && !blank(title),
        WorkflowView::FetchIssueTypes { draft } => draft_in_order(config, draft),
        WorkflowView::SelectIssueType { draft, issue_types } => draft_in_order(config, draft)
            && issue_types.len() > 0,
        WorkflowView::Confirm { draft, .. } => draft_in_order(config, draft),
        WorkflowView::Submit { draft, .. } => draft_in_order(config, draft),
        WorkflowView::Succeeded { .. } => true,
        WorkflowView::Failed { .. } => true,
    }
}

/// A title that is not blank moves the dialog on, with that title; a blank
/// one leaves it where it is, so that the title is asked for again.
pub proof fn lemma_title(config: ConfigView, project_key: Seq<char>, text: Seq<char>)
    ensures
        !blank(text) ==> next_state(
            config,
            WorkflowView::EnterTitle { project_key },
            EventView::Text(text),
        ) == (WorkflowView::OptionalDescription { project_key, title: text }),
        blank(text) ==> next_state(
            config,
            WorkflowView::EnterTitle { project_key },
            EventView::Text(text),
        ) == (WorkflowView::EnterTitle { project_key }),
        action_of(config, WorkflowView::EnterTitle { project_key }) == ActionView::AskTitle,
{
}

/// When the service names the kinds of issue of the project, the dialog goes
/// on to the choice among them if there is at least one, and fails for want
/// of a kind of issue if there is none, although the call succeeded.
pub proof fn lemma_issue_types(
    config: ConfigView,
    draft: DraftView,
    reply: ReplyView<IssueTypesResponseView>,
    issue_types: Seq<IssueTypeView>,
)
    requires
        issue_types_outcome(reply) == Ok::<Seq<IssueTypeView>, JiraClientErrorView>(issue_types),
    ensures
        issue_types.len() >= 1 ==> next_state(
            config,
            WorkflowView::FetchIssueTypes { draft },
            EventView::IssueTypes(reply),
        ) == (WorkflowView::SelectIssueType { draft, issue_types }),
        issue_types.len() == 0 ==> next_state(
            config,
            WorkflowView::FetchIssueTypes { draft },
            EventView::IssueTypes(reply),
        ) == (WorkflowView::Failed {
            cause: IssueCreateErrorView::IssueTypesNotFound(draft.project_key),
        }),
{
}

/// Picking the line of a kind of issue leads to the last question with that
/// very kind, provided no kind before it in the list is shown by the same line.
pub proof fn lemma_choice(
    config: ConfigView,
    draft: DraftView,
    issue_types: Seq<IssueTypeView>,
    i: int,
)
    requires
        0 <= i < issue_types.len(),
        forall|j: int|
            0 <= j < i ==> display_string(#[trigger] issue_types[j]) != display_string(
                issue_types[i],
            ),
    ensures
        action_of(config, WorkflowView::SelectIssueType { draft, issue_types })
            == ActionView::ChooseIssueType(display_strings(issue_types)),
        display_strings(issue_types)[i] == display_string(issue_types[i]),
        next_state(
            config,
            WorkflowView::SelectIssueType { draft, issue_types },
            EventView::Chosen(display_string(issue_types[i])),
        ) == (WorkflowView::Confirm { draft, issue_type: issue_types[i] }),
{
    lemma_round_trip(issue_types, i);
}

/// Whatever line is picked, the kind of issue that the dialog goes on with is
/// one of the list and is shown by that line.
pub proof fn lemma_choice_is_listed(
    draft: DraftView,
    issue_types: Seq<IssueTypeView>,
    selected: Seq<char>,
)
    ensures
        after_choice(draft, issue_types, selected) is Confirm ==> ({
            let next = after_choice(draft, issue_types, selected);
            &&& next->Confirm_draft == draft
            &&& issue_types.contains(next->Confirm_issue_type)
            &&& display_string(next->Confirm_issue_type) == selected
        }),
        !(after_choice(draft, issue_types, selected) is Confirm) ==> after_choice(
            draft,
            issue_types,
            selected,
        ) == (WorkflowView::Failed { cause: IssueCreateErrorView::SelectOption }),
{
    lemma_first_index(display_strings(issue_types), selected);
    match resolved(issue_types, selected) {
        Some(i) => {
            assert(display_strings(issue_types)[i] == display_string(issue_types[i]));
        },
        None => {},
    }
}

/// A no to the last question ends the run as cancelled, and the end asks for
/// nothing more: no issue is created.
pub proof fn lemma_declined(config: ConfigView, draft: DraftView, issue_type: IssueTypeView)
    ensures
        next_state(config, WorkflowView::Confirm { draft, issue_type }, EventView::Answer(false))
            == (WorkflowView::Failed { cause: IssueCreateErrorView::Canceled }),
        action_of(config, WorkflowView::Failed { cause: IssueCreateErrorView::Canceled })
            == ActionView::Finish(Err(IssueCreateErrorView::Canceled)),
{
}

/// An issue is created in one state only, and the dialog comes to that state
/// only by a yes to the last question, with the answers that were shown.
pub proof fn lemma_created_only_after_yes(config: ConfigView, state: WorkflowView, event: EventView)
    ensures
        action_of(config, state) is CreateIssue <==> state is Submit,
        next_state(config, state, event) is Submit ==> state is Submit || (state is Confirm
            && event == EventView::Answer(true)),
        state is Confirm ==> next_state(config, state, EventView::Answer(true)) == (
        WorkflowView::Submit {
            draft: state->Confirm_draft,
            issue_type: state->Confirm_issue_type,
        }),
{
}

/// The dialog never goes back, and its two ends are final.
pub proof fn lemma_no_way_back(config: ConfigView, state: WorkflowView, event: EventView)
    ensures
        stage(next_state(config, state, event)) >= stage(state),
        state is Succeeded || state is Failed ==> next_state(config, state, event) == state,
{
}

/// Answers that are in order stay in order, whatever happens; and they are in
/// order when the dialog begins.
pub proof fn lemma_in_order(config: ConfigView, state: WorkflowView, event: EventView)
    requires
        in_order(config, state),
    ensures
        in_order(config, next_state(config, state, event)),
        in_order(config, WorkflowView::SelectProject),
{
}

/// Decides where the dialog goes once the service has said which kinds of
/// issue the project accepts.
pub fn fetched(draft: Draft, result: Result<Vec<IssueType>, JiraClientError>) -> (next: Workflow)
    ensures
        next@ == after_fetch(
            draft@,
            match result {
                Ok(issue_types) => Ok(issue_types.deep_view()),
                Err(error) => Err(error@),
            },
        ),
{
    match result {
        Err(error) => Workflow::Failed {
            cause: IssueCreateError::JiraClient(draft.project_key, error),
        },
        Ok(issue_types) => {
            if issue_types.len() == 0 {
                Workflow::Failed { cause: IssueCreateError::IssueTypesNotFound(draft.project_key) }
            } else {
                Workflow::SelectIssueType { draft, issue_types }
            }
        },
    }
}

/// Decides where the dialog goes once a line was picked.
pub fn chosen(draft: Draft, issue_types: Vec<IssueType>, selected: &str) -> (next: Workflow)
    ensures
        next@ == after_choice(draft@, issue_types.deep_view(), selected@),
{
    match resolve(&issue_types, selected) {
        Some(i) => Workflow::Confirm { draft, issue_type: issue_types[i].clone() },
        None => Workflow::Failed { cause: IssueCreateError::SelectOption },
    }
}

/// Decides how the dialog ends once the service has replied to the creation.
pub fn submitted(draft: Draft, result: Result<String, JiraClientError>) -> (next: Workflow)
    ensures
        next@ == after_submit(
            draft@,
            match result {
                Ok(issue_url) => Ok(issue_url@),
                Err(error) => Err(error@),
            },
        ),
{
    match result {
        Ok(issue_url) => Workflow::Succeeded { issue_url },
        Err(error) => Workflow::Failed {
            cause: IssueCreateError::JiraClient(draft.project_key, error),
        },
    }
}

/// Writes what the user is shown before the last question.
pub fn summarize(client: &JiraClient, draft: &Draft, issue_type: &IssueType) -> (summary: Summary)
    ensures
        summary@ == summary_of(client@, draft@, issue_type@),
{
    let project_name = match client.config().projects.get(draft.project_key.as_str()) {
        Some(name) => name.clone(),
        None => draft.project_key.clone(),
    };
    Summary {
        project_key: draft.project_key.clone(),
        project_name,
        title: draft.title.clone(),
        description: match &draft.description {
            Some(text) => Some(shorten(text.as_str(), SUMMARY_LIMIT, SUMMARY_LIMIT)),
            None => None,
        },
        issue_type: issue_type.name.clone(),
        issue_type_description: match &issue_type.description {
            Some(text) => Some(text.clone()),
            None => None,
        },
    }
}

impl Workflow {
    /// The state in which every run begins. A run is for a profile that is
    /// configured and knows a project.
    pub fn start(client: &JiraClient) -> (state: Workflow)
        requires
            client@.configured(),
            client@.projects.len() > 0,
        ensures
            state@ == WorkflowView::SelectProject,
    {
        Workflow::SelectProject
    }

    /// Tells whether the run has ended.
    pub fn is_done(&self) -> (done: bool)
        ensures
            done == (self@ is Succeeded || self@ is Failed),
    {
        match self {
            Workflow::Succeeded { .. } => true,
            Workflow::Failed { .. } => true,
            _ => false,
        }
    }

    /// What this state asks of whoever runs the dialog.
    pub fn action(&self, client: &JiraClient) -> (action: Action)
        ensures
            action@ == action_of(client@, self@),
    {
        match self {
            Workflow::SelectProject => Action::ChooseProject(client.config().projects.keys()),
            Workflow::EnterTitle { .. } => Action::AskTitle,
            Workflow::OptionalDescription { .. } => Action::AskWhetherDescription,
            Workflow::EnterDescription { .. } => Action::AskDescription,
            Workflow::FetchIssueTypes { draft } => Action::FetchIssueTypes(
                client.get_project_issue_types_request(draft.project_key.as_str()),
            ),
            Workflow::SelectIssueType { issue_types, .. } => Action::ChooseIssueType(
                issue_type_lines(issue_types),
            ),
            Workflow::Confirm { draft, issue_type } => Action::Confirm(
                summarize(client, draft, issue_type),
            ),
            Workflow::Submit { draft, issue_type } => {
                let description: Option<&str> = match &draft.description {
                    Some(text) => Some(text.as_str()),
                    None => None,
                };
                Action::CreateIssue(
                    client.create_issue_request(
                        draft.project_key.as_str(),
                        draft.title.as_str(),
                        description,
                        issue_type.id.as_str(),
                    ),
                )
            },
            Workflow::Succeeded { issue_url } => Action::Finish(Ok(issue_url.clone())),
            Workflow::Failed { cause } => Action::Finish(Err(cause.clone())),
        }
    }

    /// The state that follows this one when `event` happens, given whether
    /// the text that the event brings is blank.
    pub fn advance(self, client: &JiraClient, event: Event, blank_text: bool) -> (next: Workflow)
        ensures
            next@ == advanced(client@, self@, event@, blank_text),
    {
        match self {
            Workflow::SelectProject => match event {
                Event::Chosen(key) => {
                    if client.config().projects.contains_key(key.as_str()) {
                        Workflow::EnterTitle { project_key: key }
                    } else {
                        Workflow::SelectProject
                    }
                },
                _ => Workflow::SelectProject,
            },
            Workflow::EnterTitle { project_key } => match event {
                Event::Text(text) => {
                    if blank_text {
                        Workflow::EnterTitle { project_key }
                    } else {
                        Workflow::OptionalDescription { project_key, title: text }
                    }
                },
                _ => Workflow::EnterTitle { project_key },
            },
            Workflow::OptionalDescription { project_key, title } => match event {
                Event::Answer(yes) => {
                    if yes {
                        Workflow::EnterDescription { project_key, title }
                    } else {
                        Workflow::FetchIssueTypes {
                            draft: Draft { project_key, title, description: None },
                        }
                    }
                },
                _ => Workflow::OptionalDescription { project_key, title },
            },
            Workflow::EnterDescription { project_key, title } => match event {
                Event::Text(text) => {
                    let description = if blank_text {
                        None
                    } else {
                        Some(text)
                    };
                    Workflow::FetchIssueTypes { draft: Draft { project_key, title, description } }
                },
                _ => Workflow::EnterDescription { project_key, title },
            },
            Workflow::FetchIssueTypes { draft } => match event {
                Event::IssueTypes(reply) => fetched(draft, get_project_issue_types(reply)),
                _ => Workflow::FetchIssueTypes { draft },
            },
            Workflow::SelectIssueType { draft, issue_types } => match event {
                Event::Chosen(selected) => chosen(draft, issue_types, selected.as_str()),
                _ => Workflow::SelectIssueType { draft, issue_types },
            },
            Workflow::Confirm { draft, issue_type } => match event {
                Event::Answer(yes) => {
                    if yes {
                        Workflow::Submit { draft, issue_type }
                    } else {
                        Workflow::Failed { cause: IssueCreateError::Canceled }
                    }
                },
                _ => Workflow::Confirm { draft, issue_type },
            },
            Workflow::Submit { draft, issue_type } => match event {
                Event::Created(reply) => submitted(draft, create_issue(client, reply)),
                _ => Workflow::Submit { draft, issue_type },
            },
            Workflow::Succeeded { issue_url } => Workflow::Succeeded { issue_url },
            Workflow::Failed { cause } => Workflow::Failed { cause },
        }
    }

    /// The state that follows this one when `event` happens.
    pub fn step(self, client: &JiraClient, event: Event) -> (next: Workflow)
        ensures
            next@ == next_state(client@, self@, event@),
    {
        let blank_text = match &event {
            Event::Text(text) => is_blank(text.as_str()),
            _ => false,
        };
        self.advance(client, event, blank_text)
    }
}

} // verus!
