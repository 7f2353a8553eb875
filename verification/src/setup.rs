//! The two dialogs that change the profile: the one that sets address,
//! caller and token, and the one that adds a project. Each is a machine
//! that takes one line of text after another and keeps asking until a
//! line will do.

use crate::config::{Config, ConfigView};
use crate::projects::put;
use crate::text::{blank, is_blank};
use vstd::prelude::*;

verus! {

/// Whether `s` is an address that `validator` accepts as a URL.
pub uninterp spec fn valid_url(s: Seq<char>) -> bool;

/// Whether `s` is an address that `validator` accepts as that of a mailbox.
pub uninterp spec fn valid_email(s: Seq<char>) -> bool;

/// Checks an address by `validator::ValidateUrl::validate_url`, which says
/// whether the `url` crate can parse the text as an absolute URL. The answer
/// depends on the text alone and is named `valid_url`. A text without a
/// scheme is not parsed, so an accepted text is not empty.
#[verifier::external_body]
fn accepts_url(s: &str) -> (ok: bool)
    ensures
        ok == valid_url(s@),
        ok ==> s@.len() > 0,
{
    validator::ValidateUrl::validate_url(s)
}

/// Checks an address by `validator::ValidateEmail::validate_email`, which
/// goes by the form that HTML asks of a mail address. The answer depends on
/// the text alone and is named `valid_email`. The function refuses an empty
/// text before anything else.
#[verifier::external_body]
fn accepts_email(s: &str) -> (ok: bool)
    ensures
        ok == valid_email(s@),
        ok ==> s@.len() > 0,
{
    validator::ValidateEmail::validate_email(&s)
}

/// Where the dialog that sets up the connection stands.
#[derive(Debug, PartialEq, Eq)]
pub enum Setup {
    /// The address of the service is asked for.
    EnterUrl,
    /// The mail address of the caller is asked for.
    EnterEmail { jira_url: String },
    /// The token is asked for.
    EnterToken { jira_url: String, email: String },
    /// All three are in.
    Done { jira_url: String, email: String, api_token: String },
}

/// A state of the setup as plain values.
pub enum SetupView {
    EnterUrl,
    EnterEmail { jira_url: Seq<char> },
    EnterToken { jira_url: Seq<char>, email: Seq<char> },
    Done { jira_url: Seq<char>, email: Seq<char>, api_token: Seq<char> },
}

impl View for Setup {
    type V = SetupView;

    open spec fn view(&self) -> SetupView {
        match self {
            Setup::EnterUrl => SetupView::EnterUrl,
            Setup::EnterEmail { jira_url } => SetupView::EnterEmail { jira_url: jira_url@ },
            Setup::EnterToken { jira_url, email } => SetupView::EnterToken {
                jira_url: jira_url@,
                email: email@,
            },
            Setup::Done { jira_url, email, api_token } => SetupView::Done {
                jira_url: jira_url@,
                email: email@,
                api_token: api_token@,
            },
        }
    }
}

/// Whether `text` will do as the answer that `state` asks for: an address
/// must be a URL, a mail address must be one, a token must not be blank.
pub open spec fn acceptable(state: SetupView, text: Seq<char>) -> bool {
    match state {
        SetupView::EnterUrl => valid_url(text),
        SetupView::EnterEmail { .. } => valid_email(text),
        SetupView::EnterToken { .. } => !blank(text),
        SetupView::Done { .. } => false,
    }
}

/// The state that follows when the user has written `text`, given whether
/// the text will do: the next question where it will, the same question
/// where it will not.
pub open spec fn setup_advanced(state: SetupView, text: Seq<char>, accepted: bool) -> SetupView {
    if accepted {
        match state {
            SetupView::EnterUrl => SetupView::EnterEmail { jira_url: text },
            SetupView::EnterEmail { jira_url } => SetupView::EnterToken { jira_url, email: text },
            SetupView::EnterToken { jira_url, email } => SetupView::Done {
                jira_url,
                email,
                api_token: text,
            },
            SetupView::Done { .. } => state,
        }
    } else {
        state
    }
}

/// The state that follows when the user has written `text`.
pub open spec fn setup_next(state: SetupView, text: Seq<char>) -> SetupView {
    setup_advanced(state, text, acceptable(state, text))
}

/// The answers of a state are in order: the address is a URL, the mail
/// address is one, and the token is not blank.
pub open spec fn setup_in_order(state: SetupView) -> bool {
    match state {
        SetupView::EnterUrl => true,
        SetupView::EnterEmail { jira_url } => valid_url(jira_url) && jira_url.len() > 0,
        SetupView::EnterToken { jira_url, email } => valid_url(jira_url) && jira_url.len() > 0
            && valid_email(email) && email.len() > 0,
        SetupView::Done { jira_url, email, api_token } => valid_url(jira_url) && jira_url.len() > 0
            && valid_email(email) && email.len() > 0 && !blank(api_token),
    }
}

/// The profile that the setup leads to: the three answers, and the projects
/// of the profile that was there before.
pub open spec fn setup_result(state: SetupView, previous: ConfigView) -> Option<ConfigView> {
    match state {
        SetupView::Done { jira_url, email, api_token } => Some(
            ConfigView { jira_url, email, api_token, projects: previous.projects },
        ),
        _ => None,
    }
}

/// The profile that a setup in order leads to is configured.
pub proof fn lemma_setup_configures(state: SetupView, previous: ConfigView)
    requires
        setup_in_order(state),
    ensures
        setup_result(state, previous) matches Some(config) ==> config.configured()
            && config.projects == previous.projects,
{
}

impl Setup {
    /// The state in which the setup begins.
    pub fn start() -> (state: Setup)
        ensures
            state@ == SetupView::EnterUrl,
            setup_in_order(state@),
    {
        Setup::EnterUrl
    }

    /// The state that follows when the user has written `text`, given
    /// whether the text will do.
    pub fn advance(self, text: String, accepted: bool) -> (next: Setup)
        ensures
            next@ == setup_advanced(self@, text@, accepted),
    {
        if accepted {
            match self {
                Setup::EnterUrl => Setup::EnterEmail { jira_url: text },
                Setup::EnterEmail { jira_url } => Setup::EnterToken { jira_url, email: text },
                Setup::EnterToken { jira_url, email } => Setup::Done {
                    jira_url,
                    email,
                    api_token: text,
                },
                Setup::Done { jira_url, email, api_token } => Setup::Done {
                    jira_url,
                    email,
                    api_token,
                },
            }
        } else {
            self
        }
    }

    /// Tells whether `text` will do as the answer that this state asks for.
    pub fn accepts(&self, text: &str) -> (accepted: bool)
        ensures
            accepted == acceptable(self@, text@),
            accepted && (self@ is EnterUrl || self@ is EnterEmail) ==> text@.len() > 0,
    {
        match self {
            Setup::EnterUrl => accepts_url(text),
            Setup::EnterEmail { .. } => accepts_email(text),
            Setup::EnterToken { .. } => !is_blank(text),
            Setup::Done { .. } => false,
        }
    }

    /// The state that follows when the user has written `text`.
    pub fn step(self, text: String) -> (next: Setup)
        ensures
            next@ == setup_next(self@, text@),
            setup_in_order(self@) ==> setup_in_order(next@),
    {
        let accepted = self.accepts(text.as_str());
        self.advance(text, accepted)
    }

    /// The profile that the setup has led to, once it is done: the three
    /// answers, with the projects of `previous`.
    pub fn into_config(self, previous: &Config) -> (config: Option<Config>)
        ensures
            match config {
                Some(c) => setup_result(self@, previous@) == Some(c@),
                None => setup_result(self@, previous@) is None,
            },
    {
        match self {
            Setup::Done { jira_url, email, api_token } => Some(
                Config::new(jira_url, email, api_token, previous.projects.clone()),
            ),
            _ => None,
        }
    }
}

/// Where the dialog that adds a project stands.
#[derive(Debug, PartialEq, Eq)]
pub enum AddProject {
    /// The key of the project is asked for.
    EnterKey,
    /// The name to show for the project is asked for.
    EnterName { project_key: String },
    /// Both are in.
    Done { project_key: String, project_name: String },
}

/// A state of the addition as plain values.
pub enum AddProjectView {
    EnterKey,
    EnterName { project_key: Seq<char> },
    Done { project_key: Seq<char>, project_name: Seq<char> },
}

impl View for AddProject {
    type V = AddProjectView;

    open spec fn view(&self) -> AddProjectView {
        match self {
            AddProject::EnterKey => AddProjectView::EnterKey,
            AddProject::EnterName { project_key } => AddProjectView::EnterName {
                project_key: project_key@,
            },
            AddProject::Done { project_key, project_name } => AddProjectView::Done {
                project_key: project_key@,
                project_name: project_name@,
            },
        }
    }
}

/// The state that follows when the user has written `text`, given whether
/// the text is blank: a blank text leaves the question as it is.
pub open spec fn add_project_advanced(
    state: AddProjectView,
    text: Seq<char>,
    blank_text: bool,
) -> AddProjectView {
    if blank_text {
        state
    } else {
        match state {
            AddProjectView::EnterKey => AddProjectView::EnterName { project_key: text },
            AddProjectView::EnterName { project_key } => AddProjectView::Done {
                project_key,
                project_name: text,
            },
            AddProjectView::Done { .. } => state,
        }
    }
}

/// The state that follows when the user has written `text`.
pub open spec fn add_project_next(state: AddProjectView, text: Seq<char>) -> AddProjectView {
    add_project_advanced(state, text, blank(text))
}

/// The profile that the addition leads to: `previous` with the project
/// under its key, in place of one that had the key before.
pub open spec fn add_project_result(state: AddProjectView, previous: ConfigView) -> Option<
    ConfigView,
> {
    match state {
        AddProjectView::Done { project_key, project_name } => Some(
            ConfigView {
                jira_url: previous.jira_url,
                email: previous.email,
                api_token: previous.api_token,
                projects: put(previous.projects, project_key, project_name),
            },
        ),
        _ => None,
    }
}

impl AddProject {
    /// The state in which the addition begins.
    pub fn start() -> (state: AddProject)
        ensures
            state@ == AddProjectView::EnterKey,
    {
        AddProject::EnterKey
    }

    /// The state that follows when the user has written `text`, given
    /// whether the text is blank.
    pub fn advance(self, text: String, blank_text: bool) -> (next: AddProject)
        ensures
            next@ == add_project_advanced(self@, text@, blank_text),
    {
        if blank_text {
            self
        } else {
            match self {
                AddProject::EnterKey => AddProject::EnterName { project_key: text },
                AddProject::EnterName { project_key } => AddProject::Done {
                    project_key,
                    project_name: text,
                },
                AddProject::Done { project_key, project_name } => AddProject::Done {
                    project_key,
                    project_name,
                },
            }
        }
    }

    /// The state that follows when the user has written `text`.
    pub fn step(self, text: String) -> (next: AddProject)
        ensures
            next@ == add_project_next(self@, text@),
    {
        let blank_text = is_blank(text.as_str());
        self.advance(text, blank_text)
    }

    /// The profile that the addition has led to, once it is done.
    pub fn into_config(self, previous: &Config) -> (config: Option<Config>)
        ensures
            match config {
                Some(c) => add_project_result(self@, previous@) == Some(c@),
                None => add_project_result(self@, previous@) is None,
            },
    {
        match self {
            AddProject::Done { project_key, project_name } => {
                let mut projects = previous.projects.clone();
                projects.insert(project_key, project_name);
                Some(
                    Config::new(
                        previous.jira_url.clone(),
                        previous.email.clone(),
                        previous.api_token.clone(),
                        projects,
                    ),
                )
            },
            _ => None,
        }
    }
}

} // verus!
