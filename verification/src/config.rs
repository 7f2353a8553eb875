//! The connection profile: where the service is, who calls it, and the
//! projects the caller works with.

use crate::projects::{Projects, Table};
use crate::text::{join, trim_end_matches, without_trailing};
use vstd::prelude::*;

verus! {

/// Why a stored profile could not be loaded.
#[derive(Debug, Clone, Copy, PartialEq, Eq, Structural)]
pub enum LoadConfigError {
    /// The file could not be read.
    Read,
    /// The file does not hold a profile.
    Deserialize,
}

/// Why a profile could not be stored.
#[derive(Debug, Clone, Copy, PartialEq, Eq, Structural)]
pub enum SaveConfigError {
    /// The directory for the file could not be made.
    CreateDir,
    /// The profile could not be written out as text.
    Serialize,
    /// The file could not be written.
    Save,
}

/// The sentence that says what `error` means.
pub open spec fn load_error_text(error: LoadConfigError) -> Seq<char> {
    match error {
        LoadConfigError::Read => "Failed to read config file"@,
        LoadConfigError::Deserialize => "Failed to deserialize config file"@,
    }
}

/// The sentence that says what `error` means.
pub open spec fn save_error_text(error: SaveConfigError) -> Seq<char> {
    match error {
        SaveConfigError::CreateDir => "Failed to create config directory"@,
        SaveConfigError::Serialize => "Failed to serialize config"@,
        SaveConfigError::Save => "Failed to save config file"@,
    }
}

impl LoadConfigError {
    /// The error in words.
    pub fn message(&self) -> (text: String)
        ensures
            text@ == load_error_text(*self),
    {
        match self {
            LoadConfigError::Read => String::from_str("Failed to read config file"),
            LoadConfigError::Deserialize => String::from_str("Failed to deserialize config file"),
        }
    }
}

impl SaveConfigError {
    /// The error in words.
    pub fn message(&self) -> (text: String)
        ensures
            text@ == save_error_text(*self),
    {
        match self {
            SaveConfigError::CreateDir => String::from_str("Failed to create config directory"),
            SaveConfigError::Serialize => String::from_str("Failed to serialize config"),
            SaveConfigError::Save => String::from_str("Failed to save config file"),
        }
    }
}

/// The connection profile.
#[derive(Debug)]
pub struct Config {
    /// The address of the service.
    pub jira_url: String,
    /// Who calls the service.
    pub email: String,
    /// The token that the service accepts from the caller.
    pub api_token: String,
    /// The projects the caller works with.
    pub projects: Projects,
}

/// A profile as plain values.
pub struct ConfigView {
    pub jira_url: Seq<char>,
    pub email: Seq<char>,
    pub api_token: Seq<char>,
    pub projects: Table,
}

impl ConfigView {
    /// A profile is configured when address, caller and token are all there.
    pub open spec fn configured(self) -> bool {
        self.jira_url.len() > 0 && self.email.len() > 0 && self.api_token.len() > 0
    }
}

/// The part of every address of the service that comes before the path: the
/// stored address without the slashes at its end.
pub open spec fn base_url(jira_url: Seq<char>) -> Seq<char> {
    without_trailing(jira_url, '/')
}

/// The address at which a person finds the issue `issue_key`.
pub open spec fn browse_url(jira_url: Seq<char>, issue_key: Seq<char>) -> Seq<char> {
    base_url(jira_url) + "/browse/"@ + issue_key
}

impl View for Config {
    type V = ConfigView;

    open spec fn view(&self) -> ConfigView {
        ConfigView {
            jira_url: self.jira_url@,
            email: self.email@,
            api_token: self.api_token@,
            projects: self.projects@,
        }
    }
}

impl Config {
    /// The profile made of the four parts.
    pub fn new(jira_url: String, email: String, api_token: String, projects: Projects) -> (config:
        Self)
        ensures
            config@ == (ConfigView {
                jira_url: jira_url@,
                email: email@,
                api_token: api_token@,
                projects: projects@,
            }),
    {
        Config { jira_url, email, api_token, projects }
    }

    /// Tells whether the profile is complete enough to call the service.
    pub fn is_configured(&self) -> (ready: bool)
        ensures
            ready == self@.configured(),
    {
        !self.jira_url.as_str().is_empty() && !self.email.as_str().is_empty()
            && !self.api_token.as_str().is_empty()
    }

    /// The address of the service without the slashes at its end.
    pub fn base(&self) -> (base: &str)
        ensures
            base@ == base_url(self@.jira_url),
    {
        trim_end_matches(self.jira_url.as_str(), '/')
    }

    /// The address at which a person finds the issue `issue_key`.
    pub fn issue_url(&self, issue_key: &str) -> (url: String)
        ensures
            url@ == browse_url(self@.jira_url, issue_key@),
    {
        let mut url = join(self.base(), "/browse/");
        url.append(issue_key);
        url
    }
}

impl Default for Config {
    /// The profile of someone who has configured nothing yet.
    fn default() -> (config: Self)
        ensures
            config@ == (ConfigView {
                jira_url: Seq::empty(),
                email: Seq::empty(),
                api_token: Seq::empty(),
                projects: Table::empty(),
            }),
    {
        Config {
            jira_url: String::new(),
            email: String::new(),
            api_token: String::new(),
            projects: Projects::new(),
        }
    }
}

impl Clone for Config {
    fn clone(&self) -> (copy: Self)
        ensures
            copy@ == self@,
    {
        Config {
            jira_url: self.jira_url.clone(),
            email: self.email.clone(),
            api_token: self.api_token.clone(),
            projects: self.projects.clone(),
        }
    }
}

} // verus!
