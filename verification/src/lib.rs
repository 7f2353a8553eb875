//! Guided creation of Jira issues from a terminal.
//!
//! The library holds what is decided and what is written: the connection
//! profile, the requests that the client sends and how it reads the replies,
//! and the dialogs as machines of states and events. It sends nothing and
//! asks nothing itself; a program around it shows the prompts, performs the
//! requests and keeps the profile on disk.

pub mod config;
pub mod jira_client;
pub mod json;
pub mod projects;
pub mod selection;
pub mod setup;
pub mod status;
pub mod text;
pub mod workflow;
