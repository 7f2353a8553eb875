//! The client of the issue service: the requests it sends and how it reads
//! what comes back. It sends nothing itself; whoever holds the connection
//! performs a `Request` and hands back a `Reply`.

use crate::config::{base_url, browse_url, Config, ConfigView};
use crate::json::{json_string, quote};
use crate::status::{status_line, success_code, StatusCode};
use crate::text::join;
use vstd::prelude::*;

verus! {

/// A kind of issue that a project accepts.
#[derive(Debug, PartialEq, Eq)]
pub struct IssueType {
    /// The handle the service knows the kind by.
    pub id: String,
    /// The label shown for it.
    pub name: String,
    /// What the kind is for, where the service says so.
    pub description: Option<String>,
}

/// A kind of issue as plain values.
pub struct IssueTypeView {
    pub id: Seq<char>,
    pub name: Seq<char>,
    pub description: Option<Seq<char>>,
}

impl View for IssueType {
    type V = IssueTypeView;

    open spec fn view(&self) -> IssueTypeView {
        IssueTypeView {
            id: self.id@,
            name: self.name@,
            description: self.description.deep_view(),
        }
    }
}

impl DeepView for IssueType {
    type V = IssueTypeView;

    open spec fn deep_view(&self) -> IssueTypeView {
        self@
    }
}

impl Clone for IssueType {
    fn clone(&self) -> (copy: Self)
        ensures
            copy@ == self@,
    {
        IssueType {
            id: self.id.clone(),
            name: self.name.clone(),
            description: match &self.description {
                Some(text) => Some(text.clone()),
                None => None,
            },
        }
    }
}

/// One page of the kinds of issue of a project, as the service sends it.
#[derive(Debug, PartialEq, Eq)]
pub struct IssueTypesResponse {
    pub max_results: i32,
    pub start_at: i32,
    pub total: i32,
    pub is_last: bool,
    pub values: Vec<IssueType>,
}

/// A page of kinds of issue as plain values.
pub struct IssueTypesResponseView {
    pub max_results: i32,
    pub start_at: i32,
    pub total: i32,
    pub is_last: bool,
    pub values: Seq<IssueTypeView>,
}

impl View for IssueTypesResponse {
    type V = IssueTypesResponseView;

    open spec fn view(&self) -> IssueTypesResponseView {
        IssueTypesResponseView {
            max_results: self.max_results,
            start_at: self.start_at,
            total: self.total,
            is_last: self.is_last,
            values: self.values.deep_view(),
        }
    }
}

/// What the service sends when it has created an issue.
#[derive(Debug, PartialEq, Eq)]
pub struct CreateIssueResponse {
    /// The key of the new issue.
    pub key: String,
}

/// The answer to a creation as plain values.
pub struct CreateIssueResponseView {
    pub key: Seq<char>,
}

impl View for CreateIssueResponse {
    type V = CreateIssueResponseView;

    open spec fn view(&self) -> CreateIssueResponseView {
        CreateIssueResponseView { key: self.key@ }
    }
}

/// What can go wrong with one call of the service.
#[derive(Debug, PartialEq, Eq)]
pub enum JiraClientError {
    /// The request did not reach the service; the text says why.
    Request(String),
    /// The service answered, but not with a success: its status and what it said.
    Response(StatusCode, String),
    /// The service answered with a success that could not be read.
    Parse,
}

/// An error of the client as plain values.
pub enum JiraClientErrorView {
    Request(Seq<char>),
    Response(u16, Seq<char>),
    Parse,
}

/// A refusal in words, given the line that stands for its status.
pub open spec fn refusal_text(status: Seq<char>, said: Seq<char>) -> Seq<char> {
    "Bad response, status: "@ + status + ", text: "@ + said
}

/// The error in words.
pub open spec fn error_text(error: JiraClientErrorView) -> Seq<char> {
    match error {
        JiraClientErrorView::Request(detail) => "Jira Client request error: "@ + detail,
        JiraClientErrorView::Response(status, said) => refusal_text(status_line(status), said),
        JiraClientErrorView::Parse => "Parse response error"@,
    }
}

impl View for JiraClientError {
    type V = JiraClientErrorView;

    open spec fn view(&self) -> JiraClientErrorView {
        match self {
            JiraClientError::Request(detail) => JiraClientErrorView::Request(detail@),
            JiraClientError::Response(status, text) => JiraClientErrorView::Response(
                status@,
                text@,
            ),
            JiraClientError::Parse => JiraClientErrorView::Parse,
        }
    }
}

/// Says in words that the service refused, given the line that stands for
/// the status of its answer, and what it said.
pub fn refusal_message(status: &str, said: &str) -> (text: String)
    ensures
        text@ == refusal_text(status@, said@),
{
    let mut text = join("Bad response, status: ", status);
    text.append(", text: ");
    text.append(said);
    text
}

impl JiraClientError {
    /// The error in words.
    pub fn message(&self) -> (text: String)
        ensures
            text@ == error_text(self@),
    {
        match self {
            JiraClientError::Request(detail) => join(
                "Jira Client request error: ",
                detail.as_str(),
            ),
            JiraClientError::Response(status, said) => refusal_message(
                status.text().as_str(),
                said.as_str(),
            ),
            JiraClientError::Parse => String::from_str("Parse response error"),
        }
    }
}

impl Clone for JiraClientError {
    fn clone(&self) -> (copy: Self)
        ensures
            copy@ == self@,
    {
        match self {
            JiraClientError::Request(detail) => JiraClientError::Request(detail.clone()),
            JiraClientError::Response(status, said) => JiraClientError::Response(
                status.clone(),
                said.clone(),
            ),
            JiraClientError::Parse => JiraClientError::Parse,
        }
    }
}

/// How a request asks.
#[derive(Debug, Clone, Copy, PartialEq, Eq, Structural)]
pub enum Method {
    Get,
    Post,
}

/// A request for the service, ready to be sent.
#[derive(Debug, PartialEq, Eq)]
pub struct Request {
    pub method: Method,
    /// The full address.
    pub url: String,
    /// The headers, each a name and a value, in the order to set them.
    pub headers: Vec<(String, String)>,
    /// The body, where the request has one.
    pub body: Option<String>,
}

/// A request as plain values.
pub struct RequestView {
    pub method: Method,
    pub url: Seq<char>,
    pub headers: Seq<(Seq<char>, Seq<char>)>,
    pub body: Option<Seq<char>>,
}

impl View for Request {
    type V = RequestView;

    open spec fn view(&self) -> RequestView {
        RequestView {
            method: self.method,
            url: self.url@,
            headers: self.headers.deep_view(),
            body: self.body.deep_view(),
        }
    }
}

/// What was read of the body of an answer.
#[derive(Debug, PartialEq, Eq)]
pub enum Body<T> {
    /// Nothing: the body was not asked for, or could not be read as asked.
    Nothing,
    /// The body as text.
    Text(String),
    /// The body read as the value that a success carries.
    Payload(T),
}

/// What came back for a request.
#[derive(Debug, PartialEq, Eq)]
pub enum Reply<T> {
    /// No answer: the request failed on the way, and the text says how.
    Unsent(String),
    /// An answer, with its status and what was read of its body.
    Answered(StatusCode, Body<T>),
}

/// A body as plain values.
pub enum BodyView<P> {
    Nothing,
    Text(Seq<char>),
    Payload(P),
}

/// A reply as plain values.
pub enum ReplyView<P> {
    Unsent(Seq<char>),
    Answered(u16, BodyView<P>),
}

impl<T: View> View for Body<T> {
    type V = BodyView<T::V>;

    open spec fn view(&self) -> BodyView<T::V> {
        match self {
            Body::Nothing => BodyView::Nothing,
            Body::Text(text) => BodyView::Text(text@),
            Body::Payload(value) => BodyView::Payload(value@),
        }
    }
}

impl<T: View> View for Reply<T> {
    type V = ReplyView<T::V>;

    open spec fn view(&self) -> ReplyView<T::V> {
        match self {
            Reply::Unsent(detail) => ReplyView::Unsent(detail@),
            Reply::Answered(status, body) => ReplyView::Answered(status@, body@),
        }
    }
}

/// The header value that carries the token.
pub open spec fn bearer(api_token: Seq<char>) -> Seq<char> {
    "Bearer "@ + api_token
}

/// The JSON object that asks for a new issue, given its four values as JSON
/// already: the object has one member, `fields`, which holds the project by
/// its key, the summary, the description and the kind of issue by its handle.
pub open spec fn issue_frame(
    project_key: Seq<char>,
    summary: Seq<char>,
    description: Seq<char>,
    issue_type_id: Seq<char>,
) -> Seq<char> {
    "{\"fields\":{\"project\":{\"key\":"@ + project_key + "},\"summary\":"@ + summary
        + ",\"description\":"@ + description + ",\"issuetype\":{\"id\":"@ + issue_type_id
        + "}}}"@
}

/// The body that asks for a new issue: the frame, with each of the four texts
/// as a JSON string.
pub open spec fn issue_document(
    project_key: Seq<char>,
    summary: Seq<char>,
    description: Seq<char>,
    issue_type_id: Seq<char>,
) -> Seq<char> {
    issue_frame(
        json_string(project_key),
        json_string(summary),
        json_string(description),
        json_string(issue_type_id),
    )
}

/// The request that asks the service who the caller is.
pub open spec fn connection_request(config: ConfigView) -> RequestView {
    RequestView {
        method: Method::Get,
        url: base_url(config.jira_url) + "/rest/api/2/myself"@,
        headers: seq![("Authorization"@, bearer(config.api_token))],
        body: None,
    }
}

/// The request that asks for the kinds of issue of the project `project_key`.
pub open spec fn issue_types_request(config: ConfigView, project_key: Seq<char>) -> RequestView {
    RequestView {
        method: Method::Get,
        url: base_url(config.jira_url) + "/rest/api/2/issue/createmeta/"@ + project_key
            + "/issuetypes"@,
        headers: seq![("Authorization"@, bearer(config.api_token))],
        body: None,
    }
}

/// The request that creates an issue. An issue without a description is sent
/// with an empty one.
pub open spec fn creation_request(
    config: ConfigView,
    project_key: Seq<char>,
    summary: Seq<char>,
    description: Option<Seq<char>>,
    issue_type_id: Seq<char>,
) -> RequestView {
    RequestView {
        method: Method::Post,
        url: base_url(config.jira_url) + "/rest/api/2/issue"@,
        headers: seq![
            ("Authorization"@, bearer(config.api_token)),
            ("Content-Type"@, "application/json"@),
        ],
        body: Some(
            issue_document(
                project_key,
                summary,
                match description {
                    Some(text) => text,
                    None => Seq::empty(),
                },
                issue_type_id,
            ),
        ),
    }
}

/// The text of a body; a body that was not read as text counts as empty.
pub open spec fn body_text<P>(body: BodyView<P>) -> Seq<char> {
    match body {
        BodyView::Text(text) => text,
        _ => Seq::empty(),
    }
}

/// The error that a reply stands for, if it stands for one whatever its body
/// holds: no answer at all, or an answer whose status is not a success.
pub open spec fn refusal<P>(reply: ReplyView<P>) -> Option<JiraClientErrorView> {
    match reply {
        ReplyView::Unsent(detail) => Some(JiraClientErrorView::Request(detail)),
        ReplyView::Answered(status, body) => if success_code(status as int) {
            None
        } else {
            Some(JiraClientErrorView::Response(status, body_text(body)))
        },
    }
}

/// The value that a reply carries.
pub open spec fn payload<P>(reply: ReplyView<P>) -> Option<P> {
    match reply {
        ReplyView::Answered(_, BodyView::Payload(value)) => Some(value),
        _ => None,
    }
}

/// What a reply means: the error it stands for, else the value it carries,
/// else that it could not be read.
pub open spec fn outcome<P>(reply: ReplyView<P>) -> Result<P, JiraClientErrorView> {
    match refusal(reply) {
        Some(error) => Err(error),
        None => match payload(reply) {
            Some(value) => Ok(value),
            None => Err(JiraClientErrorView::Parse),
        },
    }
}

/// What the reply to a connection check means. Any success will do, whatever
/// its body.
pub open spec fn connection_outcome<P>(reply: ReplyView<P>) -> Result<(), JiraClientErrorView> {
    match refusal(reply) {
        Some(error) => Err(error),
        None => Ok(()),
    }
}

/// What the reply to a request for kinds of issue means. A page without any
/// kind is a success like another.
pub open spec fn issue_types_outcome(reply: ReplyView<IssueTypesResponseView>) -> Result<
    Seq<IssueTypeView>,
    JiraClientErrorView,
> {
    match outcome(reply) {
        Ok(page) => Ok(page.values),
        Err(error) => Err(error),
    }
}

/// What the reply to a creation means: on success, the address of the new issue.
pub open spec fn creation_outcome(
    config: ConfigView,
    reply: ReplyView<CreateIssueResponseView>,
) -> Result<Seq<char>, JiraClientErrorView> {
    match outcome(reply) {
        Ok(created) => Ok(browse_url(config.jira_url, created.key)),
        Err(error) => Err(error),
    }
}

/// An answer whose status is not a success is an error of the service, with
/// that status and what the service said, whatever was asked; an answer whose
/// status is a success is never one.
pub proof fn lemma_refused<P>(status: u16, body: BodyView<P>)
    ensures
        !success_code(status as int) ==> outcome(ReplyView::Answered(status, body)) == Err::<
            P,
            JiraClientErrorView,
        >(JiraClientErrorView::Response(status, body_text(body))),
        !success_code(status as int) ==> connection_outcome(ReplyView::Answered(status, body))
            == Err::<(), JiraClientErrorView>(
            JiraClientErrorView::Response(status, body_text(body)),
        ),
        success_code(status as int) ==> connection_outcome(ReplyView::Answered(status, body))
            == Ok::<(), JiraClientErrorView>(()),
        success_code(status as int) ==> !(outcome(ReplyView::Answered(status, body)) matches Err(
            JiraClientErrorView::Response(_, _),
        )),
{
}

/// The client of one profile.
#[derive(Debug)]
pub struct JiraClient {
    config: Config,
    auth_header: String,
}

impl View for JiraClient {
    type V = ConfigView;

    closed spec fn view(&self) -> ConfigView {
        self.config@
    }
}

impl JiraClient {
    #[verifier::type_invariant]
    spec fn header_of_token(&self) -> bool {
        self.auth_header@ == bearer(self.config@.api_token)
    }

    /// The client for `config`. It derives the header that carries the token
    /// once, here.
    pub fn new(config: &Config) -> (client: Self)
        ensures
            client@ == config@,
    {
        let auth_header = join("Bearer ", config.api_token.as_str());
        JiraClient { config: config.clone(), auth_header }
    }

    /// The profile of the client.
    pub fn config(&self) -> (config: &Config)
        ensures
            config@ == self@,
    {
        &self.config
    }

    /// The header value that carries the token, as every request has it.
    pub fn auth_header(&self) -> (value: &str)
        ensures
            value@ == bearer(self@.api_token),
    {
        proof {
            use_type_invariant(self);
        }
        self.auth_header.as_str()
    }

    fn authorization(&self) -> (header: (String, String))
        ensures
            header.deep_view() == ("Authorization"@, bearer(self@.api_token)),
    {
        (String::from_str("Authorization"), String::from_str(self.auth_header()))
    }

    /// The request of a connection check.
    pub fn test_connection_request(&self) -> (request: Request)
        ensures
            request@ == connection_request(self@),
    {
        let url = join(self.config.base(), "/rest/api/2/myself");
        let mut headers: Vec<(String, String)> = Vec::new();
        headers.push(self.authorization());
        let request = Request { method: Method::Get, url, headers, body: None };
        assert(request@.headers =~= connection_request(self@).headers);
        request
    }

    /// The request for the kinds of issue of the project `project_key`.
    pub fn get_project_issue_types_request(&self, project_key: &str) -> (request: Request)
        ensures
            request@ == issue_types_request(self@, project_key@),
    {
        let mut url = join(self.config.base(), "/rest/api/2/issue/createmeta/");
        url.append(project_key);
        url.append("/issuetypes");
        let mut headers: Vec<(String, String)> = Vec::new();
        headers.push(self.authorization());
        let request = Request { method: Method::Get, url, headers, body: None };
        assert(request@.headers =~= issue_types_request(self@, project_key@).headers);
        request
    }

    /// The request that creates an issue.
    pub fn create_issue_request(
        &self,
        project_key: &str,
        summary: &str,
        description: Option<&str>,
        issue_type_id: &str,
    ) -> (request: Request)
        ensures
            request@ == creation_request(
                self@,
                project_key@,
                summary@,
                description.deep_view(),
                issue_type_id@,
            ),
    {
        let url = join(self.config.base(), "/rest/api/2/issue");
        let description_content = match description {
            Some(text) => text,
            None => "",
        };
        proof {
            reveal_strlit("");
            assert(description_content@ =~= match description {
                Some(text) => text@,
                None => Seq::empty(),
            });
        }
        let body = issue_body(project_key, summary, description_content, issue_type_id);
        let mut headers: Vec<(String, String)> = Vec::new();
        headers.push(self.authorization());
        headers.push((String::from_str("Content-Type"), String::from_str("application/json")));
        let request = Request { method: Method::Post, url, headers, body: Some(body) };
        assert(request@.headers =~= creation_request(
            self@,
            project_key@,
            summary@,
            description.deep_view(),
            issue_type_id@,
        ).headers);
        request
    }
}

/// Writes the JSON object that asks for a new issue around its four values,
/// each of which is JSON already.
pub fn frame_issue(
    project_key: &str,
    summary: &str,
    description: &str,
    issue_type_id: &str,
) -> (body: String)
    ensures
        body@ == issue_frame(project_key@, summary@, description@, issue_type_id@),
{
    let mut body = join("{\"fields\":{\"project\":{\"key\":", project_key);
    body.append("},\"summary\":");
    body.append(summary);
    body.append(",\"description\":");
    body.append(description);
    body.append(",\"issuetype\":{\"id\":");
    body.append(issue_type_id);
    body.append("}}}");
    body
}

/// Writes the body that asks for a new issue.
pub fn issue_body(
    project_key: &str,
    summary: &str,
    description: &str,
    issue_type_id: &str,
) -> (body: String)
    ensures
        body@ == issue_document(project_key@, summary@, description@, issue_type_id@),
{
    frame_issue(
        quote(project_key).as_str(),
        quote(summary).as_str(),
        quote(description).as_str(),
        quote(issue_type_id).as_str(),
    )
}

/// Reads a reply as far as all calls read it alike: the error it stands for,
/// or else the value it carries, if any.
fn settle<T: View>(reply: Reply<T>) -> (settled: Result<Option<T>, JiraClientError>)
    ensures
        match settled {
            Err(error) => refusal(reply@) == Some(error@),
            Ok(Some(value)) => refusal(reply@) is None && payload(reply@) == Some(value@),
            Ok(None) => refusal(reply@) is None && payload(reply@) is None,
        },
{
    match reply {
        Reply::Unsent(detail) => Err(JiraClientError::Request(detail)),
        Reply::Answered(status, body) => {
            if status.is_success() {
                match body {
                    Body::Payload(value) => Ok(Some(value)),
                    _ => Ok(None),
                }
            } else {
                let said = match body {
                    Body::Text(text) => text,
                    _ => String::new(),
                };
                Err(JiraClientError::Response(status, said))
            }
        },
    }
}

/// Reads the reply to a connection check.
pub fn test_connection<T: View>(reply: Reply<T>) -> (result: Result<(), JiraClientError>)
    ensures
        match result {
            Ok(_) => connection_outcome(reply@) is Ok,
            Err(error) => connection_outcome(reply@) == Err::<(), JiraClientErrorView>(error@),
        },
{
    match settle(reply) {
        Ok(_) => Ok(()),
        Err(error) => Err(error),
    }
}

/// Reads the reply to a request for the kinds of issue of a project.
pub fn get_project_issue_types(
    reply: Reply<IssueTypesResponse>,
) -> (result: Result<Vec<IssueType>, JiraClientError>)
    ensures
        match result {
            Ok(types) => issue_types_outcome(reply@) == Ok::<
                Seq<IssueTypeView>,
                JiraClientErrorView,
            >(types.deep_view()),
            Err(error) => issue_types_outcome(reply@) == Err::<
                Seq<IssueTypeView>,
                JiraClientErrorView,
            >(error@),
        },
{
    match settle(reply) {
        Ok(Some(page)) => Ok(page.values),
        Ok(None) => Err(JiraClientError::Parse),
        Err(error) => Err(error),
    }
}

/// Reads the reply to a creation: on success, the address of the new issue.
pub fn create_issue(
    jira_client: &JiraClient,
    reply: Reply<CreateIssueResponse>,
) -> (result: Result<String, JiraClientError>)
    ensures
        match result {
            Ok(url) => creation_outcome(jira_client@, reply@) == Ok::<
                Seq<char>,
                JiraClientErrorView,
            >(url@),
            Err(error) => creation_outcome(jira_client@, reply@) == Err::<
                Seq<char>,
                JiraClientErrorView,
            >(error@),
        },
{
    match settle(reply) {
        Ok(Some(created)) => Ok(jira_client.config.issue_url(created.key.as_str())),
        Ok(None) => Err(JiraClientError::Parse),
        Err(error) => Err(error),
    }
}

} // verus!
