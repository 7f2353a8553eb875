use fast_task::config::Config;
use fast_task::jira_client::{
    create_issue, frame_issue, get_project_issue_types, issue_body, refusal_message,
    test_connection, Body, CreateIssueResponse, IssueType, IssueTypesResponse, JiraClient,
    JiraClientError, Method, Reply,
};
use fast_task::projects::Projects;
use fast_task::status::StatusCode;
use serde_json::Value;

fn client_of(url: &str, token: &str) -> JiraClient {
    let config = Config::new(
        url.to_string(),
        "me@example.com".to_string(),
        token.to_string(),
        Projects::new(),
    );
    JiraClient::new(&config)
}

fn status(code: u16) -> StatusCode {
    StatusCode::from_u16(code).unwrap()
}

fn bug() -> IssueType {
    IssueType { id: "10001".to_string(), name: "Bug".to_string(), description: None }
}

fn page(values: Vec<IssueType>) -> IssueTypesResponse {
    let total = values.len() as i32;
    IssueTypesResponse { max_results: 50, start_at: 0, total, is_last: true, values }
}

#[test]
fn status_codes_run_from_100_to_999() {
    assert!(StatusCode::from_u16(0).is_none());
    assert!(StatusCode::from_u16(99).is_none());
    assert_eq!(StatusCode::from_u16(100).map(|s| s.as_u16()), Some(100));
    assert_eq!(StatusCode::from_u16(401).map(|s| s.as_u16()), Some(401));
    assert_eq!(StatusCode::from_u16(999).map(|s| s.as_u16()), Some(999));
    assert!(StatusCode::from_u16(1000).is_none());
    assert!(StatusCode::from_u16(u16::MAX).is_none());
}

#[test]
fn success_is_200_to_299() {
    assert!(!status(100).is_success());
    assert!(!status(199).is_success());
    assert!(status(200).is_success());
    assert!(status(201).is_success());
    assert!(status(204).is_success());
    assert!(status(299).is_success());
    assert!(!status(300).is_success());
    assert!(!status(401).is_success());
    assert!(!status(500).is_success());
}

#[test]
fn status_text_has_number_and_reason() {
    assert_eq!(status(200).text(), "200 OK");
    assert_eq!(status(401).text(), "401 Unauthorized");
    assert_eq!(status(404).text(), "404 Not Found");
    assert_eq!(status(299).text(), "299 <unknown status code>");
}

#[test]
fn status_copy_is_equal() {
    assert_eq!(status(418).clone(), status(418));
}

#[test]
fn the_header_carries_the_token() {
    let client = client_of("https://jira.example.com", "tok-123");
    assert_eq!(client.auth_header(), "Bearer tok-123");
    assert_eq!(client.config().api_token, "tok-123");
    assert_eq!(client.config().jira_url, "https://jira.example.com");
    assert_eq!(client_of("u", "").auth_header(), "Bearer ");
}

#[test]
fn connection_request_asks_who_i_am() {
    let request = client_of("https://jira.example.com/", "t").test_connection_request();
    assert_eq!(request.method, Method::Get);
    assert_eq!(request.url, "https://jira.example.com/rest/api/2/myself");
    assert_eq!(request.headers, vec![("Authorization".to_string(), "Bearer t".to_string())]);
    assert_eq!(request.body, None);
}

#[test]
fn issue_types_request_names_the_project() {
    let request = client_of("https://jira.example.com", "t").get_project_issue_types_request("OPS");
    assert_eq!(request.method, Method::Get);
    assert_eq!(
        request.url,
        "https://jira.example.com/rest/api/2/issue/createmeta/OPS/issuetypes"
    );
    assert_eq!(request.headers, vec![("Authorization".to_string(), "Bearer t".to_string())]);
    assert_eq!(request.body, None);
}

#[test]
fn create_request_posts_json() {
    let request = client_of("https://jira.example.com", "t").create_issue_request(
        "OPS",
        "Disk full",
        Some("on host 7"),
        "10001",
    );
    assert_eq!(request.method, Method::Post);
    assert_eq!(request.url, "https://jira.example.com/rest/api/2/issue");
    assert_eq!(
        request.headers,
        vec![
            ("Authorization".to_string(), "Bearer t".to_string()),
            ("Content-Type".to_string(), "application/json".to_string()),
        ]
    );
    assert_eq!(
        request.body,
        Some(
            "{\"fields\":{\"project\":{\"key\":\"OPS\"},\"summary\":\"Disk full\",\
             \"description\":\"on host 7\",\"issuetype\":{\"id\":\"10001\"}}}"
                .to_string()
        )
    );
}

#[test]
fn a_missing_description_is_sent_empty() {
    let request =
        client_of("https://jira.example.com", "t").create_issue_request("OPS", "T", None, "1");
    let body: Value = serde_json::from_str(&request.body.unwrap()).unwrap();
    assert_eq!(body["fields"]["description"], Value::String(String::new()));
    assert_eq!(body["fields"]["summary"], Value::String("T".to_string()));
}

#[test]
fn the_body_is_json_whatever_the_texts_hold() {
    let summary = "say \"hi\" \\ then\nnew line\tand \u{1} ü";
    let text = issue_body("A\"B", summary, "{}", "i/d");
    let body: Value = serde_json::from_str(&text).unwrap();
    let fields = body["fields"].as_object().unwrap();
    assert_eq!(fields.len(), 4);
    assert_eq!(fields["project"]["key"].as_str(), Some("A\"B"));
    assert_eq!(fields["summary"].as_str(), Some(summary));
    assert_eq!(fields["description"].as_str(), Some("{}"));
    assert_eq!(fields["issuetype"]["id"].as_str(), Some("i/d"));
    assert_eq!(body.as_object().unwrap().len(), 1);
    assert_eq!(fields["project"].as_object().unwrap().len(), 1);
    assert_eq!(fields["issuetype"].as_object().unwrap().len(), 1);
}

#[test]
fn quotes_in_a_text_are_escaped() {
    assert_eq!(
        issue_body("p", "a\"b", "", "1"),
        "{\"fields\":{\"project\":{\"key\":\"p\"},\"summary\":\"a\\\"b\",\
         \"description\":\"\",\"issuetype\":{\"id\":\"1\"}}}"
    );
}

#[test]
fn connection_check_accepts_any_success() {
    assert_eq!(test_connection::<()>(Reply::Answered(status(200), Body::Nothing)), Ok(()));
    assert_eq!(
        test_connection::<()>(Reply::Answered(status(204), Body::Text("ignored".to_string()))),
        Ok(())
    );
    assert_eq!(test_connection(Reply::Answered(status(299), Body::Payload(7u8))), Ok(()));
}

#[test]
fn connection_check_reports_401_as_a_service_error() {
    let reply: Reply<()> = Reply::Answered(status(401), Body::Text("who are you".to_string()));
    assert_eq!(
        test_connection(reply),
        Err(JiraClientError::Response(status(401), "who are you".to_string()))
    );
}

#[test]
fn a_refusal_without_text_has_an_empty_text() {
    let reply: Reply<()> = Reply::Answered(status(500), Body::Nothing);
    assert_eq!(test_connection(reply), Err(JiraClientError::Response(status(500), String::new())));
    let reply = Reply::Answered(status(302), Body::Payload(1u8));
    assert_eq!(test_connection(reply), Err(JiraClientError::Response(status(302), String::new())));
}

#[test]
fn an_unsent_request_is_a_request_error() {
    let reply: Reply<()> = Reply::Unsent("connection refused".to_string());
    assert_eq!(
        test_connection(reply),
        Err(JiraClientError::Request("connection refused".to_string()))
    );
    assert_eq!(
        get_project_issue_types(Reply::Unsent("dns".to_string())),
        Err(JiraClientError::Request("dns".to_string()))
    );
    assert_eq!(
        create_issue(&client_of("u", "t"), Reply::Unsent("reset".to_string())),
        Err(JiraClientError::Request("reset".to_string()))
    );
}

#[test]
fn issue_types_come_from_the_page() {
    let story = IssueType {
        id: "10002".to_string(),
        name: "Story".to_string(),
        description: Some("A user story".to_string()),
    };
    let reply = Reply::Answered(status(200), Body::Payload(page(vec![bug(), story.clone()])));
    assert_eq!(get_project_issue_types(reply), Ok(vec![bug(), story]));
}

#[test]
fn an_empty_page_is_a_success() {
    let reply = Reply::Answered(status(200), Body::Payload(page(Vec::new())));
    assert_eq!(get_project_issue_types(reply), Ok(Vec::new()));
}

#[test]
fn a_success_that_cannot_be_read_is_a_parse_error() {
    assert_eq!(
        get_project_issue_types(Reply::Answered(status(200), Body::Nothing)),
        Err(JiraClientError::Parse)
    );
    assert_eq!(
        get_project_issue_types(Reply::Answered(status(200), Body::Text("<html>".to_string()))),
        Err(JiraClientError::Parse)
    );
    assert_eq!(
        create_issue(&client_of("u", "t"), Reply::Answered(status(201), Body::Nothing)),
        Err(JiraClientError::Parse)
    );
}

#[test]
fn a_refused_fetch_is_a_service_error() {
    let reply = Reply::Answered(status(404), Body::Text("no such project".to_string()));
    assert_eq!(
        get_project_issue_types(reply),
        Err(JiraClientError::Response(status(404), "no such project".to_string()))
    );
    let reply = Reply::Answered(status(403), Body::Payload(page(vec![bug()])));
    assert_eq!(
        get_project_issue_types(reply),
        Err(JiraClientError::Response(status(403), String::new()))
    );
}

#[test]
fn a_created_issue_gives_its_address() {
    let client = client_of("https://jira.example.com/", "t");
    let reply = Reply::Answered(
        status(201),
        Body::Payload(CreateIssueResponse { key: "OPS-42".to_string() }),
    );
    assert_eq!(create_issue(&client, reply), Ok("https://jira.example.com/browse/OPS-42".to_string()));
}

#[test]
fn a_refused_creation_is_a_service_error() {
    let client = client_of("https://jira.example.com", "t");
    let reply = Reply::Answered(status(400), Body::Text("{\"errors\":{}}".to_string()));
    assert_eq!(
        create_issue(&client, reply),
        Err(JiraClientError::Response(status(400), "{\"errors\":{}}".to_string()))
    );
}

#[test]
fn client_errors_in_words() {
    assert_eq!(
        JiraClientError::Request("timed out".to_string()).message(),
        "Jira Client request error: timed out"
    );
    assert_eq!(
        JiraClientError::Response(status(401), "nope".to_string()).message(),
        "Bad response, status: 401 Unauthorized, text: nope"
    );
    assert_eq!(JiraClientError::Parse.message(), "Parse response error");
}

#[test]
fn copies_of_errors_and_kinds_are_equal() {
    let error = JiraClientError::Response(status(500), "x".to_string());
    assert_eq!(error.clone(), error);
    assert_eq!(JiraClientError::Parse.clone(), JiraClientError::Parse);
    let kind = IssueType {
        id: "1".to_string(),
        name: "Task".to_string(),
        description: Some("d".to_string()),
    };
    assert_eq!(kind.clone(), kind);
    assert_eq!(bug().clone(), bug());
}

#[test]
fn the_frame_holds_the_four_values() {
    assert_eq!(
        frame_issue("\"OPS\"", "\"Disk full\"", "\"\"", "\"10001\""),
        "{\"fields\":{\"project\":{\"key\":\"OPS\"},\"summary\":\"Disk full\",\
         \"description\":\"\",\"issuetype\":{\"id\":\"10001\"}}}"
    );
    assert_eq!(
        frame_issue("1", "2", "3", "4"),
        "{\"fields\":{\"project\":{\"key\":1},\"summary\":2,\"description\":3,\
         \"issuetype\":{\"id\":4}}}"
    );
}

#[test]
fn a_refusal_in_words() {
    assert_eq!(
        refusal_message("503 Service Unavailable", "try later"),
        "Bad response, status: 503 Service Unavailable, text: try later"
    );
    assert_eq!(refusal_message("", ""), "Bad response, status: , text: ");
}
