use fast_task::config::Config;
use fast_task::projects::Projects;
use fast_task::setup::{AddProject, Setup};

fn stored() -> Config {
    let mut projects = Projects::new();
    projects.insert("OPS".to_string(), "Infra".to_string());
    Config::new("old-url".to_string(), "old@mail".to_string(), "old-token".to_string(), projects)
}

#[test]
fn setup_begins_with_the_address() {
    assert_eq!(Setup::start(), Setup::EnterUrl);
    assert!(Setup::start().into_config(&stored()).is_none());
}

#[test]
fn an_address_must_be_a_url() {
    for refused in ["", "http", "company.atlassian.net", "/path", "   "] {
        assert_eq!(Setup::EnterUrl.step(refused.to_string()), Setup::EnterUrl, "{:?}", refused);
    }
    for accepted in ["https://company.atlassian.net", "http://localhost:80", "ftp://localhost:80"] {
        assert_eq!(
            Setup::EnterUrl.step(accepted.to_string()),
            Setup::EnterEmail { jira_url: accepted.to_string() }
        );
    }
}

#[test]
fn a_mail_address_must_be_one() {
    let state = || Setup::EnterEmail { jira_url: "https://a.b".to_string() };
    for refused in ["", "abc", "abc@", "a @x.cz", "something@@somewhere.com", "a@b.com\n"] {
        assert_eq!(state().step(refused.to_string()), state(), "{:?}", refused);
    }
    for accepted in ["user@company.com", "email@here.com", "abc@bar"] {
        assert_eq!(
            state().step(accepted.to_string()),
            Setup::EnterToken { jira_url: "https://a.b".to_string(), email: accepted.to_string() }
        );
    }
}

#[test]
fn a_token_must_not_be_blank() {
    let state = || Setup::EnterToken {
        jira_url: "https://a.b".to_string(),
        email: "me@a.b".to_string(),
    };
    for refused in ["", " ", "\t \n"] {
        assert_eq!(state().step(refused.to_string()), state());
    }
    assert_eq!(
        state().step(" tok ".to_string()),
        Setup::Done {
            jira_url: "https://a.b".to_string(),
            email: "me@a.b".to_string(),
            api_token: " tok ".to_string()
        }
    );
}

#[test]
fn setup_keeps_the_projects() {
    let state = Setup::start()
        .step("not a url".to_string())
        .step("https://company.atlassian.net".to_string())
        .step("nobody".to_string())
        .step("user@company.com".to_string())
        .step("".to_string())
        .step("token".to_string());
    let done = state.step("more".to_string());
    assert_eq!(
        done,
        Setup::Done {
            jira_url: "https://company.atlassian.net".to_string(),
            email: "user@company.com".to_string(),
            api_token: "token".to_string()
        }
    );
    let config = done.into_config(&stored()).unwrap();
    assert_eq!(config.jira_url, "https://company.atlassian.net");
    assert_eq!(config.email, "user@company.com");
    assert_eq!(config.api_token, "token");
    assert_eq!(config.projects.entries(), vec![("OPS".to_string(), "Infra".to_string())]);
    assert!(config.is_configured());
}

#[test]
fn setup_that_is_not_done_gives_no_profile() {
    assert!(Setup::EnterEmail { jira_url: "https://a.b".to_string() }
        .into_config(&stored())
        .is_none());
    assert!(Setup::EnterToken { jira_url: "https://a.b".to_string(), email: "a@b.c".to_string() }
        .into_config(&stored())
        .is_none());
}

#[test]
fn a_project_needs_key_and_name() {
    assert_eq!(AddProject::start(), AddProject::EnterKey);
    for blank in ["", " ", "\n"] {
        assert_eq!(AddProject::EnterKey.step(blank.to_string()), AddProject::EnterKey);
        assert_eq!(
            AddProject::EnterName { project_key: "WEB".to_string() }.step(blank.to_string()),
            AddProject::EnterName { project_key: "WEB".to_string() }
        );
    }
    let state = AddProject::start().step("WEB".to_string());
    assert_eq!(state, AddProject::EnterName { project_key: "WEB".to_string() });
    let state = state.step("Site".to_string());
    assert_eq!(
        state,
        AddProject::Done { project_key: "WEB".to_string(), project_name: "Site".to_string() }
    );
    assert_eq!(
        state.step("again".to_string()),
        AddProject::Done { project_key: "WEB".to_string(), project_name: "Site".to_string() }
    );
}

#[test]
fn an_added_project_joins_the_others() {
    let done = AddProject::Done { project_key: "WEB".to_string(), project_name: "Site".to_string() };
    let config = done.into_config(&stored()).unwrap();
    assert_eq!(config.jira_url, "old-url");
    assert_eq!(config.email, "old@mail");
    assert_eq!(config.api_token, "old-token");
    assert_eq!(
        config.projects.entries(),
        vec![("OPS".to_string(), "Infra".to_string()), ("WEB".to_string(), "Site".to_string())]
    );
}

#[test]
fn an_added_project_replaces_one_of_its_key() {
    let done =
        AddProject::Done { project_key: "OPS".to_string(), project_name: "Operations".to_string() };
    let config = done.into_config(&stored()).unwrap();
    assert_eq!(config.projects.entries(), vec![("OPS".to_string(), "Operations".to_string())]);
    assert!(AddProject::EnterKey.into_config(&stored()).is_none());
    assert!(AddProject::EnterName { project_key: "K".to_string() }
        .into_config(&stored())
        .is_none());
}

#[test]
fn setup_advances_by_the_verdict_it_is_given() {
    assert_eq!(
        Setup::EnterUrl.advance("anything".to_string(), true),
        Setup::EnterEmail { jira_url: "anything".to_string() }
    );
    assert_eq!(Setup::EnterUrl.advance("https://a.b".to_string(), false), Setup::EnterUrl);
    assert_eq!(
        Setup::EnterEmail { jira_url: "u".to_string() }.advance("e".to_string(), true),
        Setup::EnterToken { jira_url: "u".to_string(), email: "e".to_string() }
    );
    assert_eq!(
        Setup::EnterToken { jira_url: "u".to_string(), email: "e".to_string() }
            .advance("t".to_string(), true),
        Setup::Done { jira_url: "u".to_string(), email: "e".to_string(), api_token: "t".to_string() }
    );
    let done = || Setup::Done {
        jira_url: "u".to_string(),
        email: "e".to_string(),
        api_token: "t".to_string(),
    };
    assert_eq!(done().advance("x".to_string(), true), done());
    assert_eq!(done().advance("x".to_string(), false), done());
}

#[test]
fn each_question_has_its_own_test() {
    assert!(Setup::EnterUrl.accepts("https://company.atlassian.net"));
    assert!(!Setup::EnterUrl.accepts("user@company.com"));
    let email = Setup::EnterEmail { jira_url: "u".to_string() };
    assert!(email.accepts("user@company.com"));
    assert!(!email.accepts("https://company.atlassian.net"));
    let token = Setup::EnterToken { jira_url: "u".to_string(), email: "e".to_string() };
    assert!(token.accepts("x"));
    assert!(!token.accepts("  "));
    let done = Setup::Done {
        jira_url: "u".to_string(),
        email: "e".to_string(),
        api_token: "t".to_string(),
    };
    assert!(!done.accepts("https://company.atlassian.net"));
}

#[test]
fn a_project_advances_by_the_verdict_it_is_given() {
    assert_eq!(AddProject::EnterKey.advance("K".to_string(), true), AddProject::EnterKey);
    assert_eq!(
        AddProject::EnterKey.advance("  ".to_string(), false),
        AddProject::EnterName { project_key: "  ".to_string() }
    );
    assert_eq!(
        AddProject::EnterName { project_key: "K".to_string() }.advance("N".to_string(), false),
        AddProject::Done { project_key: "K".to_string(), project_name: "N".to_string() }
    );
}
