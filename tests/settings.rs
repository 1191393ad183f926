use grovr::integrations::{
    get_jira_config, github_config_token_key, github_request, jira_config_token_key, jira_request,
    jira_token_to_store, remove_github_config, remove_jira_config, set_github_config, set_jira_config,
    bearer_header, decimal_text, github_api_base, github_request_from, github_status_error,
    jira_authorization, jira_credentials, jira_issue_info, jira_request_from, jira_status_error,
    pull_head_filter, pull_request_info, pulls_url, validation_failure, with_token_state,
};
use grovr::launch::{custom_command_error, ide_command, ide_shell_command};
use grovr::projects::{add_project, get_projects, remove_project, reorder_projects, update_project};
use grovr::secure_store::{deletion_result, github_token_key, jira_token_key, lookup_result, StoreError};
use grovr::settings::{
    default_refresh_interval, default_theme, AppSettings, GitHubConfig, GitHubConfigMeta, JiraConfig,
    JiraConfigMeta, ProjectConfig, WorktreeMemo,
};

fn project(name: &str, path: &str) -> ProjectConfig {
    ProjectConfig {
        name: name.to_string(),
        repo_path: path.to_string(),
        default_base_branch: None,
        ide: None,
        emoji: None,
    }
}

fn names(s: &AppSettings) -> Vec<String> {
    s.projects.iter().map(|p| p.name.clone()).collect()
}

#[test]
fn defaults() {
    assert_eq!(default_theme(), "system");
    assert_eq!(default_refresh_interval(), 5);
}

#[test]
fn adding_a_project_twice_is_refused() {
    let mut s = AppSettings::default();
    assert!(add_project(&mut s, project("a", "/a")).is_ok());
    assert_eq!(add_project(&mut s, project("b", "/a")), Err("Project with this path already exists".to_string()));
    assert_eq!(names(&s), vec!["a"]);
}

#[test]
fn update_replaces_first_match_only() {
    let mut s = AppSettings::default();
    add_project(&mut s, project("a", "/a")).unwrap();
    add_project(&mut s, project("b", "/b")).unwrap();
    update_project(&mut s, "/b", project("b2", "/b")).unwrap();
    assert_eq!(names(&s), vec!["a", "b2"]);
    assert_eq!(update_project(&mut s, "/zz", project("z", "/zz")), Err("Project not found".to_string()));
}

#[test]
fn remove_and_get_projects() {
    let mut s = AppSettings::default();
    add_project(&mut s, project("a", "/a")).unwrap();
    add_project(&mut s, project("b", "/b")).unwrap();
    remove_project(&mut s, "/a");
    remove_project(&mut s, "/missing");
    let ps = get_projects(&s);
    assert_eq!(ps.len(), 1);
    assert_eq!(ps[0].name, "b");
}

#[test]
fn reorder_follows_paths_then_keeps_the_rest() {
    let mut s = AppSettings::default();
    for (n, p) in [("a", "/a"), ("b", "/b"), ("c", "/c"), ("d", "/d")] {
        add_project(&mut s, project(n, p)).unwrap();
    }
    reorder_projects(&mut s, &vec!["/c".to_string(), "/zz".to_string(), "/a".to_string()]);
    assert_eq!(names(&s), vec!["c", "a", "b", "d"]);
}

#[test]
fn memos_are_kept_per_path() {
    let mut s = AppSettings::default();
    assert!(s.get_worktree_memo("/w").description.is_none());
    s.set_worktree_memo("/w".to_string(), WorktreeMemo { description: Some("one".to_string()), issue_number: None });
    s.set_worktree_memo("/v".to_string(), WorktreeMemo { description: Some("two".to_string()), issue_number: Some("7".to_string()) });
    s.set_worktree_memo("/w".to_string(), WorktreeMemo { description: Some("three".to_string()), issue_number: None });
    assert_eq!(s.worktree_memos.len(), 2);
    assert_eq!(s.get_worktree_memo("/w").description, Some("three".to_string()));
    assert_eq!(s.get_worktree_memo("/v").issue_number, Some("7".to_string()));
}

#[test]
fn setters_change_one_field() {
    let mut s = AppSettings::default();
    s.set_theme("dark".to_string());
    s.set_refresh_interval_minutes(15);
    s.set_global_shortcut(Some("Cmd+G".to_string()));
    s.set_fetch_before_create(true);
    assert_eq!(s.theme, "dark");
    assert_eq!(s.refresh_interval_minutes, 15);
    assert_eq!(s.global_shortcut, Some("Cmd+G".to_string()));
    assert_eq!(s.fetch_before_create, Some(true));
    assert!(s.onboarding_completed.is_none());
}

#[test]
fn token_keys() {
    assert_eq!(github_token_key("abc"), "github-token-abc");
    assert_eq!(jira_token_key("acme.atlassian.net"), "jira-token-acme.atlassian.net");
}

#[test]
fn store_results() {
    assert_eq!(lookup_result(Ok("s".to_string())), Ok(Some("s".to_string())));
    assert_eq!(lookup_result(Err(StoreError::NoEntry)), Ok(None));
    assert_eq!(lookup_result(Err(StoreError::Failed("locked".to_string()))), Err("locked".to_string()));
    assert_eq!(deletion_result(Err(StoreError::NoEntry)), Ok(()));
    assert_eq!(deletion_result(Err(StoreError::Failed("x".to_string()))), Err("x".to_string()));
}

#[test]
fn jira_authorization_is_base64_of_credentials() {
    assert_eq!(jira_authorization("a@b.c", "tok"), "Basic YUBiLmM6dG9r");
    assert_eq!(jira_authorization("user", "pw"), "Basic dXNlcjpwdw==");
    assert_eq!(bearer_header("t"), "Bearer t");
}

#[test]
fn api_bases() {
    assert_eq!(github_api_base("cloud", &None), "https://api.github.com");
    assert_eq!(github_api_base("enterprise", &Some("git.corp".to_string())), "https://git.corp/api/v3");
    assert_eq!(github_api_base("enterprise", &None), "https://github.com/api/v3");
}

#[test]
fn status_errors() {
    assert_eq!(github_status_error(401), "Invalid token");
    assert_eq!(github_status_error(403), "Token has insufficient permissions");
    assert_eq!(github_status_error(404), "GitHub API not found (check enterprise URL)");
    assert_eq!(github_status_error(500), "GitHub API error: 500");
    assert_eq!(jira_status_error(401), "Invalid email or API token");
    assert_eq!(jira_status_error(403), "Access denied");
    assert_eq!(jira_status_error(404), "Jira instance not found (check host URL)");
    assert_eq!(jira_status_error(429), "Jira API error: 429");
    assert_eq!(decimal_text(0), "0");
    assert_eq!(decimal_text(65535), "65535");
    let f = validation_failure("Invalid token".to_string());
    assert!(!f.valid);
    assert_eq!(f.error, Some("Invalid token".to_string()));
}

#[test]
fn jira_credentials_are_required() {
    let mut c = JiraConfig { host: "h".to_string(), email: None, api_token: Some("t".to_string()), display_name: None };
    assert_eq!(jira_credentials(&c), Err("Email is required for validation".to_string()));
    c.email = Some(String::new());
    assert_eq!(jira_credentials(&c), Err("Email is required for validation".to_string()));
    c.email = Some("e".to_string());
    c.api_token = Some(String::new());
    assert_eq!(jira_credentials(&c), Err("API token is required for validation".to_string()));
    c.api_token = Some("t".to_string());
    assert_eq!(jira_credentials(&c), Ok(("e".to_string(), "t".to_string())));
}

#[test]
fn pull_request_fields() {
    let pr = pull_request_info(7, "T".to_string(), "closed".to_string(), Some("2024".to_string()), false, "u".to_string());
    assert!(pr.merged);
    assert!(pr.review_decision.is_none());
    assert_eq!(pulls_url("https://api.github.com", "acme", "widgets"), "https://api.github.com/repos/acme/widgets/pulls");
    assert_eq!(pull_head_filter("acme", "feat"), "acme:feat");
}

#[test]
fn jira_issue_link() {
    let i = jira_issue_info("acme.atlassian.net", "AB-1".to_string(), "s".to_string(), "Done".to_string(), "done".to_string());
    assert_eq!(i.url, "https://acme.atlassian.net/browse/AB-1");
}

#[test]
fn requests_from_token_lookups() {
    let meta = GitHubConfigMeta { id: "1".to_string(), name: "n".to_string(), config_type: "cloud".to_string(), host: None };
    let q = github_request_from(&meta, Ok(None)).unwrap();
    assert_eq!(q.token, "");
    assert_eq!(q.base_url, "https://api.github.com");
    assert!(github_request_from(&meta, Err("locked".to_string())).is_err());
    assert!(jira_request_from("h", "e", Ok(Some(String::new()))).is_none());
    assert!(jira_request_from("h", "e", Err("x".to_string())).is_none());
    let j = jira_request_from("h", "user", Ok(Some("pw".to_string()))).unwrap();
    assert_eq!(j.authorization, "Basic dXNlcjpwdw==");
    assert_eq!(j.base_url, "https://h/rest/api/3");
}

#[test]
fn jira_token_state() {
    let meta = JiraConfigMeta { host: "h".to_string(), email: None, display_name: None, has_token: false };
    assert!(with_token_state(meta.clone(), Ok(Some("t".to_string()))).has_token);
    assert!(!with_token_state(meta.clone(), Ok(Some(String::new()))).has_token);
    assert!(!with_token_state(meta, Err("x".to_string())).has_token);
}

#[test]
fn config_metadata_drops_token() {
    let c = GitHubConfig { id: "1".to_string(), name: "n".to_string(), config_type: "cloud".to_string(), host: None, token: "secret".to_string() };
    let m = GitHubConfigMeta::from(&c);
    assert_eq!(m.id, "1");
    let j = JiraConfigMeta::from(&JiraConfig { host: "h".to_string(), email: None, api_token: Some("t".to_string()), display_name: None });
    assert!(!j.has_token);
}

#[test]
fn ide_commands() {
    assert_eq!(ide_command("code", &None), Ok("code".to_string()));
    assert_eq!(ide_command("goland", &None), Ok("goland".to_string()));
    assert_eq!(ide_command("custom", &Some("zed".to_string())), Ok("zed".to_string()));
    assert_eq!(ide_command("custom", &None), Err("No custom command provided".to_string()));
    assert_eq!(ide_command("vim", &None), Err("Unknown IDE preset: vim".to_string()));
    assert_eq!(ide_shell_command("code", "/w t"), "code \"/w t\"");
    assert_eq!(custom_command_error("", "", "exit status: 1"), "Command exited with status: exit status: 1");
    assert_eq!(custom_command_error("err", "out", "s"), "err");
    assert_eq!(custom_command_error("", "out", "s"), "out");
}

fn github(id: &str) -> GitHubConfig {
    GitHubConfig { id: id.to_string(), name: "n".to_string(), config_type: "cloud".to_string(), host: None, token: "secret".to_string() }
}

fn jira(host: &str, email: Option<&str>, token: Option<&str>) -> JiraConfig {
    JiraConfig {
        host: host.to_string(),
        email: email.map(|e| e.to_string()),
        api_token: token.map(|t| t.to_string()),
        display_name: None,
    }
}

#[test]
fn github_config_follows_the_store_result() {
    let mut s = AppSettings::default();
    assert_eq!(set_github_config(&mut s, &github("1"), Err("locked".to_string())), Err("locked".to_string()));
    assert!(s.github_configs.is_empty());
    assert!(github_config_token_key(&s).is_none());
    assert_eq!(github_request(&s, Ok(None)).err(), Some("No GitHub config found".to_string()));
    assert_eq!(set_github_config(&mut s, &github("1"), Ok(())), Ok(()));
    assert_eq!(s.github_configs.len(), 1);
    assert_eq!(github_config_token_key(&s), Some("github-token-1".to_string()));
    let q = github_request(&s, Ok(Some("tok".to_string()))).unwrap();
    assert_eq!(q.token, "tok");
    assert_eq!(q.base_url, "https://api.github.com");
    assert_eq!(remove_github_config(&mut s), vec!["github-token-1".to_string()]);
    assert!(s.github_configs.is_empty());
}

#[test]
fn jira_config_follows_the_store_result() {
    let mut s = AppSettings::default();
    assert!(jira_token_to_store(&jira("h", Some("e"), None)).is_none());
    assert!(jira_token_to_store(&jira("h", Some("e"), Some(""))).is_none());
    assert_eq!(jira_token_to_store(&jira("h", Some("e"), Some("pw"))), Some(("jira-token-h".to_string(), "pw".to_string())));
    assert!(set_jira_config(&mut s, &jira("h", Some("user"), Some("pw")), Err("x".to_string())).is_err());
    assert!(s.jira_configs.is_empty());
    assert!(get_jira_config(&s, Ok(Some("pw".to_string()))).is_none());
    set_jira_config(&mut s, &jira("h", Some("user"), Some("pw")), Ok(())).unwrap();
    assert_eq!(jira_config_token_key(&s), Some("jira-token-h".to_string()));
    assert!(get_jira_config(&s, Ok(Some("pw".to_string()))).unwrap().has_token);
    assert!(!get_jira_config(&s, Ok(None)).unwrap().has_token);
    let q = jira_request(&s, Ok(Some("pw".to_string()))).unwrap();
    assert_eq!(q.authorization, "Basic dXNlcjpwdw==");
    assert!(jira_request(&s, Ok(None)).is_none());
    assert_eq!(remove_jira_config(&mut s), vec!["jira-token-h".to_string()]);
    set_jira_config(&mut s, &jira("h", None, Some("pw")), Ok(())).unwrap();
    assert!(jira_request(&s, Ok(Some("pw".to_string()))).is_none());
}
