//! The GitHub and Jira connections: their settings, their secrets, and the
//! requests and answers of their web APIs.
use base64::Engine;
use vstd::prelude::*;

use crate::secure_store::{github_token_key, jira_token_key};
use crate::settings::{copy_text, AppSettings, GitHubConfig, GitHubConfigMeta, JiraConfig, JiraConfigMeta};

verus! {

/// The standard base64 encoding (with padding) of the UTF-8 bytes of `s`.
pub uninterp spec fn base64_of(s: Seq<char>) -> Seq<char>;

/// Relies on `base64::Engine::encode` with the `STANDARD` engine: the padded
/// standard encoding of the text's UTF-8 bytes, which is empty for an empty text.
#[verifier::external_body]
fn base64_standard(s: &str) -> (r: String)
    requires
        s@.len() <= usize::MAX / 8,
    ensures
        r@ == base64_of(s@),
        s@.len() == 0 ==> r@.len() == 0,
{
    base64::engine::general_purpose::STANDARD.encode(s)
}

/// The value of a basic `Authorization` header, given the encoded credentials.
pub fn basic_header(encoded: &str) -> (r: String)
    ensures
        r@ == "Basic "@ + encoded@,
{
    String::from_str("Basic ").concat(encoded)
}

/// The `Authorization` header for Jira: `Basic` and the base64 of `email:token`.
pub fn jira_authorization(email: &str, token: &str) -> (r: String)
    requires
        email@.len() + token@.len() < usize::MAX / 8,
    ensures
        r@ == "Basic "@ + base64_of(email@ + ":"@ + token@),
{
    let joined = String::from_str(email).concat(":").concat(token);
    proof {
        reveal_strlit(":");
    }
    let encoded = base64_standard(joined.as_str());
    basic_header(encoded.as_str())
}

/// The `Authorization` header for GitHub: `Bearer` and the token.
pub fn bearer_header(token: &str) -> (r: String)
    ensures
        r@ == "Bearer "@ + token@,
{
    String::from_str("Bearer ").concat(token)
}

/// The root of the GitHub API: for an enterprise connection, the `/api/v3`
/// path of its host (`github.com` when it names none); otherwise api.github.com.
pub fn github_api_base(config_type: &str, host: &Option<String>) -> (r: String)
    ensures
        config_type@ == "enterprise"@ ==> r@ == "https://"@ + (match host {
            Some(h) => h@,
            None => "github.com"@,
        }) + "/api/v3"@,
        config_type@ != "enterprise"@ ==> r@ == "https://api.github.com"@,
{
    if crate::text::same_text(config_type, "enterprise") {
        let h = match host {
            Some(h) => h.as_str(),
            None => "github.com",
        };
        String::from_str("https://").concat(h).concat("/api/v3")
    } else {
        String::from_str("https://api.github.com")
    }
}

/// The root of a Jira site's REST API.
pub fn jira_api_base(host: &str) -> (r: String)
    ensures
        r@ == "https://"@ + host@ + "/rest/api/3"@,
{
    String::from_str("https://").concat(host).concat("/rest/api/3")
}

/// The decimal digits of `n`.
pub open spec fn decimal(n: nat) -> Seq<char>
    decreases n,
{
    if n < 10 {
        seq![digit_char(n)]
    } else {
        decimal(n / 10).push(digit_char(n % 10))
    }
}

pub open spec fn digit_char(d: nat) -> char {
    if d == 0 { '0' } else if d == 1 { '1' } else if d == 2 { '2' } else if d == 3 { '3' }
    else if d == 4 { '4' } else if d == 5 { '5' } else if d == 6 { '6' } else if d == 7 { '7' }
    else if d == 8 { '8' } else { '9' }
}

fn digit_text(d: u16) -> (r: &'static str)
    requires
        d < 10,
    ensures
        r@ == seq![digit_char(d as nat)],
{
    let r = if d == 0 { "0" } else if d == 1 { "1" } else if d == 2 { "2" } else if d == 3 { "3" }
    else if d == 4 { "4" } else if d == 5 { "5" } else if d == 6 { "6" } else if d == 7 { "7" }
    else if d == 8 { "8" } else { "9" };
    proof {
        reveal_strlit("0");
        reveal_strlit("1");
        reveal_strlit("2");
        reveal_strlit("3");
        reveal_strlit("4");
        reveal_strlit("5");
        reveal_strlit("6");
        reveal_strlit("7");
        reveal_strlit("8");
        reveal_strlit("9");
    }
    assert(r@ =~= seq![digit_char(d as nat)]);
    r
}

/// `n` written in decimal.
pub fn decimal_text(n: u16) -> (r: String)
    ensures
        r@ == decimal(n as nat),
    decreases n,
{
    if n < 10 {
        String::from_str(digit_text(n))
    } else {
        let head = decimal_text(n / 10);
        let r = head.concat(digit_text(n % 10));
        assert(r@ =~= decimal(n as nat));
        r
    }
}

/// Why GitHub refused a token, from the status of its answer.
pub fn github_status_error(status: u16) -> (r: String)
    ensures
        status == 401 ==> r@ == "Invalid token"@,
        status == 403 ==> r@ == "Token has insufficient permissions"@,
        status == 404 ==> r@ == "GitHub API not found (check enterprise URL)"@,
        status != 401 && status != 403 && status != 404 ==> r@ == "GitHub API error: "@ + decimal(
            status as nat,
        ),
{
    if status == 401 {
        String::from_str("Invalid token")
    } else if status == 403 {
        String::from_str("Token has insufficient permissions")
    } else if status == 404 {
        String::from_str("GitHub API not found (check enterprise URL)")
    } else {
        String::from_str("GitHub API error: ").concat(decimal_text(status).as_str())
    }
}

/// Why Jira refused credentials, from the status of its answer.
pub fn jira_status_error(status: u16) -> (r: String)
    ensures
        status == 401 ==> r@ == "Invalid email or API token"@,
        status == 403 ==> r@ == "Access denied"@,
        status == 404 ==> r@ == "Jira instance not found (check host URL)"@,
        status != 401 && status != 403 && status != 404 ==> r@ == "Jira API error: "@ + decimal(
            status as nat,
        ),
{
    if status == 401 {
        String::from_str("Invalid email or API token")
    } else if status == 403 {
        String::from_str("Access denied")
    } else if status == 404 {
        String::from_str("Jira instance not found (check host URL)")
    } else {
        String::from_str("Jira API error: ").concat(decimal_text(status).as_str())
    }
}

/// The answer to a request to check credentials.
#[derive(Debug, Clone)]
pub struct ValidateResult {
    pub valid: bool,
    pub username: Option<String>,
    pub error: Option<String>,
}

/// Accepted credentials, with the name of the account they belong to.
pub fn validation_success(username: String) -> (r: ValidateResult)
    ensures
        r == (ValidateResult { valid: true, username: Some(username), error: None }),
{
    ValidateResult { valid: true, username: Some(username), error: None }
}

/// Refused credentials, with the reason.
pub fn validation_failure(error: String) -> (r: ValidateResult)
    ensures
        r == (ValidateResult { valid: false, username: None, error: Some(error) }),
{
    ValidateResult { valid: false, username: None, error: Some(error) }
}

pub open spec fn nonempty(o: Option<String>) -> bool {
    o matches Some(s) && s@.len() > 0
}

/// The email and token that checking Jira credentials needs: both must be
/// present and not empty.
pub fn jira_credentials(config: &JiraConfig) -> (r: Result<(String, String), String>)
    ensures
        !nonempty(config.email) ==> r == Err::<(String, String), String>(
            r->Err_0,
        ) && r->Err_0@ == "Email is required for validation"@,
        nonempty(config.email) && !nonempty(config.api_token) ==> r is Err && r->Err_0@
            == "API token is required for validation"@,
        nonempty(config.email) && nonempty(config.api_token) ==> r == Ok::<(String, String), String>(
            (config.email->Some_0, config.api_token->Some_0),
        ),
{
    let email = match &config.email {
        Some(e) => {
            if e.unicode_len() == 0 {
                return Err(String::from_str("Email is required for validation"));
            }
            e.clone()
        },
        None => return Err(String::from_str("Email is required for validation")),
    };
    let token = match &config.api_token {
        Some(t) => {
            if t.unicode_len() == 0 {
                return Err(String::from_str("API token is required for validation"));
            }
            t.clone()
        },
        None => return Err(String::from_str("API token is required for validation")),
    };
    Ok((email, token))
}

fn copy_github_meta(m: &GitHubConfigMeta) -> (r: GitHubConfigMeta)
    ensures
        r == *m,
{
    GitHubConfigMeta {
        id: m.id.clone(),
        name: m.name.clone(),
        config_type: m.config_type.clone(),
        host: copy_text(&m.host),
    }
}

fn copy_jira_meta(m: &JiraConfigMeta) -> (r: JiraConfigMeta)
    ensures
        r == *m,
{
    JiraConfigMeta {
        host: m.host.clone(),
        email: copy_text(&m.email),
        display_name: copy_text(&m.display_name),
        has_token: m.has_token,
    }
}

/// The GitHub connection, if there is one: the first that the settings keep.
pub fn get_github_config(settings: &AppSettings) -> (r: Option<GitHubConfigMeta>)
    ensures
        settings.github_configs@.len() == 0 ==> r is None,
        settings.github_configs@.len() > 0 ==> r == Some(settings.github_configs@[0]),
{
    if settings.github_configs.len() == 0 {
        None
    } else {
        Some(copy_github_meta(&settings.github_configs[0]))
    }
}

/// Keeps `config` as the one GitHub connection, given the result of saving its
/// token in the secret store under `github_token_key(config.id)`: if that
/// failed, the settings are left as they were and the failure is returned.
pub fn set_github_config(
    settings: &mut AppSettings,
    config: &GitHubConfig,
    stored: Result<(), String>,
) -> (r: Result<(), String>)
    ensures
        stored matches Err(m) ==> r == Err::<(), String>(m) && *final(settings) == *old(settings),
        stored is Ok ==> r is Ok && *final(settings) == (AppSettings {
            github_configs: final(settings).github_configs,
            ..*old(settings)
        }) && final(settings).github_configs@ == seq![
            GitHubConfigMeta {
                id: config.id,
                name: config.name,
                config_type: config.config_type,
                host: config.host,
            },
        ],
{
    stored?;
    let meta = GitHubConfigMeta::from(config);
    settings.github_configs = vec![meta];
    assert(settings.github_configs@ =~= seq![meta]);
    Ok(())
}

/// The secret-store keys of the tokens of `configs`, in order.
pub open spec fn github_token_keys(configs: Seq<GitHubConfigMeta>) -> Seq<Seq<char>> {
    Seq::new(configs.len(), |i: int| "github-token-"@ + configs[i].id@)
}

/// Forgets every GitHub connection; returns the secret-store keys of their
/// tokens, which the caller deletes.
pub fn remove_github_config(settings: &mut AppSettings) -> (keys: Vec<String>)
    ensures
        *final(settings) == (AppSettings {
            github_configs: final(settings).github_configs,
            ..*old(settings)
        }),
        final(settings).github_configs@.len() == 0,
        keys.deep_view() == github_token_keys(old(settings).github_configs@),
{
    let mut keys: Vec<String> = Vec::new();
    let mut i: usize = 0;
    while i < settings.github_configs.len()
        invariant
            i <= settings.github_configs@.len(),
            keys.deep_view() == github_token_keys(settings.github_configs@).take(i as int),
        decreases settings.github_configs.len() - i,
    {
        let ghost before = keys.deep_view();
        let key = github_token_key(settings.github_configs[i].id.as_str());
        keys.push(key);
        assert(keys.deep_view() =~= before.push(key@));
        assert(keys.deep_view() =~= github_token_keys(settings.github_configs@).take(i + 1));
        i = i + 1;
    }
    assert(github_token_keys(settings.github_configs@).take(i as int) =~= github_token_keys(
        settings.github_configs@,
    ));
    settings.github_configs = Vec::new();
    keys
}

/// A Jira connection as the caller sees it: whether a token is kept is what
/// the lookup of its token found, a non-empty token.
pub fn with_token_state(meta: JiraConfigMeta, lookup: Result<Option<String>, String>) -> (r:
    JiraConfigMeta)
    ensures
        r == (JiraConfigMeta {
            has_token: lookup matches Ok(Some(t)) && t@.len() > 0,
            ..meta
        }),
{
    let has_token = match lookup {
        Ok(Some(t)) => t.unicode_len() > 0,
        _ => false,
    };
    JiraConfigMeta { has_token, ..meta }
}

/// The secret-store key of the token of the Jira connection, if there is one.
pub fn jira_config_token_key(settings: &AppSettings) -> (r: Option<String>)
    ensures
        settings.jira_configs@.len() == 0 ==> r is None,
        settings.jira_configs@.len() > 0 ==> (r matches Some(k) && k@ == "jira-token-"@
            + settings.jira_configs@[0].host@),
{
    if settings.jira_configs.len() == 0 {
        None
    } else {
        Some(jira_token_key(settings.jira_configs[0].host.as_str()))
    }
}

/// The secret-store key of the token of the GitHub connection, if there is one.
pub fn github_config_token_key(settings: &AppSettings) -> (r: Option<String>)
    ensures
        settings.github_configs@.len() == 0 ==> r is None,
        settings.github_configs@.len() > 0 ==> (r matches Some(k) && k@ == "github-token-"@
            + settings.github_configs@[0].id@),
{
    if settings.github_configs.len() == 0 {
        None
    } else {
        Some(github_token_key(settings.github_configs[0].id.as_str()))
    }
}

/// The Jira connection, if there is one, given what the lookup of its token
/// (under `jira_config_token_key`) found: it has a token exactly when a
/// non-empty one was found.
pub fn get_jira_config(settings: &AppSettings, lookup: Result<Option<String>, String>) -> (r: Option<
    JiraConfigMeta,
>)
    ensures
        settings.jira_configs@.len() == 0 ==> r is None,
        settings.jira_configs@.len() > 0 ==> r == Some(
            JiraConfigMeta {
                has_token: lookup matches Ok(Some(t)) && t@.len() > 0,
                ..settings.jira_configs@[0]
            },
        ),
{
    if settings.jira_configs.len() == 0 {
        return None;
    }
    let meta = copy_jira_meta(&settings.jira_configs[0]);
    Some(with_token_state(meta, lookup))
}

/// The secret-store key and token to save for `config`: only a non-empty token
/// is saved.
pub fn jira_token_to_store(config: &JiraConfig) -> (r: Option<(String, String)>)
    ensures
        !nonempty(config.api_token) ==> r is None,
        nonempty(config.api_token) ==> (r matches Some((k, tok)) && k@ == "jira-token-"@
            + config.host@ && tok == config.api_token->Some_0),
{
    match &config.api_token {
        Some(token) => {
            if token.unicode_len() > 0 {
                Some((jira_token_key(config.host.as_str()), token.clone()))
            } else {
                None
            }
        },
        None => None,
    }
}

/// Keeps `config` as the one Jira connection, given the result of saving its
/// token (`Ok` when `jira_token_to_store` gave nothing to save): if saving
/// failed, the settings are left as they were and the failure is returned.
pub fn set_jira_config(
    settings: &mut AppSettings,
    config: &JiraConfig,
    stored: Result<(), String>,
) -> (r: Result<(), String>)
    ensures
        stored matches Err(m) ==> r == Err::<(), String>(m) && *final(settings) == *old(settings),
        stored is Ok ==> r is Ok && *final(settings) == (AppSettings {
            jira_configs: final(settings).jira_configs,
            ..*old(settings)
        }) && final(settings).jira_configs@ == seq![
            JiraConfigMeta {
                host: config.host,
                email: config.email,
                display_name: config.display_name,
                has_token: false,
            },
        ],
{
    stored?;
    let meta = JiraConfigMeta::from(config);
    settings.jira_configs = vec![meta];
    assert(settings.jira_configs@ =~= seq![meta]);
    Ok(())
}

/// The secret-store keys of the tokens of `configs`, in order.
pub open spec fn jira_token_keys(configs: Seq<JiraConfigMeta>) -> Seq<Seq<char>> {
    Seq::new(configs.len(), |i: int| "jira-token-"@ + configs[i].host@)
}

/// Forgets every Jira connection; returns the secret-store keys of their
/// tokens, which the caller deletes.
pub fn remove_jira_config(settings: &mut AppSettings) -> (keys: Vec<String>)
    ensures
        *final(settings) == (AppSettings { jira_configs: final(settings).jira_configs, ..*old(settings) }),
        final(settings).jira_configs@.len() == 0,
        keys.deep_view() == jira_token_keys(old(settings).jira_configs@),
{
    let mut keys: Vec<String> = Vec::new();
    let mut i: usize = 0;
    while i < settings.jira_configs.len()
        invariant
            i <= settings.jira_configs@.len(),
            keys.deep_view() == jira_token_keys(settings.jira_configs@).take(i as int),
        decreases settings.jira_configs.len() - i,
    {
        let ghost before = keys.deep_view();
        let key = jira_token_key(settings.jira_configs[i].host.as_str());
        keys.push(key);
        assert(keys.deep_view() =~= before.push(key@));
        assert(keys.deep_view() =~= jira_token_keys(settings.jira_configs@).take(i + 1));
        i = i + 1;
    }
    assert(jira_token_keys(settings.jira_configs@).take(i as int) =~= jira_token_keys(
        settings.jira_configs@,
    ));
    settings.jira_configs = Vec::new();
    keys
}

/// A pull request as the caller sees it.
#[derive(Debug, Clone)]
pub struct PullRequestInfo {
    pub number: i32,
    pub title: String,
    pub state: String,
    pub merged: bool,
    pub draft: bool,
    pub url: String,
    pub review_decision: Option<String>,
    pub checks_status: Option<String>,
}

/// A pull request from the fields that GitHub reports: it is merged exactly
/// when GitHub gives a merge time.
pub fn pull_request_info(
    number: i32,
    title: String,
    state: String,
    merged_at: Option<String>,
    draft: bool,
    html_url: String,
) -> (r: PullRequestInfo)
    ensures
        r == (PullRequestInfo {
            number,
            title,
            state,
            merged: merged_at is Some,
            draft,
            url: html_url,
            review_decision: None,
            checks_status: None,
        }),
{
    PullRequestInfo {
        number,
        title,
        state,
        merged: merged_at.is_some(),
        draft,
        url: html_url,
        review_decision: None,
        checks_status: None,
    }
}

/// A Jira issue as the caller sees it.
#[derive(Debug, Clone)]
pub struct JiraIssueInfo {
    pub key: String,
    pub summary: String,
    pub status: String,
    pub status_category: String,
    pub url: String,
}

/// A Jira issue from the fields that Jira reports; its link is the issue's
/// page on the site.
pub fn jira_issue_info(
    host: &str,
    key: String,
    summary: String,
    status: String,
    status_category: String,
) -> (r: JiraIssueInfo)
    ensures
        r.key == key,
        r.summary == summary,
        r.status == status,
        r.status_category == status_category,
        r.url@ == "https://"@ + host@ + "/browse/"@ + key@,
{
    let url = String::from_str("https://").concat(host).concat("/browse/").concat(key.as_str());
    JiraIssueInfo { key, summary, status, status_category, url }
}

/// The endpoint that lists a repository's pull requests.
pub fn pulls_url(base_url: &str, owner: &str, repo: &str) -> (r: String)
    ensures
        r@ == base_url@ + "/repos/"@ + owner@ + "/"@ + repo@ + "/pulls"@,
{
    String::from_str(base_url).concat("/repos/").concat(owner).concat("/").concat(repo).concat(
        "/pulls",
    )
}

/// The `head` filter that selects the pull requests of a branch.
pub fn pull_head_filter(owner: &str, branch: &str) -> (r: String)
    ensures
        r@ == owner@ + ":"@ + branch@,
{
    String::from_str(owner).concat(":").concat(branch)
}

/// The endpoint of an API below its root.
pub fn endpoint(base_url: &str, path: &str) -> (r: String)
    ensures
        r@ == base_url@ + path@,
{
    String::from_str(base_url).concat(path)
}

/// What a request to the GitHub API needs.
#[derive(Debug, Clone)]
pub struct GitHubRequest {
    pub base_url: String,
    pub token: String,
}

pub open spec fn api_base_of(meta: GitHubConfigMeta) -> Seq<char> {
    if meta.config_type@ == "enterprise"@ {
        "https://"@ + (match meta.host {
            Some(h) => h@,
            None => "github.com"@,
        }) + "/api/v3"@
    } else {
        "https://api.github.com"@
    }
}

/// The request for a connection, given what the lookup of its token found:
/// a missing token is sent as an empty one; a failed lookup fails.
pub fn github_request_from(meta: &GitHubConfigMeta, lookup: Result<Option<String>, String>) -> (r:
    Result<GitHubRequest, String>)
    ensures
        lookup matches Err(m) ==> (r matches Err(x) && x == m),
        lookup matches Ok(found) ==> (r matches Ok(q) && q.base_url@ == api_base_of(*meta)
            && q.token@ == match found {
            Some(t) => t@,
            None => Seq::<char>::empty(),
        }),
{
    let token = match lookup {
        Ok(Some(t)) => t,
        Ok(None) => String::new(),
        Err(m) => return Err(m),
    };
    let base_url = github_api_base(meta.config_type.as_str(), &meta.host);
    Ok(GitHubRequest { base_url, token })
}

/// The request for the GitHub connection, given what the lookup of its token
/// (under `github_config_token_key`) found.
pub fn github_request(settings: &AppSettings, lookup: Result<Option<String>, String>) -> (r: Result<
    GitHubRequest,
    String,
>)
    ensures
        settings.github_configs@.len() == 0 ==> (r matches Err(m) && m@
            == "No GitHub config found"@),
        settings.github_configs@.len() > 0 ==> match lookup {
            Err(m) => r matches Err(x) && x == m,
            Ok(found) => r matches Ok(q) && q.base_url@ == api_base_of(settings.github_configs@[0])
                && q.token@ == match found {
                Some(t) => t@,
                None => Seq::<char>::empty(),
            },
        },
{
    if settings.github_configs.len() == 0 {
        return Err(String::from_str("No GitHub config found"));
    }
    github_request_from(&settings.github_configs[0], lookup)
}

/// What a request to the Jira API needs.
#[derive(Debug, Clone)]
pub struct JiraRequest {
    pub authorization: String,
    pub base_url: String,
    pub host: String,
}

/// The request for a Jira site, given what the lookup of its token found:
/// none unless a non-empty token was found (and the credentials are of a size
/// that can be encoded).
pub fn jira_request_from(host: &str, email: &str, lookup: Result<Option<String>, String>) -> (r:
    Option<JiraRequest>)
    ensures
        match lookup {
            Ok(Some(t)) => {
                &&& t@.len() == 0 ==> r is None
                &&& t@.len() > 0 && email@.len() + t@.len() < usize::MAX / 8 ==> (r matches Some(q)
                    && q.authorization@ == "Basic "@ + base64_of(email@ + ":"@ + t@) && q.base_url@
                    == "https://"@ + host@ + "/rest/api/3"@ && q.host@ == host@)
            },
            _ => r is None,
        },
{
    let token = match lookup {
        Ok(Some(t)) => t,
        _ => return None,
    };
    let tl = token.unicode_len();
    if tl == 0 {
        return None;
    }
    let el = email.unicode_len();
    if el >= usize::MAX / 8 || tl >= usize::MAX / 8 - el {
        return None;
    }
    let authorization = jira_authorization(email, token.as_str());
    let base_url = jira_api_base(host);
    Some(JiraRequest { authorization, base_url, host: String::from_str(host) })
}

/// The request for the Jira connection, given what the lookup of its token
/// (under `jira_config_token_key`) found: none without a connection, without
/// an email (links-only mode), or without a non-empty token.
pub fn jira_request(settings: &AppSettings, lookup: Result<Option<String>, String>) -> (r: Option<
    JiraRequest,
>)
    ensures
        settings.jira_configs@.len() == 0 ==> r is None,
        settings.jira_configs@.len() > 0 && !nonempty(settings.jira_configs@[0].email) ==> r is None,
        settings.jira_configs@.len() > 0 && nonempty(settings.jira_configs@[0].email) ==> ({
            let host = settings.jira_configs@[0].host@;
            let email = settings.jira_configs@[0].email->Some_0@;
            match lookup {
                Ok(Some(t)) => {
                    &&& t@.len() == 0 ==> r is None
                    &&& t@.len() > 0 && email.len() + t@.len() < usize::MAX / 8 ==> (r matches Some(q)
                        && q.authorization@ == "Basic "@ + base64_of(email + ":"@ + t@)
                        && q.base_url@ == "https://"@ + host + "/rest/api/3"@ && q.host@ == host)
                },
                _ => r is None,
            }
        }),
{
    if settings.jira_configs.len() == 0 {
        return None;
    }
    let meta = &settings.jira_configs[0];
    let email = match &meta.email {
        Some(e) => {
            if e.unicode_len() == 0 {
                return None;
            }
            e
        },
        None => return None,
    };
    jira_request_from(meta.host.as_str(), email.as_str(), lookup)
}

} // verus!
