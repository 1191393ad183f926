//! The application's settings document and the edits made to it.
use vstd::prelude::*;

verus! {

/// The editor used to open a worktree.
#[derive(Debug, Clone, Default)]
pub struct IdeConfig {
    pub ide_type: String,
    pub preset: Option<String>,
    pub custom_command: Option<String>,
}

/// A repository that the user manages.
#[derive(Debug, Clone)]
pub struct ProjectConfig {
    pub name: String,
    pub repo_path: String,
    pub default_base_branch: Option<String>,
    pub ide: Option<IdeConfig>,
    pub emoji: Option<String>,
}

/// A GitHub connection as the user enters it, token included.
#[derive(Debug, Clone)]
pub struct GitHubConfig {
    pub id: String,
    pub name: String,
    pub config_type: String,
    pub host: Option<String>,
    pub token: String,
}

/// A GitHub connection as the settings keep it: without its token.
#[derive(Debug, Clone)]
pub struct GitHubConfigMeta {
    pub id: String,
    pub name: String,
    pub config_type: String,
    pub host: Option<String>,
}

/// A Jira connection as the user enters it, token included.
#[derive(Debug, Clone)]
pub struct JiraConfig {
    pub host: String,
    pub email: Option<String>,
    pub api_token: Option<String>,
    pub display_name: Option<String>,
}

/// A Jira connection as the settings keep it: without its token, with a note
/// of whether the secret store holds one.
#[derive(Debug, Clone)]
pub struct JiraConfigMeta {
    pub host: String,
    pub email: Option<String>,
    pub display_name: Option<String>,
    pub has_token: bool,
}

/// A note that the user attached to a worktree.
#[derive(Debug, Clone, Default)]
pub struct WorktreeMemo {
    pub description: Option<String>,
    pub issue_number: Option<String>,
}

/// The settings document. Worktree memos are kept per worktree path, at most
/// one for each path.
#[derive(Debug, Clone, Default)]
pub struct AppSettings {
    pub ide: Option<IdeConfig>,
    pub theme: String,
    pub launch_at_startup: Option<bool>,
    pub default_worktree_template: Option<String>,
    pub copy_paths: Option<Vec<String>>,
    pub fetch_before_create: Option<bool>,
    pub clipboard_parse_patterns: Option<Vec<String>>,
    pub last_used_project: Option<String>,
    pub refresh_interval_minutes: i32,
    pub skip_open_ide_confirm: Option<bool>,
    pub onboarding_completed: Option<bool>,
    pub projects: Vec<ProjectConfig>,
    pub github_configs: Vec<GitHubConfigMeta>,
    pub jira_configs: Vec<JiraConfigMeta>,
    pub worktree_memos: Vec<(String, WorktreeMemo)>,
    pub global_shortcut: Option<String>,
}

/// The theme of settings that name none.
pub fn default_theme() -> (r: String)
    ensures
        r@ == "system"@,
{
    String::from_str("system")
}

/// The refresh interval, in minutes, of settings that name none.
pub fn default_refresh_interval() -> (r: i32)
    ensures
        r == 5,
{
    5
}

pub fn copy_text(o: &Option<String>) -> (r: Option<String>)
    ensures
        r == *o,
{
    match o {
        Some(s) => Some(s.clone()),
        None => None,
    }
}

impl IdeConfig {
    /// A copy of this configuration.
    pub fn copy(&self) -> (r: Self)
        ensures
            r == *self,
    {
        IdeConfig {
            ide_type: self.ide_type.clone(),
            preset: copy_text(&self.preset),
            custom_command: copy_text(&self.custom_command),
        }
    }
}

impl ProjectConfig {
    /// A copy of this project.
    pub fn copy(&self) -> (r: Self)
        ensures
            r == *self,
    {
        let ide = match &self.ide {
            Some(i) => Some(i.copy()),
            None => None,
        };
        ProjectConfig {
            name: self.name.clone(),
            repo_path: self.repo_path.clone(),
            default_base_branch: copy_text(&self.default_base_branch),
            ide,
            emoji: copy_text(&self.emoji),
        }
    }
}

impl WorktreeMemo {
    /// A copy of this memo.
    pub fn copy(&self) -> (r: Self)
        ensures
            r == *self,
    {
        WorktreeMemo {
            description: copy_text(&self.description),
            issue_number: copy_text(&self.issue_number),
        }
    }

    /// A memo with nothing in it.
    pub fn empty() -> (r: Self)
        ensures
            r.description is None,
            r.issue_number is None,
    {
        WorktreeMemo { description: None, issue_number: None }
    }
}

/// The part of a GitHub connection that the settings keep.
impl From<&GitHubConfig> for GitHubConfigMeta {
    fn from(config: &GitHubConfig) -> Self {
        GitHubConfigMeta {
            id: config.id.clone(),
            name: config.name.clone(),
            config_type: config.config_type.clone(),
            host: copy_text(&config.host),
        }
    }
}

impl vstd::std_specs::convert::FromSpecImpl<&GitHubConfig> for GitHubConfigMeta {
    open spec fn obeys_from_spec() -> bool {
        true
    }

    open spec fn from_spec(config: &GitHubConfig) -> Self {
        GitHubConfigMeta {
            id: config.id,
            name: config.name,
            config_type: config.config_type,
            host: config.host,
        }
    }
}

/// The part of a Jira connection that the settings keep; whether a token is
/// stored is filled in when the configuration is read.
impl From<&JiraConfig> for JiraConfigMeta {
    fn from(config: &JiraConfig) -> Self {
        JiraConfigMeta {
            host: config.host.clone(),
            email: copy_text(&config.email),
            display_name: copy_text(&config.display_name),
            has_token: false,
        }
    }
}

impl vstd::std_specs::convert::FromSpecImpl<&JiraConfig> for JiraConfigMeta {
    open spec fn obeys_from_spec() -> bool {
        true
    }

    open spec fn from_spec(config: &JiraConfig) -> Self {
        JiraConfigMeta {
            host: config.host,
            email: config.email,
            display_name: config.display_name,
            has_token: false,
        }
    }
}

/// The index of the memo kept for `path`, if there is one.
pub open spec fn memo_index(memos: Seq<(String, WorktreeMemo)>, path: Seq<char>) -> Option<int> {
    if exists|i: int| 0 <= i < memos.len() && #[trigger] memos[i].0@ == path {
        Some(choose|i: int| 0 <= i < memos.len() && #[trigger] memos[i].0@ == path)
    } else {
        None
    }
}

/// The memo kept for `path`, if there is one.
pub open spec fn memo_entry(memos: Seq<(String, WorktreeMemo)>, path: Seq<char>) -> Option<
    WorktreeMemo,
> {
    match memo_index(memos, path) {
        Some(i) => Some(memos[i].1),
        None => None,
    }
}

/// At most one memo for each path.
pub open spec fn memo_keys_unique(memos: Seq<(String, WorktreeMemo)>) -> bool {
    forall|i: int, j: int|
        0 <= i < memos.len() && 0 <= j < memos.len() && #[trigger] memos[i].0@ == #[trigger] memos[j].0@
            ==> i == j
}

proof fn lemma_unique_same_keys(a: Seq<(String, WorktreeMemo)>, b: Seq<(String, WorktreeMemo)>)
    requires
        a.len() == b.len(),
        forall|x: int| 0 <= x < b.len() ==> #[trigger] b[x].0@ == a[x].0@,
        memo_keys_unique(a),
    ensures
        memo_keys_unique(b),
{
    assert forall|i: int, j: int|
        0 <= i < b.len() && 0 <= j < b.len() && #[trigger] b[i].0@ == #[trigger] b[j].0@ implies i
        == j by {
        assert(a[i].0@ == b[i].0@);
        assert(a[j].0@ == b[j].0@);
    }
}

/// Replacing the entry at `changed` leaves the entry of every other key as it was.
proof fn lemma_entry_same_keys(
    a: Seq<(String, WorktreeMemo)>,
    b: Seq<(String, WorktreeMemo)>,
    p: Seq<char>,
    changed: int,
)
    requires
        a.len() == b.len(),
        0 <= changed < a.len(),
        forall|x: int| 0 <= x < b.len() ==> #[trigger] b[x].0@ == a[x].0@,
        forall|x: int| 0 <= x < b.len() && x != changed ==> #[trigger] b[x] == a[x],
        a[changed].0@ != p,
        memo_keys_unique(a),
    ensures
        memo_entry(b, p) == memo_entry(a, p),
{
    if memo_index(a, p) is Some {
        let i = memo_index(a, p)->Some_0;
        assert(b[i].0@ == p);
        let j = memo_index(b, p)->Some_0;
        assert(a[j].0@ == b[j].0@);
        assert(a[i].0@ == a[j].0@);
    } else {
        if exists|k: int| 0 <= k < b.len() && #[trigger] b[k].0@ == p {
            let k = choose|k: int| 0 <= k < b.len() && #[trigger] b[k].0@ == p;
            assert(a[k].0@ == b[k].0@);
        }
    }
}

impl AppSettings {
    pub open spec fn wf(&self) -> bool {
        memo_keys_unique(self.worktree_memos@)
    }

    /// The memo kept for `path`, or an empty one.
    pub fn get_worktree_memo(&self, path: &str) -> (r: WorktreeMemo)
        requires
            self.wf(),
        ensures
            match memo_index(self.worktree_memos@, path@) {
                Some(i) => r == self.worktree_memos@[i].1,
                None => r.description is None && r.issue_number is None,
            },
    {
        let mut i: usize = 0;
        while i < self.worktree_memos.len()
            invariant
                i <= self.worktree_memos@.len(),
                self.wf(),
                forall|j: int| 0 <= j < i ==> #[trigger] self.worktree_memos@[j].0@ != path@,
            decreases self.worktree_memos.len() - i,
        {
            if crate::text::same_text(self.worktree_memos[i].0.as_str(), path) {
                proof {
                    let m = self.worktree_memos@;
                    assert(m[i as int].0@ == path@);
                    let k = memo_index(m, path@)->Some_0;
                    assert(m[k].0@ == path@);
                    assert(m[i as int].0@ == m[k].0@);
                }
                return self.worktree_memos[i].1.copy();
            }
            i = i + 1;
        }
        WorktreeMemo::empty()
    }

    /// Keeps `memo` for `path`, in place of any memo kept for it before.
    pub fn set_worktree_memo(&mut self, path: String, memo: WorktreeMemo)
        requires
            old(self).wf(),
        ensures
            final(self).wf(),
            *final(self) == (AppSettings { worktree_memos: final(self).worktree_memos, ..*old(self) }),
            memo_entry(final(self).worktree_memos@, path@) == Some(memo),
            forall|p: Seq<char>|
                p != path@ ==> #[trigger] memo_entry(final(self).worktree_memos@, p) == memo_entry(
                    old(self).worktree_memos@,
                    p,
                ),
    {
        let ghost old_memos = self.worktree_memos@;
        let mut i: usize = 0;
        while i < self.worktree_memos.len()
            invariant
                i <= self.worktree_memos@.len(),
                self.worktree_memos@ == old_memos,
                old_memos == old(self).worktree_memos@,
                *self == (AppSettings { worktree_memos: self.worktree_memos, ..*old(self) }),
                memo_keys_unique(old_memos),
                forall|j: int| 0 <= j < i ==> #[trigger] self.worktree_memos@[j].0@ != path@,
            decreases self.worktree_memos.len() - i,
        {
            if crate::text::same_text(self.worktree_memos[i].0.as_str(), path.as_str()) {
                let ghost key = path@;
                self.worktree_memos.set(i, (path, memo));
                proof {
                    let m = self.worktree_memos@;
                    assert forall|x: int| 0 <= x < m.len() implies #[trigger] m[x].0@ == old_memos[x].0@ by {
                    }
                    lemma_unique_same_keys(old_memos, m);
                    assert forall|p: Seq<char>| p != key implies #[trigger] memo_entry(m, p)
                        == memo_entry(old_memos, p) by {
                        lemma_entry_same_keys(old_memos, m, p, i as int);
                    }
                    assert(m[i as int].0@ == key);
                    let b = memo_index(m, key)->Some_0;
                    assert(m[b].0@ == m[i as int].0@);
                }
                return;
            }
            i = i + 1;
        }
        let ghost key = path@;
        self.worktree_memos.push((path, memo));
        proof {
            let m = self.worktree_memos@;
            let n = old_memos.len() as int;
            assert(m[n].0@ == key);
            assert forall|a: int, b: int|
                0 <= a < m.len() && 0 <= b < m.len() && #[trigger] m[a].0@ == #[trigger] m[b].0@
                    implies a == b by {
                if a < n && b < n {
                    assert(old_memos[a] == m[a]);
                    assert(old_memos[b] == m[b]);
                } else if a < n {
                    assert(old_memos[a] == m[a]);
                } else if b < n {
                    assert(old_memos[b] == m[b]);
                }
            }
            assert forall|p: Seq<char>| p != key implies #[trigger] memo_entry(m, p) == memo_entry(
                old_memos,
                p,
            ) by {
                if memo_index(old_memos, p) is Some {
                    let a = memo_index(old_memos, p)->Some_0;
                    assert(m[a] == old_memos[a]);
                    let b = memo_index(m, p)->Some_0;
                    assert(b != n);
                    assert(old_memos[b] == m[b]);
                    assert(old_memos[a].0@ == old_memos[b].0@);
                } else {
                    if exists|k: int| 0 <= k < m.len() && #[trigger] m[k].0@ == p {
                        let k = choose|k: int| 0 <= k < m.len() && #[trigger] m[k].0@ == p;
                        assert(k != n);
                        assert(old_memos[k] == m[k]);
                    }
                }
            }
            let b = memo_index(m, key)->Some_0;
            assert(m[b].0@ == m[n].0@);
        }
    }
}

impl AppSettings {
    /// Sets the editor used to open worktrees.
    pub fn set_ide(&mut self, ide: IdeConfig)
        ensures
            *final(self) == (AppSettings { ide: Some(ide), ..*old(self) }),
    {
        self.ide = Some(ide);
    }

    /// Sets the colour theme.
    pub fn set_theme(&mut self, theme: String)
        ensures
            *final(self) == (AppSettings { theme: theme, ..*old(self) }),
    {
        self.theme = theme;
    }

    /// Sets whether the application starts with the session.
    pub fn set_launch_at_startup(&mut self, enabled: bool)
        ensures
            *final(self) == (AppSettings { launch_at_startup: Some(enabled), ..*old(self) }),
    {
        self.launch_at_startup = Some(enabled);
    }

    /// Sets the template for new worktree paths.
    pub fn set_default_worktree_template(&mut self, template: String)
        ensures
            *final(self) == (AppSettings { default_worktree_template: Some(template), ..*old(self) }),
    {
        self.default_worktree_template = Some(template);
    }

    /// Sets the paths copied into each new worktree.
    pub fn set_copy_paths(&mut self, paths: Vec<String>)
        ensures
            *final(self) == (AppSettings { copy_paths: Some(paths), ..*old(self) }),
    {
        self.copy_paths = Some(paths);
    }

    /// Sets whether to fetch before creating a worktree.
    pub fn set_fetch_before_create(&mut self, enabled: bool)
        ensures
            *final(self) == (AppSettings { fetch_before_create: Some(enabled), ..*old(self) }),
    {
        self.fetch_before_create = Some(enabled);
    }

    /// Sets the patterns that pick branch names out of the clipboard.
    pub fn set_clipboard_parse_patterns(&mut self, patterns: Vec<String>)
        ensures
            *final(self) == (AppSettings { clipboard_parse_patterns: Some(patterns), ..*old(self) }),
    {
        self.clipboard_parse_patterns = Some(patterns);
    }

    /// Sets the project used last.
    pub fn set_last_used_project(&mut self, project: String)
        ensures
            *final(self) == (AppSettings { last_used_project: Some(project), ..*old(self) }),
    {
        self.last_used_project = Some(project);
    }

    /// Sets the refresh interval, in minutes.
    pub fn set_refresh_interval_minutes(&mut self, minutes: i32)
        ensures
            *final(self) == (AppSettings { refresh_interval_minutes: minutes, ..*old(self) }),
    {
        self.refresh_interval_minutes = minutes;
    }

    /// Sets whether opening an editor asks first.
    pub fn set_skip_open_ide_confirm(&mut self, skip: bool)
        ensures
            *final(self) == (AppSettings { skip_open_ide_confirm: Some(skip), ..*old(self) }),
    {
        self.skip_open_ide_confirm = Some(skip);
    }

    /// Sets whether onboarding is done.
    pub fn set_onboarding_completed(&mut self, completed: bool)
        ensures
            *final(self) == (AppSettings { onboarding_completed: Some(completed), ..*old(self) }),
    {
        self.onboarding_completed = Some(completed);
    }

    /// Sets the global shortcut that shows or hides the window.
    pub fn set_global_shortcut(&mut self, shortcut: Option<String>)
        ensures
            *final(self) == (AppSettings { global_shortcut: shortcut, ..*old(self) }),
    {
        self.global_shortcut = shortcut;
    }
}

} // verus!
