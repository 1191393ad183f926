//! The list of managed projects, keyed by repository path.
use vstd::prelude::*;

use crate::settings::{AppSettings, ProjectConfig};
use crate::text::same_text;

verus! {

/// Whether some project of `ps` has the repository path `path`.
pub open spec fn has_path(ps: Seq<ProjectConfig>, path: Seq<char>) -> bool {
    exists|i: int| 0 <= i < ps.len() && #[trigger] ps[i].repo_path@ == path
}

/// The index of the first project of `ps` with the repository path `path`.
pub open spec fn first_with_path(ps: Seq<ProjectConfig>, path: Seq<char>) -> int {
    choose|i: int|
        0 <= i < ps.len() && #[trigger] ps[i].repo_path@ == path && forall|j: int|
            0 <= j < i ==> #[trigger] ps[j].repo_path@ != path
}

/// The projects of `ps` whose repository path is not `path`, in order.
pub open spec fn without_path(ps: Seq<ProjectConfig>, path: Seq<char>) -> Seq<ProjectConfig>
    decreases ps.len(),
{
    if ps.len() == 0 {
        Seq::empty()
    } else {
        let rest = without_path(ps.drop_last(), path);
        if ps.last().repo_path@ != path {
            rest.push(ps.last())
        } else {
            rest
        }
    }
}

/// For each path of `paths` in turn, the first project with that path, if any.
pub open spec fn picked(ps: Seq<ProjectConfig>, paths: Seq<Seq<char>>) -> Seq<ProjectConfig>
    decreases paths.len(),
{
    if paths.len() == 0 {
        Seq::empty()
    } else {
        let rest = picked(ps, paths.drop_last());
        if has_path(ps, paths.last()) {
            rest.push(ps[first_with_path(ps, paths.last())])
        } else {
            rest
        }
    }
}

/// The projects of `ps` whose repository path is not among `paths`, in order.
pub open spec fn unlisted(ps: Seq<ProjectConfig>, paths: Seq<Seq<char>>) -> Seq<ProjectConfig>
    decreases ps.len(),
{
    if ps.len() == 0 {
        Seq::empty()
    } else {
        let rest = unlisted(ps.drop_last(), paths);
        if !paths.contains(ps.last().repo_path@) {
            rest.push(ps.last())
        } else {
            rest
        }
    }
}

/// The index of the first project with the repository path `path`, if any.
fn find_project(ps: &Vec<ProjectConfig>, path: &str) -> (r: Option<usize>)
    ensures
        r is Some <==> has_path(ps@, path@),
        r matches Some(i) ==> i == first_with_path(ps@, path@) && i < ps@.len() && ps@[i as int].repo_path@
            == path@,
{
    let mut i: usize = 0;
    while i < ps.len()
        invariant
            i <= ps@.len(),
            forall|j: int| 0 <= j < i ==> #[trigger] ps@[j].repo_path@ != path@,
        decreases ps.len() - i,
    {
        if same_text(ps[i].repo_path.as_str(), path) {
            proof {
                let f = first_with_path(ps@, path@);
                assert(ps@[i as int].repo_path@ == path@);
                if f < i {
                    assert(ps@[f].repo_path@ != path@);
                } else if f > i {
                    assert(ps@[i as int].repo_path@ != path@);
                }
            }
            return Some(i);
        }
        i = i + 1;
    }
    None
}

/// The projects, in order.
pub fn get_projects(settings: &AppSettings) -> (r: Vec<ProjectConfig>)
    ensures
        r@ == settings.projects@,
{
    let mut out: Vec<ProjectConfig> = Vec::new();
    let mut i: usize = 0;
    while i < settings.projects.len()
        invariant
            i <= settings.projects@.len(),
            out@ == settings.projects@.take(i as int),
        decreases settings.projects.len() - i,
    {
        out.push(settings.projects[i].copy());
        assert(out@ =~= settings.projects@.take(i + 1));
        i = i + 1;
    }
    assert(settings.projects@.take(settings.projects@.len() as int) =~= settings.projects@);
    out
}

/// Adds `project` at the end of the list, unless a project with the same
/// repository path is there already.
pub fn add_project(settings: &mut AppSettings, project: ProjectConfig) -> (r: Result<(), String>)
    ensures
        has_path(old(settings).projects@, project.repo_path@) ==> (r matches Err(m) && m@
            == "Project with this path already exists"@ && *final(settings) == *old(settings)),
        !has_path(old(settings).projects@, project.repo_path@) ==> r is Ok && *final(settings) == (
        AppSettings { projects: final(settings).projects, ..*old(settings) })
            && final(settings).projects@ == old(settings).projects@.push(project),
{
    if find_project(&settings.projects, project.repo_path.as_str()).is_some() {
        return Err(String::from_str("Project with this path already exists"));
    }
    settings.projects.push(project);
    Ok(())
}

/// Replaces the first project with the repository path `repo_path` by `project`.
pub fn update_project(settings: &mut AppSettings, repo_path: &str, project: ProjectConfig) -> (r:
    Result<(), String>)
    ensures
        has_path(old(settings).projects@, repo_path@) ==> r is Ok && *final(settings) == (
        AppSettings { projects: final(settings).projects, ..*old(settings) })
            && final(settings).projects@ == old(settings).projects@.update(
            first_with_path(old(settings).projects@, repo_path@),
            project,
        ),
        !has_path(old(settings).projects@, repo_path@) ==> (r matches Err(m) && m@
            == "Project not found"@ && *final(settings) == *old(settings)),
{
    match find_project(&settings.projects, repo_path) {
        Some(i) => {
            settings.projects.set(i, project);
            Ok(())
        },
        None => Err(String::from_str("Project not found")),
    }
}

/// Removes every project with the repository path `repo_path`.
pub fn remove_project(settings: &mut AppSettings, repo_path: &str)
    ensures
        *final(settings) == (AppSettings { projects: final(settings).projects, ..*old(settings) }),
        final(settings).projects@ == without_path(old(settings).projects@, repo_path@),
{
    let mut kept: Vec<ProjectConfig> = Vec::new();
    let mut i: usize = 0;
    let ghost ps = settings.projects@;
    assert(ps.take(0) =~= Seq::<ProjectConfig>::empty());
    while i < settings.projects.len()
        invariant
            i <= ps.len(),
            settings.projects@ == ps,
            kept@ == without_path(ps.take(i as int), repo_path@),
        decreases settings.projects.len() - i,
    {
        assert(ps.take(i + 1).drop_last() =~= ps.take(i as int));
        if !same_text(settings.projects[i].repo_path.as_str(), repo_path) {
            kept.push(settings.projects[i].copy());
        }
        i = i + 1;
    }
    assert(ps.take(ps.len() as int) =~= ps);
    settings.projects = kept;
}

/// Whether `path` is among `paths`.
fn listed(paths: &Vec<String>, path: &str) -> (r: bool)
    ensures
        r == paths.deep_view().contains(path@),
{
    let mut i: usize = 0;
    while i < paths.len()
        invariant
            i <= paths@.len(),
            forall|j: int| 0 <= j < i ==> paths.deep_view()[j] != path@,
        decreases paths.len() - i,
    {
        if same_text(paths[i].as_str(), path) {
            assert(paths.deep_view()[i as int] == path@);
            return true;
        }
        i = i + 1;
    }
    false
}

/// Puts the projects in the order of `repo_paths`: for each path, the first
/// project with that path; then, in their old order, the projects whose path
/// is not listed.
pub fn reorder_projects(settings: &mut AppSettings, repo_paths: &Vec<String>)
    ensures
        *final(settings) == (AppSettings { projects: final(settings).projects, ..*old(settings) }),
        final(settings).projects@ == picked(old(settings).projects@, repo_paths.deep_view())
            + unlisted(old(settings).projects@, repo_paths.deep_view()),
{
    let ghost ps = settings.projects@;
    let ghost paths = repo_paths.deep_view();
    let mut ordered: Vec<ProjectConfig> = Vec::new();
    let mut i: usize = 0;
    assert(paths.take(0) =~= Seq::<Seq<char>>::empty());
    while i < repo_paths.len()
        invariant
            i <= paths.len(),
            paths == repo_paths.deep_view(),
            settings.projects@ == ps,
            ordered@ == picked(ps, paths.take(i as int)),
        decreases repo_paths.len() - i,
    {
        assert(paths.take(i + 1).drop_last() =~= paths.take(i as int));
        assert(paths.take(i + 1).last() == repo_paths[i as int]@);
        match find_project(&settings.projects, repo_paths[i].as_str()) {
            Some(k) => {
                ordered.push(settings.projects[k].copy());
            },
            None => {},
        }
        i = i + 1;
    }
    assert(paths.take(paths.len() as int) =~= paths);
    let ghost first_part = ordered@;
    let mut j: usize = 0;
    assert(ps.take(0) =~= Seq::<ProjectConfig>::empty());
    while j < settings.projects.len()
        invariant
            j <= ps.len(),
            paths == repo_paths.deep_view(),
            settings.projects@ == ps,
            ordered@ == first_part + unlisted(ps.take(j as int), paths),
        decreases settings.projects.len() - j,
    {
        assert(ps.take(j + 1).drop_last() =~= ps.take(j as int));
        if !listed(repo_paths, settings.projects[j].repo_path.as_str()) {
            let ghost before = ordered@;
            ordered.push(settings.projects[j].copy());
            assert(ordered@ =~= first_part + unlisted(ps.take(j + 1), paths));
        } else {
            assert(ordered@ =~= first_part + unlisted(ps.take(j + 1), paths));
        }
        j = j + 1;
    }
    assert(ps.take(ps.len() as int) =~= ps);
    settings.projects = ordered;
}

} // verus!
