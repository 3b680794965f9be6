//! The records that Trail keeps: projects, updates, the drafts that the
//! forms fill, and releases offered by the update check.
use vstd::prelude::*;

use crate::text::copy_string;

verus! {

/// The view of an optional string.
pub open spec fn opt_view(o: Option<String>) -> Option<Seq<char>> {
    match o {
        Some(s) => Some(s@),
        None => None,
    }
}

/// A copy of an optional string.
pub fn copy_opt(o: &Option<String>) -> (r: Option<String>)
    ensures
        opt_view(r) == opt_view(*o),
{
    match o {
        Some(s) => Some(copy_string(s)),
        None => None,
    }
}

/// A project as the form collects it, before it is saved.
#[derive(Debug)]
pub struct ProjectDraft {
    pub name: Option<String>,
    pub directory: Option<String>,
}

pub struct ProjectDraftView {
    pub name: Option<Seq<char>>,
    pub directory: Option<Seq<char>>,
}

impl View for ProjectDraft {
    type V = ProjectDraftView;

    open spec fn view(&self) -> ProjectDraftView {
        ProjectDraftView { name: opt_view(self.name), directory: opt_view(self.directory) }
    }
}

impl ProjectDraft {
    /// A draft with no field filled.
    pub fn empty() -> (r: ProjectDraft)
        ensures
            r@ == (ProjectDraftView { name: None, directory: None }),
    {
        ProjectDraft { name: None, directory: None }
    }

    /// A copy of this draft.
    pub fn duplicate(&self) -> (r: ProjectDraft)
        ensures
            r@ == self@,
    {
        ProjectDraft { name: copy_opt(&self.name), directory: copy_opt(&self.directory) }
    }
}

/// A saved project. Times are seconds since the Unix epoch.
#[derive(Debug)]
pub struct Project {
    pub id: String,
    pub name: String,
    pub directory: String,
    pub created_at: i64,
    pub updated_at: i64,
}

pub struct ProjectView {
    pub id: Seq<char>,
    pub name: Seq<char>,
    pub directory: Seq<char>,
    pub created_at: i64,
    pub updated_at: i64,
}

impl View for Project {
    type V = ProjectView;

    open spec fn view(&self) -> ProjectView {
        ProjectView {
            id: self.id@,
            name: self.name@,
            directory: self.directory@,
            created_at: self.created_at,
            updated_at: self.updated_at,
        }
    }
}

/// The step of the project form.
#[derive(Debug, Clone, Copy, PartialEq, Eq, Structural)]
pub enum ProjectStep {
    Name,
    Directory,
    Confirm,
}

/// An update as the form collects it, before it is saved.
#[derive(Debug)]
pub struct UpdateDraft {
    pub title: Option<String>,
    pub project_id: Option<String>,
    pub body: Option<String>,
    pub next: Option<String>,
}

pub struct UpdateDraftView {
    pub title: Option<Seq<char>>,
    pub project_id: Option<Seq<char>>,
    pub body: Option<Seq<char>>,
    pub next: Option<Seq<char>>,
}

impl View for UpdateDraft {
    type V = UpdateDraftView;

    open spec fn view(&self) -> UpdateDraftView {
        UpdateDraftView {
            title: opt_view(self.title),
            project_id: opt_view(self.project_id),
            body: opt_view(self.body),
            next: opt_view(self.next),
        }
    }
}

impl UpdateDraft {
    /// A draft with no field filled.
    pub fn empty() -> (r: UpdateDraft)
        ensures
            r@ == (UpdateDraftView { title: None, project_id: None, body: None, next: None }),
    {
        UpdateDraft { title: None, project_id: None, body: None, next: None }
    }

    /// A copy of this draft.
    pub fn duplicate(&self) -> (r: UpdateDraft)
        ensures
            r@ == self@,
    {
        UpdateDraft {
            title: copy_opt(&self.title),
            project_id: copy_opt(&self.project_id),
            body: copy_opt(&self.body),
            next: copy_opt(&self.next),
        }
    }
}

/// A saved update of a project. Times are seconds since the Unix epoch.
#[derive(Debug)]
pub struct Update {
    pub id: String,
    pub project_id: String,
    pub title: String,
    pub body: String,
    pub next: String,
    pub created_at: i64,
    pub updated_at: i64,
}

pub struct UpdateView {
    pub id: Seq<char>,
    pub project_id: Seq<char>,
    pub title: Seq<char>,
    pub body: Seq<char>,
    pub next: Seq<char>,
    pub created_at: i64,
    pub updated_at: i64,
}

impl View for Update {
    type V = UpdateView;

    open spec fn view(&self) -> UpdateView {
        UpdateView {
            id: self.id@,
            project_id: self.project_id@,
            title: self.title@,
            body: self.body@,
            next: self.next@,
            created_at: self.created_at,
            updated_at: self.updated_at,
        }
    }
}

/// The step of the update form.
#[derive(Debug, Clone, Copy, PartialEq, Eq, Structural)]
pub enum UpdateStep {
    Title,
    Body,
    Next,
    Confirm,
}

/// A downloadable file of a release.
#[derive(Debug)]
pub struct Asset {
    pub name: String,
    pub browser_download_url: String,
}

/// A published release of Trail.
#[derive(Debug)]
pub struct Release {
    pub tag_name: String,
    pub assets: Vec<Asset>,
}

/// The views of a sequence of projects.
pub open spec fn project_views(v: Seq<Project>) -> Seq<ProjectView> {
    v.map_values(|p: Project| p@)
}

/// The views of a sequence of updates.
pub open spec fn update_views(v: Seq<Update>) -> Seq<UpdateView> {
    v.map_values(|u: Update| u@)
}

} // verus!
