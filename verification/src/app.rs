//! The state of the browser: the projects, the opened project and its
//! updates, which pane has focus, which popup is shown, and the git view.
use vstd::prelude::*;

use crate::git::{
    Branch, BranchView, Commit, CommitView, Diff, DiffView, Summary, SummaryView, branch_views,
};
use crate::model::{
    opt_view, project_views, update_views, Asset, Project, ProjectView, Release, Update,
    UpdateView,
};
use crate::text::{copy_string, str_eq, views};

verus! {

/// The pane of the browser that has the focus.
#[derive(Debug, Clone, Copy, PartialEq, Eq, Structural)]
pub enum BrowserPane {
    Projects,
    LatestUpdate,
}

/// The pane of the git view that has the focus.
#[derive(Debug, Clone, Copy, PartialEq, Eq, Structural)]
pub enum GitPane {
    List,
    Diff,
}

/// A row of a branch's list in the git view.
#[derive(Debug)]
pub enum GitEntry {
    Uncommitted,
    Commit(Commit),
}

pub enum GitEntryView {
    Uncommitted,
    Commit(CommitView),
}

impl View for GitEntry {
    type V = GitEntryView;

    open spec fn view(&self) -> GitEntryView {
        match self {
            GitEntry::Uncommitted => GitEntryView::Uncommitted,
            GitEntry::Commit(c) => GitEntryView::Commit(c@),
        }
    }
}

/// What the shown diff was taken from.
#[derive(Debug)]
pub enum DiffSource {
    Uncommitted,
    Commit(String),
}

pub enum DiffSourceView {
    Uncommitted,
    Commit(Seq<char>),
}

impl View for DiffSource {
    type V = DiffSourceView;

    open spec fn view(&self) -> DiffSourceView {
        match self {
            DiffSource::Uncommitted => DiffSourceView::Uncommitted,
            DiffSource::Commit(sha) => DiffSourceView::Commit(sha@),
        }
    }
}

/// The selected row of a list, and the first row shown.
#[derive(Debug, Clone, Copy)]
pub struct ListSelection {
    pub selected: Option<usize>,
    pub offset: usize,
}

impl ListSelection {
    /// No row selected, the list shown from its top.
    pub open spec fn none() -> ListSelection {
        ListSelection { selected: None, offset: 0 }
    }

    /// `index` selected; no selection also brings the list back to its top.
    pub open spec fn selecting(self, index: Option<usize>) -> ListSelection {
        ListSelection {
            selected: index,
            offset: if index is None {
                0
            } else {
                self.offset
            },
        }
    }

    pub fn new() -> (r: ListSelection)
        ensures
            r == ListSelection::none(),
    {
        ListSelection { selected: None, offset: 0 }
    }

    pub fn select(&mut self, index: Option<usize>)
        ensures
            *final(self) == old(self).selecting(index),
    {
        self.selected = index;
        if index.is_none() {
            self.offset = 0;
        }
    }
}

/// The selected row and column of a table, and the first row shown.
#[derive(Debug, Clone, Copy)]
pub struct TableSelection {
    pub selected: Option<usize>,
    pub selected_column: Option<usize>,
    pub offset: usize,
}

impl TableSelection {
    /// Nothing selected, the table shown from its top.
    pub open spec fn none() -> TableSelection {
        TableSelection { selected: None, selected_column: None, offset: 0 }
    }

    /// Row `index` selected; no selection also brings the table back to its top.
    pub open spec fn selecting(self, index: Option<usize>) -> TableSelection {
        TableSelection {
            selected: index,
            offset: if index is None {
                0
            } else {
                self.offset
            },
            ..self
        }
    }

    pub open spec fn selecting_column(self, index: Option<usize>) -> TableSelection {
        TableSelection { selected_column: index, ..self }
    }

    pub fn new() -> (r: TableSelection)
        ensures
            r == TableSelection::none(),
    {
        TableSelection { selected: None, selected_column: None, offset: 0 }
    }

    pub fn select(&mut self, index: Option<usize>)
        ensures
            *final(self) == old(self).selecting(index),
    {
        self.selected = index;
        if index.is_none() {
            self.offset = 0;
        }
    }

    pub fn select_column(&mut self, index: Option<usize>)
        ensures
            *final(self) == old(self).selecting_column(index),
    {
        self.selected_column = index;
    }
}

/// The git view of the opened project.
#[derive(Debug)]
pub struct GitState {
    /// Ids of projects whose directory is inside a git repo.
    pub repos: Vec<String>,
    pub summary: Option<Summary>,
    pub branches: Vec<Branch>,
    pub branch_selection: ListSelection,
    /// When set, the list shows this branch's commits instead of the branches.
    pub opened_branch: Option<String>,
    pub entries: Vec<GitEntry>,
    pub entry_selection: ListSelection,
    pub diff: Option<Diff>,
    pub diff_source: Option<DiffSource>,
    pub diff_title: String,
    pub diff_scroll: u16,
    pub focused_pane: GitPane,
}

pub struct GitStateView {
    pub repos: Seq<Seq<char>>,
    pub summary: Option<SummaryView>,
    pub branches: Seq<BranchView>,
    pub branch_selection: ListSelection,
    pub opened_branch: Option<Seq<char>>,
    pub entries: Seq<GitEntryView>,
    pub entry_selection: ListSelection,
    pub diff: Option<DiffView>,
    pub diff_source: Option<DiffSourceView>,
    pub diff_title: Seq<char>,
    pub diff_scroll: u16,
    pub focused_pane: GitPane,
}

pub open spec fn summary_view(s: Option<Summary>) -> Option<SummaryView> {
    match s {
        Some(x) => Some(x@),
        None => None,
    }
}

pub open spec fn diff_view(d: Option<Diff>) -> Option<DiffView> {
    match d {
        Some(x) => Some(x@),
        None => None,
    }
}

pub open spec fn source_view(d: Option<DiffSource>) -> Option<DiffSourceView> {
    match d {
        Some(x) => Some(x@),
        None => None,
    }
}

pub open spec fn entry_views(v: Seq<GitEntry>) -> Seq<GitEntryView> {
    v.map_values(|e: GitEntry| e@)
}

impl View for GitState {
    type V = GitStateView;

    open spec fn view(&self) -> GitStateView {
        GitStateView {
            repos: views(self.repos@),
            summary: summary_view(self.summary),
            branches: branch_views(self.branches@),
            branch_selection: self.branch_selection,
            opened_branch: opt_view(self.opened_branch),
            entries: entry_views(self.entries@),
            entry_selection: self.entry_selection,
            diff: diff_view(self.diff),
            diff_source: source_view(self.diff_source),
            diff_title: self.diff_title@,
            diff_scroll: self.diff_scroll,
            focused_pane: self.focused_pane,
        }
    }
}

/// The git view with nothing loaded.
pub open spec fn empty_git() -> GitStateView {
    GitStateView {
        repos: seq![],
        summary: None,
        branches: seq![],
        branch_selection: ListSelection::none(),
        opened_branch: None,
        entries: seq![],
        entry_selection: ListSelection::none(),
        diff: None,
        diff_source: None,
        diff_title: seq![],
        diff_scroll: 0,
        focused_pane: GitPane::List,
    }
}

impl GitState {
    /// An empty git view.
    pub fn new() -> (r: GitState)
        ensures
            r@ == empty_git(),
    {
        let g = GitState {
            repos: Vec::new(),
            summary: None,
            branches: Vec::new(),
            branch_selection: ListSelection::new(),
            opened_branch: None,
            entries: Vec::new(),
            entry_selection: ListSelection::new(),
            diff: None,
            diff_source: None,
            diff_title: String::new(),
            diff_scroll: 0,
            focused_pane: GitPane::List,
        };
        assert(g@.repos =~= Seq::<Seq<char>>::empty());
        assert(g@.branches =~= Seq::<BranchView>::empty());
        assert(g@.entries =~= Seq::<GitEntryView>::empty());
        g
    }
}

/// What the library waits to hear back about, after asking for outside work.
#[derive(Debug)]
pub enum Awaiting {
    Nothing,
    /// The deletion of a project, by id.
    ProjectDeletion(String),
    /// The projects after a deletion; the selection before it.
    ProjectsAfterDeletion(usize),
    /// The deletion of an update, by id.
    UpdateDeletion(String),
    /// The updates after a deletion; the selection before it.
    UpdatesAfterDeletion(usize),
    /// The check of the directory after the name was entered.
    NamedDirectory,
    /// The check of the directory after it was entered.
    EnteredDirectory,
    /// The saving of the project draft.
    ProjectSave,
    /// The projects after the project with this id was saved.
    ProjectsAfterSave(String),
    /// The saving of the update draft.
    UpdateSave,
    /// The updates after the update with this id was saved.
    UpdatesAfterSave(String),
    /// The update to edit.
    UpdateEdit,
    /// The updates of the project just opened.
    UpdatesOnOpen,
}

pub enum AwaitingView {
    Nothing,
    ProjectDeletion(Seq<char>),
    ProjectsAfterDeletion(usize),
    UpdateDeletion(Seq<char>),
    UpdatesAfterDeletion(usize),
    NamedDirectory,
    EnteredDirectory,
    ProjectSave,
    ProjectsAfterSave(Seq<char>),
    UpdateSave,
    UpdatesAfterSave(Seq<char>),
    UpdateEdit,
    UpdatesOnOpen,
}

impl View for Awaiting {
    type V = AwaitingView;

    open spec fn view(&self) -> AwaitingView {
        match self {
            Awaiting::Nothing => AwaitingView::Nothing,
            Awaiting::ProjectDeletion(id) => AwaitingView::ProjectDeletion(id@),
            Awaiting::ProjectsAfterDeletion(p) => AwaitingView::ProjectsAfterDeletion(*p),
            Awaiting::UpdateDeletion(id) => AwaitingView::UpdateDeletion(id@),
            Awaiting::UpdatesAfterDeletion(p) => AwaitingView::UpdatesAfterDeletion(*p),
            Awaiting::NamedDirectory => AwaitingView::NamedDirectory,
            Awaiting::EnteredDirectory => AwaitingView::EnteredDirectory,
            Awaiting::ProjectSave => AwaitingView::ProjectSave,
            Awaiting::ProjectsAfterSave(id) => AwaitingView::ProjectsAfterSave(id@),
            Awaiting::UpdateSave => AwaitingView::UpdateSave,
            Awaiting::UpdatesAfterSave(id) => AwaitingView::UpdatesAfterSave(id@),
            Awaiting::UpdateEdit => AwaitingView::UpdateEdit,
            Awaiting::UpdatesOnOpen => AwaitingView::UpdatesOnOpen,
        }
    }
}

pub struct AssetView {
    pub name: Seq<char>,
    pub browser_download_url: Seq<char>,
}

pub struct ReleaseView {
    pub tag_name: Seq<char>,
    pub assets: Seq<AssetView>,
}

pub open spec fn release_view(r: Option<Release>) -> Option<ReleaseView> {
    match r {
        Some(x) => Some(
            ReleaseView {
                tag_name: x.tag_name@,
                assets: x.assets@.map_values(
                    |a: Asset| AssetView { name: a.name@, browser_download_url: a.browser_download_url@ },
                ),
            },
        ),
        None => None,
    }
}

/// The whole state of the user interface but for the text field.
#[derive(Debug)]
pub struct App {
    pub pending_release: Option<Release>,
    pub show_project_input: bool,
    pub show_update_input: bool,
    pub show_update_table: bool,
    pub show_update_popup: bool,
    pub show_git_view: bool,
    pub install_on_exit: bool,
    pub show_help: bool,
    pub help_scroll: u16,
    pub detail_scroll: u16,
    pub confirmation_scroll: u16,
    pub projects: Vec<Project>,
    pub updates: Vec<Update>,
    pub update_selection: TableSelection,
    pub project_selection: ListSelection,
    pub opened_project_id: Option<String>,
    pub opened_update_id: Option<String>,
    pub pending_project_delete_id: Option<String>,
    pub pending_update_delete_id: Option<String>,
    pub focused_pane: BrowserPane,
    pub git: GitState,
    pub err: Option<String>,
    pub exit: bool,
    pub awaiting: Awaiting,
}

pub struct AppView {
    pub pending_release: Option<ReleaseView>,
    pub show_project_input: bool,
    pub show_update_input: bool,
    pub show_update_table: bool,
    pub show_update_popup: bool,
    pub show_git_view: bool,
    pub install_on_exit: bool,
    pub show_help: bool,
    pub help_scroll: u16,
    pub detail_scroll: u16,
    pub confirmation_scroll: u16,
    pub projects: Seq<ProjectView>,
    pub updates: Seq<UpdateView>,
    pub update_selection: TableSelection,
    pub project_selection: ListSelection,
    pub opened_project_id: Option<Seq<char>>,
    pub opened_update_id: Option<Seq<char>>,
    pub pending_project_delete_id: Option<Seq<char>>,
    pub pending_update_delete_id: Option<Seq<char>>,
    pub focused_pane: BrowserPane,
    pub git: GitStateView,
    pub err: Option<Seq<char>>,
    pub exit: bool,
    pub awaiting: AwaitingView,
}

impl View for App {
    type V = AppView;

    open spec fn view(&self) -> AppView {
        AppView {
            pending_release: release_view(self.pending_release),
            show_project_input: self.show_project_input,
            show_update_input: self.show_update_input,
            show_update_table: self.show_update_table,
            show_update_popup: self.show_update_popup,
            show_git_view: self.show_git_view,
            install_on_exit: self.install_on_exit,
            show_help: self.show_help,
            help_scroll: self.help_scroll,
            detail_scroll: self.detail_scroll,
            confirmation_scroll: self.confirmation_scroll,
            projects: project_views(self.projects@),
            updates: update_views(self.updates@),
            update_selection: self.update_selection,
            project_selection: self.project_selection,
            opened_project_id: opt_view(self.opened_project_id),
            opened_update_id: opt_view(self.opened_update_id),
            pending_project_delete_id: opt_view(self.pending_project_delete_id),
            pending_update_delete_id: opt_view(self.pending_update_delete_id),
            focused_pane: self.focused_pane,
            git: self.git@,
            err: opt_view(self.err),
            exit: self.exit,
            awaiting: self.awaiting@,
        }
    }
}

// ---------------------------------------------------------------------------
// Specifications of the browser's state
// ---------------------------------------------------------------------------

/// Whether `o` holds the text `s`.
pub open spec fn holds(o: Option<Seq<char>>, s: Seq<char>) -> bool {
    o == Some(s)
}

/// The position of the first update of project `project` (with id `id`, when one is given).
pub open spec fn first_update(us: Seq<UpdateView>, project: Seq<char>, id: Option<Seq<char>>) -> Option<
    nat,
>
    decreases us.len(),
{
    if us.len() == 0 {
        None
    } else if us[0].project_id == project && (id matches Some(i) ==> us[0].id == i) {
        Some(0)
    } else {
        match first_update(us.drop_first(), project, id) {
            Some(k) => Some(k + 1),
            None => None,
        }
    }
}

/// The position of the first project with id `id`.
pub open spec fn project_position(ps: Seq<ProjectView>, id: Seq<char>) -> Option<nat>
    decreases ps.len(),
{
    if ps.len() == 0 {
        None
    } else if ps[0].id == id {
        Some(0)
    } else {
        match project_position(ps.drop_first(), id) {
            Some(k) => Some(k + 1),
            None => None,
        }
    }
}

/// The position of the first update with id `id`.
pub open spec fn update_position(us: Seq<UpdateView>, id: Seq<char>) -> Option<nat>
    decreases us.len(),
{
    if us.len() == 0 {
        None
    } else if us[0].id == id {
        Some(0)
    } else {
        match update_position(us.drop_first(), id) {
            Some(k) => Some(k + 1),
            None => None,
        }
    }
}

/// The ids of the projects whose flag is set.
pub open spec fn flagged_ids(ps: Seq<ProjectView>, flags: Seq<bool>) -> Seq<Seq<char>>
    decreases ps.len(),
{
    if ps.len() == 0 {
        seq![]
    } else {
        let i = ps.len() - 1;
        flagged_ids(ps.drop_last(), flags) + if i < flags.len() && flags[i] {
            seq![ps[i].id]
        } else {
            seq![]
        }
    }
}

/// An index into a list of `len` rows that stays in it: `Some(0)` and on, or
/// none for an empty list.
pub open spec fn first_row(len: nat) -> Option<usize> {
    if len == 0 {
        None
    } else {
        Some(0)
    }
}

impl AppView {
    /// The update that the Latest Update pane shows: the opened update if it
    /// belongs to the opened project, else the project's first update.
    pub open spec fn displayed_update(self) -> Option<nat> {
        match self.opened_project_id {
            None => None,
            Some(p) => match match self.opened_update_id {
                Some(u) => first_update(self.updates, p, Some(u)),
                None => None,
            } {
                Some(k) => Some(k),
                None => first_update(self.updates, p, None),
            },
        }
    }

    /// No form, table, help or confirmation is open.
    pub open spec fn idle(self) -> bool {
        &&& !self.show_update_table
        &&& !self.show_update_input
        &&& !self.show_project_input
        &&& !self.show_help
        &&& !self.show_git_view
        &&& self.pending_project_delete_id is None
        &&& self.pending_update_delete_id is None
    }

    /// The opened project's updates forgotten.
    pub open spec fn updates_cleared(self) -> AppView {
        AppView {
            detail_scroll: 0,
            updates: seq![],
            update_selection: TableSelection::none(),
            opened_update_id: None,
            ..self
        }
    }

    /// Freshly loaded projects in place, the first selected.
    pub open spec fn projects_reloaded(self, ps: Seq<ProjectView>, flags: Seq<bool>) -> AppView {
        AppView {
            git: GitStateView { repos: flagged_ids(ps, flags), ..self.git },
            projects: ps,
            project_selection: self.project_selection.selecting(first_row(ps.len())),
            ..self
        }
    }

    /// Freshly loaded updates in place, the first selected.
    pub open spec fn updates_reloaded(self, us: Seq<UpdateView>) -> AppView {
        AppView {
            detail_scroll: 0,
            updates: us,
            update_selection: self.update_selection.selecting(first_row(us.len())),
            ..self
        }
    }

    /// The directory of the opened project, when it lies in a git repository.
    pub open spec fn opened_git_directory(self) -> Option<Seq<char>> {
        match self.opened_project_id {
            None => None,
            Some(id) => if self.git.repos.contains(id) {
                match project_position(self.projects, id) {
                    Some(k) => Some(self.projects[k as int].directory),
                    None => None,
                }
            } else {
                None
            },
        }
    }
}

/// The update found is one of the list.
pub proof fn lemma_first_update_bound(us: Seq<UpdateView>, project: Seq<char>, id: Option<Seq<char>>)
    ensures
        first_update(us, project, id) matches Some(k) ==> k < us.len(),
    decreases us.len(),
{
    if us.len() > 0 {
        lemma_first_update_bound(us.drop_first(), project, id);
    }
}

/// The update that the Latest Update pane shows is one of the list.
pub proof fn lemma_displayed_update_bound(a: AppView)
    ensures
        a.displayed_update() matches Some(k) ==> k < a.updates.len(),
{
    if let Some(p) = a.opened_project_id {
        lemma_first_update_bound(a.updates, p, None);
        if let Some(u) = a.opened_update_id {
            lemma_first_update_bound(a.updates, p, Some(u));
        }
    }
}

// ---------------------------------------------------------------------------
// Executable browser state
// ---------------------------------------------------------------------------

/// Whether `o` holds the text `s`.
pub fn holds_str(o: &Option<String>, s: &str) -> (r: bool)
    ensures
        r == holds(opt_view(*o), s@),
{
    match o {
        Some(x) => str_eq(x.as_str(), s),
        None => false,
    }
}

/// The state at start: no project loaded, nothing open.
pub open spec fn initial_app() -> AppView {
    AppView {
        pending_release: None,
        show_project_input: false,
        show_update_input: false,
        show_update_table: false,
        show_update_popup: false,
        show_git_view: false,
        install_on_exit: false,
        show_help: false,
        help_scroll: 0,
        detail_scroll: 0,
        confirmation_scroll: 0,
        projects: seq![],
        updates: seq![],
        update_selection: TableSelection::none(),
        project_selection: ListSelection::none(),
        opened_project_id: None,
        opened_update_id: None,
        pending_project_delete_id: None,
        pending_update_delete_id: None,
        focused_pane: BrowserPane::Projects,
        git: empty_git(),
        err: None,
        exit: false,
        awaiting: AwaitingView::Nothing,
    }
}

impl App {
    /// The state at start: no project loaded, nothing open.
    pub fn new() -> (r: App)
        ensures
            r@ == initial_app(),
    {
        let a = App {
            pending_release: None,
            show_project_input: false,
            show_update_input: false,
            show_update_table: false,
            show_update_popup: false,
            show_git_view: false,
            install_on_exit: false,
            show_help: false,
            help_scroll: 0,
            detail_scroll: 0,
            confirmation_scroll: 0,
            projects: Vec::new(),
            updates: Vec::new(),
            update_selection: TableSelection::new(),
            project_selection: ListSelection::new(),
            opened_project_id: None,
            opened_update_id: None,
            pending_project_delete_id: None,
            pending_update_delete_id: None,
            focused_pane: BrowserPane::Projects,
            git: GitState::new(),
            err: None,
            exit: false,
            awaiting: Awaiting::Nothing,
        };
        assert(a@.projects =~= Seq::<ProjectView>::empty());
        assert(a@.updates =~= Seq::<UpdateView>::empty());
        a
    }

    /// No form, table, help or confirmation is open.
    pub fn is_idle(&self) -> (r: bool)
        ensures
            r == self@.idle(),
    {
        !self.show_update_table && !self.show_update_input && !self.show_project_input
            && !self.show_help && !self.show_git_view && self.pending_project_delete_id.is_none()
            && self.pending_update_delete_id.is_none()
    }

    /// The position of the update that the Latest Update pane shows.
    pub fn displayed_update(&self) -> (r: Option<usize>)
        ensures
            match r {
                Some(k) => self@.displayed_update() == Some(k as nat) && k < self.updates.len(),
                None => self@.displayed_update() is None,
            },
    {
        let p = match &self.opened_project_id {
            Some(p) => p,
            None => return None,
        };
        if let Some(u) = &self.opened_update_id {
            if let Some(k) = self.find_update(p.as_str(), Some(u.as_str())) {
                return Some(k);
            }
        }
        self.find_update(p.as_str(), None)
    }

    /// The position of the first update of `project` (with id `id` when one is given).
    fn find_update(&self, project: &str, id: Option<&str>) -> (r: Option<usize>)
        ensures
            match r {
                Some(k) => first_update(self@.updates, project@, crate::git::opt_str(id)) == Some(
                    k as nat,
                ) && k < self.updates.len(),
                None => first_update(self@.updates, project@, crate::git::opt_str(id)) is None,
            },
    {
        let ghost us = self@.updates;
        let ghost idv = crate::git::opt_str(id);
        let mut i: usize = 0;
        assert(us.skip(0) =~= us);
        while i < self.updates.len()
            invariant
                i <= self.updates.len(),
                us == self@.updates,
                us.len() == self.updates.len(),
                idv == crate::git::opt_str(id),
                first_update(us, project@, idv) == match first_update(us.skip(i as int), project@, idv) {
                    Some(k) => Some((k + i) as nat),
                    None => None,
                },
            decreases self.updates.len() - i,
        {
            let u = &self.updates[i];
            assert(us.skip(i as int)[0] == u@);
            assert(us.skip(i as int).drop_first() =~= us.skip(i + 1));
            let same_project = str_eq(u.project_id.as_str(), project);
            let same_id = match id {
                Some(x) => str_eq(u.id.as_str(), x),
                None => true,
            };
            if same_project && same_id {
                return Some(i);
            }
            i = i + 1;
        }
        assert(us.skip(i as int) =~= Seq::<UpdateView>::empty());
        None
    }

    /// Forgets the opened project's updates.
    pub fn clear_updates(&mut self)
        ensures
            final(self)@ == old(self)@.updates_cleared(),
    {
        self.detail_scroll = 0;
        self.updates = Vec::new();
        self.update_selection = TableSelection::new();
        self.opened_update_id = None;
        assert(self@.updates =~= Seq::<UpdateView>::empty());
    }

    /// Puts freshly loaded projects in place; `in_repo[i]` says whether the
    /// directory of `projects[i]` lies in a git repository.
    pub fn reload_projects(&mut self, projects: Vec<Project>, in_repo: &Vec<bool>)
        ensures
            final(self)@ == old(self)@.projects_reloaded(project_views(projects@), in_repo@),
    {
        let ghost ps = project_views(projects@);
        let mut repos: Vec<String> = Vec::new();
        let mut i: usize = 0;
        while i < projects.len()
            invariant
                i <= projects.len(),
                ps == project_views(projects@),
                views(repos@) == flagged_ids(ps.take(i as int), in_repo@),
            decreases projects.len() - i,
        {
            assert(ps.take(i + 1).drop_last() =~= ps.take(i as int));
            let ghost old_repos = repos@;
            if i < in_repo.len() && in_repo[i] {
                repos.push(copy_string(&projects[i].id));
                assert(views(repos@) =~= views(old_repos).push(projects@[i as int].id@));
            }
            assert(views(repos@) =~= flagged_ids(ps.take(i + 1), in_repo@));
            i = i + 1;
        }
        assert(ps.take(projects.len() as int) =~= ps);
        let selected = if projects.len() == 0 {
            None
        } else {
            Some(0)
        };
        self.git.repos = repos;
        self.projects = projects;
        self.project_selection.select(selected);
    }

    /// Puts freshly loaded updates of the opened project in place.
    pub fn reload_updates(&mut self, updates: Vec<Update>)
        ensures
            final(self)@ == old(self)@.updates_reloaded(update_views(updates@)),
    {
        let selected = if updates.len() == 0 {
            None
        } else {
            Some(0)
        };
        self.detail_scroll = 0;
        self.updates = updates;
        self.update_selection.select(selected);
    }

    /// The position of the first project with id `id`.
    pub fn project_position(&self, id: &str) -> (r: Option<usize>)
        ensures
            match r {
                Some(k) => project_position(self@.projects, id@) == Some(k as nat) && k
                    < self.projects.len(),
                None => project_position(self@.projects, id@) is None,
            },
    {
        let ghost ps = self@.projects;
        let mut i: usize = 0;
        assert(ps.skip(0) =~= ps);
        while i < self.projects.len()
            invariant
                i <= self.projects.len(),
                ps == self@.projects,
                project_position(ps, id@) == match project_position(ps.skip(i as int), id@) {
                    Some(k) => Some((k + i) as nat),
                    None => None,
                },
            decreases self.projects.len() - i,
        {
            assert(ps.skip(i as int)[0] == self.projects@[i as int]@);
            assert(ps.skip(i as int).drop_first() =~= ps.skip(i + 1));
            if str_eq(self.projects[i].id.as_str(), id) {
                return Some(i);
            }
            i = i + 1;
        }
        assert(ps.skip(i as int) =~= Seq::<ProjectView>::empty());
        None
    }

    /// The position of the first update with id `id`.
    pub fn update_position(&self, id: &str) -> (r: Option<usize>)
        ensures
            match r {
                Some(k) => update_position(self@.updates, id@) == Some(k as nat) && k
                    < self.updates.len(),
                None => update_position(self@.updates, id@) is None,
            },
    {
        let ghost us = self@.updates;
        let mut i: usize = 0;
        assert(us.skip(0) =~= us);
        while i < self.updates.len()
            invariant
                i <= self.updates.len(),
                us == self@.updates,
                update_position(us, id@) == match update_position(us.skip(i as int), id@) {
                    Some(k) => Some((k + i) as nat),
                    None => None,
                },
            decreases self.updates.len() - i,
        {
            assert(us.skip(i as int)[0] == self.updates@[i as int]@);
            assert(us.skip(i as int).drop_first() =~= us.skip(i + 1));
            if str_eq(self.updates[i].id.as_str(), id) {
                return Some(i);
            }
            i = i + 1;
        }
        assert(us.skip(i as int) =~= Seq::<UpdateView>::empty());
        None
    }

    /// Whether the project `id` lies in a git repository.
    fn in_repo(&self, id: &str) -> (r: bool)
        ensures
            r == self@.git.repos.contains(id@),
    {
        let ghost rs = self@.git.repos;
        let mut i: usize = 0;
        while i < self.git.repos.len()
            invariant
                i <= self.git.repos.len(),
                rs == self@.git.repos,
                forall|j: int| 0 <= j < i ==> rs[j] != id@,
            decreases self.git.repos.len() - i,
        {
            if str_eq(self.git.repos[i].as_str(), id) {
                assert(rs[i as int] == id@);
                return true;
            }
            i = i + 1;
        }
        false
    }

    /// The directory of the opened project, when it lies in a git repository.
    pub fn opened_git_directory(&self) -> (r: Option<String>)
        ensures
            opt_view(r) == self@.opened_git_directory(),
    {
        let id = match &self.opened_project_id {
            Some(id) => id,
            None => return None,
        };
        if !self.in_repo(id.as_str()) {
            return None;
        }
        match self.project_position(id.as_str()) {
            Some(k) => Some(copy_string(&self.projects[k].directory)),
            None => None,
        }
    }
}

} // verus!
