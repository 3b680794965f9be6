//! What a key press does, and what the answers to the outside work it asks
//! for do. Saving, loading and deleting records and checking a directory are
//! done by the caller: each step returns a `Request`, and the caller hands
//! what came of it back through `App::resume`.
use vstd::prelude::*;

use crate::app::{
    App, AppView, Awaiting, AwaitingView, BrowserPane, DiffSource, DiffSourceView,
};
use crate::gitkeys::git_key;
use crate::input::{dec_sat, inc_sat, min_int, Input, InputMode, InputView};
use crate::model::{
    project_views, update_views, Project, ProjectDraft, ProjectDraftView, ProjectStep, ProjectView,
    Update, UpdateDraft, UpdateDraftView, UpdateStep, UpdateView,
};
use crate::text::copy_string;

verus! {

// ---------------------------------------------------------------------------
// Keys, requests and replies
// ---------------------------------------------------------------------------

/// A key of the keyboard.
#[derive(Debug, Clone, Copy, PartialEq, Eq, Structural)]
pub enum Key {
    Char(char),
    Enter,
    Esc,
    Left,
    Right,
    Up,
    Down,
    PageUp,
    PageDown,
    Home,
    End,
    Backspace,
    Other,
}

/// A key event: the key, the modifiers held, and whether it is a press.
#[derive(Debug, Clone, Copy, PartialEq, Eq, Structural)]
pub struct KeyEvent {
    pub code: Key,
    pub shift: bool,
    pub ctrl: bool,
    pub press: bool,
}

/// Outside work that a step asks for.
#[derive(Debug)]
pub enum Request {
    Nothing,
    /// Delete the project with this id (its updates go with it).
    DeleteProject(String),
    /// Delete the update with this id.
    DeleteUpdate(String),
    /// Check that this is a directory (`~` standing for the home directory).
    CheckDirectory(String),
    /// Save this project draft as a new project.
    SaveProject(ProjectDraft),
    /// Save this update draft as a new update.
    SaveUpdate(UpdateDraft),
    /// Load all projects, and for each whether it lies in a git repository.
    LoadProjects,
    /// Load the updates of the project with this id.
    LoadUpdates(String),
    /// Load the update with this id.
    LoadUpdate(String),
    /// Open the git view of the opened project: read its summary and branches.
    OpenGitView,
    /// Show the commits of this branch in the git view.
    GitBranch(String),
    /// Show this diff, under this title, in the git view.
    GitDiff(DiffSource, String),
    /// Read again what the git view shows.
    GitRefresh,
}

pub enum RequestView {
    Nothing,
    DeleteProject(Seq<char>),
    DeleteUpdate(Seq<char>),
    CheckDirectory(Seq<char>),
    SaveProject(ProjectDraftView),
    SaveUpdate(UpdateDraftView),
    LoadProjects,
    LoadUpdates(Seq<char>),
    LoadUpdate(Seq<char>),
    OpenGitView,
    GitBranch(Seq<char>),
    GitDiff(DiffSourceView, Seq<char>),
    GitRefresh,
}

impl View for Request {
    type V = RequestView;

    open spec fn view(&self) -> RequestView {
        match self {
            Request::Nothing => RequestView::Nothing,
            Request::DeleteProject(id) => RequestView::DeleteProject(id@),
            Request::DeleteUpdate(id) => RequestView::DeleteUpdate(id@),
            Request::CheckDirectory(d) => RequestView::CheckDirectory(d@),
            Request::SaveProject(p) => RequestView::SaveProject(p@),
            Request::SaveUpdate(u) => RequestView::SaveUpdate(u@),
            Request::LoadProjects => RequestView::LoadProjects,
            Request::LoadUpdates(id) => RequestView::LoadUpdates(id@),
            Request::LoadUpdate(id) => RequestView::LoadUpdate(id@),
            Request::OpenGitView => RequestView::OpenGitView,
            Request::GitBranch(b) => RequestView::GitBranch(b@),
            Request::GitDiff(source, title) => RequestView::GitDiff(source@, title@),
            Request::GitRefresh => RequestView::GitRefresh,
        }
    }
}

/// What came of a request; an error is the text that describes it.
#[derive(Debug)]
pub enum Reply {
    /// A deletion or a directory check.
    Done(Result<(), String>),
    /// A save, with the id of the new record.
    Saved(Result<String, String>),
    /// The projects, and for each whether it lies in a git repository.
    Projects(Result<Vec<Project>, String>, Vec<bool>),
    /// The updates of a project.
    Updates(Result<Vec<Update>, String>),
    /// One update.
    Update(Result<Update, String>),
}

pub enum ReplyView {
    Done(Result<(), Seq<char>>),
    Saved(Result<Seq<char>, Seq<char>>),
    Projects(Result<Seq<ProjectView>, Seq<char>>, Seq<bool>),
    Updates(Result<Seq<UpdateView>, Seq<char>>),
    Update(Result<UpdateView, Seq<char>>),
}


impl View for Reply {
    type V = ReplyView;

    open spec fn view(&self) -> ReplyView {
        match self {
            Reply::Done(r) => ReplyView::Done(
                match r {
                    Ok(()) => Ok(()),
                    Err(e) => Err(e@),
                },
            ),
            Reply::Saved(r) => ReplyView::Saved(
                match r {
                    Ok(id) => Ok(id@),
                    Err(e) => Err(e@),
                },
            ),
            Reply::Projects(r, flags) => ReplyView::Projects(
                match r {
                    Ok(ps) => Ok(project_views(ps@)),
                    Err(e) => Err(e@),
                },
                flags@,
            ),
            Reply::Updates(r) => ReplyView::Updates(
                match r {
                    Ok(us) => Ok(update_views(us@)),
                    Err(e) => Err(e@),
                },
            ),
            Reply::Update(r) => ReplyView::Update(
                match r {
                    Ok(u) => Ok(u@),
                    Err(e) => Err(e@),
                },
            ),
        }
    }
}

/// The state after a step, and the outside work it asks for.
pub struct Outcome {
    pub app: AppView,
    pub input: InputView,
    pub request: RequestView,
}

pub open spec fn step_to(a: AppView, i: InputView) -> Outcome {
    Outcome { app: a, input: i, request: RequestView::Nothing }
}

// ---------------------------------------------------------------------------
// Messages
// ---------------------------------------------------------------------------

pub open spec fn validate_failed(e: Seq<char>) -> Seq<char> {
    "Couldn't validate path: "@ + e
}

pub open spec fn directory_missing() -> Seq<char> {
    "Directory field needs to be filled."@
}

pub open spec fn name_missing() -> Seq<char> {
    "Couldn't derive a project name. Please enter one."@
}

pub open spec fn try_again(e: Seq<char>) -> Seq<char> {
    e + ". Please try again."@
}

pub open spec fn title_missing() -> Seq<char> {
    "Must enter an update name."@
}

pub open spec fn body_missing() -> Seq<char> {
    "Must enter an update body."@
}

// ---------------------------------------------------------------------------
// Which part of the interface a key goes to
// ---------------------------------------------------------------------------

/// The scroll position that the arrow keys move.
#[derive(Debug, Clone, Copy, PartialEq, Eq, Structural)]
pub enum ScrollTarget {
    Help,
    Confirmation,
    Detail,
}

/// The part of the interface that handles a key.
#[derive(Debug, Clone, Copy, PartialEq, Eq, Structural)]
pub enum Route {
    Ignored,
    ProjectDeletion,
    UpdateDeletion,
    Scroll(ScrollTarget, u16),
    ProjectForm,
    UpdateForm,
    Table,
    Help,
    Browser,
    Git,
}

/// `v + n`, staying at the maximum.
pub open spec fn add_u16(v: u16, n: u16) -> u16 {
    if v as int + n as int > u16::MAX as int {
        u16::MAX
    } else {
        (v + n) as u16
    }
}

/// `v - n`, staying at zero.
pub open spec fn sub_u16(v: u16, n: u16) -> u16 {
    if v < n {
        0
    } else {
        (v - n) as u16
    }
}

/// The scroll that a key asks for, from `v`.
pub open spec fn scrolled(v: u16, k: Key) -> Option<u16> {
    if k == Key::Down || k == Key::Char('j') {
        Some(add_u16(v, 1))
    } else if k == Key::Up || k == Key::Char('k') {
        Some(sub_u16(v, 1))
    } else if k == Key::PageDown {
        Some(add_u16(v, 10))
    } else if k == Key::PageUp {
        Some(sub_u16(v, 10))
    } else if k == Key::Home {
        Some(0)
    } else if k == Key::End {
        Some(u16::MAX)
    } else {
        None
    }
}

/// The scroll position that keys move, if any.
pub open spec fn scroll_target(a: AppView, i: InputView) -> Option<ScrollTarget> {
    if a.show_help {
        Some(ScrollTarget::Help)
    } else if a.show_update_input && i.update_step == UpdateStep::Confirm {
        Some(ScrollTarget::Confirmation)
    } else if !a.show_update_input && !a.show_project_input && !a.show_update_table
        && a.focused_pane == BrowserPane::LatestUpdate {
        Some(ScrollTarget::Detail)
    } else {
        None
    }
}

pub open spec fn scroll_of(a: AppView, t: ScrollTarget) -> u16 {
    match t {
        ScrollTarget::Help => a.help_scroll,
        ScrollTarget::Confirmation => a.confirmation_scroll,
        ScrollTarget::Detail => a.detail_scroll,
    }
}

pub open spec fn with_scroll(a: AppView, t: ScrollTarget, v: u16) -> AppView {
    match t {
        ScrollTarget::Help => AppView { help_scroll: v, ..a },
        ScrollTarget::Confirmation => AppView { confirmation_scroll: v, ..a },
        ScrollTarget::Detail => AppView { detail_scroll: v, ..a },
    }
}

/// Where a key goes: a key is ignored unless pressed and unless nothing is
/// awaited; a pending deletion takes every key; then scrolling; then the open
/// form (while editing), the update table, the help, and else the browser.
pub open spec fn route(a: AppView, i: InputView, k: KeyEvent) -> Route {
    if !k.press || !(a.awaiting is Nothing) {
        Route::Ignored
    } else if a.pending_project_delete_id is Some {
        Route::ProjectDeletion
    } else if a.pending_update_delete_id is Some {
        Route::UpdateDeletion
    } else if a.show_git_view {
        Route::Git
    } else if scroll_target(a, i) is Some && scrolled(
        scroll_of(a, scroll_target(a, i)->0),
        k.code,
    ) is Some {
        Route::Scroll(
            scroll_target(a, i)->0,
            scrolled(scroll_of(a, scroll_target(a, i)->0), k.code)->0,
        )
    } else if a.show_project_input && i.mode == InputMode::Editing {
        Route::ProjectForm
    } else if a.show_update_input && i.mode == InputMode::Editing {
        Route::UpdateForm
    } else if a.show_update_table {
        Route::Table
    } else if a.show_help {
        Route::Help
    } else {
        Route::Browser
    }
}

// ---------------------------------------------------------------------------
// What each part does with a key
// ---------------------------------------------------------------------------

/// A key typed into the text field.
pub open spec fn edited(i: InputView, k: Key) -> InputView {
    match k {
        Key::Char(c) => i.entered(c),
        Key::Left => i.moved_left(),
        Key::Right => i.moved_right(),
        Key::Backspace => i.deleted(),
        _ => i,
    }
}

pub open spec fn project_deletion_key(a: AppView, i: InputView, k: KeyEvent) -> Outcome {
    if k.code == Key::Enter {
        let id = a.pending_project_delete_id->0;
        Outcome {
            app: AppView {
                pending_project_delete_id: None,
                awaiting: AwaitingView::ProjectDeletion(id),
                ..a
            },
            input: i,
            request: RequestView::DeleteProject(id),
        }
    } else if k.code == Key::Esc {
        step_to(AppView { pending_project_delete_id: None, ..a }, i)
    } else {
        step_to(a, i)
    }
}

pub open spec fn update_deletion_key(a: AppView, i: InputView, k: KeyEvent) -> Outcome {
    if k.code == Key::Enter {
        let id = a.pending_update_delete_id->0;
        Outcome {
            app: AppView {
                pending_update_delete_id: None,
                awaiting: AwaitingView::UpdateDeletion(id),
                ..a
            },
            input: i,
            request: RequestView::DeleteUpdate(id),
        }
    } else if k.code == Key::Esc {
        step_to(AppView { pending_update_delete_id: None, ..a }, i)
    } else {
        step_to(a, i)
    }
}

/// Enter on the name: keep it; ask for the directory, or check the one given.
pub open spec fn name_entered(a: AppView, i: InputView) -> Outcome {
    let i1 = i.submitted_name();
    let a1 = if i1.project.name is Some {
        AppView { err: None, ..a }
    } else {
        a
    };
    if a1.err is None && i1.project.directory is None {
        step_to(a1, InputView { project_step: ProjectStep::Directory, ..i1 })
    } else if a1.err is None {
        Outcome {
            app: AppView { awaiting: AwaitingView::NamedDirectory, ..a1 },
            input: i1,
            request: RequestView::CheckDirectory(i1.project.directory->0),
        }
    } else {
        step_to(a1, i1)
    }
}

/// Enter on the directory: it is required, and so is a name; then check it.
pub open spec fn directory_entered(a: AppView, i: InputView) -> Outcome {
    let i1 = i.submitted_directory();
    if i1.project.directory is None {
        step_to(AppView { err: Some(directory_missing()), ..a }, i1)
    } else if i1.project.name is None {
        step_to(
            AppView { err: Some(name_missing()), ..a },
            InputView { project_step: ProjectStep::Name, ..i1 },
        )
    } else {
        Outcome {
            app: AppView { awaiting: AwaitingView::EnteredDirectory, ..a },
            input: i1,
            request: RequestView::CheckDirectory(i1.project.directory->0),
        }
    }
}

pub open spec fn project_form_key(a: AppView, i: InputView, k: KeyEvent) -> Outcome {
    if k.code == Key::Enter {
        match i.project_step {
            ProjectStep::Name => name_entered(a, i),
            ProjectStep::Directory => directory_entered(a, i),
            ProjectStep::Confirm => Outcome {
                app: AppView { awaiting: AwaitingView::ProjectSave, ..a },
                input: i,
                request: RequestView::SaveProject(i.project),
            },
        }
    } else if k.code == Key::Esc {
        step_to(
            AppView { err: None, show_project_input: false, ..a },
            InputView { mode: InputMode::Normal, ..i.reset() },
        )
    } else if i.project_step != ProjectStep::Confirm {
        step_to(a, edited(i, k.code))
    } else {
        step_to(a, i)
    }
}

/// What a key does in the update form.
#[derive(Debug, Clone, Copy, PartialEq, Eq, Structural)]
pub enum UpdateFormAction {
    NewLine,
    SubmitTitle,
    SubmitBody,
    SubmitNext,
    Save,
    Cancel,
    Type,
    Nothing,
}

#[verifier::opaque]
pub open spec fn update_form_action(i: InputView, k: KeyEvent) -> UpdateFormAction {
    if k.code == Key::Enter && k.shift && (i.update_step == UpdateStep::Body || i.update_step
        == UpdateStep::Next) {
        UpdateFormAction::NewLine
    } else if k.code == Key::Enter {
        match i.update_step {
            UpdateStep::Title => UpdateFormAction::SubmitTitle,
            UpdateStep::Body => UpdateFormAction::SubmitBody,
            UpdateStep::Next => UpdateFormAction::SubmitNext,
            UpdateStep::Confirm => UpdateFormAction::Save,
        }
    } else if k.code == Key::Esc {
        UpdateFormAction::Cancel
    } else if i.update_step != UpdateStep::Confirm {
        UpdateFormAction::Type
    } else {
        UpdateFormAction::Nothing
    }
}

/// Enter on the title: it is required; then on to the body.
pub open spec fn title_entered(a: AppView, i: InputView) -> Outcome {
    let i1 = i.submitted_title();
    if i1.update.title is None {
        step_to(AppView { err: Some(title_missing()), ..a }, i1)
    } else {
        step_to(
            AppView { err: None, ..a },
            InputView { update_step: UpdateStep::Body, ..i1 }.prefilled(),
        )
    }
}

/// Enter on the body: it is required; then on to what comes next.
pub open spec fn body_entered(a: AppView, i: InputView) -> Outcome {
    let i1 = i.submitted_body();
    if i1.update.body is None {
        step_to(AppView { err: Some(body_missing()), ..a }, i1)
    } else {
        step_to(
            AppView { err: None, ..a },
            InputView { update_step: UpdateStep::Next, ..i1 }.prefilled(),
        )
    }
}

/// Enter on what comes next: on to the confirmation, scrolled to its top.
pub open spec fn next_entered(a: AppView, i: InputView) -> Outcome {
    step_to(
        AppView { confirmation_scroll: 0, ..a },
        InputView { update_step: UpdateStep::Confirm, ..i.submitted_next() },
    )
}

/// Enter on the confirmation: save the draft for the opened project.
pub open spec fn update_confirmed(a: AppView, i: InputView) -> Outcome {
    let i1 = i.assigned(a.opened_project_id->0);
    Outcome {
        app: AppView { awaiting: AwaitingView::UpdateSave, ..a },
        input: i1,
        request: RequestView::SaveUpdate(i1.update),
    }
}

pub open spec fn update_form_key(a: AppView, i: InputView, k: KeyEvent) -> Outcome {
    match update_form_action(i, k) {
        UpdateFormAction::NewLine => step_to(a, i.entered('\n')),
        UpdateFormAction::SubmitTitle => title_entered(a, i),
        UpdateFormAction::SubmitBody => body_entered(a, i),
        UpdateFormAction::SubmitNext => next_entered(a, i),
        UpdateFormAction::Save => update_confirmed(a, i),
        UpdateFormAction::Cancel => step_to(
            AppView { err: None, show_update_input: false, ..a },
            InputView { mode: InputMode::Normal, ..i.reset() },
        ),
        UpdateFormAction::Type => step_to(a, edited(i, k.code)),
        UpdateFormAction::Nothing => step_to(a, i),
    }
}

/// The row below the selected one, staying on the last; the first when none is selected.
pub open spec fn row_below(sel: Option<usize>, len: nat) -> usize {
    match sel {
        Some(r) => min_int(inc_sat(r), len - 1) as usize,
        None => 0,
    }
}

/// The row above the selected one, staying on the first.
pub open spec fn row_above(sel: Option<usize>) -> usize {
    match sel {
        Some(r) => dec_sat(r) as usize,
        None => 0,
    }
}

/// The selected row, if it exists.
pub open spec fn valid_row(sel: Option<usize>, len: nat) -> Option<usize> {
    match sel {
        Some(r) => if r < len {
            Some(r)
        } else {
            None
        },
        None => None,
    }
}

/// The number of the last column of the update table.
pub open spec fn last_column() -> usize {
    4
}

/// What a key does in the update table.
#[derive(Debug, Clone, Copy, PartialEq, Eq, Structural)]
pub enum TableAction {
    Close,
    Quit,
    Down,
    Up,
    Left,
    Right,
    Open(usize),
    Edit(usize),
    Delete(usize),
    Nothing,
}

#[verifier::opaque]
pub open spec fn table_action(a: AppView, k: KeyEvent) -> TableAction {
    let c = k.code;
    let n = a.updates.len();
    let row = valid_row(a.update_selection.selected, n);
    if c == Key::Esc {
        TableAction::Close
    } else if c == Key::Char('q') {
        TableAction::Quit
    } else if (c == Key::Char('j') || c == Key::Down) && n > 0 {
        TableAction::Down
    } else if (c == Key::Char('k') || c == Key::Up) && n > 0 {
        TableAction::Up
    } else if (c == Key::Char('h') || c == Key::Left) && n > 0 {
        TableAction::Left
    } else if (c == Key::Char('l') || c == Key::Right) && n > 0 {
        TableAction::Right
    } else if c == Key::Enter {
        match row {
            Some(r) => TableAction::Open(r),
            None => TableAction::Nothing,
        }
    } else if c == Key::Char('e') {
        match row {
            Some(r) => TableAction::Edit(r),
            None => TableAction::Nothing,
        }
    } else if c == Key::Char('d') {
        match row {
            Some(r) => TableAction::Delete(r),
            None => TableAction::Nothing,
        }
    } else {
        TableAction::Nothing
    }
}

/// The column right of the selected one, staying on the last; the first when none is selected.
pub open spec fn column_right(col: Option<usize>) -> usize {
    match col {
        Some(c) => min_int(c + 1, last_column() as int) as usize,
        None => 0,
    }
}

/// Moving in the update table, leaving it, or quitting.
pub open spec fn table_moved(a: AppView, i: InputView, act: TableAction) -> Outcome {
    let sel = a.update_selection;
    match act {
        TableAction::Close => step_to(AppView { show_update_table: false, ..a }, i),
        TableAction::Quit => step_to(AppView { exit: true, ..a }, i),
        TableAction::Down => step_to(
            AppView {
                update_selection: sel.selecting(Some(row_below(sel.selected, a.updates.len()))),
                ..a
            },
            i,
        ),
        TableAction::Up => step_to(
            AppView { update_selection: sel.selecting(Some(row_above(sel.selected))), ..a },
            i,
        ),
        TableAction::Left => step_to(
            AppView {
                update_selection: sel.selecting_column(Some(row_above(sel.selected_column))),
                ..a
            },
            i,
        ),
        TableAction::Right => step_to(
            AppView {
                update_selection: sel.selecting_column(Some(column_right(sel.selected_column))),
                ..a
            },
            i,
        ),
        _ => step_to(a, i),
    }
}

/// Opening, editing or deleting the selected update.
pub open spec fn table_row_used(a: AppView, i: InputView, act: TableAction) -> Outcome {
    match act {
        TableAction::Open(r) => step_to(
            AppView {
                opened_update_id: Some(a.updates[r as int].id),
                detail_scroll: 0,
                show_update_table: false,
                focused_pane: BrowserPane::LatestUpdate,
                ..a
            },
            i,
        ),
        TableAction::Edit(r) => Outcome {
            app: AppView { awaiting: AwaitingView::UpdateEdit, ..a },
            input: i,
            request: RequestView::LoadUpdate(a.updates[r as int].id),
        },
        TableAction::Delete(r) => step_to(
            AppView { pending_update_delete_id: Some(a.updates[r as int].id), err: None, ..a },
            i,
        ),
        _ => step_to(a, i),
    }
}

pub open spec fn table_key(a: AppView, i: InputView, k: KeyEvent) -> Outcome {
    let act = table_action(a, k);
    match act {
        TableAction::Open(_) | TableAction::Edit(_) | TableAction::Delete(_) => table_row_used(
            a,
            i,
            act,
        ),
        _ => table_moved(a, i, act),
    }
}

pub open spec fn help_key(a: AppView, i: InputView, k: KeyEvent) -> Outcome {
    if k.code == Key::Esc || k.code == Key::Char('?') {
        step_to(AppView { show_help: false, ..a }, i)
    } else if k.code == Key::Char('q') {
        step_to(AppView { exit: true, ..a }, i)
    } else {
        step_to(a, i)
    }
}

/// What a key does in the browser.
#[derive(Debug, Clone, Copy, PartialEq, Eq, Structural)]
pub enum BrowserAction {
    NewProject,
    Quit,
    Down,
    Up,
    UpdateTable,
    Open(usize),
    FocusProjects,
    FocusUpdate,
    Delete(usize),
    Edit(usize),
    NewUpdate,
    Help,
    GitView,
    Nothing,
}

#[verifier::opaque]
pub open spec fn browser_action(a: AppView, k: KeyEvent) -> BrowserAction {
    let c = k.code;
    let n = a.projects.len();
    let row = valid_row(a.project_selection.selected, n);
    let on_projects = a.focused_pane == BrowserPane::Projects;
    if c == Key::Char('A') {
        BrowserAction::NewProject
    } else if c == Key::Char('q') {
        BrowserAction::Quit
    } else if (c == Key::Char('j') || c == Key::Down) && on_projects && n > 0 {
        BrowserAction::Down
    } else if (c == Key::Char('k') || c == Key::Up) && on_projects && n > 0 {
        BrowserAction::Up
    } else if c == Key::Char('u') && a.opened_project_id is Some {
        BrowserAction::UpdateTable
    } else if c == Key::Enter && on_projects {
        match row {
            Some(r) => BrowserAction::Open(r),
            None => BrowserAction::Nothing,
        }
    } else if c == Key::Char('h') && k.ctrl {
        BrowserAction::FocusProjects
    } else if c == Key::Char('l') && k.ctrl {
        BrowserAction::FocusUpdate
    } else if c == Key::Char('D') && row is Some && on_projects {
        BrowserAction::Delete(row->0)
    } else if c == Key::Char('e') && a.focused_pane == BrowserPane::LatestUpdate {
        match a.displayed_update() {
            Some(u) => BrowserAction::Edit(u as usize),
            None => BrowserAction::Nothing,
        }
    } else if c == Key::Char('a') && a.opened_project_id is Some {
        BrowserAction::NewUpdate
    } else if c == Key::Char('?') {
        BrowserAction::Help
    } else if c == Key::Char('g') && a.opened_git_directory() is Some {
        BrowserAction::GitView
    } else {
        BrowserAction::Nothing
    }
}

/// Opening the project at row `r`: its updates are loaded.
pub open spec fn project_opened(a: AppView, i: InputView, r: usize) -> Outcome {
    let id = a.projects[r as int].id;
    Outcome {
        app: AppView {
            opened_project_id: Some(id),
            awaiting: AwaitingView::UpdatesOnOpen,
            ..a.updates_cleared()
        },
        input: i,
        request: RequestView::LoadUpdates(id),
    }
}

/// Moving in the project list, switching panes, or quitting.
pub open spec fn browser_moved(a: AppView, i: InputView, act: BrowserAction) -> Outcome {
    let sel = a.project_selection;
    match act {
        BrowserAction::Quit => step_to(AppView { exit: true, ..a }, i),
        BrowserAction::Down => step_to(
            AppView {
                project_selection: sel.selecting(Some(row_below(sel.selected, a.projects.len()))),
                ..a
            },
            i,
        ),
        BrowserAction::Up => step_to(
            AppView { project_selection: sel.selecting(Some(row_above(sel.selected))), ..a },
            i,
        ),
        BrowserAction::FocusProjects => step_to(
            AppView { focused_pane: BrowserPane::Projects, ..a },
            i,
        ),
        BrowserAction::FocusUpdate => step_to(
            AppView { focused_pane: BrowserPane::LatestUpdate, ..a },
            i,
        ),
        _ => step_to(a, i),
    }
}

/// Opening a form, the update table or the help.
pub open spec fn browser_opened(a: AppView, i: InputView, act: BrowserAction) -> Outcome {
    match act {
        BrowserAction::NewProject => step_to(
            AppView { show_project_input: true, err: None, ..a },
            InputView { mode: InputMode::Editing, ..i },
        ),
        BrowserAction::UpdateTable => step_to(AppView { show_update_table: true, ..a }, i),
        BrowserAction::NewUpdate => step_to(
            AppView { show_update_input: true, err: None, ..a },
            InputView { mode: InputMode::Editing, ..i },
        ),
        BrowserAction::Help => step_to(AppView { help_scroll: 0, show_help: true, ..a }, i),
        BrowserAction::GitView => Outcome {
            app: AppView { show_git_view: true, ..a },
            input: i,
            request: RequestView::OpenGitView,
        },
        _ => step_to(a, i),
    }
}

/// Opening or deleting the selected project, or editing the shown update.
pub open spec fn browser_row_used(a: AppView, i: InputView, act: BrowserAction) -> Outcome {
    match act {
        BrowserAction::Open(r) => project_opened(a, i, r),
        BrowserAction::Delete(r) => step_to(
            AppView { pending_project_delete_id: Some(a.projects[r as int].id), ..a },
            i,
        ),
        BrowserAction::Edit(u) => Outcome {
            app: AppView { awaiting: AwaitingView::UpdateEdit, ..a },
            input: i,
            request: RequestView::LoadUpdate(a.updates[u as int].id),
        },
        _ => step_to(a, i),
    }
}

pub open spec fn browser_key(a: AppView, i: InputView, k: KeyEvent) -> Outcome {
    let act = browser_action(a, k);
    match act {
        BrowserAction::Open(_) | BrowserAction::Delete(_) | BrowserAction::Edit(_) => browser_row_used(
            a,
            i,
            act,
        ),
        BrowserAction::NewProject | BrowserAction::UpdateTable | BrowserAction::NewUpdate
        | BrowserAction::Help | BrowserAction::GitView => browser_opened(a, i, act),
        _ => browser_moved(a, i, act),
    }
}

/// What a key does.
pub open spec fn key_step(a: AppView, i: InputView, k: KeyEvent) -> Outcome {
    match route(a, i, k) {
        Route::Ignored => step_to(a, i),
        Route::ProjectDeletion => project_deletion_key(a, i, k),
        Route::UpdateDeletion => update_deletion_key(a, i, k),
        Route::Scroll(t, v) => step_to(with_scroll(a, t, v), i),
        Route::ProjectForm => project_form_key(a, i, k),
        Route::UpdateForm => update_form_key(a, i, k),
        Route::Table => table_key(a, i, k),
        Route::Help => help_key(a, i, k),
        Route::Browser => browser_key(a, i, k),
        Route::Git => git_key(a, i, k),
    }
}

/// The keys that the library cannot handle: confirming an update when no
/// project is open, and moving right from a column numbered `usize::MAX`.
pub open spec fn key_fails(a: AppView, i: InputView, k: KeyEvent) -> bool {
    match route(a, i, k) {
        Route::UpdateForm => update_form_action(i, k) == UpdateFormAction::Save
            && a.opened_project_id is None,
        Route::Table => table_action(a, k) == TableAction::Right
            && a.update_selection.selected_column == Some(usize::MAX),
        _ => false,
    }
}

// ---------------------------------------------------------------------------
// Executable steps
// ---------------------------------------------------------------------------

fn add_sat_u16(v: u16, n: u16) -> (r: u16)
    ensures
        r == add_u16(v, n),
{
    if v > u16::MAX - n {
        u16::MAX
    } else {
        v + n
    }
}

fn sub_sat_u16(v: u16, n: u16) -> (r: u16)
    ensures
        r == sub_u16(v, n),
{
    if v < n {
        0
    } else {
        v - n
    }
}

/// The scroll that a key asks for, from `v`.
pub fn scroll_for(v: u16, k: Key) -> (r: Option<u16>)
    ensures
        r == scrolled(v, k),
{
    if k == Key::Down || k == Key::Char('j') {
        Some(add_sat_u16(v, 1))
    } else if k == Key::Up || k == Key::Char('k') {
        Some(sub_sat_u16(v, 1))
    } else if k == Key::PageDown {
        Some(add_sat_u16(v, 10))
    } else if k == Key::PageUp {
        Some(sub_sat_u16(v, 10))
    } else if k == Key::Home {
        Some(0)
    } else if k == Key::End {
        Some(u16::MAX)
    } else {
        None
    }
}

/// A key typed into the text field.
fn edit_with(input: &mut Input, k: Key)
    ensures
        final(input)@ == edited(old(input)@, k),
{
    match k {
        Key::Char(c) => input.enter_char(c),
        Key::Left => input.move_cursor_left(),
        Key::Right => input.move_cursor_right(),
        Key::Backspace => input.delete_char(),
        _ => {},
    }
}

fn row_below_of(sel: Option<usize>, len: usize) -> (r: usize)
    requires
        len > 0,
    ensures
        r == row_below(sel, len as nat),
{
    match sel {
        Some(row) => {
            let inc = if row == usize::MAX {
                row
            } else {
                row + 1
            };
            if inc < len - 1 {
                inc
            } else {
                len - 1
            }
        },
        None => 0,
    }
}

fn row_above_of(sel: Option<usize>) -> (r: usize)
    ensures
        r == row_above(sel),
{
    match sel {
        Some(row) => if row == 0 {
            0
        } else {
            row - 1
        },
        None => 0,
    }
}

fn valid_row_of(sel: Option<usize>, len: usize) -> (r: Option<usize>)
    ensures
        r == valid_row(sel, len as nat),
{
    match sel {
        Some(row) => if row < len {
            Some(row)
        } else {
            None
        },
        None => None,
    }
}

impl App {
    fn scroll_target_of(&self, input: &Input) -> (r: Option<ScrollTarget>)
        ensures
            r == scroll_target(self@, input@),
    {
        if self.show_help {
            Some(ScrollTarget::Help)
        } else if self.show_update_input && input.update_step == UpdateStep::Confirm {
            Some(ScrollTarget::Confirmation)
        } else if !self.show_update_input && !self.show_project_input && !self.show_update_table
            && self.focused_pane == BrowserPane::LatestUpdate {
            Some(ScrollTarget::Detail)
        } else {
            None
        }
    }

    fn scroll_value(&self, t: ScrollTarget) -> (r: u16)
        ensures
            r == scroll_of(self@, t),
    {
        match t {
            ScrollTarget::Help => self.help_scroll,
            ScrollTarget::Confirmation => self.confirmation_scroll,
            ScrollTarget::Detail => self.detail_scroll,
        }
    }

    fn set_scroll(&mut self, t: ScrollTarget, v: u16)
        ensures
            final(self)@ == with_scroll(old(self)@, t, v),
    {
        match t {
            ScrollTarget::Help => self.help_scroll = v,
            ScrollTarget::Confirmation => self.confirmation_scroll = v,
            ScrollTarget::Detail => self.detail_scroll = v,
        }
    }

    /// Where a key goes.
    pub fn route_of(&self, input: &Input, key: KeyEvent) -> (r: Route)
        ensures
            r == route(self@, input@, key),
    {
        let waiting = match self.awaiting {
            Awaiting::Nothing => false,
            _ => true,
        };
        if !key.press || waiting {
            return Route::Ignored;
        }
        if self.pending_project_delete_id.is_some() {
            return Route::ProjectDeletion;
        }
        if self.pending_update_delete_id.is_some() {
            return Route::UpdateDeletion;
        }
        if self.show_git_view {
            return Route::Git;
        }
        if let Some(t) = self.scroll_target_of(input) {
            if let Some(v) = scroll_for(self.scroll_value(t), key.code) {
                return Route::Scroll(t, v);
            }
        }
        if self.show_project_input && input.input_mode == InputMode::Editing {
            Route::ProjectForm
        } else if self.show_update_input && input.input_mode == InputMode::Editing {
            Route::UpdateForm
        } else if self.show_update_table {
            Route::Table
        } else if self.show_help {
            Route::Help
        } else {
            Route::Browser
        }
    }

    fn project_deletion_key(&mut self, input: &mut Input, key: KeyEvent) -> (r: Request)
        requires
            old(self)@.pending_project_delete_id is Some,
        ensures
            (Outcome { app: final(self)@, input: final(input)@, request: r@ })
                == project_deletion_key(old(self)@, old(input)@, key),
    {
        if key.code == Key::Enter {
            let mut taken: Option<String> = None;
            std::mem::swap(&mut taken, &mut self.pending_project_delete_id);
            let id = match taken {
                Some(id) => id,
                None => String::new(),
            };
            self.awaiting = Awaiting::ProjectDeletion(copy_string(&id));
            Request::DeleteProject(id)
        } else if key.code == Key::Esc {
            self.pending_project_delete_id = None;
            Request::Nothing
        } else {
            Request::Nothing
        }
    }

    fn update_deletion_key(&mut self, input: &mut Input, key: KeyEvent) -> (r: Request)
        requires
            old(self)@.pending_update_delete_id is Some,
        ensures
            (Outcome { app: final(self)@, input: final(input)@, request: r@ })
                == update_deletion_key(old(self)@, old(input)@, key),
    {
        if key.code == Key::Enter {
            let mut taken: Option<String> = None;
            std::mem::swap(&mut taken, &mut self.pending_update_delete_id);
            let id = match taken {
                Some(id) => id,
                None => String::new(),
            };
            self.awaiting = Awaiting::UpdateDeletion(copy_string(&id));
            Request::DeleteUpdate(id)
        } else if key.code == Key::Esc {
            self.pending_update_delete_id = None;
            Request::Nothing
        } else {
            Request::Nothing
        }
    }

    fn name_entered(&mut self, input: &mut Input) -> (r: Request)
        ensures
            (Outcome { app: final(self)@, input: final(input)@, request: r@ }) == name_entered(
                old(self)@,
                old(input)@,
            ),
    {
        input.submit_name();
        if input.project.name.is_some() {
            self.err = None;
        }
        if self.err.is_none() && input.project.directory.is_none() {
            input.project_step = ProjectStep::Directory;
            Request::Nothing
        } else if self.err.is_none() {
            self.awaiting = Awaiting::NamedDirectory;
            match &input.project.directory {
                Some(d) => Request::CheckDirectory(copy_string(d)),
                None => Request::Nothing,
            }
        } else {
            Request::Nothing
        }
    }

    fn directory_entered(&mut self, input: &mut Input) -> (r: Request)
        ensures
            (Outcome { app: final(self)@, input: final(input)@, request: r@ })
                == directory_entered(old(self)@, old(input)@),
    {
        input.submit_directory();
        if input.project.directory.is_none() {
            self.err = Some("Directory field needs to be filled.".to_owned());
            Request::Nothing
        } else if input.project.name.is_none() {
            input.project_step = ProjectStep::Name;
            self.err = Some("Couldn't derive a project name. Please enter one.".to_owned());
            Request::Nothing
        } else {
            self.awaiting = Awaiting::EnteredDirectory;
            match &input.project.directory {
                Some(d) => Request::CheckDirectory(copy_string(d)),
                None => Request::Nothing,
            }
        }
    }

    fn project_form_key(&mut self, input: &mut Input, key: KeyEvent) -> (r: Request)
        ensures
            (Outcome { app: final(self)@, input: final(input)@, request: r@ })
                == project_form_key(old(self)@, old(input)@, key),
    {
        if key.code == Key::Enter {
            match input.project_step {
                ProjectStep::Name => self.name_entered(input),
                ProjectStep::Directory => self.directory_entered(input),
                ProjectStep::Confirm => {
                    self.awaiting = Awaiting::ProjectSave;
                    Request::SaveProject(input.project.duplicate())
                },
            }
        } else if key.code == Key::Esc {
            input.reset_all();
            self.err = None;
            input.input_mode = InputMode::Normal;
            self.show_project_input = false;
            Request::Nothing
        } else if input.project_step != ProjectStep::Confirm {
            edit_with(input, key.code);
            Request::Nothing
        } else {
            Request::Nothing
        }
    }

    fn update_form_action_of(input: &Input, key: KeyEvent) -> (r: UpdateFormAction)
        ensures
            r == update_form_action(input@, key),
    {
        reveal(update_form_action);
        if key.code == Key::Enter && key.shift && (input.update_step == UpdateStep::Body
            || input.update_step == UpdateStep::Next) {
            UpdateFormAction::NewLine
        } else if key.code == Key::Enter {
            match input.update_step {
                UpdateStep::Title => UpdateFormAction::SubmitTitle,
                UpdateStep::Body => UpdateFormAction::SubmitBody,
                UpdateStep::Next => UpdateFormAction::SubmitNext,
                UpdateStep::Confirm => UpdateFormAction::Save,
            }
        } else if key.code == Key::Esc {
            UpdateFormAction::Cancel
        } else if input.update_step != UpdateStep::Confirm {
            UpdateFormAction::Type
        } else {
            UpdateFormAction::Nothing
        }
    }

    fn title_entered(&mut self, input: &mut Input) -> (r: Request)
        ensures
            (Outcome { app: final(self)@, input: final(input)@, request: r@ }) == title_entered(
                old(self)@,
                old(input)@,
            ),
    {
        input.submit_title();
        if input.update.title.is_none() {
            self.err = Some("Must enter an update name.".to_owned());
        } else {
            self.err = None;
            input.update_step = UpdateStep::Body;
            input.prefill_update_field();
        }
        Request::Nothing
    }

    fn body_entered(&mut self, input: &mut Input) -> (r: Request)
        ensures
            (Outcome { app: final(self)@, input: final(input)@, request: r@ }) == body_entered(
                old(self)@,
                old(input)@,
            ),
    {
        input.submit_body();
        if input.update.body.is_none() {
            self.err = Some("Must enter an update body.".to_owned());
        } else {
            self.err = None;
            input.update_step = UpdateStep::Next;
            input.prefill_update_field();
        }
        Request::Nothing
    }

    fn update_confirmed(&mut self, input: &mut Input) -> (r: Request)
        requires
            old(self)@.opened_project_id is Some,
        ensures
            (Outcome { app: final(self)@, input: final(input)@, request: r@ })
                == update_confirmed(old(self)@, old(input)@),
    {
        let project_id = match &self.opened_project_id {
            Some(p) => copy_string(p),
            None => String::new(),
        };
        let draft = input.assign_update(project_id);
        self.awaiting = Awaiting::UpdateSave;
        Request::SaveUpdate(draft)
    }

    fn update_form_key(&mut self, input: &mut Input, key: KeyEvent) -> (r: Request)
        requires
            update_form_action(old(input)@, key) == UpdateFormAction::Save ==> old(
                self,
            )@.opened_project_id is Some,
        ensures
            (Outcome { app: final(self)@, input: final(input)@, request: r@ })
                == update_form_key(old(self)@, old(input)@, key),
    {
        match Self::update_form_action_of(input, key) {
            UpdateFormAction::NewLine => {
                input.enter_char('\n');
                Request::Nothing
            },
            UpdateFormAction::SubmitTitle => self.title_entered(input),
            UpdateFormAction::SubmitBody => self.body_entered(input),
            UpdateFormAction::SubmitNext => {
                input.submit_next();
                input.update_step = UpdateStep::Confirm;
                self.confirmation_scroll = 0;
                Request::Nothing
            },
            UpdateFormAction::Save => self.update_confirmed(input),
            UpdateFormAction::Cancel => {
                input.reset_all();
                self.err = None;
                input.input_mode = InputMode::Normal;
                self.show_update_input = false;
                Request::Nothing
            },
            UpdateFormAction::Type => {
                edit_with(input, key.code);
                Request::Nothing
            },
            UpdateFormAction::Nothing => Request::Nothing,
        }
    }

    fn table_action_of(&self, key: KeyEvent) -> (r: TableAction)
        ensures
            r == table_action(self@, key),
            (r is Down || r is Up || r is Left || r is Right) ==> self.updates.len() > 0,
            r matches TableAction::Open(row) ==> row < self.updates.len(),
            r matches TableAction::Edit(row) ==> row < self.updates.len(),
            r matches TableAction::Delete(row) ==> row < self.updates.len(),
    {
        reveal(table_action);
        let c = key.code;
        let n = self.updates.len();
        let row = valid_row_of(self.update_selection.selected, n);
        if c == Key::Esc {
            TableAction::Close
        } else if c == Key::Char('q') {
            TableAction::Quit
        } else if (c == Key::Char('j') || c == Key::Down) && n > 0 {
            TableAction::Down
        } else if (c == Key::Char('k') || c == Key::Up) && n > 0 {
            TableAction::Up
        } else if (c == Key::Char('h') || c == Key::Left) && n > 0 {
            TableAction::Left
        } else if (c == Key::Char('l') || c == Key::Right) && n > 0 {
            TableAction::Right
        } else if c == Key::Enter {
            match row {
                Some(r) => TableAction::Open(r),
                None => TableAction::Nothing,
            }
        } else if c == Key::Char('e') {
            match row {
                Some(r) => TableAction::Edit(r),
                None => TableAction::Nothing,
            }
        } else if c == Key::Char('d') {
            match row {
                Some(r) => TableAction::Delete(r),
                None => TableAction::Nothing,
            }
        } else {
            TableAction::Nothing
        }
    }

    fn table_moved(&mut self, input: &mut Input, act: TableAction) -> (r: Request)
        requires
            (act is Down || act is Up || act is Left || act is Right) ==> old(self).updates.len()
                > 0,
            act is Right ==> old(self)@.update_selection.selected_column != Some(usize::MAX),
        ensures
            (Outcome { app: final(self)@, input: final(input)@, request: r@ }) == table_moved(
                old(self)@,
                old(input)@,
                act,
            ),
    {
        match act {
            TableAction::Close => self.show_update_table = false,
            TableAction::Quit => self.exit = true,
            TableAction::Down => {
                let row = row_below_of(self.update_selection.selected, self.updates.len());
                self.update_selection.select(Some(row));
            },
            TableAction::Up => {
                let row = row_above_of(self.update_selection.selected);
                self.update_selection.select(Some(row));
            },
            TableAction::Left => {
                let column = row_above_of(self.update_selection.selected_column);
                self.update_selection.select_column(Some(column));
            },
            TableAction::Right => {
                let column = match self.update_selection.selected_column {
                    Some(col) => if col + 1 < 4 {
                        col + 1
                    } else {
                        4
                    },
                    None => 0,
                };
                self.update_selection.select_column(Some(column));
            },
            _ => {},
        }
        Request::Nothing
    }

    fn table_row_used(&mut self, input: &mut Input, act: TableAction) -> (r: Request)
        requires
            act matches TableAction::Open(row) ==> row < old(self).updates.len(),
            act matches TableAction::Edit(row) ==> row < old(self).updates.len(),
            act matches TableAction::Delete(row) ==> row < old(self).updates.len(),
        ensures
            (Outcome { app: final(self)@, input: final(input)@, request: r@ }) == table_row_used(
                old(self)@,
                old(input)@,
                act,
            ),
    {
        match act {
            TableAction::Open(row) => {
                self.opened_update_id = Some(copy_string(&self.updates[row].id));
                self.detail_scroll = 0;
                self.show_update_table = false;
                self.focused_pane = BrowserPane::LatestUpdate;
                Request::Nothing
            },
            TableAction::Edit(row) => {
                self.awaiting = Awaiting::UpdateEdit;
                Request::LoadUpdate(copy_string(&self.updates[row].id))
            },
            TableAction::Delete(row) => {
                self.pending_update_delete_id = Some(copy_string(&self.updates[row].id));
                self.err = None;
                Request::Nothing
            },
            _ => Request::Nothing,
        }
    }

    fn table_key(&mut self, input: &mut Input, key: KeyEvent) -> (r: Request)
        requires
            table_action(old(self)@, key) == TableAction::Right ==> old(
                self,
            )@.update_selection.selected_column != Some(usize::MAX),
        ensures
            (Outcome { app: final(self)@, input: final(input)@, request: r@ }) == table_key(
                old(self)@,
                old(input)@,
                key,
            ),
    {
        let act = self.table_action_of(key);
        match act {
            TableAction::Open(_) | TableAction::Edit(_) | TableAction::Delete(_) => self.table_row_used(
                input,
                act,
            ),
            _ => self.table_moved(input, act),
        }
    }

    fn help_key(&mut self, input: &mut Input, key: KeyEvent) -> (r: Request)
        ensures
            (Outcome { app: final(self)@, input: final(input)@, request: r@ }) == help_key(
                old(self)@,
                old(input)@,
                key,
            ),
    {
        if key.code == Key::Esc || key.code == Key::Char('?') {
            self.show_help = false;
        } else if key.code == Key::Char('q') {
            self.exit = true;
        }
        Request::Nothing
    }

    fn browser_action_of(&self, key: KeyEvent) -> (r: BrowserAction)
        ensures
            r == browser_action(self@, key),
            (r is Down || r is Up) ==> self.projects.len() > 0,
            r matches BrowserAction::Open(row) ==> row < self.projects.len(),
            r matches BrowserAction::Delete(row) ==> row < self.projects.len(),
            r matches BrowserAction::Edit(u) ==> u < self.updates.len(),
    {
        reveal(browser_action);
        let c = key.code;
        let n = self.projects.len();
        let row = valid_row_of(self.project_selection.selected, n);
        let on_projects = self.focused_pane == BrowserPane::Projects;
        if c == Key::Char('A') {
            BrowserAction::NewProject
        } else if c == Key::Char('q') {
            BrowserAction::Quit
        } else if (c == Key::Char('j') || c == Key::Down) && on_projects && n > 0 {
            BrowserAction::Down
        } else if (c == Key::Char('k') || c == Key::Up) && on_projects && n > 0 {
            BrowserAction::Up
        } else if c == Key::Char('u') && self.opened_project_id.is_some() {
            BrowserAction::UpdateTable
        } else if c == Key::Enter && on_projects {
            match row {
                Some(r) => BrowserAction::Open(r),
                None => BrowserAction::Nothing,
            }
        } else if c == Key::Char('h') && key.ctrl {
            BrowserAction::FocusProjects
        } else if c == Key::Char('l') && key.ctrl {
            BrowserAction::FocusUpdate
        } else if c == Key::Char('D') && row.is_some() && on_projects {
            match row {
                Some(r) => BrowserAction::Delete(r),
                None => BrowserAction::Nothing,
            }
        } else if c == Key::Char('e') && self.focused_pane == BrowserPane::LatestUpdate {
            match self.displayed_update() {
                Some(u) => BrowserAction::Edit(u),
                None => BrowserAction::Nothing,
            }
        } else if c == Key::Char('a') && self.opened_project_id.is_some() {
            BrowserAction::NewUpdate
        } else if c == Key::Char('?') {
            BrowserAction::Help
        } else if c == Key::Char('g') && self.opened_git_directory().is_some() {
            BrowserAction::GitView
        } else {
            BrowserAction::Nothing
        }
    }

    fn project_opened(&mut self, input: &mut Input, row: usize) -> (r: Request)
        requires
            row < old(self).projects.len(),
        ensures
            (Outcome { app: final(self)@, input: final(input)@, request: r@ }) == project_opened(
                old(self)@,
                old(input)@,
                row,
            ),
    {
        let id = copy_string(&self.projects[row].id);
        self.opened_project_id = Some(copy_string(&id));
        self.clear_updates();
        self.awaiting = Awaiting::UpdatesOnOpen;
        Request::LoadUpdates(id)
    }

    fn browser_moved(&mut self, input: &mut Input, act: BrowserAction) -> (r: Request)
        requires
            (act is Down || act is Up) ==> old(self).projects.len() > 0,
        ensures
            (Outcome { app: final(self)@, input: final(input)@, request: r@ }) == browser_moved(
                old(self)@,
                old(input)@,
                act,
            ),
    {
        match act {
            BrowserAction::Quit => self.exit = true,
            BrowserAction::Down => {
                let row = row_below_of(self.project_selection.selected, self.projects.len());
                self.project_selection.select(Some(row));
            },
            BrowserAction::Up => {
                let row = row_above_of(self.project_selection.selected);
                self.project_selection.select(Some(row));
            },
            BrowserAction::FocusProjects => self.focused_pane = BrowserPane::Projects,
            BrowserAction::FocusUpdate => self.focused_pane = BrowserPane::LatestUpdate,
            _ => {},
        }
        Request::Nothing
    }

    fn browser_opened(&mut self, input: &mut Input, act: BrowserAction) -> (r: Request)
        ensures
            (Outcome { app: final(self)@, input: final(input)@, request: r@ }) == browser_opened(
                old(self)@,
                old(input)@,
                act,
            ),
    {
        match act {
            BrowserAction::NewProject => {
                self.show_project_input = true;
                self.err = None;
                input.input_mode = InputMode::Editing;
            },
            BrowserAction::UpdateTable => self.show_update_table = true,
            BrowserAction::NewUpdate => {
                self.show_update_input = true;
                self.err = None;
                input.input_mode = InputMode::Editing;
            },
            BrowserAction::Help => {
                self.help_scroll = 0;
                self.show_help = true;
            },
            BrowserAction::GitView => {
                self.show_git_view = true;
                return Request::OpenGitView;
            },
            _ => {},
        }
        Request::Nothing
    }

    fn browser_row_used(&mut self, input: &mut Input, act: BrowserAction) -> (r: Request)
        requires
            act matches BrowserAction::Open(row) ==> row < old(self).projects.len(),
            act matches BrowserAction::Delete(row) ==> row < old(self).projects.len(),
            act matches BrowserAction::Edit(u) ==> u < old(self).updates.len(),
        ensures
            (Outcome { app: final(self)@, input: final(input)@, request: r@ })
                == browser_row_used(old(self)@, old(input)@, act),
    {
        match act {
            BrowserAction::Open(row) => self.project_opened(input, row),
            BrowserAction::Delete(row) => {
                self.pending_project_delete_id = Some(copy_string(&self.projects[row].id));
                Request::Nothing
            },
            BrowserAction::Edit(u) => {
                self.awaiting = Awaiting::UpdateEdit;
                Request::LoadUpdate(copy_string(&self.updates[u].id))
            },
            _ => Request::Nothing,
        }
    }

    fn browser_key(&mut self, input: &mut Input, key: KeyEvent) -> (r: Request)
        ensures
            (Outcome { app: final(self)@, input: final(input)@, request: r@ }) == browser_key(
                old(self)@,
                old(input)@,
                key,
            ),
    {
        let act = self.browser_action_of(key);
        match act {
            BrowserAction::Open(_) | BrowserAction::Delete(_) | BrowserAction::Edit(
                _,
            ) => self.browser_row_used(input, act),
            BrowserAction::NewProject | BrowserAction::UpdateTable | BrowserAction::NewUpdate
            | BrowserAction::Help | BrowserAction::GitView => self.browser_opened(input, act),
            _ => self.browser_moved(input, act),
        }
    }

    /// Whether `key` is one that `handle_key_event` cannot take in this state.
    pub fn cannot_handle_key(&self, input: &Input, key: KeyEvent) -> (r: bool)
        ensures
            r == key_fails(self@, input@, key),
    {
        match self.route_of(input, key) {
            Route::UpdateForm => {
                let act = Self::update_form_action_of(input, key);
                act == UpdateFormAction::Save && self.opened_project_id.is_none()
            },
            Route::Table => {
                let act = self.table_action_of(key);
                act == TableAction::Right && self.update_selection.selected_column == Some(usize::MAX)
            },
            _ => false,
        }
    }

    /// Handles a key event; the caller performs the request that comes back
    /// and hands its outcome to `resume`.
    pub fn handle_key_event(&mut self, key: KeyEvent, input: &mut Input) -> (r: Request)
        requires
            !key_fails(old(self)@, old(input)@, key),
        ensures
            (Outcome { app: final(self)@, input: final(input)@, request: r@ }) == key_step(
                old(self)@,
                old(input)@,
                key,
            ),
    {
        match self.route_of(input, key) {
            Route::Ignored => Request::Nothing,
            Route::ProjectDeletion => self.project_deletion_key(input, key),
            Route::UpdateDeletion => self.update_deletion_key(input, key),
            Route::Scroll(t, v) => {
                self.set_scroll(t, v);
                Request::Nothing
            },
            Route::ProjectForm => self.project_form_key(input, key),
            Route::UpdateForm => self.update_form_key(input, key),
            Route::Table => self.table_key(input, key),
            Route::Help => self.help_key(input, key),
            Route::Browser => self.browser_key(input, key),
            Route::Git => self.git_key(input, key),
        }
    }
}

} // verus!
