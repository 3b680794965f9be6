//! What the answers to outside work do: a deletion, a save, a directory
//! check or a load comes back, and the interface goes on from there.
use vstd::prelude::*;

use crate::app::{
    holds, holds_str, project_position, update_position, App, AppView, Awaiting, AwaitingView,
    BrowserPane, GitStateView, TableSelection,
};
use crate::input::{min_int, Input, InputView};
use crate::keys::{step_to, try_again, validate_failed, Outcome, Reply, ReplyView, Request, RequestView};
use crate::model::{ProjectStep, ProjectView, Project, Update, UpdateView};
use crate::text::{copy_string, join2};

verus! {

/// The selection kept near `previous` in a list of `len` rows.
pub open spec fn near(previous: usize, len: nat) -> Option<usize> {
    if len == 0 {
        None
    } else {
        Some(min_int(previous as int, len - 1) as usize)
    }
}

/// The outside work failed: its error is shown.
#[verifier::opaque]
pub open spec fn failed(a: AppView, i: InputView, message: Seq<char>) -> Outcome {
    step_to(AppView { err: Some(message), ..a }, i)
}

/// The project `id` was deleted: if it was open it is closed; the projects are reloaded.
#[verifier::opaque]
pub open spec fn project_deleted(a: AppView, i: InputView, id: Seq<char>) -> Outcome {
    let a1 = AppView { err: None, ..a };
    let a2 = if holds(a1.opened_project_id, id) {
        AppView { opened_project_id: None, git: GitStateView { summary: None, ..a1.git }, ..a1 }.updates_cleared()
    } else {
        a1
    };
    let previous = match a.project_selection.selected {
        Some(p) => p,
        None => 0,
    };
    Outcome {
        app: AppView { awaiting: AwaitingView::ProjectsAfterDeletion(previous), ..a2 },
        input: i,
        request: RequestView::LoadProjects,
    }
}

/// The projects after a deletion: the selection stays near where it was.
#[verifier::opaque]
pub open spec fn projects_after_deletion(
    a: AppView,
    i: InputView,
    previous: usize,
    ps: Seq<ProjectView>,
    flags: Seq<bool>,
) -> Outcome {
    let a1 = a.projects_reloaded(ps, flags);
    step_to(
        AppView {
            project_selection: a1.project_selection.selecting(near(previous, ps.len())),
            ..a1
        },
        i,
    )
}

/// The update `id` was deleted: if it was open it is closed; the updates are reloaded.
#[verifier::opaque]
pub open spec fn update_deleted(a: AppView, i: InputView, id: Seq<char>) -> Outcome {
    let a1 = AppView { err: None, ..a };
    let a2 = if holds(a1.opened_update_id, id) {
        AppView { opened_update_id: None, ..a1 }
    } else {
        a1
    };
    let previous = match a.update_selection.selected {
        Some(p) => p,
        None => 0,
    };
    Outcome {
        app: AppView { awaiting: AwaitingView::UpdatesAfterDeletion(previous), ..a2 },
        input: i,
        request: RequestView::LoadUpdates(a.opened_project_id->0),
    }
}

/// The updates after a deletion: the selection stays near where it was.
#[verifier::opaque]
pub open spec fn updates_after_deletion(
    a: AppView,
    i: InputView,
    previous: usize,
    us: Seq<UpdateView>,
) -> Outcome {
    let a1 = a.updates_reloaded(us);
    step_to(
        AppView {
            update_selection: if us.len() == 0 {
                TableSelection::none()
            } else {
                a1.update_selection.selecting(near(previous, us.len()))
            },
            ..a1
        },
        i,
    )
}

/// The directory was checked, after the name (`named`) or after the directory was entered.
#[verifier::opaque]
pub open spec fn directory_checked(
    a: AppView,
    i: InputView,
    named: bool,
    res: Result<(), Seq<char>>,
) -> Outcome {
    match res {
        Ok(()) => step_to(
            if named {
                a
            } else {
                AppView { err: None, ..a }
            },
            InputView { project_step: ProjectStep::Confirm, ..i },
        ),
        Err(e) => step_to(
            AppView { err: Some(validate_failed(e)), ..a },
            if named {
                InputView { project_step: ProjectStep::Directory, ..i }
            } else {
                i
            },
        ),
    }
}

/// The project draft was saved (and the projects are reloaded), or not.
#[verifier::opaque]
pub open spec fn project_stored(a: AppView, i: InputView, res: Result<Seq<char>, Seq<char>>) -> Outcome {
    match res {
        Ok(id) => Outcome {
            app: AppView { err: None, awaiting: AwaitingView::ProjectsAfterSave(id), ..a },
            input: i.project_saved(),
            request: RequestView::LoadProjects,
        },
        Err(e) => step_to(
            AppView { err: Some(try_again(e)), ..a },
            InputView { project_step: ProjectStep::Name, ..i },
        ),
    }
}

/// The projects after the project `id` was saved: the form closes and the
/// new project is selected and opened.
#[verifier::opaque]
pub open spec fn projects_after_save(
    a: AppView,
    i: InputView,
    id: Seq<char>,
    res: Result<Seq<ProjectView>, Seq<char>>,
    flags: Seq<bool>,
) -> Outcome {
    let a1 = match res {
        Ok(ps) => a.projects_reloaded(ps, flags),
        Err(e) => AppView { err: Some("Couldn't load projects: "@ + e), ..a },
    };
    let position = match project_position(a1.projects, id) {
        Some(k) => Some(k as usize),
        None => None,
    };
    step_to(
        AppView {
            show_project_input: false,
            project_selection: a1.project_selection.selecting(position),
            opened_project_id: Some(id),
            focused_pane: BrowserPane::LatestUpdate,
            ..a1.updates_cleared()
        },
        i.reset(),
    )
}

/// The update draft was saved (and the updates are reloaded), or not.
#[verifier::opaque]
pub open spec fn update_stored(a: AppView, i: InputView, res: Result<Seq<char>, Seq<char>>) -> Outcome {
    match res {
        Ok(id) => Outcome {
            app: AppView { err: None, awaiting: AwaitingView::UpdatesAfterSave(id), ..a },
            input: i.update_saved(),
            request: RequestView::LoadUpdates(a.opened_project_id->0),
        },
        Err(e) => step_to(AppView { err: Some(try_again(e)), ..a }, i),
    }
}

/// The updates after the update `id` was saved: the form closes and the new
/// update is selected and opened.
#[verifier::opaque]
pub open spec fn updates_after_save(
    a: AppView,
    i: InputView,
    id: Seq<char>,
    res: Result<Seq<UpdateView>, Seq<char>>,
) -> Outcome {
    let a1 = match res {
        Ok(us) => a.updates_reloaded(us),
        Err(e) => AppView { err: Some("Couldn't load updates: "@ + e), ..a },
    };
    let position = match update_position(a1.updates, id) {
        Some(k) => Some(k as usize),
        None => None,
    };
    step_to(
        AppView {
            show_update_input: false,
            update_selection: a1.update_selection.selecting(position),
            opened_update_id: Some(id),
            focused_pane: BrowserPane::LatestUpdate,
            ..a1
        },
        i.reset(),
    )
}

/// The update to edit was loaded: the update form opens on it.
#[verifier::opaque]
pub open spec fn update_loaded(a: AppView, i: InputView, res: Result<UpdateView, Seq<char>>) -> Outcome {
    match res {
        Ok(u) => step_to(AppView { show_update_input: true, err: None, ..a }, i.editing(u)),
        Err(e) => failed(a, i, "Couldn't load update: "@ + e),
    }
}

/// The updates of the project just opened; the focus moves to them.
#[verifier::opaque]
pub open spec fn updates_on_open(a: AppView, i: InputView, res: Result<Seq<UpdateView>, Seq<char>>) -> Outcome {
    match res {
        Ok(us) => step_to(
            AppView { focused_pane: BrowserPane::LatestUpdate, ..a.updates_reloaded(us) },
            i,
        ),
        Err(e) => step_to(
            AppView {
                err: Some("Error retrieving updates for this project: "@ + e),
                focused_pane: BrowserPane::LatestUpdate,
                ..a
            },
            i,
        ),
    }
}

/// `a` waiting for nothing.
pub open spec fn idle(a: AppView) -> AppView {
    AppView { awaiting: AwaitingView::Nothing, ..a }
}

pub open spec fn on_project_deletion(a: AppView, i: InputView, id: Seq<char>, r: ReplyView) -> Outcome {
    match r {
        ReplyView::Done(Err(e)) => failed(idle(a), i, "Unable to delete project: "@ + e),
        ReplyView::Done(Ok(())) => project_deleted(idle(a), i, id),
        _ => step_to(a, i),
    }
}

pub open spec fn on_projects_after_deletion(
    a: AppView,
    i: InputView,
    previous: usize,
    r: ReplyView,
) -> Outcome {
    match r {
        ReplyView::Projects(Err(e), _) => failed(idle(a), i, "Unable to reload projects: "@ + e),
        ReplyView::Projects(Ok(ps), flags) => projects_after_deletion(idle(a), i, previous, ps, flags),
        _ => step_to(a, i),
    }
}

pub open spec fn on_update_deletion(a: AppView, i: InputView, id: Seq<char>, r: ReplyView) -> Outcome {
    match r {
        ReplyView::Done(Err(e)) => failed(idle(a), i, "Couldn't delete update: "@ + e),
        ReplyView::Done(Ok(())) => update_deleted(idle(a), i, id),
        _ => step_to(a, i),
    }
}

pub open spec fn on_updates_after_deletion(
    a: AppView,
    i: InputView,
    previous: usize,
    r: ReplyView,
) -> Outcome {
    match r {
        ReplyView::Updates(Err(e)) => failed(idle(a), i, "Couldn't reload updates: "@ + e),
        ReplyView::Updates(Ok(us)) => updates_after_deletion(idle(a), i, previous, us),
        _ => step_to(a, i),
    }
}

pub open spec fn on_directory(a: AppView, i: InputView, named: bool, r: ReplyView) -> Outcome {
    match r {
        ReplyView::Done(res) => directory_checked(idle(a), i, named, res),
        _ => step_to(a, i),
    }
}

pub open spec fn on_project_save(a: AppView, i: InputView, r: ReplyView) -> Outcome {
    match r {
        ReplyView::Saved(res) => project_stored(idle(a), i, res),
        _ => step_to(a, i),
    }
}

pub open spec fn on_projects_after_save(a: AppView, i: InputView, id: Seq<char>, r: ReplyView) -> Outcome {
    match r {
        ReplyView::Projects(res, flags) => projects_after_save(idle(a), i, id, res, flags),
        _ => step_to(a, i),
    }
}

pub open spec fn on_update_save(a: AppView, i: InputView, r: ReplyView) -> Outcome {
    match r {
        ReplyView::Saved(res) => update_stored(idle(a), i, res),
        _ => step_to(a, i),
    }
}

pub open spec fn on_updates_after_save(a: AppView, i: InputView, id: Seq<char>, r: ReplyView) -> Outcome {
    match r {
        ReplyView::Updates(res) => updates_after_save(idle(a), i, id, res),
        _ => step_to(a, i),
    }
}

pub open spec fn on_update_edit(a: AppView, i: InputView, r: ReplyView) -> Outcome {
    match r {
        ReplyView::Update(res) => update_loaded(idle(a), i, res),
        _ => step_to(a, i),
    }
}

pub open spec fn on_updates_on_open(a: AppView, i: InputView, r: ReplyView) -> Outcome {
    match r {
        ReplyView::Updates(res) => updates_on_open(idle(a), i, res),
        _ => step_to(a, i),
    }
}

/// What a reply does: what was awaited decides; a reply of another kind, or
/// one that nothing awaited, changes nothing.
pub open spec fn reply_step(a: AppView, i: InputView, r: ReplyView) -> Outcome {
    match a.awaiting {
        AwaitingView::Nothing => step_to(a, i),
        AwaitingView::ProjectDeletion(id) => on_project_deletion(a, i, id, r),
        AwaitingView::ProjectsAfterDeletion(p) => on_projects_after_deletion(a, i, p, r),
        AwaitingView::UpdateDeletion(id) => on_update_deletion(a, i, id, r),
        AwaitingView::UpdatesAfterDeletion(p) => on_updates_after_deletion(a, i, p, r),
        AwaitingView::NamedDirectory => on_directory(a, i, true, r),
        AwaitingView::EnteredDirectory => on_directory(a, i, false, r),
        AwaitingView::ProjectSave => on_project_save(a, i, r),
        AwaitingView::ProjectsAfterSave(id) => on_projects_after_save(a, i, id, r),
        AwaitingView::UpdateSave => on_update_save(a, i, r),
        AwaitingView::UpdatesAfterSave(id) => on_updates_after_save(a, i, id, r),
        AwaitingView::UpdateEdit => on_update_edit(a, i, r),
        AwaitingView::UpdatesOnOpen => on_updates_on_open(a, i, r),
    }
}

/// The replies that the library cannot handle: reloading the updates after a
/// deletion or a save when no project is open.
pub open spec fn reply_fails(a: AppView, r: ReplyView) -> bool {
    a.opened_project_id is None && match (a.awaiting, r) {
        (AwaitingView::UpdateDeletion(_), ReplyView::Done(Ok(()))) => true,
        (AwaitingView::UpdateSave, ReplyView::Saved(Ok(_))) => true,
        _ => false,
    }
}

fn near_of(previous: usize, len: usize) -> (r: Option<usize>)
    ensures
        r == near(previous, len as nat),
{
    if len == 0 {
        None
    } else if previous < len - 1 {
        Some(previous)
    } else {
        Some(len - 1)
    }
}

pub open spec fn res_view<T: View>(r: Result<T, String>) -> Result<T::V, Seq<char>> {
    match r {
        Ok(x) => Ok(x@),
        Err(e) => Err(e@),
    }
}

impl App {
    /// Shows an error.
    fn fail(&mut self, message: String)
        ensures
            final(self)@ == (AppView { err: Some(message@), ..old(self)@ }),
    {
        self.err = Some(message);
    }

    fn failed(&mut self, input: &mut Input, message: String) -> (r: Request)
        ensures
            (Outcome { app: final(self)@, input: final(input)@, request: r@ }) == failed(
                old(self)@,
                old(input)@,
                message@,
            ),
    {
        reveal(failed);
        self.err = Some(message);
        Request::Nothing
    }

    fn project_deleted(&mut self, input: &mut Input, id: String) -> (r: Request)
        ensures
            (Outcome { app: final(self)@, input: final(input)@, request: r@ }) == project_deleted(
                old(self)@,
                old(input)@,
                id@,
            ),
    {
        reveal(project_deleted);
        self.err = None;
        if holds_str(&self.opened_project_id, id.as_str()) {
            self.opened_project_id = None;
            self.git.summary = None;
            self.clear_updates();
        }
        let previous = match self.project_selection.selected {
            Some(p) => p,
            None => 0,
        };
        self.awaiting = Awaiting::ProjectsAfterDeletion(previous);
        Request::LoadProjects
    }

    fn projects_after_deletion(
        &mut self,
        input: &mut Input,
        previous: usize,
        ps: Vec<Project>,
        flags: Vec<bool>,
    ) -> (r: Request)
        ensures
            (Outcome { app: final(self)@, input: final(input)@, request: r@ })
                == projects_after_deletion(
                old(self)@,
                old(input)@,
                previous,
                crate::model::project_views(ps@),
                flags@,
            ),
    {
        reveal(projects_after_deletion);
        let n = ps.len();
        self.reload_projects(ps, &flags);
        self.project_selection.select(near_of(previous, n));
        Request::Nothing
    }

    fn update_deleted(&mut self, input: &mut Input, id: String) -> (r: Request)
        requires
            old(self)@.opened_project_id is Some,
        ensures
            (Outcome { app: final(self)@, input: final(input)@, request: r@ }) == update_deleted(
                old(self)@,
                old(input)@,
                id@,
            ),
    {
        reveal(update_deleted);
        self.err = None;
        if holds_str(&self.opened_update_id, id.as_str()) {
            self.opened_update_id = None;
        }
        let previous = match self.update_selection.selected {
            Some(p) => p,
            None => 0,
        };
        self.awaiting = Awaiting::UpdatesAfterDeletion(previous);
        let project = match &self.opened_project_id {
            Some(p) => copy_string(p),
            None => String::new(),
        };
        Request::LoadUpdates(project)
    }

    fn updates_after_deletion(&mut self, input: &mut Input, previous: usize, us: Vec<Update>) -> (r:
        Request)
        ensures
            (Outcome { app: final(self)@, input: final(input)@, request: r@ })
                == updates_after_deletion(
                old(self)@,
                old(input)@,
                previous,
                crate::model::update_views(us@),
            ),
    {
        reveal(updates_after_deletion);
        let n = us.len();
        self.reload_updates(us);
        if n == 0 {
            self.update_selection = TableSelection::new();
        } else {
            self.update_selection.select(near_of(previous, n));
        }
        Request::Nothing
    }

    fn directory_checked(&mut self, input: &mut Input, named: bool, res: Result<(), String>) -> (r:
        Request)
        ensures
            (Outcome { app: final(self)@, input: final(input)@, request: r@ })
                == directory_checked(old(self)@, old(input)@, named, res_unit(res)),
    {
        reveal(directory_checked);
        match res {
            Ok(()) => {
                if !named {
                    self.err = None;
                }
                input.project_step = ProjectStep::Confirm;
            },
            Err(e) => {
                self.fail(join2("Couldn't validate path: ", e.as_str()));
                if named {
                    input.project_step = ProjectStep::Directory;
                }
            },
        }
        Request::Nothing
    }

    fn project_stored(&mut self, input: &mut Input, res: Result<String, String>) -> (r: Request)
        ensures
            (Outcome { app: final(self)@, input: final(input)@, request: r@ }) == project_stored(
                old(self)@,
                old(input)@,
                res_view(res),
            ),
    {
        reveal(project_stored);
        match res {
            Ok(id) => {
                input.project_saved();
                self.err = None;
                self.awaiting = Awaiting::ProjectsAfterSave(id);
                Request::LoadProjects
            },
            Err(e) => {
                self.fail(join2(e.as_str(), ". Please try again."));
                input.project_step = ProjectStep::Name;
                Request::Nothing
            },
        }
    }

    fn projects_after_save(
        &mut self,
        input: &mut Input,
        id: String,
        res: Result<Vec<Project>, String>,
        flags: Vec<bool>,
    ) -> (r: Request)
        ensures
            (Outcome { app: final(self)@, input: final(input)@, request: r@ })
                == projects_after_save(old(self)@, old(input)@, id@, projects_res(res), flags@),
    {
        reveal(projects_after_save);
        match res {
            Ok(ps) => self.reload_projects(ps, &flags),
            Err(e) => self.fail(join2("Couldn't load projects: ", e.as_str())),
        }
        input.reset_all();
        self.show_project_input = false;
        let position = self.project_position(id.as_str());
        self.project_selection.select(position);
        self.opened_project_id = Some(id);
        self.clear_updates();
        self.focused_pane = BrowserPane::LatestUpdate;
        Request::Nothing
    }

    fn update_stored(&mut self, input: &mut Input, res: Result<String, String>) -> (r: Request)
        requires
            res is Ok ==> old(self)@.opened_project_id is Some,
        ensures
            (Outcome { app: final(self)@, input: final(input)@, request: r@ }) == update_stored(
                old(self)@,
                old(input)@,
                res_view(res),
            ),
    {
        reveal(update_stored);
        match res {
            Ok(id) => {
                input.update_saved();
                self.err = None;
                self.awaiting = Awaiting::UpdatesAfterSave(id);
                let project = match &self.opened_project_id {
                    Some(p) => copy_string(p),
                    None => String::new(),
                };
                Request::LoadUpdates(project)
            },
            Err(e) => {
                self.fail(join2(e.as_str(), ". Please try again."));
                Request::Nothing
            },
        }
    }

    fn updates_after_save(&mut self, input: &mut Input, id: String, res: Result<Vec<Update>, String>) -> (r:
        Request)
        ensures
            (Outcome { app: final(self)@, input: final(input)@, request: r@ })
                == updates_after_save(old(self)@, old(input)@, id@, updates_res(res)),
    {
        reveal(updates_after_save);
        match res {
            Ok(us) => self.reload_updates(us),
            Err(e) => self.fail(join2("Couldn't load updates: ", e.as_str())),
        }
        input.reset_all();
        self.show_update_input = false;
        let position = self.update_position(id.as_str());
        self.update_selection.select(position);
        self.opened_update_id = Some(id);
        self.focused_pane = BrowserPane::LatestUpdate;
        Request::Nothing
    }

    fn update_loaded(&mut self, input: &mut Input, res: Result<Update, String>) -> (r: Request)
        ensures
            (Outcome { app: final(self)@, input: final(input)@, request: r@ }) == update_loaded(
                old(self)@,
                old(input)@,
                res_view(res),
            ),
    {
        reveal(update_loaded);
        match res {
            Ok(u) => {
                input.edit_update(u);
                self.show_update_input = true;
                self.err = None;
            },
            Err(e) => {
                reveal(failed);
                self.fail(join2("Couldn't load update: ", e.as_str()));
            },
        }
        Request::Nothing
    }

    fn updates_on_open(&mut self, input: &mut Input, res: Result<Vec<Update>, String>) -> (r: Request)
        ensures
            (Outcome { app: final(self)@, input: final(input)@, request: r@ }) == updates_on_open(
                old(self)@,
                old(input)@,
                updates_res(res),
            ),
    {
        reveal(updates_on_open);
        match res {
            Ok(us) => self.reload_updates(us),
            Err(e) => self.fail(join2("Error retrieving updates for this project: ", e.as_str())),
        }
        self.focused_pane = BrowserPane::LatestUpdate;
        Request::Nothing
    }

    /// Whether `reply` is one that `resume` cannot take in this state.
    pub fn cannot_handle_reply(&self, reply: &Reply) -> (r: bool)
        ensures
            r == reply_fails(self@, reply@),
    {
        if self.opened_project_id.is_some() {
            return false;
        }
        match (&self.awaiting, reply) {
            (Awaiting::UpdateDeletion(_), Reply::Done(Ok(()))) => true,
            (Awaiting::UpdateSave, Reply::Saved(Ok(_))) => true,
            _ => false,
        }
    }

    /// Takes what came of the request made last, and goes on.
    pub fn resume(&mut self, input: &mut Input, reply: Reply) -> (r: Request)
        requires
            !reply_fails(old(self)@, reply@),
        ensures
            (Outcome { app: final(self)@, input: final(input)@, request: r@ }) == reply_step(
                old(self)@,
                old(input)@,
                reply@,
            ),
    {
        match &self.awaiting {
            Awaiting::Nothing => Request::Nothing,
            Awaiting::ProjectDeletion(_) => self.on_project_deletion(input, reply),
            Awaiting::ProjectsAfterDeletion(_) => self.on_projects_after_deletion(input, reply),
            Awaiting::UpdateDeletion(_) => self.on_update_deletion(input, reply),
            Awaiting::UpdatesAfterDeletion(_) => self.on_updates_after_deletion(input, reply),
            Awaiting::NamedDirectory => self.on_directory(input, true, reply),
            Awaiting::EnteredDirectory => self.on_directory(input, false, reply),
            Awaiting::ProjectSave => self.on_project_save(input, reply),
            Awaiting::ProjectsAfterSave(_) => self.on_projects_after_save(input, reply),
            Awaiting::UpdateSave => self.on_update_save(input, reply),
            Awaiting::UpdatesAfterSave(_) => self.on_updates_after_save(input, reply),
            Awaiting::UpdateEdit => self.on_update_edit(input, reply),
            Awaiting::UpdatesOnOpen => self.on_updates_on_open(input, reply),
        }
    }

    // Each of the following takes the awaited step out of `self.awaiting`,
    // and puts it back when the reply is of another kind.

    fn on_project_deletion(&mut self, input: &mut Input, reply: Reply) -> (r: Request)
        requires
            old(self)@.awaiting is ProjectDeletion,
        ensures
            (Outcome { app: final(self)@, input: final(input)@, request: r@ })
                == reply_step(old(self)@, old(input)@, reply@),
    {
        let mut waiting = Awaiting::Nothing;
        std::mem::swap(&mut waiting, &mut self.awaiting);
        let id = match waiting {
            Awaiting::ProjectDeletion(x) => x,
            _ => String::new(),
        };
        match reply {
            Reply::Done(Err(e)) => self.failed(input, join2("Unable to delete project: ", e.as_str())),
            Reply::Done(Ok(())) => self.project_deleted(input, id),
            _ => {
                self.awaiting = Awaiting::ProjectDeletion(id);
                Request::Nothing
            },
        }
    }

    fn on_projects_after_deletion(&mut self, input: &mut Input, reply: Reply) -> (r:
        Request)
        requires
            old(self)@.awaiting is ProjectsAfterDeletion,
        ensures
            (Outcome { app: final(self)@, input: final(input)@, request: r@ })
                == reply_step(old(self)@, old(input)@, reply@),
    {
        let mut waiting = Awaiting::Nothing;
        std::mem::swap(&mut waiting, &mut self.awaiting);
        let previous = match waiting {
            Awaiting::ProjectsAfterDeletion(x) => x,
            _ => 0,
        };
        match reply {
            Reply::Projects(Err(e), _) => self.failed(input, join2("Unable to reload projects: ", e.as_str())),
            Reply::Projects(Ok(ps), flags) => self.projects_after_deletion(input, previous, ps, flags),
            _ => {
                self.awaiting = Awaiting::ProjectsAfterDeletion(previous);
                Request::Nothing
            },
        }
    }

    fn on_update_deletion(&mut self, input: &mut Input, reply: Reply) -> (r: Request)
        requires
            old(self)@.awaiting is UpdateDeletion,
            reply@ matches ReplyView::Done(Ok(())) ==> old(self)@.opened_project_id is Some,
        ensures
            (Outcome { app: final(self)@, input: final(input)@, request: r@ })
                == reply_step(old(self)@, old(input)@, reply@),
    {
        let mut waiting = Awaiting::Nothing;
        std::mem::swap(&mut waiting, &mut self.awaiting);
        let id = match waiting {
            Awaiting::UpdateDeletion(x) => x,
            _ => String::new(),
        };
        match reply {
            Reply::Done(Err(e)) => self.failed(input, join2("Couldn't delete update: ", e.as_str())),
            Reply::Done(Ok(())) => self.update_deleted(input, id),
            _ => {
                self.awaiting = Awaiting::UpdateDeletion(id);
                Request::Nothing
            },
        }
    }

    fn on_updates_after_deletion(&mut self, input: &mut Input, reply: Reply) -> (r:
        Request)
        requires
            old(self)@.awaiting is UpdatesAfterDeletion,
        ensures
            (Outcome { app: final(self)@, input: final(input)@, request: r@ })
                == reply_step(old(self)@, old(input)@, reply@),
    {
        let mut waiting = Awaiting::Nothing;
        std::mem::swap(&mut waiting, &mut self.awaiting);
        let previous = match waiting {
            Awaiting::UpdatesAfterDeletion(x) => x,
            _ => 0,
        };
        match reply {
            Reply::Updates(Err(e)) => self.failed(input, join2("Couldn't reload updates: ", e.as_str())),
            Reply::Updates(Ok(us)) => self.updates_after_deletion(input, previous, us),
            _ => {
                self.awaiting = Awaiting::UpdatesAfterDeletion(previous);
                Request::Nothing
            },
        }
    }

    fn on_directory(&mut self, input: &mut Input, named: bool, reply: Reply) -> (r: Request)
        requires
            old(self)@.awaiting == (if named {
                AwaitingView::NamedDirectory
            } else {
                AwaitingView::EnteredDirectory
            }),
        ensures
            (Outcome { app: final(self)@, input: final(input)@, request: r@ }) == reply_step(
                old(self)@,
                old(input)@,
                reply@,
            ),
    {
        self.awaiting = Awaiting::Nothing;
        match reply {
            Reply::Done(res) => self.directory_checked(input, named, res),
            _ => {
                self.awaiting = if named {
                    Awaiting::NamedDirectory
                } else {
                    Awaiting::EnteredDirectory
                };
                Request::Nothing
            },
        }
    }

    fn on_project_save(&mut self, input: &mut Input, reply: Reply) -> (r: Request)
        requires
            old(self)@.awaiting is ProjectSave,
        ensures
            (Outcome { app: final(self)@, input: final(input)@, request: r@ }) == reply_step(old(self)@, old(input)@, reply@),
    {
        self.awaiting = Awaiting::Nothing;
        match reply {
            Reply::Saved(res) => self.project_stored(input, res),
            _ => {
                self.awaiting = Awaiting::ProjectSave;
                Request::Nothing
            },
        }
    }

    fn on_projects_after_save(&mut self, input: &mut Input, reply: Reply) -> (r: Request)
        requires
            old(self)@.awaiting is ProjectsAfterSave,
        ensures
            (Outcome { app: final(self)@, input: final(input)@, request: r@ })
                == reply_step(old(self)@, old(input)@, reply@),
    {
        let mut waiting = Awaiting::Nothing;
        std::mem::swap(&mut waiting, &mut self.awaiting);
        let id = match waiting {
            Awaiting::ProjectsAfterSave(x) => x,
            _ => String::new(),
        };
        match reply {
            Reply::Projects(res, flags) => self.projects_after_save(input, id, res, flags),
            _ => {
                self.awaiting = Awaiting::ProjectsAfterSave(id);
                Request::Nothing
            },
        }
    }

    fn on_update_save(&mut self, input: &mut Input, reply: Reply) -> (r: Request)
        requires
            old(self)@.awaiting is UpdateSave,
            reply@ matches ReplyView::Saved(Ok(_)) ==> old(self)@.opened_project_id is Some,
        ensures
            (Outcome { app: final(self)@, input: final(input)@, request: r@ }) == reply_step(old(self)@, old(input)@, reply@),
    {
        self.awaiting = Awaiting::Nothing;
        match reply {
            Reply::Saved(res) => self.update_stored(input, res),
            _ => {
                self.awaiting = Awaiting::UpdateSave;
                Request::Nothing
            },
        }
    }

    fn on_updates_after_save(&mut self, input: &mut Input, reply: Reply) -> (r: Request)
        requires
            old(self)@.awaiting is UpdatesAfterSave,
        ensures
            (Outcome { app: final(self)@, input: final(input)@, request: r@ })
                == reply_step(old(self)@, old(input)@, reply@),
    {
        let mut waiting = Awaiting::Nothing;
        std::mem::swap(&mut waiting, &mut self.awaiting);
        let id = match waiting {
            Awaiting::UpdatesAfterSave(x) => x,
            _ => String::new(),
        };
        match reply {
            Reply::Updates(res) => self.updates_after_save(input, id, res),
            _ => {
                self.awaiting = Awaiting::UpdatesAfterSave(id);
                Request::Nothing
            },
        }
    }

    fn on_update_edit(&mut self, input: &mut Input, reply: Reply) -> (r: Request)
        requires
            old(self)@.awaiting is UpdateEdit,
        ensures
            (Outcome { app: final(self)@, input: final(input)@, request: r@ }) == reply_step(old(self)@, old(input)@, reply@),
    {
        self.awaiting = Awaiting::Nothing;
        match reply {
            Reply::Update(res) => self.update_loaded(input, res),
            _ => {
                self.awaiting = Awaiting::UpdateEdit;
                Request::Nothing
            },
        }
    }

    fn on_updates_on_open(&mut self, input: &mut Input, reply: Reply) -> (r: Request)
        requires
            old(self)@.awaiting is UpdatesOnOpen,
        ensures
            (Outcome { app: final(self)@, input: final(input)@, request: r@ }) == reply_step(old(self)@, old(input)@, reply@),
    {
        self.awaiting = Awaiting::Nothing;
        match reply {
            Reply::Updates(res) => self.updates_on_open(input, res),
            _ => {
                self.awaiting = Awaiting::UpdatesOnOpen;
                Request::Nothing
            },
        }
    }
}

pub open spec fn res_unit(r: Result<(), String>) -> Result<(), Seq<char>> {
    match r {
        Ok(()) => Ok(()),
        Err(e) => Err(e@),
    }
}

pub open spec fn projects_res(r: Result<Vec<Project>, String>) -> Result<Seq<ProjectView>, Seq<char>> {
    match r {
        Ok(ps) => Ok(crate::model::project_views(ps@)),
        Err(e) => Err(e@),
    }
}

pub open spec fn updates_res(r: Result<Vec<Update>, String>) -> Result<Seq<UpdateView>, Seq<char>> {
    match r {
        Ok(us) => Ok(crate::model::update_views(us@)),
        Err(e) => Err(e@),
    }
}

} // verus!
