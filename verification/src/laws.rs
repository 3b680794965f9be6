//! What holds of the interface over any run: the states that key presses and
//! replies reach stay consistent, so the library never meets a key or a reply
//! it cannot handle, and some keys leave the state alone.
use vstd::prelude::*;

use crate::app::{
    initial_app, project_position, update_position, AppView, AwaitingView, BrowserPane,
};
use crate::input::{initial_input, InputMode, InputView};
use crate::keys::{
    browser_action, key_fails, key_step, last_column, route, step_to, table_action,
    update_form_action, BrowserAction, Key, KeyEvent, ReplyView, RequestView, Route, TableAction,
};
use crate::model::{ProjectStep, ProjectView, UpdateView};
use crate::replies::{
    directory_checked, failed, project_deleted, project_stored, projects_after_deletion,
    projects_after_save, reply_fails, reply_step, update_deleted, update_loaded, update_stored,
    updates_after_deletion, updates_after_save, updates_on_open,
};

verus! {

/// What each awaited reply may count on.
pub open spec fn awaiting_consistent(a: AppView) -> bool {
    match a.awaiting {
        AwaitingView::ProjectDeletion(_) | AwaitingView::ProjectsAfterDeletion(_) => {
            &&& !a.show_update_input
            &&& !a.show_update_table
            &&& !a.show_project_input
        },
        AwaitingView::UpdateDeletion(_) | AwaitingView::UpdateSave => a.opened_project_id is Some,
        AwaitingView::UpdateEdit => {
            &&& a.opened_project_id is Some
            &&& !a.show_project_input
            &&& !a.show_help
        },
        _ => true,
    }
}

/// A consistent state of the interface: the cursor stays in the text; an open
/// form is being edited and hides the help; at most one form is open; the
/// update form and the update table belong to an opened project; a deletion
/// awaiting confirmation blocks everything else; the selections stay in their
/// lists; the git view is shown only over the browser.
pub open spec fn consistent(a: AppView, i: InputView) -> bool {
    &&& i.cursor <= i.text.len()
    &&& a.show_project_input ==> {
        &&& i.mode == InputMode::Editing
        &&& !a.show_update_input
        &&& !a.show_update_table
        &&& !a.show_help
    }
    &&& a.show_update_input ==> {
        &&& i.mode == InputMode::Editing
        &&& a.opened_project_id is Some
        &&& !a.show_help
    }
    &&& a.show_update_table ==> a.opened_project_id is Some && !a.show_help
    &&& a.pending_project_delete_id is Some ==> {
        &&& a.awaiting is Nothing
        &&& a.pending_update_delete_id is None
        &&& !a.show_update_input
        &&& !a.show_update_table
        &&& !a.show_project_input
    }
    &&& a.pending_update_delete_id is Some ==> a.awaiting is Nothing && a.opened_project_id is Some
    &&& a.show_git_view ==> {
        &&& browsing(a)
    }
    &&& a.show_help ==> {
        &&& a.awaiting is Nothing
        &&& a.pending_project_delete_id is None
        &&& a.pending_update_delete_id is None
    }
    &&& awaiting_consistent(a)
    &&& (a.update_selection.selected_column matches Some(c) ==> c <= last_column())
    &&& (a.project_selection.selected matches Some(r) ==> r < a.projects.len())
    &&& (a.update_selection.selected matches Some(r) ==> r < a.updates.len())
}

/// A found project is one of the list.
pub proof fn lemma_project_position_bound(ps: Seq<ProjectView>, id: Seq<char>)
    ensures
        project_position(ps, id) matches Some(k) ==> k < ps.len() && ps[k as int].id == id,
    decreases ps.len(),
{
    if ps.len() > 0 {
        lemma_project_position_bound(ps.drop_first(), id);
    }
}

/// A found update is one of the list.
pub proof fn lemma_update_position_bound(us: Seq<UpdateView>, id: Seq<char>)
    ensures
        update_position(us, id) matches Some(k) ==> k < us.len() && us[k as int].id == id,
    decreases us.len(),
{
    if us.len() > 0 {
        lemma_update_position_bound(us.drop_first(), id);
    }
}

/// The state at start, with an empty text field, is consistent.
pub proof fn law_start_is_consistent()
    ensures
        consistent(initial_app(), initial_input()),
{
}

/// Nothing is open and nothing awaited: the browser has the keys.
pub open spec fn browsing(a: AppView) -> bool {
    &&& a.awaiting is Nothing
    &&& a.pending_project_delete_id is None
    &&& a.pending_update_delete_id is None
    &&& !a.show_project_input
    &&& !a.show_update_input
    &&& !a.show_update_table
    &&& !a.show_help
}

proof fn lemma_browser_action(a: AppView, k: KeyEvent)
    ensures
        match browser_action(a, k) {
            BrowserAction::Down | BrowserAction::Up => a.projects.len() > 0,
            BrowserAction::UpdateTable | BrowserAction::NewUpdate => a.opened_project_id is Some,
            BrowserAction::Open(r) | BrowserAction::Delete(r) => r < a.projects.len(),
            BrowserAction::Edit(u) => u < a.updates.len() && a.opened_project_id is Some,
            _ => true,
        },
{
    reveal(browser_action);
    crate::app::lemma_displayed_update_bound(a);
}

proof fn lemma_table_action(a: AppView, k: KeyEvent)
    ensures
        match table_action(a, k) {
            TableAction::Down | TableAction::Up => a.updates.len() > 0,
            TableAction::Open(r) | TableAction::Edit(r) | TableAction::Delete(r) => r
                < a.updates.len(),
            _ => true,
        },
{
    reveal(table_action);
}

proof fn lemma_browser_key(a: AppView, i: InputView, k: KeyEvent)
    requires
        consistent(a, i),
        browsing(a),
        !a.show_git_view,
    ensures
        consistent(crate::keys::browser_key(a, i, k).app, crate::keys::browser_key(a, i, k).input),
{
    lemma_browser_action(a, k);
    let act = browser_action(a, k);
    match act {
        BrowserAction::Open(r) => {
            assert(consistent(crate::keys::project_opened(a, i, r).app, i));
        },
        BrowserAction::Delete(r) => {},
        BrowserAction::Edit(u) => {},
        BrowserAction::NewProject => {},
        BrowserAction::UpdateTable => {},
        BrowserAction::NewUpdate => {},
        BrowserAction::Help => {},
        BrowserAction::Down => {},
        BrowserAction::Up => {},
        _ => {},
    }
}

proof fn lemma_table_key(a: AppView, i: InputView, k: KeyEvent)
    requires
        consistent(a, i),
        a.awaiting is Nothing,
        a.pending_project_delete_id is None,
        a.pending_update_delete_id is None,
        !a.show_project_input,
        !a.show_update_input,
        a.show_update_table,
    ensures
        consistent(crate::keys::table_key(a, i, k).app, crate::keys::table_key(a, i, k).input),
        !(table_action(a, k) == TableAction::Right && a.update_selection.selected_column == Some(
            usize::MAX,
        )),
{
    lemma_table_action(a, k);
    let act = table_action(a, k);
    match act {
        TableAction::Open(r) => {},
        TableAction::Edit(r) => {},
        TableAction::Delete(r) => {},
        TableAction::Down => {},
        TableAction::Up => {},
        TableAction::Left => {},
        TableAction::Right => {},
        _ => {},
    }
}

proof fn lemma_update_form_key(a: AppView, i: InputView, k: KeyEvent)
    requires
        consistent(a, i),
        a.awaiting is Nothing,
        a.pending_project_delete_id is None,
        a.pending_update_delete_id is None,
        a.show_update_input,
        i.mode == InputMode::Editing,
    ensures
        consistent(
            crate::keys::update_form_key(a, i, k).app,
            crate::keys::update_form_key(a, i, k).input,
        ),
{
    reveal(update_form_action);
}

proof fn lemma_project_form_key(a: AppView, i: InputView, k: KeyEvent)
    requires
        consistent(a, i),
        a.awaiting is Nothing,
        a.pending_project_delete_id is None,
        a.pending_update_delete_id is None,
        a.show_project_input,
    ensures
        consistent(
            crate::keys::project_form_key(a, i, k).app,
            crate::keys::project_form_key(a, i, k).input,
        ),
{
}

proof fn lemma_git_parts(a: AppView, i: InputView, down: bool)
    ensures
        crate::gitkeys::git_back(a) == (AppView {
            git: crate::gitkeys::git_back(a).git,
            show_git_view: crate::gitkeys::git_back(a).show_git_view,
            ..a
        }),
        crate::gitkeys::git_moved(a, down) == (AppView {
            git: crate::gitkeys::git_moved(a, down).git,
            ..a
        }),
        crate::gitkeys::git_opened(a, i).app == a,
        crate::gitkeys::git_opened(a, i).input == i,
{
}

/// Keys in the git view change only the git view, whether it is shown, and
/// whether to quit.
proof fn lemma_git_key(a: AppView, i: InputView, k: KeyEvent)
    ensures
        ({
            let o = crate::gitkeys::git_key(a, i, k);
            &&& o.app == (AppView {
                git: o.app.git,
                show_git_view: o.app.show_git_view,
                exit: o.app.exit,
                ..a
            })
            &&& o.input == i
        }),
{
    reveal(crate::gitkeys::git_key);
    lemma_git_parts(a, i, true);
    lemma_git_parts(a, i, false);
}

/// Every key keeps a consistent state consistent, and no key from a
/// consistent state is one the library cannot handle.
pub proof fn law_key_keeps_consistent(a: AppView, i: InputView, k: KeyEvent)
    requires
        consistent(a, i),
    ensures
        !key_fails(a, i, k),
        consistent(key_step(a, i, k).app, key_step(a, i, k).input),
{
    match route(a, i, k) {
        Route::Browser => lemma_browser_key(a, i, k),
        Route::Table => lemma_table_key(a, i, k),
        Route::UpdateForm => {
            reveal(update_form_action);
            lemma_update_form_key(a, i, k);
        },
        Route::ProjectForm => lemma_project_form_key(a, i, k),
        Route::ProjectDeletion => {
            assert(consistent(key_step(a, i, k).app, key_step(a, i, k).input));
        },
        Route::UpdateDeletion => {
            assert(consistent(key_step(a, i, k).app, key_step(a, i, k).input));
        },
        Route::Scroll(t, v) => {
            assert(consistent(key_step(a, i, k).app, key_step(a, i, k).input));
        },
        Route::Help => {
            assert(consistent(key_step(a, i, k).app, key_step(a, i, k).input));
        },
        Route::Git => lemma_git_key(a, i, k),
        Route::Ignored => {},
    }
}


proof fn lemma_projects_reply(a: AppView, i: InputView, r: ReplyView)
    requires
        consistent(a, i),
        a.awaiting is ProjectDeletion || a.awaiting is ProjectsAfterDeletion
            || a.awaiting is ProjectsAfterSave,
    ensures
        consistent(reply_step(a, i, r).app, reply_step(a, i, r).input),
{
    reveal(failed);
    reveal(project_deleted);
    reveal(projects_after_deletion);
    reveal(projects_after_save);
    match (a.awaiting, r) {
        (AwaitingView::ProjectsAfterSave(id), ReplyView::Projects(res, flags)) => {
            let a1 = match res {
                Ok(ps) => crate::replies::idle(a).projects_reloaded(ps, flags),
                Err(e) => AppView { err: Some("Couldn't load projects: "@ + e), ..crate::replies::idle(a) },
            };
            lemma_project_position_bound(a1.projects, id);
        },
        _ => {},
    }
}

proof fn lemma_updates_reply(a: AppView, i: InputView, r: ReplyView)
    requires
        consistent(a, i),
        a.awaiting is UpdateDeletion || a.awaiting is UpdatesAfterDeletion
            || a.awaiting is UpdatesAfterSave || a.awaiting is UpdatesOnOpen,
    ensures
        consistent(reply_step(a, i, r).app, reply_step(a, i, r).input),
{
    reveal(failed);
    reveal(update_deleted);
    reveal(updates_after_deletion);
    reveal(updates_after_save);
    reveal(updates_on_open);
    match (a.awaiting, r) {
        (AwaitingView::UpdatesAfterSave(id), ReplyView::Updates(res)) => {
            let a1 = match res {
                Ok(us) => crate::replies::idle(a).updates_reloaded(us),
                Err(e) => AppView { err: Some("Couldn't load updates: "@ + e), ..crate::replies::idle(a) },
            };
            lemma_update_position_bound(a1.updates, id);
        },
        _ => {},
    }
}

proof fn lemma_form_reply(a: AppView, i: InputView, r: ReplyView)
    requires
        consistent(a, i),
        a.awaiting is NamedDirectory || a.awaiting is EnteredDirectory || a.awaiting is ProjectSave
            || a.awaiting is UpdateSave || a.awaiting is UpdateEdit,
    ensures
        consistent(reply_step(a, i, r).app, reply_step(a, i, r).input),
{
    reveal(failed);
    reveal(directory_checked);
    reveal(project_stored);
    reveal(update_stored);
    reveal(update_loaded);
}

/// Every reply keeps a consistent state consistent, and no reply to a
/// consistent state is one the library cannot handle.
pub proof fn law_reply_keeps_consistent(a: AppView, i: InputView, r: ReplyView)
    requires
        consistent(a, i),
    ensures
        !reply_fails(a, r),
        consistent(reply_step(a, i, r).app, reply_step(a, i, r).input),
{
    match a.awaiting {
        AwaitingView::Nothing => {},
        AwaitingView::ProjectDeletion(_) | AwaitingView::ProjectsAfterDeletion(_)
        | AwaitingView::ProjectsAfterSave(_) => lemma_projects_reply(a, i, r),
        AwaitingView::UpdateDeletion(_) | AwaitingView::UpdatesAfterDeletion(_)
        | AwaitingView::UpdatesAfterSave(_) | AwaitingView::UpdatesOnOpen => lemma_updates_reply(
            a,
            i,
            r,
        ),
        _ => lemma_form_reply(a, i, r),
    }
}


/// While a project's deletion awaits confirmation, pressing Enter asks to
/// delete that project, whichever row is selected by then, and drops the
/// confirmation; pressing Esc only drops it; any other key changes nothing.
pub proof fn law_project_deletion_confirmation(a: AppView, i: InputView, k: KeyEvent)
    requires
        consistent(a, i),
        a.pending_project_delete_id is Some,
    ensures
        k.press && k.code == Key::Enter ==> {
            &&& key_step(a, i, k).request == RequestView::DeleteProject(
                a.pending_project_delete_id->0,
            )
            &&& key_step(a, i, k).app.pending_project_delete_id is None
        },
        k.press && k.code == Key::Esc ==> key_step(a, i, k) == step_to(
            AppView { pending_project_delete_id: None, ..a },
            i,
        ),
        !(k.press && (k.code == Key::Enter || k.code == Key::Esc)) ==> key_step(a, i, k)
            == step_to(a, i),
{
}

/// While an update's deletion awaits confirmation, pressing Enter asks to
/// delete that update and drops the confirmation; pressing Esc only drops it;
/// any other key changes nothing.
pub proof fn law_update_deletion_confirmation(a: AppView, i: InputView, k: KeyEvent)
    requires
        consistent(a, i),
        a.pending_update_delete_id is Some,
    ensures
        k.press && k.code == Key::Enter ==> {
            &&& key_step(a, i, k).request == RequestView::DeleteUpdate(
                a.pending_update_delete_id->0,
            )
            &&& key_step(a, i, k).app.pending_update_delete_id is None
        },
        k.press && k.code == Key::Esc ==> key_step(a, i, k) == step_to(
            AppView { pending_update_delete_id: None, ..a },
            i,
        ),
        !(k.press && (k.code == Key::Enter || k.code == Key::Esc)) ==> key_step(a, i, k)
            == step_to(a, i),
{
}

/// In the project list, Down (or `j`) selects the next project and stops at
/// the last; Up (or `k`) selects the previous one and stops at the first;
/// neither opens a project nor touches the updates.
pub proof fn law_browser_navigation_stays_in_the_list(a: AppView, i: InputView, k: KeyEvent)
    requires
        consistent(a, i),
        browsing(a),
        !a.show_git_view,
        a.focused_pane == BrowserPane::Projects,
        0 < a.projects.len() <= usize::MAX,
        k.press,
        k.code == Key::Down || k.code == Key::Char('j') || k.code == Key::Up || k.code
            == Key::Char('k'),
    ensures
        ({
            let o = key_step(a, i, k).app;
            let down = k.code == Key::Down || k.code == Key::Char('j');
            &&& o.project_selection.selected == Some(
                if down {
                    crate::keys::row_below(a.project_selection.selected, a.projects.len())
                } else {
                    crate::keys::row_above(a.project_selection.selected)
                },
            )
            &&& (o.project_selection.selected matches Some(r) && r < a.projects.len())
            &&& (a.project_selection.selected matches Some(r) ==> (down
                ==> o.project_selection.selected == Some(
                if r + 1 < a.projects.len() {
                    (r + 1) as usize
                } else {
                    (a.projects.len() - 1) as usize
                },
            )) && (!down ==> o.project_selection.selected == Some(
                if r > 0 {
                    (r - 1) as usize
                } else {
                    0usize
                },
            )))
            &&& o.opened_project_id == a.opened_project_id
            &&& o.updates == a.updates
            &&& o.update_selection == a.update_selection
            &&& key_step(a, i, k).request == RequestView::Nothing
        }),
{
    reveal(browser_action);
    assert(route(a, i, k) == Route::Browser);
    assert(key_step(a, i, k) == crate::keys::browser_key(a, i, k));
}

/// Once the project form shows its confirmation, keys other than Enter and
/// Esc change neither the draft nor the text field.
pub proof fn law_typing_during_confirm_keeps_draft(a: AppView, i: InputView, k: KeyEvent)
    requires
        consistent(a, i),
        a.show_project_input,
        a.awaiting is Nothing,
        a.pending_project_delete_id is None,
        a.pending_update_delete_id is None,
        i.project_step == ProjectStep::Confirm,
        k.code != Key::Enter,
        k.code != Key::Esc,
    ensures
        key_step(a, i, k) == step_to(a, i),
{
}

/// Esc on the project form and then `A` open a fresh form: empty drafts,
/// an empty text field at its first step, and no error.
pub proof fn law_cancel_then_reopen_is_fresh(a: AppView, i: InputView, esc: KeyEvent, add: KeyEvent)
    requires
        consistent(a, i),
        a.show_project_input,
        a.awaiting is Nothing,
        a.pending_project_delete_id is None,
        a.pending_update_delete_id is None,
        esc.code == Key::Esc,
        esc.press,
        add.code == Key::Char('A'),
        add.press,
    ensures
        ({
            let first = key_step(a, i, esc);
            let second = key_step(first.app, first.input, add);
            &&& !first.app.show_project_input
            &&& first.input.mode == InputMode::Normal
            &&& first.app.err is None
            &&& second.app.show_project_input
            &&& second.app.err is None
            &&& second.input == (InputView { mode: InputMode::Editing, ..i.reset() })
            &&& second.request == RequestView::Nothing
        }),
{
    let first = key_step(a, i, esc);
    assert(first.app == AppView { err: None, show_project_input: false, ..a });
    reveal(browser_action);
}

/// Typing a character and deleting it gives the text field back as it was.
/// The text has fewer than `usize::MAX` characters, as `Input::enter_char`
/// ensures of every text it types into.
pub proof fn law_enter_then_delete_restores(i: InputView, c: char)
    requires
        i.cursor <= i.text.len(),
        i.text.len() < usize::MAX,
    ensures
        i.entered(c).deleted() == i,
{
    let p = i.cursor as int;
    let e = i.entered(c);
    assert(e.text =~= i.text.take(p) + seq![c] + i.text.skip(p));
    assert(e.cursor == p + 1);
    let t = e.text.take(p) + e.text.skip(p + 1);
    assert(t =~= i.text);
}

/// Keys in the update table never move the project selection nor change
/// the opened project.
pub proof fn law_table_keys_keep_projects(a: AppView, i: InputView, k: KeyEvent)
    requires
        route(a, i, k) == Route::Table,
    ensures
        key_step(a, i, k).app.projects == a.projects,
        key_step(a, i, k).app.project_selection == a.project_selection,
        key_step(a, i, k).app.opened_project_id == a.opened_project_id,
{
    assert(key_step(a, i, k) == crate::keys::table_key(a, i, k));
    let act = table_action(a, k);
    match act {
        TableAction::Open(_) | TableAction::Edit(_) | TableAction::Delete(_) => {
            assert(crate::keys::table_key(a, i, k) == crate::keys::table_row_used(a, i, act));
        },
        _ => {
            assert(crate::keys::table_key(a, i, k) == crate::keys::table_moved(a, i, act));
        },
    }
}

proof fn lemma_help_key(a: AppView, i: InputView, k: KeyEvent)
    ensures
        crate::keys::help_key(a, i, k).app == (AppView {
            show_help: crate::keys::help_key(a, i, k).app.show_help,
            exit: crate::keys::help_key(a, i, k).app.exit,
            ..a
        }),
        crate::keys::help_key(a, i, k).input == i,
        crate::keys::help_key(a, i, k).request == RequestView::Nothing,
{
}

/// While the help is shown, Esc or `?` closes it and `q` quits; any other
/// key at most scrolls it: no form, table or deletion opens, the selection
/// and the opened project stay, and nothing is asked for.
pub proof fn law_help_blocks_other_keys(a: AppView, i: InputView, k: KeyEvent)
    requires
        consistent(a, i),
        a.show_help,
    ensures
        k.press && (k.code == Key::Esc || k.code == Key::Char('?')) ==> key_step(a, i, k)
            == step_to(AppView { show_help: false, ..a }, i),
        k.press && k.code == Key::Char('q') ==> key_step(a, i, k) == step_to(
            AppView { exit: true, ..a },
            i,
        ),
        !(k.press && (k.code == Key::Esc || k.code == Key::Char('?') || k.code == Key::Char(
            'q',
        ))) ==> key_step(a, i, k) == step_to(
            AppView { help_scroll: key_step(a, i, k).app.help_scroll, ..a },
            i,
        ),
{
    lemma_help_key(a, i, k);
}

proof fn lemma_browser_opens_only_on_enter(a: AppView, i: InputView, k: KeyEvent)
    ensures
        crate::keys::browser_key(a, i, k).app.opened_project_id != a.opened_project_id
            ==> k.code == Key::Enter,
{
    reveal(browser_action);
}

proof fn lemma_table_keeps_opened(a: AppView, i: InputView, k: KeyEvent)
    ensures
        crate::keys::table_key(a, i, k).app.opened_project_id == a.opened_project_id,
{
    let act = table_action(a, k);
    match act {
        TableAction::Open(_) | TableAction::Edit(_) | TableAction::Delete(_) => {
            assert(crate::keys::table_key(a, i, k) == crate::keys::table_row_used(a, i, act));
        },
        _ => {
            assert(crate::keys::table_key(a, i, k) == crate::keys::table_moved(a, i, act));
        },
    }
}

proof fn lemma_forms_keep_opened(a: AppView, i: InputView, k: KeyEvent)
    ensures
        crate::keys::update_form_key(a, i, k).app.opened_project_id == a.opened_project_id,
        crate::keys::project_form_key(a, i, k).app.opened_project_id == a.opened_project_id,
{
}

/// Only Enter on the project list opens another project.
pub proof fn law_only_enter_opens_a_project(a: AppView, i: InputView, k: KeyEvent)
    ensures
        key_step(a, i, k).app.opened_project_id != a.opened_project_id ==> k.code == Key::Enter
            && route(a, i, k) == Route::Browser,
{
    lemma_help_key(a, i, k);
    lemma_git_key(a, i, k);
    lemma_browser_opens_only_on_enter(a, i, k);
    lemma_table_keeps_opened(a, i, k);
    lemma_forms_keep_opened(a, i, k);
}


/// A deleted project is closed only if it was the opened one; the projects
/// are then loaded again.
pub proof fn law_deleting_a_project_closes_it_only_if_opened(
    a: AppView,
    i: InputView,
    id: Seq<char>,
)
    requires
        a.awaiting == AwaitingView::ProjectDeletion(id),
    ensures
        ({
            let o = reply_step(a, i, ReplyView::Done(Ok(())));
            &&& o.app.opened_project_id == if a.opened_project_id == Some(id) {
                None
            } else {
                a.opened_project_id
            }
            &&& o.app.err is None
            &&& o.request == RequestView::LoadProjects
        }),
{
    reveal(project_deleted);
}

/// A failed deletion changes nothing but the error shown.
pub proof fn law_failed_deletion_only_shows_the_error(
    a: AppView,
    i: InputView,
    e: Seq<char>,
)
    requires
        a.awaiting is ProjectDeletion || a.awaiting is UpdateDeletion,
    ensures
        ({
            let o = reply_step(a, i, ReplyView::Done(Err(e)));
            &&& o.app == (AppView {
                err: o.app.err,
                awaiting: AwaitingView::Nothing,
                ..a
            })
            &&& o.app.err is Some
            &&& o.input == i
            &&& o.request == RequestView::Nothing
        }),
{
    reveal(failed);
}

/// The list of projects changes only when projects are loaded, and then it
/// is what was loaded.
pub proof fn law_projects_change_only_on_load(a: AppView, i: InputView, r: ReplyView)
    ensures
        reply_step(a, i, r).app.projects != a.projects ==> (r matches ReplyView::Projects(
            Ok(ps),
            _,
        ) && reply_step(a, i, r).app.projects == ps),
{
    reveal(failed);
    reveal(project_deleted);
    reveal(projects_after_deletion);
    reveal(update_deleted);
    reveal(updates_after_deletion);
    reveal(directory_checked);
    reveal(project_stored);
    reveal(projects_after_save);
    reveal(update_stored);
    reveal(updates_after_save);
    reveal(update_loaded);
    reveal(updates_on_open);
}

/// A saved project is opened and selected once the projects are loaded
/// again, and its form closes.
pub proof fn law_saved_project_is_opened(
    a: AppView,
    i: InputView,
    id: Seq<char>,
    ps: Seq<ProjectView>,
    flags: Seq<bool>,
)
    requires
        a.awaiting == AwaitingView::ProjectsAfterSave(id),
        ps.len() <= usize::MAX,
    ensures
        ({
            let o = reply_step(a, i, ReplyView::Projects(Ok(ps), flags));
            &&& o.app.opened_project_id == Some(id)
            &&& !o.app.show_project_input
            &&& o.app.projects == ps
            &&& o.app.focused_pane == BrowserPane::LatestUpdate
            &&& (o.app.project_selection.selected matches Some(k) ==> ps[k as int].id == id)
            &&& (project_position(ps, id) is Some ==> o.app.project_selection.selected is Some)
        }),
{
    reveal(projects_after_save);
    lemma_project_position_bound(ps, id);
}


/// In the git view Esc goes back one level: from the diff to the list, from
/// a branch's commits to the branches, and from the branches out of the git
/// view.
pub proof fn law_git_escape_goes_back(a: AppView, i: InputView, k: KeyEvent)
    requires
        route(a, i, k) == Route::Git,
        k.code == Key::Esc,
    ensures
        ({
            let o = key_step(a, i, k).app;
            &&& a.git.diff is Some ==> o.git.diff is None && o.git.opened_branch == a.git.opened_branch
                && o.show_git_view
            &&& a.git.diff is None && a.git.opened_branch is Some ==> o.git.opened_branch is None
                && o.show_git_view
            &&& a.git.diff is None && a.git.opened_branch is None ==> !o.show_git_view
            &&& key_step(a, i, k).request == RequestView::Nothing
        }),
{
    reveal(crate::gitkeys::git_key);
}


/// A saved update is opened and selected once the updates are loaded again,
/// and its form closes.
pub proof fn law_saved_update_is_opened(
    a: AppView,
    i: InputView,
    id: Seq<char>,
    us: Seq<UpdateView>,
)
    requires
        a.awaiting == AwaitingView::UpdatesAfterSave(id),
        us.len() <= usize::MAX,
    ensures
        ({
            let o = reply_step(a, i, ReplyView::Updates(Ok(us)));
            &&& o.app.opened_update_id == Some(id)
            &&& !o.app.show_update_input
            &&& o.app.updates == us
            &&& o.app.focused_pane == BrowserPane::LatestUpdate
            &&& (o.app.update_selection.selected matches Some(k) ==> us[k as int].id == id)
            &&& (update_position(us, id) is Some ==> o.app.update_selection.selected is Some)
        }),
{
    reveal(updates_after_save);
    lemma_update_position_bound(us, id);
}

/// A save that fails keeps the draft for another try, shows the error, and
/// asks for nothing.
pub proof fn law_failed_save_keeps_the_draft(a: AppView, i: InputView, e: Seq<char>)
    requires
        a.awaiting is ProjectSave || a.awaiting is UpdateSave,
    ensures
        ({
            let o = reply_step(a, i, ReplyView::Saved(Err(e)));
            &&& o.input.project == i.project
            &&& o.input.update == i.update
            &&& o.app.show_project_input == a.show_project_input
            &&& o.app.show_update_input == a.show_update_input
            &&& o.app.err is Some
            &&& o.request == RequestView::Nothing
        }),
{
    reveal(project_stored);
    reveal(update_stored);
}


/// Once the updates of a project just opened arrive, the Latest Update pane
/// shows the first of them that belongs to the project, and has the focus.
pub proof fn law_opened_project_shows_its_first_update(
    a: AppView,
    i: InputView,
    p: Seq<char>,
    us: Seq<UpdateView>,
)
    requires
        a.awaiting == AwaitingView::UpdatesOnOpen,
        a.opened_project_id == Some(p),
        a.opened_update_id is None,
    ensures
        ({
            let o = reply_step(a, i, ReplyView::Updates(Ok(us)));
            &&& o.app.updates == us
            &&& o.app.displayed_update() == crate::app::first_update(us, p, None)
            &&& o.app.focused_pane == BrowserPane::LatestUpdate
            &&& o.app.opened_project_id == Some(p)
        }),
{
    reveal(updates_on_open);
}


/// Whether the reply `r` is of the kind that what `a` awaits expects.
pub open spec fn answers(w: AwaitingView, r: ReplyView) -> bool {
    match w {
        AwaitingView::Nothing => true,
        AwaitingView::ProjectDeletion(_) | AwaitingView::UpdateDeletion(_)
        | AwaitingView::NamedDirectory | AwaitingView::EnteredDirectory => r is Done,
        AwaitingView::ProjectsAfterDeletion(_) | AwaitingView::ProjectsAfterSave(_) => r is Projects,
        AwaitingView::UpdatesAfterDeletion(_) | AwaitingView::UpdatesAfterSave(_)
        | AwaitingView::UpdatesOnOpen => r is Updates,
        AwaitingView::ProjectSave | AwaitingView::UpdateSave => r is Saved,
        AwaitingView::UpdateEdit => r is Update,
    }
}

proof fn lemma_browser_settles(a: AppView, i: InputView, k: KeyEvent)
    requires
        a.awaiting is Nothing,
    ensures
        crate::keys::browser_key(a, i, k).request is Nothing ==> crate::keys::browser_key(
            a,
            i,
            k,
        ).app.awaiting is Nothing,
{
    reveal(browser_action);
}

proof fn lemma_table_settles(a: AppView, i: InputView, k: KeyEvent)
    requires
        a.awaiting is Nothing,
    ensures
        crate::keys::table_key(a, i, k).request is Nothing ==> crate::keys::table_key(
            a,
            i,
            k,
        ).app.awaiting is Nothing,
{
    reveal(table_action);
}

proof fn lemma_forms_settle(a: AppView, i: InputView, k: KeyEvent)
    requires
        a.awaiting is Nothing,
    ensures
        crate::keys::update_form_key(a, i, k).request is Nothing
            ==> crate::keys::update_form_key(a, i, k).app.awaiting is Nothing,
        crate::keys::project_form_key(a, i, k).request is Nothing
            ==> crate::keys::project_form_key(a, i, k).app.awaiting is Nothing,
{
    reveal(update_form_action);
}

proof fn lemma_key_settles(a: AppView, i: InputView, k: KeyEvent)
    requires
        a.awaiting is Nothing,
    ensures
        key_step(a, i, k).request is Nothing ==> key_step(a, i, k).app.awaiting is Nothing,
{
    match route(a, i, k) {
        Route::Git => lemma_git_key(a, i, k),
        Route::Help => lemma_help_key(a, i, k),
        Route::Browser => lemma_browser_settles(a, i, k),
        Route::Table => lemma_table_settles(a, i, k),
        Route::UpdateForm | Route::ProjectForm => lemma_forms_settle(a, i, k),
        _ => {},
    }
}

proof fn lemma_projects_reply_settles(a: AppView, i: InputView, r: ReplyView)
    requires
        answers(a.awaiting, r),
        a.awaiting is ProjectDeletion || a.awaiting is ProjectsAfterDeletion
            || a.awaiting is ProjectsAfterSave || a.awaiting is NamedDirectory
            || a.awaiting is EnteredDirectory || a.awaiting is ProjectSave,
    ensures
        reply_step(a, i, r).request is Nothing ==> reply_step(a, i, r).app.awaiting is Nothing,
{
    reveal(failed);
    reveal(project_deleted);
    reveal(projects_after_deletion);
    reveal(projects_after_save);
    reveal(directory_checked);
    reveal(project_stored);
}

proof fn lemma_updates_reply_settles(a: AppView, i: InputView, r: ReplyView)
    requires
        answers(a.awaiting, r),
        a.awaiting is UpdateDeletion || a.awaiting is UpdatesAfterDeletion
            || a.awaiting is UpdatesAfterSave || a.awaiting is UpdatesOnOpen
            || a.awaiting is UpdateSave || a.awaiting is UpdateEdit,
    ensures
        reply_step(a, i, r).request is Nothing ==> reply_step(a, i, r).app.awaiting is Nothing,
{
    reveal(failed);
    reveal(update_deleted);
    reveal(updates_after_deletion);
    reveal(updates_after_save);
    reveal(update_stored);
    reveal(update_loaded);
    reveal(updates_on_open);
}

/// Between two keys nothing is awaited: a key pressed while nothing is
/// awaited either asks for outside work or leaves nothing awaited, and the
/// answer to what is awaited either asks for more work or leaves nothing
/// awaited. So once the caller has handed back the answer to every request,
/// the state awaits nothing.
pub proof fn law_settled_between_keys(a: AppView, i: InputView, k: KeyEvent, r: ReplyView)
    ensures
        a.awaiting is Nothing && key_step(a, i, k).request is Nothing ==> key_step(
            a,
            i,
            k,
        ).app.awaiting is Nothing,
        answers(a.awaiting, r) && reply_step(a, i, r).request is Nothing ==> reply_step(
            a,
            i,
            r,
        ).app.awaiting is Nothing,
{
    if a.awaiting is Nothing {
        lemma_key_settles(a, i, k);
    } else if answers(a.awaiting, r) {
        match a.awaiting {
            AwaitingView::ProjectDeletion(_) | AwaitingView::ProjectsAfterDeletion(_)
            | AwaitingView::ProjectsAfterSave(_) | AwaitingView::NamedDirectory
            | AwaitingView::EnteredDirectory | AwaitingView::ProjectSave => {
                lemma_projects_reply_settles(a, i, r)
            },
            _ => lemma_updates_reply_settles(a, i, r),
        }
    }
}


/// The rows of an opened branch: its commits, in git's order, after one row
/// for the uncommitted changes exactly when the branch is the checked-out one
/// and files changed; any other branch shows its commits and nothing else.
pub proof fn law_uncommitted_changes_only_on_the_checked_out_branch(
    summary: Option<crate::git::SummaryView>,
    branch: Seq<char>,
    commits: Seq<crate::git::CommitView>,
)
    ensures
        ({
            let rows = crate::gitview::branch_entries(summary, branch, commits);
            let shown = summary matches Some(s) && s.head == crate::git::HeadView::Branch(branch)
                && s.files_changed > 0;
            let offset: int = if shown {
                1
            } else {
                0
            };
            &&& rows.len() == commits.len() + offset
            &&& shown ==> rows[0] == crate::app::GitEntryView::Uncommitted
            &&& forall|j: int|
                0 <= j < commits.len() ==> #[trigger] rows[j + offset]
                    == crate::app::GitEntryView::Commit(commits[j])
            &&& forall|j: int|
                0 <= j < rows.len() && #[trigger] rows[j] == crate::app::GitEntryView::Uncommitted
                    ==> j == 0 && shown
        }),
{
    let rows = crate::gitview::branch_entries(summary, branch, commits);
    let shown = summary matches Some(s) && s.head == crate::git::HeadView::Branch(branch)
        && s.files_changed > 0;
    let offset: int = if shown {
        1
    } else {
        0
    };
    let mapped = commits.map_values(|c: crate::git::CommitView| crate::app::GitEntryView::Commit(c));
    assert forall|j: int| 0 <= j < commits.len() implies #[trigger] rows[j + offset]
        == crate::app::GitEntryView::Commit(commits[j]) by {
        assert(mapped[j] == crate::app::GitEntryView::Commit(commits[j]));
    }
    assert forall|j: int|
        0 <= j < rows.len() && #[trigger] rows[j] == crate::app::GitEntryView::Uncommitted
            implies j == 0 && shown by {
        if j >= offset {
            assert(rows[j] == mapped[j - offset]);
        }
    }
}

/// Submitting the directory never replaces a name the user gave; a name is
/// taken from the directory only when none was given. The directory's text,
/// unless blank, becomes the directory; the field is emptied.
pub proof fn law_directory_keeps_a_given_name(i: InputView)
    ensures
        i.project.name is Some ==> i.submitted_directory().project.name == i.project.name,
        i.project.name is None ==> i.submitted_directory().project.name == crate::text::file_name(
            i.text,
        ),
        !crate::text::is_blank(i.text) ==> i.submitted_directory().project.directory == Some(
            i.text,
        ),
        crate::text::is_blank(i.text) ==> i.submitted_directory().project.directory
            == i.project.directory,
        i.submitted_directory().text.len() == 0,
        i.submitted_directory().cursor == 0,
{
}

/// In the update table, `d` asks to confirm the deletion of the update on the
/// selected row, and Enter then asks to delete that very update.
pub proof fn law_table_deletes_the_selected_update(
    a: AppView,
    i: InputView,
    d: KeyEvent,
    enter: KeyEvent,
    r: usize,
)
    requires
        route(a, i, d) == Route::Table,
        d.code == Key::Char('d'),
        a.update_selection.selected == Some(r),
        r < a.updates.len(),
        enter.code == Key::Enter,
        enter.press,
    ensures
        key_step(a, i, d).app.pending_update_delete_id == Some(a.updates[r as int].id),
        key_step(key_step(a, i, d).app, key_step(a, i, d).input, enter).request
            == RequestView::DeleteUpdate(a.updates[r as int].id),
{
    reveal(table_action);
    assert(key_step(a, i, d) == crate::keys::table_key(a, i, d));
    assert(table_action(a, d) == TableAction::Delete(r));
}

/// While the update form shows its confirmation, the scroll keys scroll the
/// confirmation: Down and `j` one line further, Up and `k` one line back,
/// Page Down and Page Up ten lines, Home to the top, End to the bottom; the
/// details of the Latest Update pane and the help keep their scroll.
pub proof fn law_confirmation_scrolls_with_the_keys(a: AppView, i: InputView, k: KeyEvent)
    requires
        consistent(a, i),
        a.awaiting is Nothing,
        a.pending_project_delete_id is None,
        a.pending_update_delete_id is None,
        a.show_update_input,
        i.update_step == crate::model::UpdateStep::Confirm,
        k.press,
    ensures
        ({
            let o = key_step(a, i, k).app;
            let v = a.confirmation_scroll as int;
            &&& (k.code == Key::Down || k.code == Key::Char('j')) ==> o.confirmation_scroll == if v
                < u16::MAX {
                v + 1
            } else {
                v
            }
            &&& (k.code == Key::Up || k.code == Key::Char('k')) ==> o.confirmation_scroll == if v
                > 0 {
                v - 1
            } else {
                0
            }
            &&& k.code == Key::PageDown ==> o.confirmation_scroll == if v + 10 <= u16::MAX {
                v + 10
            } else {
                u16::MAX as int
            }
            &&& k.code == Key::PageUp ==> o.confirmation_scroll == if v >= 10 {
                v - 10
            } else {
                0
            }
            &&& k.code == Key::Home ==> o.confirmation_scroll == 0
            &&& k.code == Key::End ==> o.confirmation_scroll == u16::MAX
            &&& o.detail_scroll == a.detail_scroll
            &&& o.help_scroll == a.help_scroll
            &&& crate::keys::scrolled(a.confirmation_scroll, k.code) is Some ==> key_step(
                a,
                i,
                k,
            ).input == i
        }),
{
    assert(!a.show_git_view);
    assert(!a.show_help);
    assert(crate::keys::scroll_target(a, i) == Some(crate::keys::ScrollTarget::Confirmation));
    if crate::keys::scrolled(a.confirmation_scroll, k.code) is Some {
        assert(route(a, i, k) == Route::Scroll(
            crate::keys::ScrollTarget::Confirmation,
            crate::keys::scrolled(a.confirmation_scroll, k.code)->0,
        ));
    } else {
        assert(route(a, i, k) == Route::UpdateForm);
        reveal(update_form_action);
    }
}

/// A release found while anything is open waits: nothing counts as idle while
/// a form, the update table, the help, the git view or a deletion's
/// confirmation is open, so the popup that offers the release stays closed.
pub proof fn law_release_waits_while_anything_is_open(a: AppView)
    ensures
        a.show_project_input ==> !a.idle(),
        a.show_update_input ==> !a.idle(),
        a.show_update_table ==> !a.idle(),
        a.show_help ==> !a.idle(),
        a.show_git_view ==> !a.idle(),
        a.pending_project_delete_id is Some ==> !a.idle(),
        a.pending_update_delete_id is Some ==> !a.idle(),
        !a.show_project_input && !a.show_update_input && !a.show_update_table && !a.show_help
            && !a.show_git_view && a.pending_project_delete_id is None
            && a.pending_update_delete_id is None ==> a.idle(),
{
}

} // verus!
