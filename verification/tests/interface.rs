use trail::app::{App, Awaiting, BrowserPane, DiffSource, GitEntry, GitPane};
use trail::git::{branches, commit_diff, commits, detect, summary, uncommitted_diff, Head};
use trail::input::{Input, InputMode};
use trail::keys::{Key, KeyEvent, Reply, Request};
use trail::model::{Project, ProjectStep, Update, UpdateStep};

const SEEDED: i64 = 1_789_790_400;
const LATEST: i64 = 1_789_862_400;
const OLDER: i64 = 1_789_776_000;

/// Records kept in memory, answering the requests of the interface as the
/// database and the file system would.
struct Store {
    projects: Vec<Project>,
    updates: Vec<Update>,
    directories: Vec<String>,
    clock: i64,
    fail_project_insert: Option<String>,
    fail_update_insert: Option<String>,
    fail_project_delete: Option<String>,
    fail_project_load_after_insert: Option<String>,
    loads: usize,
    repositories: Vec<String>,
}

fn project(id: &str, name: &str, directory: &str, time: i64) -> Project {
    Project {
        id: id.to_string(),
        name: name.to_string(),
        directory: directory.to_string(),
        created_at: time,
        updated_at: time,
    }
}

fn update(id: &str, project_id: &str, title: &str, body: &str, time: i64) -> Update {
    Update {
        id: id.to_string(),
        project_id: project_id.to_string(),
        title: title.to_string(),
        body: body.to_string(),
        next: "Next".to_string(),
        created_at: time,
        updated_at: time,
    }
}

fn copy_project(p: &Project) -> Project {
    project(&p.id, &p.name, &p.directory, p.updated_at)
}

fn copy_update(u: &Update) -> Update {
    Update {
        id: u.id.clone(),
        project_id: u.project_id.clone(),
        title: u.title.clone(),
        body: u.body.clone(),
        next: u.next.clone(),
        created_at: u.created_at,
        updated_at: u.updated_at,
    }
}

impl Store {
    fn new() -> Store {
        Store {
            projects: Vec::new(),
            updates: Vec::new(),
            directories: vec!["/".to_string()],
            clock: 1_700_000_000,
            fail_project_insert: None,
            fail_update_insert: None,
            fail_project_delete: None,
            fail_project_load_after_insert: None,
            loads: 0,
            repositories: Vec::new(),
        }
    }

    fn seed_projects(&mut self) {
        self.projects.push(project("b", "Beta", "/beta", SEEDED));
        self.projects.push(project("a", "Alpha", "/alpha", SEEDED));
    }

    fn seed_updates(&mut self) {
        self.updates.push(update("latest", "a", "Latest", "Latest body", LATEST));
        self.updates.push(update("older", "a", "Older", "Older body", OLDER));
        self.updates.push(update("beta", "b", "Beta progress", "Beta body", OLDER));
    }

    fn sorted_projects(&self) -> Vec<Project> {
        let mut ps: Vec<Project> = self.projects.iter().map(copy_project).collect();
        ps.sort_by(|x, y| y.updated_at.cmp(&x.updated_at).then(x.id.cmp(&y.id)));
        ps
    }

    fn updates_of(&self, project_id: &str) -> Vec<Update> {
        let mut us: Vec<Update> = self
            .updates
            .iter()
            .filter(|u| u.project_id == project_id)
            .map(copy_update)
            .collect();
        us.sort_by(|x, y| y.updated_at.cmp(&x.updated_at).then(x.id.cmp(&y.id)));
        us
    }

    fn perform(&mut self, request: Request) -> Option<Reply> {
        match request {
            Request::Nothing => None,
            Request::DeleteProject(id) => {
                if let Some(e) = &self.fail_project_delete {
                    return Some(Reply::Done(Err(e.clone())));
                }
                self.projects.retain(|p| p.id != id);
                self.updates.retain(|u| u.project_id != id);
                Some(Reply::Done(Ok(())))
            }
            Request::DeleteUpdate(id) => {
                self.updates.retain(|u| u.id != id);
                Some(Reply::Done(Ok(())))
            }
            Request::CheckDirectory(d) => {
                if self.directories.contains(&d) {
                    Some(Reply::Done(Ok(())))
                } else {
                    Some(Reply::Done(Err("No such file or directory (os error 2)".to_string())))
                }
            }
            Request::SaveProject(draft) => {
                if let Some(e) = &self.fail_project_insert {
                    return Some(Reply::Saved(Err(e.clone())));
                }
                let id = uuid::Uuid::new_v4().to_string();
                self.clock += 1;
                self.projects.push(project(
                    &id,
                    &draft.name.unwrap(),
                    &draft.directory.unwrap(),
                    self.clock,
                ));
                self.loads = 0;
                Some(Reply::Saved(Ok(id)))
            }
            Request::SaveUpdate(draft) => {
                if let Some(e) = &self.fail_update_insert {
                    return Some(Reply::Saved(Err(e.clone())));
                }
                let id = uuid::Uuid::new_v4().to_string();
                self.clock += 1;
                self.updates.push(Update {
                    id: id.clone(),
                    project_id: draft.project_id.unwrap(),
                    title: draft.title.unwrap(),
                    body: draft.body.unwrap(),
                    next: draft.next.unwrap(),
                    created_at: self.clock,
                    updated_at: self.clock,
                });
                Some(Reply::Saved(Ok(id)))
            }
            Request::LoadProjects => {
                self.loads += 1;
                if let Some(e) = &self.fail_project_load_after_insert {
                    return Some(Reply::Projects(Err(e.clone()), Vec::new()));
                }
                let ps = self.sorted_projects();
                let flags = ps.iter().map(|p| self.repositories.contains(&p.directory)).collect();
                Some(Reply::Projects(Ok(ps), flags))
            }
            Request::LoadUpdates(id) => Some(Reply::Updates(Ok(self.updates_of(&id)))),
            Request::LoadUpdate(id) => match self.updates.iter().find(|u| u.id == id) {
                Some(u) => Some(Reply::Update(Ok(copy_update(u)))),
                None => Some(Reply::Update(Err("Query returned no rows".to_string()))),
            },
            Request::OpenGitView | Request::GitBranch(_) | Request::GitDiff(_, _)
            | Request::GitRefresh => None,
        }
    }
}

/// Git as the fake repository of the tests answers it.
fn git_summary() -> trail::git::Summary {
    summary(detect(true, true, Some("main\n"), None), " M notes.txt\n", Some("1700000100\n")).unwrap()
}

fn git_commits(branch: &str) -> Vec<trail::git::Commit> {
    if branch == "main" {
        commits("aaaa1111\taaaa111\t1700000100\tSecond on main\nbbbb2222\tbbbb222\t1700000000\tFirst on main\n")
    } else {
        commits("cccc3333\tcccc333\t1700000050\tOn feature\n")
    }
}

fn git_diff(source: &DiffSource) -> trail::git::Diff {
    match source {
        DiffSource::Uncommitted => uncommitted_diff(
            Some((" notes.txt | 2 +-\n".to_string(), "-old\n+new\n".to_string())),
            "",
        ),
        DiffSource::Commit(sha) => commit_diff(format!(" {sha}.txt | 1 +\n"), "+added\n"),
    }
}

fn open_branch(app: &mut App, name: String) {
    if app.opened_git_directory().is_none() {
        return;
    }
    let found = if app.branch_needs_commits() { Ok(git_commits(&name)) } else { Ok(Vec::new()) };
    app.open_git_branch(name, found);
}

fn reload_git(app: &mut App) {
    if app.begin_git_reload().is_none() {
        return;
    }
    if app.begin_git_summary().is_some() {
        app.set_git_summary(Ok(git_summary()));
    }
    app.set_git_branches(Ok(branches("*\tmain\t1700000100\n \tfeature\t1700000050\n")));
    if let Some(branch) = app.git.opened_branch.clone() {
        let selected = app.git.entry_selection.selected;
        open_branch(app, branch);
        app.keep_entry_selection(selected);
    }
    if let Some((source, title, scroll, pane)) = app.take_git_diff() {
        let diff = git_diff(&source);
        app.open_git_diff(source, title, Ok(diff));
        app.restore_git_diff(scroll, pane);
    }
}

fn git_press(app: &mut App, input: &mut Input, key: KeyEvent) {
    match app.handle_key_event(key, input) {
        Request::OpenGitView => {
            app.begin_git_view();
            reload_git(app);
            app.select_head_branch();
            if let Some(name) = app.branch_to_open() {
                open_branch(app, name);
            }
        }
        Request::GitBranch(name) => open_branch(app, name),
        Request::GitDiff(source, title) => {
            let diff = git_diff(&source);
            app.open_git_diff(source, title, Ok(diff));
        }
        Request::GitRefresh => reload_git(app),
        _ => {}
    }
}

fn event(code: Key, shift: bool, ctrl: bool) -> KeyEvent {
    KeyEvent { code, shift, ctrl, press: true }
}

fn handle(app: &mut App, input: &mut Input, store: &mut Store, key: KeyEvent) {
    let mut request = app.handle_key_event(key, input);
    while let Some(reply) = store.perform(request) {
        request = app.resume(input, reply);
    }
}

fn press(app: &mut App, input: &mut Input, store: &mut Store, code: Key) {
    handle(app, input, store, event(code, false, false));
}

fn focus_projects(app: &mut App, input: &mut Input, store: &mut Store) {
    handle(app, input, store, event(Key::Char('h'), false, true));
}

fn submit(app: &mut App, input: &mut Input, store: &mut Store, text: &str) {
    for ch in text.chars() {
        press(app, input, store, Key::Char(ch));
    }
    press(app, input, store, Key::Enter);
}

fn setup() -> (App, Input, Store) {
    let mut app = App::new();
    app.show_project_input = true;
    let mut input = Input::new();
    input.input_mode = InputMode::Editing;
    (app, input, Store::new())
}

fn browser() -> (App, Input, Store) {
    let (mut app, mut input, store) = setup();
    app.show_project_input = false;
    input.input_mode = InputMode::Normal;
    (app, input, store)
}

fn load_projects(app: &mut App, store: &Store) {
    let ps = store.sorted_projects();
    let flags = vec![false; ps.len()];
    app.reload_projects(ps, &flags);
}

fn browser_with_updates() -> (App, Input, Store) {
    let (mut app, mut input, mut store) = browser();
    store.seed_projects();
    store.seed_updates();
    load_projects(&mut app, &store);
    press(&mut app, &mut input, &mut store, Key::Enter);
    (app, input, store)
}

fn shown_body(app: &App) -> Option<String> {
    app.displayed_update().map(|k| app.updates[k].body.clone())
}

#[test]
fn blank_directory_stays_on_directory_step() {
    for name in ["", "Trail"] {
        for directory in ["", "   "] {
            let (mut app, mut input, mut store) = setup();
            submit(&mut app, &mut input, &mut store, name);
            submit(&mut app, &mut input, &mut store, directory);

            assert!(input.project_step == ProjectStep::Directory);
            assert!(input.project.directory.is_none());
            assert!(app.err.is_some());
            assert!(app.show_project_input);
        }
    }
}

#[test]
fn directory_supplies_an_automatic_name() {
    let trail_directory = "/tmp/projects/Trail";
    let (mut app, mut input, mut store) = setup();
    store.directories.push(trail_directory.to_string());
    submit(&mut app, &mut input, &mut store, "");
    submit(&mut app, &mut input, &mut store, trail_directory);

    assert_eq!(input.project.name.as_deref(), Some("Trail"));
    assert_eq!(input.project.directory.as_deref(), Some(trail_directory));
    assert!(input.project_step == ProjectStep::Confirm);
    assert!(input.input.is_empty());
    assert_eq!(input.character_index, 0);
    assert!(app.err.is_none());
}

#[test]
fn root_without_a_name_requests_a_name() {
    let (mut app, mut input, mut store) = setup();
    submit(&mut app, &mut input, &mut store, "");
    submit(&mut app, &mut input, &mut store, "/");

    assert!(input.project_step == ProjectStep::Name);
    assert!(input.project.name.is_none());
    assert_eq!(input.project.directory.as_deref(), Some("/"));
    assert!(app.err.is_some());
    assert!(app.show_project_input);
}

#[test]
fn replacement_name_must_be_nonblank() {
    let (mut app, mut input, mut store) = setup();
    submit(&mut app, &mut input, &mut store, "");
    submit(&mut app, &mut input, &mut store, "/");
    press(&mut app, &mut input, &mut store, Key::Backspace);

    for blank in ["", "   "] {
        submit(&mut app, &mut input, &mut store, blank);
        assert!(input.project_step == ProjectStep::Name);
        assert!(input.project.name.is_none());
        assert_eq!(input.project.directory.as_deref(), Some("/"));
        assert!(app.err.is_some());
    }

    submit(&mut app, &mut input, &mut store, "Root");
    assert!(input.project_step == ProjectStep::Confirm);
    assert_eq!(input.project.name.as_deref(), Some("Root"));
    assert_eq!(input.project.directory.as_deref(), Some("/"));
    assert!(input.input.is_empty());
    assert_eq!(input.character_index, 0);
    assert!(app.err.is_none());
}

#[test]
fn cancel_and_reopen_starts_a_fresh_form() {
    let (mut app, mut input, mut store) = setup();
    submit(&mut app, &mut input, &mut store, "");
    submit(&mut app, &mut input, &mut store, "/");
    press(&mut app, &mut input, &mut store, Key::Esc);

    assert!(!app.show_project_input);
    assert!(input.input_mode == InputMode::Normal);
    assert!(app.err.is_none());

    press(&mut app, &mut input, &mut store, Key::Char('A'));
    assert!(app.show_project_input);
    assert!(input.input_mode == InputMode::Editing);
    assert!(input.project_step == ProjectStep::Name);
    assert!(input.project.name.is_none());
    assert!(input.project.directory.is_none());
    assert!(input.input.is_empty());
    assert_eq!(input.character_index, 0);
    assert!(app.err.is_none());
}

#[test]
fn typing_during_confirm_does_not_change_the_draft() {
    let trail_directory = "/tmp/projects/Trail";
    let (mut app, mut input, mut store) = setup();
    store.directories.push(trail_directory.to_string());
    submit(&mut app, &mut input, &mut store, "Trail");
    submit(&mut app, &mut input, &mut store, trail_directory);
    for key in [Key::Char('x'), Key::Char('q'), Key::Left, Key::Backspace, Key::Right] {
        press(&mut app, &mut input, &mut store, key);
    }

    assert!(input.project_step == ProjectStep::Confirm);
    assert_eq!(input.project.name.as_deref(), Some("Trail"));
    assert_eq!(input.project.directory.as_deref(), Some(trail_directory));
    assert!(input.input.is_empty());
    assert_eq!(input.character_index, 0);
    assert!(app.show_project_input);
    assert!(!app.exit);
}

#[test]
fn sqlite_save_persists_project_and_failed_insert_preserves_draft() {
    let trail_directory = "/tmp/projects/Trail";
    let another_directory = "/tmp/projects/Another";
    let (mut app, mut input, mut store) = setup();
    store.directories.push(trail_directory.to_string());
    submit(&mut app, &mut input, &mut store, "Trail");
    submit(&mut app, &mut input, &mut store, trail_directory);
    press(&mut app, &mut input, &mut store, Key::Enter);

    assert_eq!(store.projects.len(), 1);
    let saved = &store.projects[0];
    assert_eq!(uuid::Uuid::parse_str(&saved.id).unwrap().get_version_num(), 4);
    assert_eq!(saved.name, "Trail");
    assert_eq!(saved.directory, trail_directory);
    assert!(!app.show_project_input);
    assert!(app.err.is_none());
    assert!(input.project.name.is_none());
    assert!(input.project.directory.is_none());

    store.fail_project_insert = Some("forced insert failure".to_string());
    store.directories.push(another_directory.to_string());
    press(&mut app, &mut input, &mut store, Key::Char('A'));
    submit(&mut app, &mut input, &mut store, "Another");
    submit(&mut app, &mut input, &mut store, another_directory);
    press(&mut app, &mut input, &mut store, Key::Enter);

    assert!(app.err.as_deref().unwrap().contains("forced insert failure"));
    assert!(app.show_project_input);
    assert!(input.input_mode == InputMode::Editing);
    assert!(input.project_step == ProjectStep::Name);
    assert_eq!(input.project.name.as_deref(), Some("Another"));
    assert_eq!(input.project.directory.as_deref(), Some(another_directory));
    assert_eq!(store.projects.len(), 1);
}

#[test]
fn empty_browser_ignores_navigation_and_enter() {
    let (mut app, mut input, mut store) = browser();
    load_projects(&mut app, &store);

    for key in [Key::Up, Key::Down, Key::Char('j'), Key::Char('k'), Key::Enter, Key::Char('a')] {
        press(&mut app, &mut input, &mut store, key);
        assert_eq!(app.project_selection.selected, None);
        assert_eq!(app.opened_project_id, None);
    }
    assert!(!app.show_project_input);
    assert!(!app.show_update_input);
    assert!(!app.exit);
}

#[test]
fn browser_navigation_stops_at_list_boundaries() {
    let (mut app, mut input, mut store) = browser();
    store.seed_projects();
    load_projects(&mut app, &store);

    for (key, expected) in [
        (Key::Up, 0),
        (Key::Char('k'), 0),
        (Key::Down, 1),
        (Key::Down, 1),
        (Key::Char('j'), 1),
        (Key::Up, 0),
        (Key::Char('j'), 1),
        (Key::Char('k'), 0),
    ] {
        press(&mut app, &mut input, &mut store, key);
        assert_eq!(app.project_selection.selected, Some(expected));
    }
}

#[test]
fn opened_project_survives_navigation_and_pane_switches() {
    let (mut app, mut input, mut store) = browser_with_updates();
    focus_projects(&mut app, &mut input, &mut store);
    press(&mut app, &mut input, &mut store, Key::Down);
    press(&mut app, &mut input, &mut store, Key::Enter);
    focus_projects(&mut app, &mut input, &mut store);
    assert_eq!(app.opened_project_id.as_deref(), Some("b"));
    press(&mut app, &mut input, &mut store, Key::Up);
    assert_eq!(app.project_selection.selected, Some(0));
    assert_eq!(app.opened_project_id.as_deref(), Some("b"));
    assert_eq!(shown_body(&app).as_deref(), Some("Beta body"));

    for (key, pane) in [('l', BrowserPane::LatestUpdate), ('h', BrowserPane::Projects)] {
        handle(&mut app, &mut input, &mut store, event(Key::Char(key), false, true));
        assert!(app.focused_pane == pane);
        assert_eq!(app.opened_project_id.as_deref(), Some("b"));

        if app.focused_pane == BrowserPane::LatestUpdate {
            for key in [Key::Down, Key::Up, Key::Char('j'), Key::Char('k')] {
                press(&mut app, &mut input, &mut store, key);
                assert_eq!(app.project_selection.selected, Some(0));
            }
        }
    }
}

#[test]
fn loads_saved_projects_and_refreshes_after_creation() {
    let directory = "/tmp/projects/New project";
    let (mut app, mut input, mut store) = browser();
    store.seed_projects();
    store.directories.push(directory.to_string());
    load_projects(&mut app, &store);

    let ids: Vec<&str> = app.projects.iter().map(|p| p.id.as_str()).collect();
    assert_eq!(ids, ["a", "b"]);
    assert_eq!(app.projects[0].name, "Alpha");
    assert_eq!(app.projects[0].directory, "/alpha");
    assert_eq!(app.projects[0].created_at, SEEDED);
    assert_eq!(app.projects[0].updated_at, app.projects[0].created_at);
    assert_eq!(app.project_selection.selected, Some(0));

    press(&mut app, &mut input, &mut store, Key::Char('A'));
    submit(&mut app, &mut input, &mut store, "New project");
    submit(&mut app, &mut input, &mut store, directory);
    press(&mut app, &mut input, &mut store, Key::Enter);

    assert_eq!(app.projects.len(), 3);
    let created = app.projects.iter().find(|p| p.name == "New project").unwrap();
    assert_eq!(created.directory, directory);
    assert!(uuid::Uuid::parse_str(&created.id).is_ok());
    assert!(!app.show_project_input);
    assert!(app.err.is_none());
    assert!(app.project_selection.selected.is_some_and(|i| i < app.projects.len()));
}

#[test]
fn successful_save_with_failed_refresh_keeps_error_visible() {
    let directory = "/tmp/projects/Trail";
    let (mut app, mut input, mut store) = browser();
    store.directories.push(directory.to_string());
    store.fail_project_load_after_insert =
        Some("Conversion error from type Text at index: 4, invalid".to_string());

    press(&mut app, &mut input, &mut store, Key::Char('A'));
    submit(&mut app, &mut input, &mut store, "Trail");
    submit(&mut app, &mut input, &mut store, directory);
    press(&mut app, &mut input, &mut store, Key::Enter);

    assert_eq!(store.projects.len(), 1);
    assert!(!app.show_project_input);
    assert!(input.project.name.is_none());
    assert!(app.err.as_deref().unwrap().starts_with("Couldn't load projects:"));
}

#[test]
fn deleting_selected_project_only_closes_it_if_opened() {
    for delete_opened in [false, true] {
        let (mut app, mut input, mut store) = browser();
        store.seed_projects();
        load_projects(&mut app, &store);
        press(&mut app, &mut input, &mut store, Key::Enter);
        focus_projects(&mut app, &mut input, &mut store);
        press(&mut app, &mut input, &mut store, Key::Down);
        if delete_opened {
            press(&mut app, &mut input, &mut store, Key::Enter);
            focus_projects(&mut app, &mut input, &mut store);
        }
        app.err = Some("Previous delete failed".into());

        press(&mut app, &mut input, &mut store, Key::Char('D'));
        press(&mut app, &mut input, &mut store, Key::Enter);

        let saved = store.sorted_projects();
        assert_eq!(saved.len(), 1);
        assert_eq!(saved[0].id, "a");
        assert_eq!(app.projects.len(), 1);
        assert_eq!(app.projects[0].id, "a");
        assert_eq!(app.project_selection.selected, Some(0));
        assert_eq!(
            app.opened_project_id.as_deref(),
            if delete_opened { None } else { Some("a") }
        );
        assert!(app.err.is_none());
    }
}

#[test]
fn deleting_last_project_clears_browser_selection() {
    let (mut app, mut input, mut store) = browser();
    store.seed_projects();
    store.projects.retain(|p| p.id != "a");
    load_projects(&mut app, &store);
    press(&mut app, &mut input, &mut store, Key::Enter);
    focus_projects(&mut app, &mut input, &mut store);

    press(&mut app, &mut input, &mut store, Key::Char('D'));
    press(&mut app, &mut input, &mut store, Key::Enter);

    assert!(store.sorted_projects().is_empty());
    assert!(app.projects.is_empty());
    assert_eq!(app.project_selection.selected, None);
    assert_eq!(app.opened_project_id, None);
    assert!(app.err.is_none());

    press(&mut app, &mut input, &mut store, Key::Char('D'));
    press(&mut app, &mut input, &mut store, Key::Enter);
    assert_eq!(app.project_selection.selected, None);
    assert!(app.err.is_none());
}

#[test]
fn failed_delete_preserves_browser_and_displays_error() {
    let (mut app, mut input, mut store) = browser_with_updates();
    focus_projects(&mut app, &mut input, &mut store);
    press(&mut app, &mut input, &mut store, Key::Down);
    press(&mut app, &mut input, &mut store, Key::Enter);
    focus_projects(&mut app, &mut input, &mut store);
    store.fail_project_delete = Some("forced delete failure".to_string());

    press(&mut app, &mut input, &mut store, Key::Char('D'));
    press(&mut app, &mut input, &mut store, Key::Enter);

    assert_eq!(store.sorted_projects().len(), 2);
    let ids: Vec<&str> = app.projects.iter().map(|p| p.id.as_str()).collect();
    assert_eq!(ids, ["a", "b"]);
    assert_eq!(app.project_selection.selected, Some(1));
    assert_eq!(app.opened_project_id.as_deref(), Some("b"));
    assert!(app.focused_pane == BrowserPane::Projects);
    assert!(!app.show_project_input);
    assert_eq!(app.err.as_deref(), Some("Unable to delete project: forced delete failure"));
    assert_eq!(shown_body(&app).as_deref(), Some("Beta body"));
}

#[test]
fn delete_confirmation_blocks_browser_keys_and_escape_cancels() {
    let (mut app, mut input, mut store) = browser();
    store.seed_projects();
    load_projects(&mut app, &store);
    press(&mut app, &mut input, &mut store, Key::Enter);
    focus_projects(&mut app, &mut input, &mut store);
    press(&mut app, &mut input, &mut store, Key::Char('D'));

    assert_eq!(app.pending_project_delete_id.as_deref(), Some("a"));
    assert_eq!(store.sorted_projects().len(), 2);

    for key in [
        Key::Down,
        Key::Up,
        Key::Char('j'),
        Key::Char('k'),
        Key::Char('A'),
        Key::Char('q'),
        Key::Char('D'),
    ] {
        press(&mut app, &mut input, &mut store, key);
    }
    handle(&mut app, &mut input, &mut store, event(Key::Char('l'), false, true));
    assert_eq!(app.project_selection.selected, Some(0));
    assert_eq!(app.pending_project_delete_id.as_deref(), Some("a"));
    assert_eq!(app.opened_project_id.as_deref(), Some("a"));
    assert!(app.focused_pane == BrowserPane::Projects);
    assert!(!app.show_project_input);
    assert!(!app.exit);

    press(&mut app, &mut input, &mut store, Key::Esc);
    assert!(app.pending_project_delete_id.is_none());
    assert_eq!(store.sorted_projects().len(), 2);
}

#[test]
fn delete_confirmation_uses_original_id_after_list_reorders() {
    let (mut app, mut input, mut store) = browser();
    store.seed_projects();
    load_projects(&mut app, &store);
    press(&mut app, &mut input, &mut store, Key::Char('D'));
    app.projects.swap(0, 1);
    press(&mut app, &mut input, &mut store, Key::Enter);

    let saved = store.sorted_projects();
    assert_eq!(saved.len(), 1);
    assert_eq!(saved[0].id, "b");
    assert!(app.pending_project_delete_id.is_none());
}

#[test]
fn opening_selected_update_displays_its_body_without_switching_projects() {
    let (mut app, mut input, mut store) = browser_with_updates();
    app.project_selection.select(Some(1));
    app.update_selection.select(Some(1));
    press(&mut app, &mut input, &mut store, Key::Char('u'));

    press(&mut app, &mut input, &mut store, Key::Enter);

    assert_eq!(app.opened_project_id.as_deref(), Some("a"));
    assert_eq!(app.opened_update_id.as_deref(), Some("older"));
    assert_eq!(app.update_selection.selected, Some(1));
    assert!(app.focused_pane == BrowserPane::LatestUpdate);
    assert_eq!(shown_body(&app).as_deref(), Some("Older body"));

    app.focused_pane = BrowserPane::Projects;
    press(&mut app, &mut input, &mut store, Key::Enter);
    assert_eq!(app.opened_project_id.as_deref(), Some("b"));
    assert!(app.opened_update_id.is_none());
    assert_eq!(app.updates.len(), 1);
    assert_eq!(app.updates[0].id, "beta");
    assert_eq!(shown_body(&app).as_deref(), Some("Beta body"));
}

#[test]
fn opening_update_without_selection_does_nothing() {
    let (mut app, mut input, mut store) = browser_with_updates();
    press(&mut app, &mut input, &mut store, Key::Char('u'));
    for selected in [None, Some(10)] {
        app.update_selection.select(selected);
        press(&mut app, &mut input, &mut store, Key::Enter);
        assert!(app.opened_update_id.is_none());
        assert!(app.show_update_table);
        assert_eq!(app.opened_project_id.as_deref(), Some("a"));
    }
}

#[test]
fn project_deletion_clears_updates_only_after_deleting_opened_project() {
    for (delete_opened, cancel, fail) in [
        (true, true, false),
        (true, false, true),
        (false, false, false),
        (true, false, false),
    ] {
        let (mut app, mut input, mut store) = browser_with_updates();
        focus_projects(&mut app, &mut input, &mut store);
        app.opened_update_id = Some("older".into());
        app.update_selection.select(Some(1));
        if !delete_opened {
            app.project_selection.select(Some(1));
        }
        if fail {
            store.fail_project_delete = Some("forced failure".to_string());
        }

        press(&mut app, &mut input, &mut store, Key::Char('D'));
        assert_eq!(app.updates.len(), 2);
        assert_eq!(app.opened_update_id.as_deref(), Some("older"));
        press(&mut app, &mut input, &mut store, if cancel { Key::Esc } else { Key::Enter });

        if delete_opened && !cancel && !fail {
            assert!(app.opened_project_id.is_none());
            assert!(app.opened_update_id.is_none());
            assert!(app.updates.is_empty());
            assert_eq!(app.update_selection.selected, None);
            assert!(store.updates_of("a").is_empty());
        } else {
            assert_eq!(app.opened_project_id.as_deref(), Some("a"));
            assert_eq!(app.opened_update_id.as_deref(), Some("older"));
            assert_eq!(app.updates.len(), 2);
            assert_eq!(app.update_selection.selected, Some(1));
            assert_eq!(shown_body(&app).as_deref(), Some("Older body"));
        }
        assert_eq!(app.err.is_some(), fail);
    }
}

#[test]
fn creating_project_clears_previous_update_state() {
    let directory = "/tmp/projects/New project";
    let (mut app, mut input, mut store) = browser_with_updates();
    store.directories.push(directory.to_string());
    app.opened_update_id = Some("older".into());
    app.update_selection.select(Some(1));

    press(&mut app, &mut input, &mut store, Key::Char('A'));
    submit(&mut app, &mut input, &mut store, "New project");
    submit(&mut app, &mut input, &mut store, directory);
    press(&mut app, &mut input, &mut store, Key::Enter);

    assert!(app.err.is_none());
    let created = app.projects.iter().find(|p| p.name == "New project").unwrap();
    assert_eq!(app.opened_project_id.as_deref(), Some(created.id.as_str()));
    assert!(app.updates.is_empty());
    assert!(app.opened_update_id.is_none());
    assert_eq!(app.update_selection.selected, None);
    assert_eq!(store.updates_of("a").len(), 2);
}

#[test]
fn create_update_validates_required_fields_and_saves_to_opened_project() {
    for next in ["", "Write tests"] {
        let (mut app, mut input, mut store) = browser_with_updates();
        press(&mut app, &mut input, &mut store, Key::Down);
        press(&mut app, &mut input, &mut store, Key::Char('a'));

        for (step, value) in [(UpdateStep::Title, "Progress"), (UpdateStep::Body, "Fixed a bug")] {
            submit(&mut app, &mut input, &mut store, "   ");
            assert!(input.update_step == step);
            assert!(app.err.is_some());
            submit(&mut app, &mut input, &mut store, value);
            assert!(app.err.is_none());
        }
        submit(&mut app, &mut input, &mut store, next);
        assert!(input.update_step == UpdateStep::Confirm);
        assert_eq!(input.update.title.as_deref(), Some("Progress"));
        assert_eq!(input.update.body.as_deref(), Some("Fixed a bug"));
        assert_eq!(store.updates_of("a").len(), 2);

        for key in [Key::Char('q'), Key::Backspace] {
            press(&mut app, &mut input, &mut store, key);
        }
        press(&mut app, &mut input, &mut store, Key::Enter);

        let saved = store.updates_of("a");
        assert_eq!(saved.len(), 3);
        let update = saved.iter().find(|u| u.title == "Progress").unwrap();
        assert_eq!(update.body, "Fixed a bug");
        assert_eq!(update.next, if next.is_empty() { "None" } else { next });
        assert_eq!(store.updates_of("b").len(), 1);
        assert_eq!(app.opened_update_id.as_deref(), Some(update.id.as_str()));
        assert_eq!(app.updates[app.update_selection.selected.unwrap()].id, update.id);
        assert!(!app.show_update_input);
        assert!(!app.exit);
        assert!(app.err.is_none());
        assert_eq!(shown_body(&app).as_deref(), Some("Fixed a bug"));
    }
}

#[test]
fn cancel_update_at_each_step_leaves_saved_updates_and_reopens_empty() {
    for completed_fields in 0..=3 {
        let (mut app, mut input, mut store) = browser_with_updates();
        press(&mut app, &mut input, &mut store, Key::Char('a'));
        for field in ["Draft title", "Draft body", "Draft next"].iter().take(completed_fields) {
            submit(&mut app, &mut input, &mut store, field);
        }
        press(&mut app, &mut input, &mut store, Key::Char('x'));
        press(&mut app, &mut input, &mut store, Key::Esc);

        assert!(!app.show_update_input);
        assert_eq!(store.updates_of("a").len(), 2);
        assert_eq!(shown_body(&app).as_deref(), Some("Latest body"));
        press(&mut app, &mut input, &mut store, Key::Char('a'));
        assert!(input.update_step == UpdateStep::Title);
        assert!(input.input.is_empty());
        assert_eq!(input.character_index, 0);
        assert!(input.update.title.is_none());
        assert!(input.update.body.is_none());
        assert!(input.update.next.is_none());
        assert!(app.err.is_none());
    }
}

#[test]
fn failed_update_save_preserves_draft_for_retry_without_duplicate_insert() {
    let (mut app, mut input, mut store) = browser_with_updates();
    store.fail_update_insert = Some("forced save failure".to_string());
    press(&mut app, &mut input, &mut store, Key::Char('a'));
    for field in ["Retry title", "Retry body", "Retry next"] {
        submit(&mut app, &mut input, &mut store, field);
    }
    press(&mut app, &mut input, &mut store, Key::Enter);

    assert!(app.show_update_input);
    assert!(app.err.as_deref().unwrap().contains("forced save failure"));
    assert_eq!(input.update.title.as_deref(), Some("Retry title"));
    assert_eq!(input.update.body.as_deref(), Some("Retry body"));
    assert_eq!(input.update.next.as_deref(), Some("Retry next"));
    assert_eq!(store.updates_of("a").len(), 2);

    store.fail_update_insert = None;
    for _ in 0..4 {
        press(&mut app, &mut input, &mut store, Key::Enter);
    }
    assert!(app.err.is_none());
    assert!(!app.show_update_input);
    let saved = store.updates_of("a");
    assert_eq!(saved.len(), 3);
    let update = saved.iter().find(|u| u.title == "Retry title").unwrap();
    assert_eq!(update.body, "Retry body");
    assert_eq!(update.next, "Retry next");
}

#[test]
fn update_navigation_uses_update_count_and_stops_at_boundaries() {
    let (mut app, mut input, mut store) = browser_with_updates();
    store.projects.retain(|p| p.id != "b");
    load_projects(&mut app, &store);
    press(&mut app, &mut input, &mut store, Key::Char('u'));
    for (key, expected) in [
        (Key::Up, 0),
        (Key::Down, 1),
        (Key::Down, 1),
        (Key::Char('k'), 0),
        (Key::Char('j'), 1),
    ] {
        press(&mut app, &mut input, &mut store, key);
        assert_eq!(app.update_selection.selected, Some(expected));
        assert_eq!(app.project_selection.selected, Some(0));
    }
}

#[test]
fn update_table_keys_navigate_without_moving_projects() {
    let (mut app, mut input, mut store) = browser_with_updates();
    press(&mut app, &mut input, &mut store, Key::Char('u'));
    assert!(app.show_update_table);
    for (key, expected) in [(Key::Up, 0), (Key::Char('j'), 1), (Key::Down, 1), (Key::Char('k'), 0)] {
        press(&mut app, &mut input, &mut store, key);
        assert_eq!(app.update_selection.selected, Some(expected));
        assert_eq!(app.project_selection.selected, Some(0));
    }
    for (key, expected) in [
        (Key::Left, 0),
        (Key::Char('l'), 1),
        (Key::Right, 2),
        (Key::Right, 3),
        (Key::Right, 4),
        (Key::Right, 4),
        (Key::Char('h'), 3),
    ] {
        press(&mut app, &mut input, &mut store, key);
        assert_eq!(app.update_selection.selected_column, Some(expected));
    }
    press(&mut app, &mut input, &mut store, Key::Char('D'));
    assert!(app.pending_project_delete_id.is_none());
    press(&mut app, &mut input, &mut store, Key::Esc);
    assert!(!app.show_update_table);
    assert!(!app.exit);
}

#[test]
fn update_table_enter_opens_selected_update() {
    let (mut app, mut input, mut store) = browser_with_updates();
    press(&mut app, &mut input, &mut store, Key::Char('u'));
    press(&mut app, &mut input, &mut store, Key::Down);
    press(&mut app, &mut input, &mut store, Key::Enter);
    assert!(!app.show_update_table);
    assert_eq!(app.opened_update_id.as_deref(), Some("older"));
    assert_eq!(app.opened_project_id.as_deref(), Some("a"));
    assert!(app.focused_pane == BrowserPane::LatestUpdate);
    assert_eq!(shown_body(&app).as_deref(), Some("Older body"));
}

#[test]
fn update_table_empty_navigation_and_quit() {
    let (mut app, mut input, mut store) = browser();
    store.seed_projects();
    load_projects(&mut app, &store);
    press(&mut app, &mut input, &mut store, Key::Enter);
    press(&mut app, &mut input, &mut store, Key::Char('u'));
    for key in [Key::Up, Key::Down, Key::Left, Key::Right, Key::Enter] {
        press(&mut app, &mut input, &mut store, key);
        assert!(app.show_update_table);
        assert_eq!(app.update_selection.selected, None);
        assert_eq!(app.update_selection.selected_column, None);
        assert!(app.opened_update_id.is_none());
    }
    press(&mut app, &mut input, &mut store, Key::Char('q'));
    assert!(app.exit);
}

#[test]
fn browser_focus_stays_on_visible_panes() {
    let (mut app, mut input, mut store) = browser_with_updates();
    let selected = app.update_selection.selected;
    for _ in 0..2 {
        handle(&mut app, &mut input, &mut store, event(Key::Char('l'), false, true));
        assert!(app.focused_pane == BrowserPane::LatestUpdate);
    }
    press(&mut app, &mut input, &mut store, Key::Char('j'));
    assert_eq!(app.update_selection.selected, selected);
    press(&mut app, &mut input, &mut store, Key::Char('u'));
    press(&mut app, &mut input, &mut store, Key::Esc);
    assert!(app.focused_pane == BrowserPane::LatestUpdate);
    for _ in 0..2 {
        focus_projects(&mut app, &mut input, &mut store);
        assert!(app.focused_pane == BrowserPane::Projects);
    }
}

#[test]
fn help_lists_controls_and_blocks_browser_actions() {
    let (mut app, mut input, mut store) = browser_with_updates();
    press(&mut app, &mut input, &mut store, Key::Char('?'));
    for key in [Key::Char('A'), Key::Char('a'), Key::Char('D'), Key::Char('u'), Key::Down, Key::Enter] {
        press(&mut app, &mut input, &mut store, key);
    }
    assert!(app.show_help);
    assert!(!app.show_project_input);
    assert!(!app.show_update_input);
    assert!(!app.show_update_table);
    assert!(app.pending_project_delete_id.is_none());
    assert_eq!(app.project_selection.selected, Some(0));
    for close in [Key::Esc, Key::Char('?')] {
        app.show_help = true;
        press(&mut app, &mut input, &mut store, close);
        assert!(!app.show_help);
        assert!(!app.exit);
        assert_eq!(app.opened_project_id.as_deref(), Some("a"));
    }
    app.show_help = true;
    press(&mut app, &mut input, &mut store, Key::Char('q'));
    assert!(app.exit);
}

#[test]
fn shift_enter_adds_newlines_only_to_body_and_next_and_saves_them() {
    let (mut app, mut input, mut store) = browser_with_updates();
    press(&mut app, &mut input, &mut store, Key::Char('a'));
    input.input = "Multiline".into();
    input.character_index = input.input.chars().count();
    handle(&mut app, &mut input, &mut store, event(Key::Enter, true, false));
    assert!(input.update_step == UpdateStep::Body);
    for step in [UpdateStep::Body, UpdateStep::Next] {
        input.input = "firstsecond".into();
        input.character_index = 5;
        handle(&mut app, &mut input, &mut store, event(Key::Enter, true, false));
        assert!(input.update_step == step);
        assert_eq!(input.input, "first\nsecond");
        assert_eq!(input.character_index, 6);
        press(&mut app, &mut input, &mut store, Key::Enter);
    }
    press(&mut app, &mut input, &mut store, Key::Enter);
    let updates = store.updates_of("a");
    let saved = updates.iter().find(|u| u.title == "Multiline").unwrap();
    assert_eq!(saved.body, "first\nsecond");
    assert_eq!(saved.next, "first\nsecond");

    press(&mut app, &mut input, &mut store, Key::Char('A'));
    handle(&mut app, &mut input, &mut store, event(Key::Enter, true, false));
    assert!(input.project_step == ProjectStep::Directory);
    assert!(input.input.is_empty());
}

#[test]
fn git_view_walks_branches_commits_and_diffs() {
    let (mut app, mut input, mut store) = browser();
    store.seed_projects();
    store.repositories.push("/alpha".to_string());
    let ps = store.sorted_projects();
    let flags: Vec<bool> = ps.iter().map(|p| store.repositories.contains(&p.directory)).collect();
    app.reload_projects(ps, &flags);
    press(&mut app, &mut input, &mut store, Key::Enter);
    assert_eq!(app.opened_git_directory().as_deref(), Some("/alpha"));

    git_press(&mut app, &mut input, event(Key::Char('g'), false, false));
    assert!(app.show_git_view);
    let names: Vec<&str> = app.git.branches.iter().map(|b| b.name.as_str()).collect();
    assert_eq!(names, ["main", "feature"]);
    assert_eq!(app.git.branch_selection.selected, Some(0));
    assert!(matches!(app.git.summary.as_ref().unwrap().head, Head::Branch(ref b) if b == "main"));

    git_press(&mut app, &mut input, event(Key::Char('j'), false, false));
    assert_eq!(app.git.branch_selection.selected, Some(1));
    git_press(&mut app, &mut input, event(Key::Char('j'), false, false));
    assert_eq!(app.git.branch_selection.selected, Some(1));
    git_press(&mut app, &mut input, event(Key::Char('k'), false, false));
    git_press(&mut app, &mut input, event(Key::Enter, false, false));
    assert_eq!(app.git.opened_branch.as_deref(), Some("main"));
    assert_eq!(app.git.entries.len(), 3);
    assert!(matches!(app.git.entries[0], GitEntry::Uncommitted));
    assert_eq!(app.git.entry_selection.selected, Some(0));

    git_press(&mut app, &mut input, event(Key::Down, false, false));
    git_press(&mut app, &mut input, event(Key::Enter, false, false));
    assert_eq!(app.git.diff_title, "Second on main");
    assert!(app.git.focused_pane == GitPane::Diff);
    assert_eq!(app.git.diff.as_ref().unwrap().patch, ["+added"]);
    git_press(&mut app, &mut input, event(Key::Char('j'), false, false));
    git_press(&mut app, &mut input, event(Key::Char('j'), false, false));
    assert_eq!(app.git.diff_scroll, 2);
    assert_eq!(app.git.entry_selection.selected, Some(1));

    git_press(&mut app, &mut input, event(Key::Char('r'), false, false));
    assert_eq!(app.git.diff_scroll, 2);
    assert!(app.git.focused_pane == GitPane::Diff);
    assert_eq!(app.git.entry_selection.selected, Some(1));
    assert_eq!(app.git.diff_title, "Second on main");

    git_press(&mut app, &mut input, event(Key::Char('h'), false, true));
    assert!(app.git.focused_pane == GitPane::List);
    git_press(&mut app, &mut input, event(Key::Char('l'), false, true));
    assert!(app.git.focused_pane == GitPane::Diff);

    git_press(&mut app, &mut input, event(Key::Esc, false, false));
    assert!(app.git.diff.is_none());
    assert_eq!(app.git.opened_branch.as_deref(), Some("main"));
    git_press(&mut app, &mut input, event(Key::Esc, false, false));
    assert!(app.git.opened_branch.is_none());
    assert!(app.show_git_view);
    git_press(&mut app, &mut input, event(Key::Esc, false, false));
    assert!(!app.show_git_view);
    assert_eq!(app.opened_project_id.as_deref(), Some("a"));
    assert!(!app.exit);
}

#[test]
fn git_view_needs_a_repository_and_quits_on_q() {
    let (mut app, mut input, mut store) = browser();
    store.seed_projects();
    load_projects(&mut app, &store);
    press(&mut app, &mut input, &mut store, Key::Enter);
    git_press(&mut app, &mut input, event(Key::Char('g'), false, false));
    assert!(!app.show_git_view);

    app.git.repos.push("a".to_string());
    git_press(&mut app, &mut input, event(Key::Char('g'), false, false));
    assert!(app.show_git_view);
    git_press(&mut app, &mut input, event(Key::Char('A'), false, false));
    assert!(!app.show_project_input);
    git_press(&mut app, &mut input, event(Key::Char('q'), false, false));
    assert!(app.exit);
}

fn assert_consistent(app: &App, input: &Input) {
    assert!(input.character_index <= input.input.chars().count());
    if app.show_project_input {
        assert!(input.input_mode == InputMode::Editing);
        assert!(!app.show_update_input && !app.show_update_table && !app.show_help);
    }
    if app.show_update_input {
        assert!(input.input_mode == InputMode::Editing);
        assert!(app.opened_project_id.is_some() && !app.show_help);
    }
    if app.show_update_table {
        assert!(app.opened_project_id.is_some() && !app.show_help);
    }
    if let Some(r) = app.project_selection.selected {
        assert!(r < app.projects.len());
    }
    if let Some(r) = app.update_selection.selected {
        assert!(r < app.updates.len());
    }
    if let Some(c) = app.update_selection.selected_column {
        assert!(c <= 4);
    }
}

#[test]
fn every_key_keeps_the_state_consistent() {
    let (mut app, mut input, mut store) = browser_with_updates();
    store.directories.push("/tmp/projects/Trail".to_string());
    let keys = [
        Key::Char('u'), Key::Down, Key::Right, Key::Right, Key::Char('d'), Key::Esc, Key::Char('e'),
        Key::Backspace, Key::Left, Key::Char('z'), Key::Enter, Key::Enter, Key::Enter, Key::Enter,
        Key::Char('?'), Key::Char('j'), Key::Esc, Key::Char('A'), Key::Char('T'), Key::Enter,
        Key::Char('/'), Key::Enter, Key::Esc, Key::Char('D'), Key::Enter, Key::Down, Key::Enter,
        Key::Char('a'), Key::Char('x'), Key::Enter, Key::Esc, Key::Char('D'), Key::Enter,
    ];
    for key in keys {
        assert!(!app.cannot_handle_key(&input, event(key, false, false)));
        press(&mut app, &mut input, &mut store, key);
        assert_consistent(&app, &input);
    }
    assert!(!app.exit);
}

#[test]
fn failed_load_preserves_browser_state_and_errors_are_visible() {
    for populated in [false, true] {
        let (mut app, mut input, mut store) = browser();
        if populated {
            store.seed_projects();
            load_projects(&mut app, &store);
            press(&mut app, &mut input, &mut store, Key::Down);
            press(&mut app, &mut input, &mut store, Key::Enter);
        }
        let previous = app.project_selection.selected.unwrap_or(0);
        app.awaiting = Awaiting::ProjectsAfterDeletion(previous);
        let request =
            app.resume(&mut input, Reply::Projects(Err("no such table: projects".to_string()), Vec::new()));
        assert!(matches!(request, Request::Nothing));
        assert_eq!(app.projects.len(), if populated { 2 } else { 0 });
        assert_eq!(app.project_selection.selected, if populated { Some(1) } else { None });
        assert_eq!(app.opened_project_id.as_deref(), if populated { Some("b") } else { None });
        assert!(app.err.as_deref().unwrap().contains("no such table"));
    }
}
