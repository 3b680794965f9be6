//! What a key does in the git view: move through the branches or a branch's
//! commits, open one, scroll the diff, switch the focus, refresh, go back.
use vstd::prelude::*;

use crate::app::{App, AppView, DiffSource, DiffSourceView, GitEntry, GitEntryView, GitPane, GitStateView, ListSelection};
use crate::input::{Input, InputView};
use crate::keys::{
    add_u16, row_above, row_below, step_to, sub_u16, valid_row, Key, KeyEvent, Outcome, Request,
    RequestView,
};
use crate::text::copy_string;

verus! {

/// What a key asks of the git view.
#[derive(Debug, Clone, Copy, PartialEq, Eq, Structural)]
pub enum GitAction {
    Quit,
    Back,
    Down,
    Up,
    FocusList,
    FocusDiff,
    Open,
    Refresh,
    Nothing,
}

pub open spec fn git_action(k: KeyEvent) -> GitAction {
    let c = k.code;
    if c == Key::Char('q') {
        GitAction::Quit
    } else if c == Key::Esc {
        GitAction::Back
    } else if c == Key::Char('j') || c == Key::Down {
        GitAction::Down
    } else if c == Key::Char('k') || c == Key::Up {
        GitAction::Up
    } else if c == Key::Char('h') && k.ctrl {
        GitAction::FocusList
    } else if c == Key::Char('l') && k.ctrl {
        GitAction::FocusDiff
    } else if c == Key::Enter {
        GitAction::Open
    } else if c == Key::Char('r') {
        GitAction::Refresh
    } else {
        GitAction::Nothing
    }
}

/// The title of the diff of the uncommitted changes.
pub open spec fn uncommitted_title() -> Seq<char> {
    "Uncommitted changes"@
}

/// `a` with its git view set to `g`.
pub open spec fn with_git(a: AppView, g: GitStateView) -> AppView {
    AppView { git: g, ..a }
}

/// Esc: the diff closes, else the branch's commits go back to the
/// branches, else the git view closes.
pub open spec fn git_back(a: AppView) -> AppView {
    let g = a.git;
    if g.diff is Some {
        with_git(
            a,
            GitStateView {
                diff: None,
                diff_source: None,
                diff_title: seq![],
                diff_scroll: 0,
                focused_pane: GitPane::List,
                ..g
            },
        )
    } else if g.opened_branch is Some {
        with_git(
            a,
            GitStateView {
                opened_branch: None,
                entries: seq![],
                entry_selection: ListSelection::none(),
                ..g
            },
        )
    } else {
        AppView { show_git_view: false, ..a }
    }
}

/// Moving down (or up) the list that has the focus, or scrolling the diff.
pub open spec fn git_moved(a: AppView, down: bool) -> AppView {
    let g = a.git;
    if g.focused_pane == GitPane::Diff {
        with_git(
            a,
            GitStateView {
                diff_scroll: if down {
                    add_u16(g.diff_scroll, 1)
                } else {
                    sub_u16(g.diff_scroll, 1)
                },
                ..g
            },
        )
    } else if g.opened_branch is Some {
        let sel = g.entry_selection;
        if g.entries.len() == 0 {
            a
        } else {
            with_git(
                a,
                GitStateView {
                    entry_selection: sel.selecting(
                        Some(
                            if down {
                                row_below(sel.selected, g.entries.len())
                            } else {
                                row_above(sel.selected)
                            },
                        ),
                    ),
                    ..g
                },
            )
        }
    } else {
        let sel = g.branch_selection;
        if g.branches.len() == 0 {
            a
        } else {
            with_git(
                a,
                GitStateView {
                    branch_selection: sel.selecting(
                        Some(
                            if down {
                                row_below(sel.selected, g.branches.len())
                            } else {
                                row_above(sel.selected)
                            },
                        ),
                    ),
                    ..g
                },
            )
        }
    }
}

/// Enter on the list: the selected branch's commits, or the selected row's diff.
pub open spec fn git_opened(a: AppView, i: InputView) -> Outcome {
    let g = a.git;
    if g.focused_pane != GitPane::List {
        step_to(a, i)
    } else if g.opened_branch is None {
        match valid_row(g.branch_selection.selected, g.branches.len()) {
            Some(r) => Outcome {
                app: a,
                input: i,
                request: RequestView::GitBranch(g.branches[r as int].name),
            },
            None => step_to(a, i),
        }
    } else {
        match valid_row(g.entry_selection.selected, g.entries.len()) {
            Some(r) => match g.entries[r as int] {
                GitEntryView::Uncommitted => Outcome {
                    app: a,
                    input: i,
                    request: RequestView::GitDiff(DiffSourceView::Uncommitted, uncommitted_title()),
                },
                GitEntryView::Commit(c) => Outcome {
                    app: a,
                    input: i,
                    request: RequestView::GitDiff(DiffSourceView::Commit(c.sha), c.subject),
                },
            },
            None => step_to(a, i),
        }
    }
}

/// What a key does in the git view.
#[verifier::opaque]
pub open spec fn git_key(a: AppView, i: InputView, k: KeyEvent) -> Outcome {
    match git_action(k) {
        GitAction::Quit => step_to(AppView { exit: true, ..a }, i),
        GitAction::Back => step_to(git_back(a), i),
        GitAction::Down => step_to(git_moved(a, true), i),
        GitAction::Up => step_to(git_moved(a, false), i),
        GitAction::FocusList => step_to(
            with_git(a, GitStateView { focused_pane: GitPane::List, ..a.git }),
            i,
        ),
        GitAction::FocusDiff => if a.git.diff is Some {
            step_to(with_git(a, GitStateView { focused_pane: GitPane::Diff, ..a.git }), i)
        } else {
            step_to(a, i)
        },
        GitAction::Open => git_opened(a, i),
        GitAction::Refresh => Outcome { app: a, input: i, request: RequestView::GitRefresh },
        GitAction::Nothing => step_to(a, i),
    }
}

fn git_action_of(key: KeyEvent) -> (r: GitAction)
    ensures
        r == git_action(key),
{
    let c = key.code;
    if c == Key::Char('q') {
        GitAction::Quit
    } else if c == Key::Esc {
        GitAction::Back
    } else if c == Key::Char('j') || c == Key::Down {
        GitAction::Down
    } else if c == Key::Char('k') || c == Key::Up {
        GitAction::Up
    } else if c == Key::Char('h') && key.ctrl {
        GitAction::FocusList
    } else if c == Key::Char('l') && key.ctrl {
        GitAction::FocusDiff
    } else if c == Key::Enter {
        GitAction::Open
    } else if c == Key::Char('r') {
        GitAction::Refresh
    } else {
        GitAction::Nothing
    }
}

fn step_row(sel: Option<usize>, len: usize, down: bool) -> (r: usize)
    requires
        len > 0,
    ensures
        r == if down {
            row_below(sel, len as nat)
        } else {
            row_above(sel)
        },
{
    match sel {
        Some(r) => if down {
            let next = if r == usize::MAX {
                r
            } else {
                r + 1
            };
            if next < len - 1 {
                next
            } else {
                len - 1
            }
        } else {
            if r == 0 {
                0
            } else {
                r - 1
            }
        },
        None => 0,
    }
}

impl App {
    fn git_back(&mut self)
        ensures
            final(self)@ == git_back(old(self)@),
    {
        if self.git.diff.is_some() {
            self.git.diff = None;
            self.git.diff_source = None;
            self.git.diff_title = String::new();
            self.git.diff_scroll = 0;
            self.git.focused_pane = GitPane::List;
        } else if self.git.opened_branch.is_some() {
            self.git.opened_branch = None;
            self.git.entries = Vec::new();
            self.git.entry_selection = ListSelection::new();
            assert(self@.git.entries =~= Seq::<GitEntryView>::empty());
        } else {
            self.show_git_view = false;
        }
    }

    fn git_moved(&mut self, down: bool)
        ensures
            final(self)@ == git_moved(old(self)@, down),
    {
        if self.git.focused_pane == GitPane::Diff {
            let v = self.git.diff_scroll;
            self.git.diff_scroll = if down {
                if v == u16::MAX {
                    v
                } else {
                    v + 1
                }
            } else {
                if v == 0 {
                    0
                } else {
                    v - 1
                }
            };
        } else if self.git.opened_branch.is_some() {
            let n = self.git.entries.len();
            if n > 0 {
                let row = step_row(self.git.entry_selection.selected, n, down);
                self.git.entry_selection.select(Some(row));
            }
        } else {
            let n = self.git.branches.len();
            if n > 0 {
                let row = step_row(self.git.branch_selection.selected, n, down);
                self.git.branch_selection.select(Some(row));
            }
        }
    }

    fn git_opened(&mut self, input: &mut Input) -> (r: Request)
        ensures
            (Outcome { app: final(self)@, input: final(input)@, request: r@ }) == git_opened(
                old(self)@,
                old(input)@,
            ),
    {
        if self.git.focused_pane != GitPane::List {
            return Request::Nothing;
        }
        if self.git.opened_branch.is_none() {
            match self.git.branch_selection.selected {
                Some(r) => if r < self.git.branches.len() {
                    Request::GitBranch(copy_string(&self.git.branches[r].name))
                } else {
                    Request::Nothing
                },
                None => Request::Nothing,
            }
        } else {
            match self.git.entry_selection.selected {
                Some(r) => if r < self.git.entries.len() {
                    match &self.git.entries[r] {
                        GitEntry::Uncommitted => Request::GitDiff(
                            DiffSource::Uncommitted,
                            "Uncommitted changes".to_string(),
                        ),
                        GitEntry::Commit(c) => Request::GitDiff(
                            DiffSource::Commit(copy_string(&c.sha)),
                            copy_string(&c.subject),
                        ),
                    }
                } else {
                    Request::Nothing
                },
                None => Request::Nothing,
            }
        }
    }

    /// Handles a key in the git view.
    pub(crate) fn git_key(&mut self, input: &mut Input, key: KeyEvent) -> (r: Request)
        ensures
            (Outcome { app: final(self)@, input: final(input)@, request: r@ }) == git_key(
                old(self)@,
                old(input)@,
                key,
            ),
    {
        reveal(git_key);
        match git_action_of(key) {
            GitAction::Quit => {
                self.exit = true;
                Request::Nothing
            },
            GitAction::Back => {
                self.git_back();
                Request::Nothing
            },
            GitAction::Down => {
                self.git_moved(true);
                Request::Nothing
            },
            GitAction::Up => {
                self.git_moved(false);
                Request::Nothing
            },
            GitAction::FocusList => {
                self.git.focused_pane = GitPane::List;
                Request::Nothing
            },
            GitAction::FocusDiff => {
                if self.git.diff.is_some() {
                    self.git.focused_pane = GitPane::Diff;
                }
                Request::Nothing
            },
            GitAction::Open => self.git_opened(input),
            GitAction::Refresh => Request::GitRefresh,
            GitAction::Nothing => Request::Nothing,
        }
    }
}

} // verus!
