//! The git view of the opened project: its branches, a branch's commits and a
//! diff. Git is asked by the caller; these steps take what it answered.
use vstd::prelude::*;

use crate::app::{
    App, AppView, DiffSource, GitEntry, GitEntryView, GitPane, GitStateView, ListSelection,
    entry_views, first_row,
};
use crate::git::{
    Branch, BranchView, Commit, CommitView, Diff, GitError, GitErrorView, HeadView,
    Summary, SummaryView, branch_views, commit_views, git_error_text,
};
use crate::input::min_int;
use crate::text::{copy_string, join2};

verus! {

/// The view of a git answer.
pub open spec fn git_result<T: View>(r: Result<T, GitError>) -> Result<T::V, GitErrorView> {
    match r {
        Ok(x) => Ok(x@),
        Err(e) => Err(e@),
    }
}

/// The view of a list of commits that git gave, or of its error.
pub open spec fn commits_result(r: Result<Vec<Commit>, GitError>) -> Result<Seq<CommitView>, GitErrorView> {
    match r {
        Ok(cs) => Ok(commit_views(cs@)),
        Err(e) => Err(e@),
    }
}

/// The view of a list of branches that git gave, or of its error.
pub open spec fn branches_result(r: Result<Vec<Branch>, GitError>) -> Result<Seq<BranchView>, GitErrorView> {
    match r {
        Ok(bs) => Ok(branch_views(bs@)),
        Err(e) => Err(e@),
    }
}

/// The rows of a branch: the uncommitted changes first when the branch is
/// checked out and files changed, then its commits.
pub open spec fn branch_entries(summary: Option<SummaryView>, branch: Seq<char>, commits: Seq<CommitView>) -> Seq<
    GitEntryView,
> {
    let is_head = summary matches Some(s) && s.head == HeadView::Branch(branch);
    let dirty = summary matches Some(s) && s.files_changed > 0;
    (if is_head && dirty {
        seq![GitEntryView::Uncommitted]
    } else {
        seq![]
    }) + commits.map_values(|c: CommitView| GitEntryView::Commit(c))
}

/// The branch selection kept after the branches were reloaded: none for no
/// branch, the previous one moved into the list, or the first.
pub open spec fn kept_branch(selected: Option<usize>, len: nat) -> Option<usize> {
    if len == 0 {
        None
    } else {
        match selected {
            Some(i) => Some(min_int(i as int, len - 1) as usize),
            None => Some(0),
        }
    }
}

/// The position of the first checked-out branch.
pub open spec fn head_position(bs: Seq<BranchView>) -> Option<nat>
    decreases bs.len(),
{
    if bs.len() == 0 {
        None
    } else if bs[0].is_head {
        Some(0)
    } else {
        match head_position(bs.drop_first()) {
            Some(k) => Some(k + 1),
            None => None,
        }
    }
}

impl App {
    /// Starts reading the git view again: gives the directory to ask git
    /// about, if the opened project lies in a repository, and then clears the
    /// error shown.
    pub fn begin_git_reload(&mut self) -> (r: Option<String>)
        ensures
            crate::model::opt_view(r) == old(self)@.opened_git_directory(),
            final(self)@ == if r is Some {
                AppView { err: None, ..old(self)@ }
            } else {
                old(self)@
            },
    {
        let dir = self.opened_git_directory();
        if dir.is_some() {
            self.err = None;
        }
        dir
    }

    /// Forgets the summary; gives the directory to ask git about, if the
    /// opened project lies in a repository.
    pub fn begin_git_summary(&mut self) -> (r: Option<String>)
        ensures
            final(self)@ == (AppView {
                git: GitStateView { summary: None, ..old(self)@.git },
                ..old(self)@
            }),
            crate::model::opt_view(r) == old(self)@.opened_git_directory(),
    {
        self.git.summary = None;
        self.opened_git_directory()
    }

    /// Takes the summary that git gave, or shows its error.
    pub fn set_git_summary(&mut self, result: Result<Summary, GitError>)
        ensures
            final(self)@ == match git_result(result) {
                Ok(s) => AppView {
                    git: GitStateView { summary: Some(s), ..old(self)@.git },
                    ..old(self)@
                },
                Err(e) => AppView {
                    err: Some("Couldn't read git status: "@ + git_error_text(e)),
                    ..old(self)@
                },
            },
    {
        match result {
            Ok(s) => self.git.summary = Some(s),
            Err(e) => {
                let m = e.message();
                self.err = Some(join2("Couldn't read git status: ", m.as_str()));
            },
        }
    }

    /// Whether opening a branch asks git for its commits: not in a
    /// repository without branches, whose branch has no commit yet.
    pub fn branch_needs_commits(&self) -> (r: bool)
        ensures
            r == (self@.git.branches.len() > 0),
    {
        self.git.branches.len() > 0
    }

    /// Opens `branch` on the commits that git gave (none when it was not
    /// asked), or shows its error.
    pub fn open_git_branch(&mut self, branch: String, commits: Result<Vec<Commit>, GitError>)
        ensures
            final(self)@ == match commits_result(commits) {
                Ok(cs) => AppView {
                    git: GitStateView {
                        entries: branch_entries(old(self)@.git.summary, branch@, cs),
                        entry_selection: ListSelection::none().selecting(
                            first_row(branch_entries(old(self)@.git.summary, branch@, cs).len()),
                        ),
                        opened_branch: Some(branch@),
                        ..old(self)@.git
                    },
                    ..old(self)@
                },
                Err(e) => AppView {
                    err: Some("Couldn't load commits: "@ + git_error_text(e)),
                    ..old(self)@
                },
            },
    {
        match commits {
            Ok(cs) => {
                let (is_head, dirty) = match &self.git.summary {
                    Some(s) => (s.head.is_branch(branch.as_str()), s.files_changed > 0),
                    None => (false, false),
                };
                let ghost cvs = commit_views(cs@);
                let mut entries: Vec<GitEntry> = Vec::new();
                if is_head && dirty {
                    entries.push(GitEntry::Uncommitted);
                }
                let ghost first = entry_views(entries@);
                let mut i: usize = 0;
                while i < cs.len()
                    invariant
                        i <= cs.len(),
                        cvs == commit_views(cs@),
                        entry_views(entries@) == first + cvs.take(i as int).map_values(
                            |c: CommitView| GitEntryView::Commit(c),
                        ),
                    decreases cs.len() - i,
                {
                    let c = cs[i].duplicate();
                    let ghost before = entry_views(entries@);
                    entries.push(GitEntry::Commit(c));
                    assert(entry_views(entries@) =~= before.push(GitEntryView::Commit(c@)));
                    assert(cvs.take(i + 1) =~= cvs.take(i as int).push(c@));
                    i = i + 1;
                    assert(entry_views(entries@) =~= first + cvs.take(i as int).map_values(
                        |c: CommitView| GitEntryView::Commit(c),
                    ));
                }
                assert(cvs.take(i as int) =~= cvs);
                proof {
                    let s = old(self)@.git.summary;
                    assert(is_head == (s matches Some(x) && x.head == HeadView::Branch(branch@)));
                    assert(dirty == (s matches Some(x) && x.files_changed > 0));
                    assert(first =~= (if is_head && dirty {
                        seq![GitEntryView::Uncommitted]
                    } else {
                        seq![]
                    }));
                    assert(entry_views(entries@) =~= branch_entries(s, branch@, cvs));
                }
                let selected = if entries.len() == 0 {
                    None
                } else {
                    Some(0)
                };
                self.git.entries = entries;
                self.git.entry_selection = ListSelection::new();
                self.git.entry_selection.select(selected);
                self.git.opened_branch = Some(branch);
            },
            Err(e) => {
                let m = e.message();
                self.err = Some(join2("Couldn't load commits: ", m.as_str()));
            },
        }
    }

    /// Shows the diff that git gave for `source`, or its error.
    pub fn open_git_diff(&mut self, source: DiffSource, title: String, diff: Result<Diff, GitError>)
        ensures
            final(self)@ == match git_result(diff) {
                Ok(d) => AppView {
                    git: GitStateView {
                        diff: Some(d),
                        diff_source: Some(source@),
                        diff_title: title@,
                        diff_scroll: 0,
                        focused_pane: GitPane::Diff,
                        ..old(self)@.git
                    },
                    ..old(self)@
                },
                Err(e) => AppView {
                    err: Some("Couldn't load diff: "@ + git_error_text(e)),
                    ..old(self)@
                },
            },
    {
        match diff {
            Ok(d) => {
                self.git.diff = Some(d);
                self.git.diff_source = Some(source);
                self.git.diff_title = title;
                self.git.diff_scroll = 0;
                self.git.focused_pane = GitPane::Diff;
            },
            Err(e) => {
                let m = e.message();
                self.err = Some(join2("Couldn't load diff: ", m.as_str()));
            },
        }
    }

    /// Takes the branches that git gave, keeping the selection in the list,
    /// or shows its error.
    pub fn set_git_branches(&mut self, branches: Result<Vec<Branch>, GitError>)
        ensures
            final(self)@ == match branches_result(branches) {
                Ok(bs) => AppView {
                    git: GitStateView {
                        branch_selection: old(self)@.git.branch_selection.selecting(
                            kept_branch(old(self)@.git.branch_selection.selected, bs.len()),
                        ),
                        branches: bs,
                        ..old(self)@.git
                    },
                    ..old(self)@
                },
                Err(e) => AppView {
                    err: Some("Couldn't load branches: "@ + git_error_text(e)),
                    ..old(self)@
                },
            },
    {
        match branches {
            Ok(bs) => {
                let n = bs.len();
                let kept = if n == 0 {
                    None
                } else {
                    match self.git.branch_selection.selected {
                        Some(i) => Some(
                            if i < n - 1 {
                                i
                            } else {
                                n - 1
                            },
                        ),
                        None => Some(0),
                    }
                };
                self.git.branch_selection.select(kept);
                self.git.branches = bs;
            },
            Err(e) => {
                let m = e.message();
                self.err = Some(join2("Couldn't load branches: ", m.as_str()));
            },
        }
    }

    /// After a branch was reopened: the commit selected before stays
    /// selected, moved into the list.
    pub fn keep_entry_selection(&mut self, previous: Option<usize>)
        ensures
            final(self)@ == match previous {
                Some(index) => if old(self)@.git.entries.len() > 0 {
                    AppView {
                        git: GitStateView {
                            entry_selection: old(self)@.git.entry_selection.selecting(
                                Some(min_int(index as int, old(self)@.git.entries.len() - 1) as usize),
                            ),
                            ..old(self)@.git
                        },
                        ..old(self)@
                    }
                } else {
                    old(self)@
                },
                None => old(self)@,
            },
    {
        if let Some(index) = previous {
            let n = self.git.entries.len();
            if n > 0 {
                let kept = if index < n - 1 {
                    index
                } else {
                    n - 1
                };
                self.git.entry_selection.select(Some(kept));
            }
        }
    }

    /// Starts reloading the diff shown: gives its source and title, and the
    /// scroll and focus to put back; the title is left empty and the focus on
    /// the list meanwhile.
    pub fn take_git_diff(&mut self) -> (r: Option<(DiffSource, String, u16, GitPane)>)
        ensures
            match r {
                Some((source, title, scroll, pane)) => old(self)@.git.diff_source == Some(source@)
                    && title@ == old(self)@.git.diff_title && scroll == old(self)@.git.diff_scroll
                    && pane == old(self)@.git.focused_pane && final(self)@ == (AppView {
                    git: GitStateView {
                        diff_source: None,
                        diff_title: seq![],
                        focused_pane: GitPane::List,
                        ..old(self)@.git
                    },
                    ..old(self)@
                }),
                None => old(self)@.git.diff_source is None && final(self)@ == old(self)@,
            },
    {
        let mut source: Option<DiffSource> = None;
        std::mem::swap(&mut source, &mut self.git.diff_source);
        match source {
            Some(s) => {
                let mut title = String::new();
                std::mem::swap(&mut title, &mut self.git.diff_title);
                let pane = self.git.focused_pane;
                self.git.focused_pane = GitPane::List;
                Some((s, title, self.git.diff_scroll, pane))
            },
            None => None,
        }
    }

    /// Puts back the scroll and focus of a reloaded diff.
    pub fn restore_git_diff(&mut self, scroll: u16, pane: GitPane)
        ensures
            final(self)@ == (AppView {
                git: GitStateView { diff_scroll: scroll, focused_pane: pane, ..old(self)@.git },
                ..old(self)@
            }),
    {
        self.git.diff_scroll = scroll;
        self.git.focused_pane = pane;
    }

    /// Starts the git view afresh: no branch opened, no diff, the list focused.
    pub fn begin_git_view(&mut self)
        ensures
            final(self)@ == (AppView {
                git: GitStateView {
                    opened_branch: None,
                    entries: seq![],
                    diff: None,
                    diff_source: None,
                    diff_scroll: 0,
                    focused_pane: GitPane::List,
                    branch_selection: ListSelection::none(),
                    ..old(self)@.git
                },
                ..old(self)@
            }),
    {
        self.git.opened_branch = None;
        self.git.entries = Vec::new();
        self.git.diff = None;
        self.git.diff_source = None;
        self.git.diff_scroll = 0;
        self.git.focused_pane = GitPane::List;
        self.git.branch_selection = ListSelection::new();
        assert(self@.git.entries =~= Seq::<GitEntryView>::empty());
    }

    /// Selects the checked-out branch, or else the first.
    pub fn select_head_branch(&mut self)
        ensures
            final(self)@ == (AppView {
                git: GitStateView {
                    branch_selection: old(self)@.git.branch_selection.selecting(
                        match head_position(old(self)@.git.branches) {
                            Some(k) => Some(k as usize),
                            None => first_row(old(self)@.git.branches.len()),
                        },
                    ),
                    ..old(self)@.git
                },
                ..old(self)@
            }),
    {
        let ghost bs = self@.git.branches;
        let mut i: usize = 0;
        assert(bs.skip(0) =~= bs);
        while i < self.git.branches.len() && !self.git.branches[i].is_head
            invariant
                i <= self.git.branches.len(),
                bs == self@.git.branches,
                head_position(bs) == match head_position(bs.skip(i as int)) {
                    Some(k) => Some((k + i) as nat),
                    None => None,
                },
            decreases self.git.branches.len() - i,
        {
            assert(bs.skip(i as int)[0] == self.git.branches@[i as int]@);
            assert(bs.skip(i as int).drop_first() =~= bs.skip(i + 1));
            i = i + 1;
        }
        let choice = if i < self.git.branches.len() {
            assert(bs.skip(i as int)[0] == self.git.branches@[i as int]@);
            Some(i)
        } else {
            assert(bs.skip(i as int) =~= Seq::<BranchView>::empty());
            if self.git.branches.len() == 0 {
                None
            } else {
                Some(0)
            }
        };
        self.git.branch_selection.select(choice);
    }

    /// In a repository without branches, the branch that `HEAD` names, to
    /// open at once.
    pub fn branch_to_open(&self) -> (r: Option<String>)
        ensures
            crate::model::opt_view(r) == if self@.git.branches.len() == 0 {
                match self@.git.summary {
                    Some(s) => match s.head {
                        HeadView::Branch(name) => Some(name),
                        HeadView::Detached(_) => None,
                    },
                    None => None,
                }
            } else {
                None
            },
    {
        if self.git.branches.len() > 0 {
            return None;
        }
        match &self.git.summary {
            Some(s) => match &s.head {
                crate::git::Head::Branch(name) => Some(copy_string(name)),
                crate::git::Head::Detached(_) => None,
            },
            None => None,
        }
    }

    /// The list that the git view shows: whether it is a branch's commits, and its length.
    pub fn git_list(&self) -> (r: (bool, usize))
        ensures
            r.0 == (self@.git.opened_branch is Some),
            r.1 == if r.0 {
                self@.git.entries.len()
            } else {
                self@.git.branches.len()
            },
    {
        if self.git.opened_branch.is_some() {
            (true, self.git.entries.len())
        } else {
            (false, self.git.branches.len())
        }
    }
}

} // verus!
