//! What Trail reads from git: the head, the state of the work tree, branches,
//! commits and diffs, taken from the text that git prints.
use vstd::prelude::*;

use crate::text::{
    char_views, chars_of, copy_string, join2, lines, parse_i64, parse_i64_chars,
    split, split_chars, split_lines, splitn, splitn_chars, string_of, trim, trim_str, views,
};

verus! {

broadcast use vstd::string::group_string_axioms;

/// How many commits of a branch are listed.
pub const COMMIT_LIMIT: usize = 50;

/// How many lines of a diff are kept.
pub const DIFF_LINE_LIMIT: usize = 5000;

// ---------------------------------------------------------------------------
// Types
// ---------------------------------------------------------------------------

/// Where `HEAD` points.
#[derive(Debug, PartialEq, Eq)]
pub enum Head {
    Branch(String),
    Detached(String),
}

pub enum HeadView {
    Branch(Seq<char>),
    Detached(Seq<char>),
}

impl View for Head {
    type V = HeadView;

    open spec fn view(&self) -> HeadView {
        match self {
            Head::Branch(b) => HeadView::Branch(b@),
            Head::Detached(s) => HeadView::Detached(s@),
        }
    }
}

impl Head {
    /// A copy of this head.
    pub fn duplicate(&self) -> (r: Head)
        ensures
            r@ == self@,
    {
        match self {
            Head::Branch(b) => Head::Branch(copy_string(b)),
            Head::Detached(s) => Head::Detached(copy_string(s)),
        }
    }

    /// Whether `HEAD` is the branch `name`.
    pub fn is_branch(&self, name: &str) -> (r: bool)
        ensures
            r == (self@ == HeadView::Branch(name@)),
    {
        match self {
            Head::Branch(b) => crate::text::str_eq(b.as_str(), name),
            Head::Detached(_) => false,
        }
    }
}

/// What `detect` learns of a repository.
#[derive(Debug)]
pub struct GitInfo {
    pub head: Head,
}

/// The state of a project's work tree.
#[derive(Debug)]
pub struct Summary {
    pub head: Head,
    pub files_changed: usize,
    /// Seconds since the Unix epoch.
    pub last_commit: Option<i64>,
}

pub struct SummaryView {
    pub head: HeadView,
    pub files_changed: usize,
    pub last_commit: Option<i64>,
}

impl View for Summary {
    type V = SummaryView;

    open spec fn view(&self) -> SummaryView {
        SummaryView {
            head: self.head@,
            files_changed: self.files_changed,
            last_commit: self.last_commit,
        }
    }
}

/// A local branch.
#[derive(Debug)]
pub struct Branch {
    pub name: String,
    pub is_head: bool,
    /// Seconds since the Unix epoch.
    pub last_commit: i64,
}

pub struct BranchView {
    pub name: Seq<char>,
    pub is_head: bool,
    pub last_commit: i64,
}

impl View for Branch {
    type V = BranchView;

    open spec fn view(&self) -> BranchView {
        BranchView { name: self.name@, is_head: self.is_head, last_commit: self.last_commit }
    }
}

/// A commit of a branch.
#[derive(Debug)]
pub struct Commit {
    pub sha: String,
    pub short_sha: String,
    pub subject: String,
    /// Seconds since the Unix epoch.
    pub time: i64,
}

pub struct CommitView {
    pub sha: Seq<char>,
    pub short_sha: Seq<char>,
    pub subject: Seq<char>,
    pub time: i64,
}

impl View for Commit {
    type V = CommitView;

    open spec fn view(&self) -> CommitView {
        CommitView {
            sha: self.sha@,
            short_sha: self.short_sha@,
            subject: self.subject@,
            time: self.time,
        }
    }
}

impl Commit {
    /// A copy of this commit.
    pub fn duplicate(&self) -> (r: Commit)
        ensures
            r@ == self@,
    {
        Commit {
            sha: copy_string(&self.sha),
            short_sha: copy_string(&self.short_sha),
            subject: copy_string(&self.subject),
            time: self.time,
        }
    }
}

/// A diff: its summary, its lines and the untracked files beside it.
#[derive(Debug)]
pub struct Diff {
    pub stat: String,
    pub patch: Vec<String>,
    pub untracked: Vec<String>,
    /// Whether lines of the patch were cut off.
    pub truncated: bool,
}

pub struct DiffView {
    pub stat: Seq<char>,
    pub patch: Seq<Seq<char>>,
    pub untracked: Seq<Seq<char>>,
    pub truncated: bool,
}

impl View for Diff {
    type V = DiffView;

    open spec fn view(&self) -> DiffView {
        DiffView {
            stat: self.stat@,
            patch: views(self.patch@),
            untracked: views(self.untracked@),
            truncated: self.truncated,
        }
    }
}

/// Why git could not answer.
#[derive(Debug)]
pub enum GitError {
    NotInstalled,
    Io(String),
    Failed(String),
}

pub enum GitErrorView {
    NotInstalled,
    Io(Seq<char>),
    Failed(Seq<char>),
}

impl View for GitError {
    type V = GitErrorView;

    open spec fn view(&self) -> GitErrorView {
        match self {
            GitError::NotInstalled => GitErrorView::NotInstalled,
            GitError::Io(e) => GitErrorView::Io(e@),
            GitError::Failed(e) => GitErrorView::Failed(e@),
        }
    }
}

/// The text that describes an error.
pub open spec fn git_error_text(e: GitErrorView) -> Seq<char> {
    match e {
        GitErrorView::NotInstalled => "git is not installed"@,
        GitErrorView::Io(m) => "couldn't run git: "@ + m,
        GitErrorView::Failed(m) => "git failed: "@ + m,
    }
}

impl GitError {
    /// The text that describes this error.
    pub fn message(&self) -> (r: String)
        ensures
            r@ == git_error_text(self@),
    {
        match self {
            GitError::NotInstalled => "git is not installed".to_owned(),
            GitError::Io(e) => join2("couldn't run git: ", e.as_str()),
            GitError::Failed(e) => join2("git failed: ", e.as_str()),
        }
    }
}

// ---------------------------------------------------------------------------
// Timestamps
// ---------------------------------------------------------------------------

/// The first second that chrono's `DateTime<Utc>` can hold: January 1 of the
/// year -262143, 00:00:00.
pub const EARLIEST_TIMESTAMP: i64 = -8_334_601_228_800;

/// The last second that chrono's `DateTime<Utc>` can hold: December 31 of the
/// year 262142, 23:59:59.
pub const LATEST_TIMESTAMP: i64 = 8_210_266_876_799;

/// Whether chrono's `DateTime::<Utc>::from_timestamp(secs, 0)` gives a date:
/// `secs` lies within the years -262143 to 262142 that chrono's dates cover.
pub open spec fn chrono_accepts_timestamp(secs: i64) -> bool {
    EARLIEST_TIMESTAMP <= secs <= LATEST_TIMESTAMP
}

/// Calls `chrono::DateTime::<Utc>::from_timestamp(secs, 0)` and gives back the
/// timestamp of the date it makes. chrono gives `None` exactly for seconds
/// whose day falls outside the years its dates cover (-262143 to 262142), and
/// `timestamp` gives the seconds back.
#[verifier::external_body]
fn utc_timestamp(secs: i64) -> (r: Option<i64>)
    ensures
        r is Some <==> chrono_accepts_timestamp(secs),
        r matches Some(t) ==> t == secs,
{
    match chrono::DateTime::from_timestamp(secs, 0) {
        Some(date) => Some(date.timestamp()),
        None => None,
    }
}

/// A timestamp read from `s`: a decimal `i64` that chrono accepts as a date.
pub open spec fn timestamp_of(s: Seq<char>) -> Option<i64> {
    match parse_i64(s) {
        Some(v) => if chrono_accepts_timestamp(v) {
            Some(v)
        } else {
            None
        },
        None => None,
    }
}

fn timestamp_from(s: &[char]) -> (r: Option<i64>)
    ensures
        r == timestamp_of(s@),
{
    match parse_i64_chars(s) {
        Some(v) => utc_timestamp(v),
        None => None,
    }
}

// ---------------------------------------------------------------------------
// Parsing git's output
// ---------------------------------------------------------------------------

/// The line of `for-each-ref --format=%(HEAD)%09%(refname:short)%09%(committerdate:unix)`
/// read as a branch: three tab-separated fields, the first `*` for the
/// checked-out branch, the last a timestamp.
pub open spec fn branch_of(line: Seq<char>) -> Option<BranchView> {
    let f = split(line, '\t');
    if f.len() != 3 {
        None
    } else {
        match timestamp_of(f[2]) {
            Some(t) => Some(BranchView { name: f[1], is_head: f[0] == seq!['*'], last_commit: t }),
            None => None,
        }
    }
}

/// The branches that the lines describe, in their order; other lines are skipped.
pub open spec fn branches_of(ls: Seq<Seq<char>>) -> Seq<BranchView>
    decreases ls.len(),
{
    if ls.len() == 0 {
        seq![]
    } else {
        branches_of(ls.drop_last()) + match branch_of(ls.last()) {
            Some(b) => seq![b],
            None => seq![],
        }
    }
}

/// The line of `log --format=%H%x09%h%x09%ct%x09%s` read as a commit: the
/// first three tabs part hash, short hash, time and subject, which keeps any
/// further tabs.
pub open spec fn commit_of(line: Seq<char>) -> Option<CommitView> {
    let f = splitn(line, 4, '\t');
    if f.len() != 4 {
        None
    } else {
        match timestamp_of(f[2]) {
            Some(t) => Some(CommitView { sha: f[0], short_sha: f[1], subject: f[3], time: t }),
            None => None,
        }
    }
}

/// The commits that the lines describe, in their order; other lines are skipped.
pub open spec fn commits_of(ls: Seq<Seq<char>>) -> Seq<CommitView>
    decreases ls.len(),
{
    if ls.len() == 0 {
        seq![]
    } else {
        commits_of(ls.drop_last()) + match commit_of(ls.last()) {
            Some(c) => seq![c],
            None => seq![],
        }
    }
}

pub open spec fn branch_views(v: Seq<Branch>) -> Seq<BranchView> {
    v.map_values(|b: Branch| b@)
}

pub open spec fn commit_views(v: Seq<Commit>) -> Seq<CommitView> {
    v.map_values(|c: Commit| c@)
}

/// The lines of `text`, at most `DIFF_LINE_LIMIT` of them.
pub open spec fn capped_lines(text: Seq<char>) -> Seq<Seq<char>> {
    let l = lines(text);
    if l.len() <= DIFF_LINE_LIMIT {
        l
    } else {
        l.take(DIFF_LINE_LIMIT as int)
    }
}

/// Whether `text` has more than `DIFF_LINE_LIMIT` lines.
pub open spec fn exceeds_limit(text: Seq<char>) -> bool {
    lines(text).len() > DIFF_LINE_LIMIT
}

/// The lines kept are the first lines of the text, never more than the
/// limit, and all of them exactly when nothing was cut off.
pub proof fn law_capped_lines_are_a_prefix(text: Seq<char>)
    ensures
        capped_lines(text).len() <= DIFF_LINE_LIMIT,
        capped_lines(text) == lines(text).take(capped_lines(text).len() as int),
        !exceeds_limit(text) <==> capped_lines(text) == lines(text),
{
    let l = lines(text);
    if l.len() <= DIFF_LINE_LIMIT {
        assert(l.take(l.len() as int) =~= l);
    } else {
        assert(capped_lines(text).len() != l.len());
    }
}

/// Strings made of the first `count` character vectors of `v`.
fn strings_of(v: &Vec<Vec<char>>, count: usize) -> (r: Vec<String>)
    requires
        count <= v.len(),
    ensures
        views(r@) == char_views(v@).take(count as int),
{
    let mut out: Vec<String> = Vec::new();
    let mut i: usize = 0;
    while i < count
        invariant
            i <= count <= v.len(),
            views(out@) == char_views(v@).take(i as int),
        decreases count - i,
    {
        let s = string_of(v[i].as_slice());
        let ghost old_out = out@;
        out.push(s);
        assert(views(out@) =~= views(old_out).push(s@));
        i = i + 1;
        assert(char_views(v@).take(i as int) =~= char_views(v@).take(i - 1).push(v@[i - 1]@));
    }
    out
}

/// The lines of `text` as `str::lines` gives them.
pub fn text_lines(text: &str) -> (r: Vec<String>)
    ensures
        views(r@) == lines(text@),
{
    let t = chars_of(text);
    let ls = split_lines(t.as_slice());
    let r = strings_of(&ls, ls.len());
    assert(char_views(ls@).take(ls.len() as int) =~= char_views(ls@));
    r
}

/// Splits `text` into at most `DIFF_LINE_LIMIT` lines. The bool says whether it cut anything off.
pub fn cap_lines(text: &str) -> (r: (Vec<String>, bool))
    ensures
        views(r.0@) == capped_lines(text@),
        r.1 == exceeds_limit(text@),
{
    let t = chars_of(text);
    let ls = split_lines(t.as_slice());
    let count = if ls.len() <= DIFF_LINE_LIMIT {
        ls.len()
    } else {
        DIFF_LINE_LIMIT
    };
    let kept = strings_of(&ls, count);
    assert(char_views(ls@).take(ls.len() as int) =~= char_views(ls@));
    (kept, ls.len() > DIFF_LINE_LIMIT)
}

/// Whether `v` is the single character `*`.
fn is_star(v: &Vec<char>) -> (r: bool)
    ensures
        r == (v@ == seq!['*']),
{
    let r = v.len() == 1 && v[0] == '*';
    assert(r ==> v@ =~= seq!['*']);
    r
}

/// The branches listed by `git for-each-ref --format=%(HEAD)%09%(refname:short)%09%(committerdate:unix)`,
/// in the order git printed them; lines that do not read as a branch are skipped.
pub fn branches(output: &str) -> (r: Vec<Branch>)
    ensures
        branch_views(r@) == branches_of(lines(output@)),
{
    let t = chars_of(output);
    let ls = split_lines(t.as_slice());
    let mut out: Vec<Branch> = Vec::new();
    let mut i: usize = 0;
    while i < ls.len()
        invariant
            i <= ls.len(),
            char_views(ls@) == lines(output@),
            branch_views(out@) == branches_of(char_views(ls@).take(i as int)),
        decreases ls.len() - i,
    {
        let line = &ls[i];
        let ghost prefix = char_views(ls@).take(i + 1);
        assert(prefix.drop_last() =~= char_views(ls@).take(i as int));
        assert(prefix.last() == line@);
        let fields = split_chars(line.as_slice(), '\t');
        let ghost old_out = out@;
        if fields.len() == 3 {
            match timestamp_from(fields[2].as_slice()) {
                Some(t) => {
                    let b = Branch {
                        name: string_of(fields[1].as_slice()),
                        is_head: is_star(&fields[0]),
                        last_commit: t,
                    };
                    out.push(b);
                    assert(branch_views(out@) =~= branch_views(old_out).push(b@));
                },
                None => {},
            }
        }
        assert(branch_views(out@) =~= branches_of(prefix));
        i = i + 1;
    }
    assert(char_views(ls@).take(ls.len() as int) =~= char_views(ls@));
    out
}

/// The commits listed by `git log --format=%H%x09%h%x09%ct%x09%s`, in the
/// order git printed them; lines that do not read as a commit are skipped.
pub fn commits(output: &str) -> (r: Vec<Commit>)
    ensures
        commit_views(r@) == commits_of(lines(output@)),
{
    let t = chars_of(output);
    let ls = split_lines(t.as_slice());
    let mut out: Vec<Commit> = Vec::new();
    let mut i: usize = 0;
    while i < ls.len()
        invariant
            i <= ls.len(),
            char_views(ls@) == lines(output@),
            commit_views(out@) == commits_of(char_views(ls@).take(i as int)),
        decreases ls.len() - i,
    {
        let line = &ls[i];
        let ghost prefix = char_views(ls@).take(i + 1);
        assert(prefix.drop_last() =~= char_views(ls@).take(i as int));
        assert(prefix.last() == line@);
        let fields = splitn_chars(line.as_slice(), 4, '\t');
        let ghost old_out = out@;
        if fields.len() == 4 {
            match timestamp_from(fields[2].as_slice()) {
                Some(t) => {
                    let c = Commit {
                        sha: string_of(fields[0].as_slice()),
                        short_sha: string_of(fields[1].as_slice()),
                        subject: string_of(fields[3].as_slice()),
                        time: t,
                    };
                    out.push(c);
                    assert(commit_views(out@) =~= commit_views(old_out).push(c@));
                },
                None => {},
            }
        }
        assert(commit_views(out@) =~= commits_of(prefix));
        i = i + 1;
    }
    assert(char_views(ls@).take(ls.len() as int) =~= char_views(ls@));
    out
}

// ---------------------------------------------------------------------------
// Assembling what git answered
// ---------------------------------------------------------------------------

/// What `detect` finds: nothing unless `dir` is a directory inside a work
/// tree; then the branch that `symbolic-ref --short HEAD` names, or else the
/// detached commit that `rev-parse --short HEAD` names, each trimmed.
pub open spec fn detected(
    is_dir: bool,
    inside_work_tree: bool,
    symbolic_ref: Option<Seq<char>>,
    short_head: Option<Seq<char>>,
) -> Option<HeadView> {
    if !is_dir || !inside_work_tree {
        None
    } else {
        match symbolic_ref {
            Some(b) => Some(HeadView::Branch(trim(b))),
            None => match short_head {
                Some(h) => Some(HeadView::Detached(trim(h))),
                None => None,
            },
        }
    }
}

pub open spec fn opt_str(o: Option<&str>) -> Option<Seq<char>> {
    match o {
        Some(s) => Some(s@),
        None => None,
    }
}

/// The repository that holds a directory, from git's answers: whether the
/// directory exists, whether `rev-parse --is-inside-work-tree` succeeded, the
/// output of `symbolic-ref --short -q HEAD` if it succeeded, and that of
/// `rev-parse --short HEAD` (asked only when the first failed).
pub fn detect(
    is_dir: bool,
    inside_work_tree: bool,
    symbolic_ref: Option<&str>,
    short_head: Option<&str>,
) -> (r: Option<GitInfo>)
    ensures
        match r {
            Some(info) => detected(is_dir, inside_work_tree, opt_str(symbolic_ref), opt_str(short_head))
                == Some(info.head@),
            None => detected(is_dir, inside_work_tree, opt_str(symbolic_ref), opt_str(short_head))
                is None,
        },
{
    if !is_dir || !inside_work_tree {
        return None;
    }
    match symbolic_ref {
        Some(b) => Some(GitInfo { head: Head::Branch(trim_str(b)) }),
        None => match short_head {
            Some(h) => Some(GitInfo { head: Head::Detached(trim_str(h)) }),
            None => None,
        },
    }
}

/// The text of `Failed("not a git repository")`.
pub open spec fn not_a_repository() -> Seq<char> {
    "not a git repository"@
}

/// A work tree's summary from git's answers: the head that `detect` found, the
/// output of `status --porcelain -- .` (one line per changed file) and, if it
/// succeeded, that of `log -1 --format=%ct -- .`.
pub fn summary(info: Option<GitInfo>, status: &str, last_log: Option<&str>) -> (r: Result<
    Summary,
    GitError,
>)
    ensures
        match r {
            Ok(s) => info matches Some(i) && s.head@ == i.head@ && s.files_changed == lines(
                status@,
            ).len() && s.last_commit == match last_log {
                Some(out) => timestamp_of(trim(out@)),
                None => None,
            },
            Err(e) => info is None && e@ == GitErrorView::Failed(not_a_repository()),
        },
{
    let info = match info {
        Some(i) => i,
        None => return Err(GitError::Failed("not a git repository".to_owned())),
    };
    let status_chars = chars_of(status);
    let files_changed = split_lines(status_chars.as_slice()).len();
    let last_commit = match last_log {
        Some(out) => {
            let t = crate::text::trim_chars(chars_of(out).as_slice());
            timestamp_from(t.as_slice())
        },
        None => None,
    };
    Ok(Summary { head: info.head, files_changed, last_commit })
}

/// The diff that one commit introduced: `show --stat --format= <sha> -- .`
/// gives `stat`, `show --format= <sha> -- .` gives `output`, whose lines are
/// capped.
pub fn commit_diff(stat: String, output: &str) -> (r: Diff)
    ensures
        r@ == (DiffView {
            stat: stat@,
            patch: capped_lines(output@),
            untracked: seq![],
            truncated: exceeds_limit(output@),
        }),
{
    let (patch, truncated) = cap_lines(output);
    let d = Diff { stat, patch, untracked: Vec::new(), truncated };
    assert(d@.untracked =~= Seq::<Seq<char>>::empty());
    d
}

/// Staged and unstaged changes, plus the names of untracked files.
/// `changes` holds the outputs of `diff --stat HEAD -- .` and `diff HEAD -- .`,
/// or nothing when the repository has no commit yet; `untracked` is the output
/// of `ls-files --others --exclude-standard -- .`.
pub fn uncommitted_diff(changes: Option<(String, String)>, untracked: &str) -> (r: Diff)
    ensures
        r@.untracked == lines(untracked@),
        match changes {
            Some((stat, patch)) => r@.stat == stat@ && r@.patch == capped_lines(patch@)
                && r@.truncated == exceeds_limit(patch@),
            None => r@.stat == Seq::<char>::empty() && r@.patch == Seq::<Seq<char>>::empty()
                && !r@.truncated,
        },
{
    let files = text_lines(untracked);
    match changes {
        Some((stat, patch_text)) => {
            let (patch, truncated) = cap_lines(patch_text.as_str());
            Diff { stat, patch, untracked: files, truncated }
        },
        None => {
            let d = Diff { stat: String::new(), patch: Vec::new(), untracked: files, truncated: false };
            assert(d@.patch =~= Seq::<Seq<char>>::empty());
            d
        },
    }
}

} // verus!
