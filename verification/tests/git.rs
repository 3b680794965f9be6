use trail::git::{
    branches, cap_lines, commit_diff, commits, detect, summary, uncommitted_diff, GitInfo, Head,
    COMMIT_LIMIT, DIFF_LINE_LIMIT,
};

const HEAD_SHA: &str = "5d0c0b5a6b8a2f5e4c1d3e2f1a0b9c8d7e6f5a4b";
const FIRST_SHA: &str = "1f2e3d4c5b6a79881726354453627181909a8b7c";

fn main_branch() -> Option<GitInfo> {
    detect(true, true, Some("main\n"), None)
}

#[test]
fn detect_returns_none_outside_a_repo() {
    assert!(detect(true, false, None, None).is_none());
}

#[test]
fn detect_returns_none_for_missing_directory() {
    assert!(detect(false, false, None, None).is_none());
}

#[test]
fn detect_finds_branch_in_repo_without_commits() {
    let info = detect(true, true, Some("main\n"), None).unwrap();

    assert_eq!(info.head, Head::Branch("main".to_string()));
}

#[test]
fn detect_works_from_a_subdirectory() {
    assert!(detect(true, true, Some("main\n"), None).is_some());
}

#[test]
fn detect_reports_detached_head() {
    let sha = "5d0c0b5";

    assert_eq!(
        detect(true, true, None, Some("5d0c0b5\n")).unwrap().head,
        Head::Detached(sha.to_string())
    );
}

#[test]
fn summary_returns_none_for_no_commits() {
    let sum = summary(main_branch(), "", None).unwrap();

    assert!(sum.last_commit.is_none());
}

#[test]
fn summary_includes_last_commit() {
    let sum = summary(main_branch(), "", Some("1700000000\n")).unwrap();

    assert_eq!(sum.last_commit, Some(1_700_000_000));
}

#[test]
fn summary_files_changed_count_includes_untracked() {
    let sum = summary(main_branch(), " M README.md\n?? test.txt\n", Some("1700000000\n")).unwrap();

    assert_eq!(sum.files_changed, 2);
}

#[test]
fn summary_files_changed_scoped_to_subdirectory() {
    let sum_outer =
        summary(main_branch(), " M README.md\n?? sub/\n?? test.txt\n", Some("1700000000\n"))
            .unwrap();
    let sum_inner = summary(main_branch(), "?? inner_test.txt\n", Some("1700000000\n")).unwrap();

    assert_eq!(sum_outer.files_changed, 3);
    assert_eq!(sum_inner.files_changed, 1);
}

#[test]
fn summary_outside_a_repository_fails() {
    let err = summary(None, "", None).unwrap_err();

    assert_eq!(err.message(), "git failed: not a git repository");
}

#[test]
fn commits_are_newest_first_and_keep_tabs_in_subject() {
    let output = format!(
        "{HEAD_SHA}\t5d0c0b5\t1700000001\tsecond\twith tab\n{FIRST_SHA}\t1f2e3d4\t1700000000\tfirst\n"
    );

    let commits = commits(&output);

    assert_eq!(commits.len(), 2);
    assert_eq!(commits[0].sha, HEAD_SHA);
    assert!(HEAD_SHA.starts_with(&commits[0].short_sha));
    assert_eq!(commits[0].subject, "second\twith tab");
    assert_eq!(commits[1].subject, "first");
    assert_eq!(commits[1].time, 1_700_000_000);
}

#[test]
fn commits_reads_other_branches_without_checking_out() {
    let output = format!("{HEAD_SHA}\t5d0c0b5\t1700000001\ton feature\n");

    let commits = commits(&output);

    assert_eq!(commits[0].subject, "on feature");
    assert_eq!(main_branch().unwrap().head, Head::Branch("main".to_string()));
}

#[test]
fn commits_scoped_to_subdirectory() {
    let output = format!("{HEAD_SHA}\t5d0c0b5\t1700000001\tsub change\n");

    let commits = commits(&output);

    assert_eq!(commits.len(), 1);
    assert_eq!(commits[0].subject, "sub change");
}

#[test]
fn commits_skip_lines_that_are_no_commit() {
    let output = format!("garbage\n{HEAD_SHA}\t5d0c0b5\tnot-a-time\tbad\n{FIRST_SHA}\t1f2e3d4\t1\tok\n");

    let commits = commits(&output);

    assert_eq!(commits.len(), 1);
    assert_eq!(commits[0].subject, "ok");
    assert!(COMMIT_LIMIT > commits.len());
}

#[test]
fn commit_diff_has_stat_and_added_lines() {
    let stat = " notes.txt | 1 +\n 1 file changed, 1 insertion(+)\n".to_string();
    let patch = "diff --git a/notes.txt b/notes.txt\nnew file mode 100644\nindex 0000000..7c9d1e4\n--- /dev/null\n+++ b/notes.txt\n@@ -0,0 +1 @@\n+hello trail\n";

    let diff = commit_diff(stat, patch);

    assert!(diff.stat.contains("notes.txt"));
    assert!(diff.patch.iter().any(|line| line == "+hello trail"));
    assert!(!diff.patch.iter().any(|line| line.starts_with("commit ")));
    assert!(!diff.truncated);
    assert!(diff.untracked.is_empty());
}

#[test]
fn commit_diff_scoped_to_subdirectory() {
    let stat = " sub/inner.txt | 1 +\n 1 file changed, 1 insertion(+)\n".to_string();
    let patch = "diff --git a/sub/inner.txt b/sub/inner.txt\n+inner\n";

    let diff = commit_diff(stat, patch);

    assert!(diff.stat.contains("inner.txt"));
    assert!(!diff.stat.contains("root.txt"));
    assert!(!diff.patch.iter().any(|line| line.contains("root.txt")));
}

#[test]
fn cap_lines_keeps_short_text_whole() {
    assert_eq!(cap_lines("a\nb\n"), (vec!["a".to_string(), "b".to_string()], false));
}

#[test]
fn cap_lines_at_limit_is_not_truncated() {
    let (lines, truncated) = cap_lines(&"x\n".repeat(DIFF_LINE_LIMIT));

    assert_eq!(lines.len(), DIFF_LINE_LIMIT);
    assert!(!truncated);
}

#[test]
fn cap_lines_over_limit_is_truncated() {
    let (lines, truncated) = cap_lines(&"x\n".repeat(DIFF_LINE_LIMIT + 1));

    assert_eq!(lines.len(), DIFF_LINE_LIMIT);
    assert!(truncated);
}

#[test]
fn cap_lines_splits_on_crlf_too() {
    let (lines, truncated) = cap_lines("a\r\nb\nc");

    assert_eq!(lines, ["a", "b", "c"]);
    assert!(!truncated);
}

#[test]
fn branches_are_newest_first_and_mark_head() {
    let branches = branches(" \tfeature\t1500000000\n*\tmain\t1000000000\n");

    let names: Vec<&str> = branches.iter().map(|branch| branch.name.as_str()).collect();
    assert_eq!(names, ["feature", "main"]);
    assert!(!branches[0].is_head);
    assert!(branches[1].is_head);
    assert_eq!(branches[0].last_commit, 1_500_000_000);
}

#[test]
fn branches_empty_without_commits() {
    assert!(branches("").is_empty());
}

#[test]
fn uncommitted_diff_without_commits_lists_untracked() {
    let diff = uncommitted_diff(None, "new.txt\n");

    assert_eq!(diff.untracked, ["new.txt"]);
    assert!(diff.stat.is_empty());
    assert!(diff.patch.is_empty());
}

#[test]
fn uncommitted_diff_separates_tracked_changes_from_untracked() {
    let stat = " notes.txt  | 2 +-\n staged.txt | 1 +\n 2 files changed, 2 insertions(+), 1 deletion(-)\n";
    let patch = "diff --git a/notes.txt b/notes.txt\n@@ -1 +1 @@\n-old\n+new\ndiff --git a/staged.txt b/staged.txt\n+staged\n";

    let diff = uncommitted_diff(Some((stat.to_string(), patch.to_string())), "untracked.txt\n");

    assert!(diff.patch.iter().any(|line| line == "-old"));
    assert!(diff.patch.iter().any(|line| line == "+new"));
    assert!(diff.stat.contains("staged.txt"));
    assert_eq!(diff.untracked, ["untracked.txt"]);
}

#[test]
fn uncommitted_diff_clean_repo_is_empty() {
    let diff = uncommitted_diff(Some((String::new(), String::new())), "");

    assert!(diff.stat.is_empty());
    assert!(diff.patch.is_empty());
    assert!(diff.untracked.is_empty());
}

#[test]
fn uncommitted_diff_scoped_to_subdirectory() {
    let diff = uncommitted_diff(Some((String::new(), String::new())), "inner.txt\n");

    assert!(diff.patch.is_empty());
    assert_eq!(diff.untracked, ["inner.txt"]);
}
