use ugh::domain::branch::BranchName;
use ugh::error::AppError;
use ugh::infra::git::{
    branch_from_output, branch_ref, checked_output, checkout_args, checkout_probe,
    compose_summary, count_changed_files, current_branch_args, diff_stat_args,
    diff_stat_or_none, spawn_failure, status_args, summarize_status, wants_diff_stat,
    GitCommandOutput,
};

fn output(success: bool, stdout: &str, stderr: &str) -> GitCommandOutput {
    GitCommandOutput {
        stdout: stdout.to_string(),
        stderr: stderr.to_string(),
        success,
    }
}

#[test]
fn counts_status_entries() {
    assert_eq!(count_changed_files(""), 0);
    assert_eq!(count_changed_files("\n  \n"), 0);
    assert_eq!(count_changed_files(" M src/a.rs\n?? b.txt\n"), 2);
    assert_eq!(count_changed_files(" M src/a.rs\r\n\r\n?? b.txt"), 2);
}

#[test]
fn clean_tree_is_an_empty_summary() {
    let changes = summarize_status("\n", "", "main");
    assert_eq!(changes.files_changed, 0);
    assert_eq!(changes.summary, "");
}

#[test]
fn summarizes_changes_with_diff_statistics() {
    let changes = summarize_status(
        " M src/a.rs\n?? b.txt\n",
        " src/a.rs | 2 +-\n 1 file changed, 1 insertion(+), 1 deletion(-)\n",
        "main",
    );
    assert_eq!(changes.files_changed, 2);
    assert_eq!(
        changes.summary,
        "Branch main has 2 file(s) with local changes.\n   M src/a.rs\n  ?? b.txt\n\nDiff summary:\n   src/a.rs | 2 +-\n   1 file changed, 1 insertion(+), 1 deletion(-)"
    );
}

#[test]
fn summarizes_changes_without_diff_statistics() {
    let changes = summarize_status("?? b.txt", "  \n", "HEAD");
    assert_eq!(changes.files_changed, 1);
    assert_eq!(
        changes.summary,
        "Branch HEAD has 1 file(s) with local changes.\n  ?? b.txt"
    );
}

#[test]
fn shows_at_most_eight_entries() {
    let status: String = (0..10).map(|i| format!("?? f{i}\n")).collect();
    let stat: String = (0..9).map(|i| format!("f{i} | 1 +\n")).collect();
    let changes = summarize_status(&status, &stat, "dev");
    assert_eq!(changes.files_changed, 10);
    let lines: Vec<&str> = changes.summary.split('\n').collect();
    assert_eq!(lines.len(), 1 + 8 + 1 + 2 + 8);
    assert_eq!(lines[0], "Branch dev has 10 file(s) with local changes.");
    assert_eq!(lines[1], "  ?? f0");
    assert_eq!(lines[8], "  ?? f7");
    assert_eq!(lines[9], "  \u{2026}");
    assert_eq!(lines[10], "");
    assert_eq!(lines[11], "Diff summary:");
    assert_eq!(lines[12], "  f0 | 1 +");
    assert_eq!(lines[19], "  f7 | 1 +");
    let eight: String = (0..8).map(|i| format!("?? f{i}\n")).collect();
    assert!(!summarize_status(&eight, "", "dev").summary.contains('\u{2026}'));
}

#[test]
fn successful_command_gives_its_output() {
    let args = vec!["status".to_string(), "--short".to_string()];
    match checked_output(&args, output(true, " M a\n", "warning")) {
        Ok(stdout) => assert_eq!(stdout, " M a\n"),
        Err(_) => panic!("a successful command was reported as failed"),
    }
}

#[test]
fn failed_command_is_a_version_control_error() {
    let args = vec!["diff".to_string(), "--stat=200".to_string()];
    match checked_output(&args, output(false, "", "  fatal: not a git repository\n")) {
        Err(AppError::VersionControl(message)) => assert_eq!(
            message,
            "git diff --stat=200 failed: fatal: not a git repository"
        ),
        _ => panic!("a failed command was not reported"),
    }
    match checked_output(&Vec::new(), output(false, "", "")) {
        Err(AppError::VersionControl(message)) => assert_eq!(message, "git  failed: "),
        _ => panic!("a failed command was not reported"),
    }
}

#[test]
fn reads_the_current_branch() {
    assert_eq!(branch_from_output(Some(output(true, "main\n", ""))), "main");
    assert_eq!(branch_from_output(Some(output(false, "main\n", ""))), "HEAD");
    assert_eq!(branch_from_output(None), "HEAD");
}

#[test]
fn plans_the_checkout() {
    let branch = BranchName("fix/TCK-7/fix-login-bug".to_string());
    assert_eq!(branch_ref(branch.as_str()), "refs/heads/fix/TCK-7/fix-login-bug");
    match checkout_probe(&branch) {
        Ok(args) => assert_eq!(
            args,
            vec![
                "show-ref",
                "--verify",
                "--quiet",
                "refs/heads/fix/TCK-7/fix-login-bug"
            ]
        ),
        Err(_) => panic!("a named branch was refused"),
    }
    assert_eq!(
        checkout_args(&branch, true),
        vec!["checkout", "fix/TCK-7/fix-login-bug"]
    );
    assert_eq!(
        checkout_args(&branch, false),
        vec!["checkout", "-b", "fix/TCK-7/fix-login-bug"]
    );
}

#[test]
fn refuses_a_branch_without_a_name() {
    match checkout_probe(&BranchName(String::new())) {
        Err(AppError::VersionControl(message)) => {
            assert_eq!(message, "branch name cannot be empty")
        }
        _ => panic!("an empty branch name was accepted"),
    }
}

#[test]
fn composes_summary_from_entries() {
    let entries: Vec<Vec<char>> = vec![" M a.rs".chars().collect()];
    let stats: Vec<Vec<char>> = vec![];
    let changes = compose_summary(&entries, &stats, "main");
    assert_eq!(changes.files_changed, 1);
    assert_eq!(
        changes.summary,
        "Branch main has 1 file(s) with local changes.\n   M a.rs"
    );
    let none = compose_summary(&Vec::new(), &entries, "main");
    assert_eq!(none.files_changed, 0);
    assert_eq!(none.summary, "");
}

#[test]
fn names_the_commands_that_read_the_repository() {
    assert_eq!(status_args(), vec!["status", "--short"]);
    assert_eq!(diff_stat_args(), vec!["diff", "--stat=200"]);
    assert_eq!(current_branch_args(), vec!["rev-parse", "--abbrev-ref", "HEAD"]);
}

#[test]
fn asks_for_diff_statistics_only_with_changes() {
    assert!(!wants_diff_stat(""));
    assert!(!wants_diff_stat("\n \n"));
    assert!(wants_diff_stat(" M a.rs\n"));
}

#[test]
fn failed_diff_counts_as_none() {
    assert_eq!(diff_stat_or_none(Some(Ok(" a | 1 +\n".to_string()))), " a | 1 +\n");
    let failed = AppError::VersionControl("git diff --stat=200 failed: oops".to_string());
    assert_eq!(diff_stat_or_none(Some(Err(failed))), "");
    assert_eq!(diff_stat_or_none(None), "");
}

#[test]
fn command_that_cannot_start_is_a_version_control_error() {
    match spawn_failure("No such file or directory (os error 2)") {
        AppError::VersionControl(message) => assert_eq!(
            message,
            "failed to run git: No such file or directory (os error 2)"
        ),
        _ => panic!("not a version-control error"),
    }
}
