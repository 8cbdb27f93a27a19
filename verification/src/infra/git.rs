//! The library's side of the repository: what is made of the output of
//! `git`, and which command is run next.

use vstd::prelude::*;
use crate::domain::branch::BranchName;
use crate::domain::change::ChangeSummary;
use crate::error::{AppError, AppResult, ErrorKind};
use crate::text::{
    append_str, append_vec, at_most, chars_of, decimal, decimal_digits, join, join_vecs,
    keep_nonblank, lines, nonblank, prefixed, split_lines, string_of, texts, trim, trim_vec,
};

verus! {

/// How many entries of each listing a summary shows.
pub const SHOWN_ENTRIES: usize = 8;

/// The entries of a listing: its lines that are not blank.
pub open spec fn entries_of(output: Seq<char>) -> Seq<Seq<char>> {
    nonblank(lines(output))
}

/// The entries of a short status listing.
pub open spec fn status_entries(status_output: Seq<char>) -> Seq<Seq<char>> {
    entries_of(status_output)
}

/// The head line of a summary.
pub open spec fn summary_head(branch: Seq<char>, files_changed: nat) -> Seq<char> {
    "Branch "@ + branch + " has "@ + decimal(files_changed) + " file(s) with local changes."@
}

/// The lines that show the diff statistics `stats`: none where there are
/// none, else an empty line, a heading, and up to eight of them, indented.
pub open spec fn diff_lines(stats: Seq<Seq<char>>) -> Seq<Seq<char>> {
    if stats.len() == 0 {
        Seq::<Seq<char>>::empty()
    } else {
        seq![Seq::<char>::empty(), "Diff summary:"@] + prefixed(
            at_most(stats, SHOWN_ENTRIES as nat),
            "  "@,
        )
    }
}

/// The mark that stands for the entries a summary does not show.
pub open spec fn more_mark(files_changed: nat) -> Seq<Seq<char>> {
    if files_changed > SHOWN_ENTRIES {
        seq!["  \u{2026}"@]
    } else {
        Seq::<Seq<char>>::empty()
    }
}

/// The lines of the summary of a working tree with the changes `entries`:
/// the head line, up to eight entries, a mark where there are more, and
/// the diff statistics.
pub open spec fn summary_lines(
    entries: Seq<Seq<char>>,
    stats: Seq<Seq<char>>,
    branch: Seq<char>,
) -> Seq<Seq<char>> {
    seq![summary_head(branch, entries.len())] + prefixed(
        at_most(entries, SHOWN_ENTRIES as nat),
        "  "@,
    ) + more_mark(entries.len()) + diff_lines(stats)
}

/// The text of the summary for the changes `entries`: empty where there
/// are none, else the [`summary_lines`], one per line.
pub open spec fn composed_summary(
    entries: Seq<Seq<char>>,
    stats: Seq<Seq<char>>,
    branch: Seq<char>,
) -> Seq<char> {
    if entries.len() == 0 {
        Seq::<char>::empty()
    } else {
        join(summary_lines(entries, stats, branch), "\n"@)
    }
}

/// The text of the change summary made of what `git` printed.
pub open spec fn summary_text(
    status_output: Seq<char>,
    diff_stat: Seq<char>,
    branch: Seq<char>,
) -> Seq<char> {
    composed_summary(entries_of(status_output), entries_of(diff_stat), branch)
}

/// Counts the entries of a short status listing.
pub fn count_changed_files(status_output: &str) -> (files_changed: usize)
    ensures
        files_changed == status_entries(status_output@).len(),
{
    keep_nonblank(split_lines(&chars_of(status_output))).len()
}

/// Appends up to eight of `entries` to `out`, each indented by two spaces.
fn push_indented(out: &mut Vec<Vec<char>>, entries: &Vec<Vec<char>>)
    ensures
        texts(final(out)@) == texts(old(out)@) + prefixed(
            at_most(texts(entries@), SHOWN_ENTRIES as nat),
            "  "@,
        ),
{
    let limit: usize = if entries.len() <= SHOWN_ENTRIES {
        entries.len()
    } else {
        SHOWN_ENTRIES
    };
    let ghost before = texts(out@);
    let ghost shown = prefixed(at_most(texts(entries@), SHOWN_ENTRIES as nat), "  "@);
    let mut i: usize = 0;
    assert(before + shown.take(0) == before);
    while i < limit
        invariant
            i <= limit <= entries.len(),
            limit == shown.len(),
            shown == prefixed(at_most(texts(entries@), SHOWN_ENTRIES as nat), "  "@),
            texts(out@) == before + shown.take(i as int),
        decreases limit - i,
    {
        let mut line: Vec<char> = Vec::new();
        append_str(&mut line, "  ");
        append_vec(&mut line, &entries[i]);
        let ghost so_far = texts(out@);
        assert(line@ == shown[i as int]);
        out.push(line);
        assert(texts(out@) == so_far.push(shown[i as int]));
        assert(shown.take(i + 1) == shown.take(i as int).push(shown[i as int]));
        i += 1;
    }
    assert(shown.take(limit as int) == shown);
}

/// Puts the change summary together from the entries of the status
/// listing and of the diff statistics, and the name of the current branch.
///
/// A working tree without changes is reported as no files and an empty
/// summary.
pub fn compose_summary(entries: &Vec<Vec<char>>, stats: &Vec<Vec<char>>, branch: &str) -> (changes:
    ChangeSummary)
    ensures
        changes.files_changed == entries.len(),
        changes.summary@ == composed_summary(texts(entries@), texts(stats@), branch@),
{
    let files_changed = entries.len();
    if files_changed == 0 {
        return ChangeSummary::empty();
    }
    let mut head: Vec<char> = Vec::new();
    append_str(&mut head, "Branch ");
    append_str(&mut head, branch);
    append_str(&mut head, " has ");
    append_vec(&mut head, &decimal_digits(files_changed));
    append_str(&mut head, " file(s) with local changes.");
    let mut out: Vec<Vec<char>> = Vec::new();
    let ghost head_text = head@;
    out.push(head);
    assert(texts(out@) == seq![head_text]);
    push_indented(&mut out, entries);
    if files_changed > SHOWN_ENTRIES {
        let ghost so_far = texts(out@);
        let mark = chars_of("  \u{2026}");
        out.push(mark);
        assert(texts(out@) == so_far + seq![mark@]);
    } else {
        assert(texts(out@) + Seq::<Seq<char>>::empty() == texts(out@));
    }
    if stats.len() > 0 {
        let ghost so_far = texts(out@);
        let heading = chars_of("Diff summary:");
        out.push(Vec::new());
        out.push(heading);
        assert(texts(out@) == so_far + seq![Seq::<char>::empty(), heading@]);
        push_indented(&mut out, stats);
        assert(texts(out@) == so_far + diff_lines(texts(stats@)));
    } else {
        assert(texts(out@) + Seq::<Seq<char>>::empty() == texts(out@));
    }
    ChangeSummary { files_changed, summary: string_of(&join_vecs(&out, "\n")) }
}

/// Summarizes the local changes from what `git` printed: the short status
/// listing, the diff statistics, and the name of the current branch.
pub fn summarize_status(status_output: &str, diff_stat: &str, branch: &str) -> (changes:
    ChangeSummary)
    ensures
        changes.files_changed == status_entries(status_output@).len(),
        changes.summary@ == summary_text(status_output@, diff_stat@, branch@),
{
    let entries = keep_nonblank(split_lines(&chars_of(status_output)));
    let stats = keep_nonblank(split_lines(&chars_of(diff_stat)));
    compose_summary(&entries, &stats, branch)
}

/// What a finished `git` command left behind.
pub struct GitCommandOutput {
    pub stdout: String,
    pub stderr: String,
    pub success: bool,
}

/// The texts that a list of strings holds.
pub open spec fn arg_texts(args: Seq<String>) -> Seq<Seq<char>> {
    Seq::new(args.len(), |i: int| args[i]@)
}

/// The message for a `git` command that ended in failure.
pub open spec fn failure_text(args: Seq<Seq<char>>, stderr: Seq<char>) -> Seq<char> {
    "git "@ + join(args, " "@) + " failed: "@ + trim(stderr)
}

/// Takes the output of a command that has to succeed: its standard output
/// if it did, else a version-control error that names the command and
/// quotes what it wrote to standard error.
pub fn checked_output(args: &Vec<String>, output: GitCommandOutput) -> (out: AppResult<String>)
    ensures
        output.success ==> out == Ok::<String, AppError>(output.stdout),
        !output.success ==> out is Err && out->Err_0 is VersionControl
            && out->Err_0->VersionControl_0@ == failure_text(arg_texts(args@), output.stderr@),
{
    if output.success {
        return Ok(output.stdout);
    }
    let mut parts: Vec<Vec<char>> = Vec::new();
    let mut i: usize = 0;
    assert(texts(parts@) == arg_texts(args@).take(0));
    while i < args.len()
        invariant
            i <= args.len(),
            texts(parts@) == arg_texts(args@).take(i as int),
        decreases args.len() - i,
    {
        let ghost so_far = texts(parts@);
        let part = chars_of(args[i].as_str());
        parts.push(part);
        assert(texts(parts@) == so_far.push(args@[i as int]@));
        assert(arg_texts(args@).take(i + 1) == arg_texts(args@).take(i as int).push(
            args@[i as int]@,
        ));
        i += 1;
    }
    assert(arg_texts(args@).take(args.len() as int) == arg_texts(args@));
    let mut text: Vec<char> = Vec::new();
    append_str(&mut text, "git ");
    append_vec(&mut text, &join_vecs(&parts, " "));
    append_str(&mut text, " failed: ");
    append_vec(&mut text, &trim_vec(&chars_of(output.stderr.as_str())));
    Err(AppError::VersionControl(string_of(&text)))
}

/// The name of the current branch as `git rev-parse --abbrev-ref HEAD`
/// printed it, or `HEAD` where that command failed.
pub fn branch_from_output(output: Option<GitCommandOutput>) -> (branch: String)
    ensures
        branch@ == match output {
            Some(result) => if result.success {
                trim(result.stdout@)
            } else {
                "HEAD"@
            },
            None => "HEAD"@,
        },
{
    match output {
        Some(result) => {
            if result.success {
                string_of(&trim_vec(&chars_of(result.stdout.as_str())))
            } else {
                "HEAD".to_owned()
            }
        },
        None => "HEAD".to_owned(),
    }
}

/// The full name of the reference of a local branch.
pub fn branch_ref(branch: &str) -> (name: String)
    ensures
        name@ == "refs/heads/"@ + branch@,
{
    let mut text: Vec<char> = Vec::new();
    append_str(&mut text, "refs/heads/");
    append_str(&mut text, branch);
    string_of(&text)
}

/// What checking out a branch begins with: a branch without a name is
/// refused; for any other, the arguments that ask `git` whether it exists.
pub fn checkout_probe(branch: &BranchName) -> (out: AppResult<Vec<String>>)
    ensures
        branch@.len() == 0 ==> out is Err && out->Err_0 is VersionControl
            && out->Err_0->VersionControl_0@ == "branch name cannot be empty"@,
        branch@.len() > 0 ==> out is Ok && arg_texts(out->Ok_0@) == seq![
            "show-ref"@,
            "--verify"@,
            "--quiet"@,
            "refs/heads/"@ + branch@,
        ],
{
    if branch.as_str().is_empty() {
        return Err(AppError::VersionControl("branch name cannot be empty".to_owned()));
    }
    let mut args: Vec<String> = Vec::new();
    args.push("show-ref".to_owned());
    args.push("--verify".to_owned());
    args.push("--quiet".to_owned());
    args.push(branch_ref(branch.as_str()));
    assert(arg_texts(args@) == seq![
        "show-ref"@,
        "--verify"@,
        "--quiet"@,
        "refs/heads/"@ + branch@,
    ]);
    Ok(args)
}

/// The arguments that switch to a branch that is already there, or create
/// one that is not.
pub open spec fn checkout_arg_texts(branch: Seq<char>, present: bool) -> Seq<Seq<char>> {
    if present {
        seq!["checkout"@, branch]
    } else {
        seq!["checkout"@, "-b"@, branch]
    }
}

/// The arguments that switch to `branch` where it is present, and create it
/// where it is not.
pub fn checkout_args(branch: &BranchName, present: bool) -> (args: Vec<String>)
    ensures
        arg_texts(args@) == checkout_arg_texts(branch@, present),
{
    let mut args: Vec<String> = Vec::new();
    args.push("checkout".to_owned());
    if !present {
        args.push("-b".to_owned());
    }
    args.push(branch.as_str().to_owned());
    assert(arg_texts(args@) == checkout_arg_texts(branch@, present));
    args
}

/// The arguments that list the local changes in short form.
pub fn status_args() -> (args: Vec<String>)
    ensures
        arg_texts(args@) == seq!["status"@, "--short"@],
{
    let mut args: Vec<String> = Vec::new();
    args.push("status".to_owned());
    args.push("--short".to_owned());
    assert(arg_texts(args@) == seq!["status"@, "--short"@]);
    args
}

/// The arguments that ask for the diff statistics.
pub fn diff_stat_args() -> (args: Vec<String>)
    ensures
        arg_texts(args@) == seq!["diff"@, "--stat=200"@],
{
    let mut args: Vec<String> = Vec::new();
    args.push("diff".to_owned());
    args.push("--stat=200".to_owned());
    assert(arg_texts(args@) == seq!["diff"@, "--stat=200"@]);
    args
}

/// The arguments that ask for the name of the current branch.
pub fn current_branch_args() -> (args: Vec<String>)
    ensures
        arg_texts(args@) == seq!["rev-parse"@, "--abbrev-ref"@, "HEAD"@],
{
    let mut args: Vec<String> = Vec::new();
    args.push("rev-parse".to_owned());
    args.push("--abbrev-ref".to_owned());
    args.push("HEAD".to_owned());
    assert(arg_texts(args@) == seq!["rev-parse"@, "--abbrev-ref"@, "HEAD"@]);
    args
}

/// Whether the diff statistics are asked for: only where the status
/// listing has entries.
pub fn wants_diff_stat(status_output: &str) -> (wanted: bool)
    ensures
        wanted == (status_entries(status_output@).len() > 0),
{
    count_changed_files(status_output) > 0
}

/// The diff statistics that a summary is made of: what the command
/// printed, or nothing where it failed or was not run.
pub fn diff_stat_or_none(outcome: Option<AppResult<String>>) -> (diff_stat: String)
    ensures
        diff_stat@ == match outcome {
            Some(Ok(text)) => text@,
            _ => Seq::<char>::empty(),
        },
{
    match outcome {
        Some(Ok(text)) => text,
        _ => String::new(),
    }
}

/// The error for a `git` command that could not be started; `reason` says
/// why.
pub fn spawn_failure(reason: &str) -> (error: AppError)
    ensures
        error.reads(ErrorKind::VersionControl, "failed to run git: "@ + reason@),
{
    let mut text = chars_of("failed to run git: ");
    append_str(&mut text, reason);
    AppError::VersionControl(string_of(&text))
}

} // verus!
