//! Reading what `git` prints: the short status, the list of branches and the
//! one-line log.

use crate::chars::{
    after_prefixes, chars_of, digits, find_char, lines_of, pattern_at, position_of, push_digits,
    skip_prefixes, split_lines, stands_at, string_of, trim, trimmed,
};
use vstd::prelude::*;

verus! {

/// One changed path of the working tree.
#[derive(Debug, Clone)]
pub struct GitChange {
    pub path: String,
    pub status: String,
    pub staged: bool,
}

/// The mathematical form of a `GitChange`.
pub ghost struct GitChangeView {
    pub path: Seq<char>,
    pub status: Seq<char>,
    pub staged: bool,
}

impl View for GitChange {
    type V = GitChangeView;

    open spec fn view(&self) -> GitChangeView {
        GitChangeView { path: self.path@, status: self.status@, staged: self.staged }
    }
}

/// The branch checked out, if it could be told, and the changed paths.
#[derive(Debug, Clone)]
pub struct GitStatusResult {
    pub branch: Option<String>,
    pub changes: Vec<GitChange>,
}

/// One branch of the repository.
#[derive(Debug, Clone)]
pub struct GitBranch {
    pub name: String,
    pub current: bool,
    pub remote: bool,
}

/// The mathematical form of a `GitBranch`.
pub ghost struct GitBranchView {
    pub name: Seq<char>,
    pub current: bool,
    pub remote: bool,
}

impl View for GitBranch {
    type V = GitBranchView;

    open spec fn view(&self) -> GitBranchView {
        GitBranchView { name: self.name@, current: self.current, remote: self.remote }
    }
}

/// One commit of the log.
#[derive(Debug, Clone)]
pub struct GitCommit {
    pub hash: String,
    pub full_hash: String,
    pub message: String,
}

/// The mathematical form of a `GitCommit`.
pub ghost struct GitCommitView {
    pub hash: Seq<char>,
    pub full_hash: Seq<char>,
    pub message: Seq<char>,
}

impl View for GitCommit {
    type V = GitCommitView;

    open spec fn view(&self) -> GitCommitView {
        GitCommitView { hash: self.hash@, full_hash: self.full_hash@, message: self.message@ }
    }
}

/// What the two status letters of a path mean: the kind of change, and
/// whether it is staged. The letter of the index is looked at first.
pub open spec fn change_kind(index: char, worktree: char) -> (Seq<char>, bool) {
    if index == 'M' {
        ("modified"@, true)
    } else if worktree == 'M' {
        ("modified"@, false)
    } else if index == 'A' {
        ("added"@, true)
    } else if index == 'D' {
        ("deleted"@, true)
    } else if worktree == 'D' {
        ("deleted"@, false)
    } else if index == 'R' {
        ("renamed"@, true)
    } else if index == '?' && worktree == '?' {
        ("untracked"@, false)
    } else {
        ("unknown"@, false)
    }
}

/// Whether a line of the short status names a path: two status letters and a
/// separator, all ASCII, and at least one character of path.
pub open spec fn names_change(line: Seq<char>) -> bool {
    line.len() >= 4 && (line[0] as u32) < 128 && (line[1] as u32) < 128 && (line[2] as u32) < 128
}

/// The change that a line of the short status names.
pub open spec fn change_of(line: Seq<char>) -> GitChangeView {
    GitChangeView {
        path: line.subrange(3, line.len() as int),
        status: change_kind(line[0], line[1]).0,
        staged: change_kind(line[0], line[1]).1,
    }
}

/// The changes that the first `n` lines name.
pub open spec fn changes_of(lines: Seq<Seq<char>>, n: nat) -> Seq<GitChangeView>
    decreases n,
{
    if n == 0 {
        Seq::empty()
    } else if names_change(lines[n - 1]) {
        changes_of(lines, (n - 1) as nat).push(change_of(lines[n - 1]))
    } else {
        changes_of(lines, (n - 1) as nat)
    }
}

/// The views of a vector of changes.
pub open spec fn change_views(changes: Seq<GitChange>) -> Seq<GitChangeView> {
    Seq::new(changes.len(), |i: int| changes[i]@)
}

/// The branch that a line of the branch list names. The line is trimmed; a
/// leading `*` marks the current branch; the name is what follows the marker,
/// trimmed; a name under `remotes/` is remote, and loses `remotes/origin/`.
pub open spec fn branch_of(line: Seq<char>) -> GitBranchView {
    let t = trimmed(line);
    let marked = trimmed(t.subrange(after_prefixes(t, "* "@, 0), t.len() as int));
    GitBranchView {
        name: marked.subrange(after_prefixes(marked, "remotes/origin/"@, 0), marked.len() as int),
        current: t.len() > 0 && t[0] == '*',
        remote: stands_at(marked, "remotes/"@, 0),
    }
}

/// The branches that the first `n` lines name; blank lines name none.
pub open spec fn branches_of(lines: Seq<Seq<char>>, n: nat) -> Seq<GitBranchView>
    decreases n,
{
    if n == 0 {
        Seq::empty()
    } else if trimmed(lines[n - 1]).len() > 0 {
        branches_of(lines, (n - 1) as nat).push(branch_of(lines[n - 1]))
    } else {
        branches_of(lines, (n - 1) as nat)
    }
}

/// The views of a vector of branches.
pub open spec fn branch_views(branches: Seq<GitBranch>) -> Seq<GitBranchView> {
    Seq::new(branches.len(), |i: int| branches[i]@)
}

/// Whether a line of the log holds its three parts: at least two bars.
pub open spec fn names_commit(line: Seq<char>) -> bool {
    position_of(line, '|', 0) < line.len() && position_of(
        line,
        '|',
        position_of(line, '|', 0) + 1,
    ) < line.len()
}

/// The commit that a line of the log names: the short hash up to the first
/// bar, the full hash up to the second, and the message after it, bars and
/// all.
pub open spec fn commit_of(line: Seq<char>) -> GitCommitView {
    let first = position_of(line, '|', 0);
    let second = position_of(line, '|', first + 1);
    GitCommitView {
        hash: line.subrange(0, first),
        full_hash: line.subrange(first + 1, second),
        message: line.subrange(second + 1, line.len() as int),
    }
}

/// The commits that the first `n` lines name.
pub open spec fn commits_of(lines: Seq<Seq<char>>, n: nat) -> Seq<GitCommitView>
    decreases n,
{
    if n == 0 {
        Seq::empty()
    } else if names_commit(lines[n - 1]) {
        commits_of(lines, (n - 1) as nat).push(commit_of(lines[n - 1]))
    } else {
        commits_of(lines, (n - 1) as nat)
    }
}

/// The views of a vector of commits.
pub open spec fn commit_views(commits: Seq<GitCommit>) -> Seq<GitCommitView> {
    Seq::new(commits.len(), |i: int| commits[i]@)
}

fn kind_of(index: char, worktree: char) -> (r: (&'static str, bool))
    ensures
        r.0@ == change_kind(index, worktree).0,
        r.1 == change_kind(index, worktree).1,
{
    if index == 'M' {
        ("modified", true)
    } else if worktree == 'M' {
        ("modified", false)
    } else if index == 'A' {
        ("added", true)
    } else if index == 'D' {
        ("deleted", true)
    } else if worktree == 'D' {
        ("deleted", false)
    } else if index == 'R' {
        ("renamed", true)
    } else if index == '?' && worktree == '?' {
        ("untracked", false)
    } else {
        ("unknown", false)
    }
}

/// Reads one line of the short status.
pub fn parse_status_line(line: &str) -> (r: Option<GitChange>)
    ensures
        r is Some == names_change(line@),
        r matches Some(change) ==> change@ == change_of(line@),
{
    let chars = chars_of(line);
    if chars.len() < 4 || chars[0] as u32 >= 128 || chars[1] as u32 >= 128 || chars[2] as u32 >= 128 {
        return None;
    }
    let (status, staged) = kind_of(chars[0], chars[1]);
    Some(
        GitChange {
            path: string_of(&chars, 3, chars.len()),
            status: String::from_str(status),
            staged,
        },
    )
}

/// Reads the short status: one change for each line that names one.
pub fn parse_status(output: &str) -> (r: Vec<GitChange>)
    ensures
        change_views(r@) == changes_of(lines_of(output@), lines_of(output@).len()),
{
    let lines = split_lines(output);
    let mut changes: Vec<GitChange> = Vec::new();
    let mut i: usize = 0;
    assert(change_views(changes@) =~= changes_of(lines.deep_view(), 0));
    while i < lines.len()
        invariant
            i <= lines@.len(),
            lines.deep_view() == lines_of(output@),
            change_views(changes@) == changes_of(lines.deep_view(), i as nat),
        decreases lines.len() - i,
    {
        let ghost before = change_views(changes@);
        assert(lines.deep_view()[i as int] == lines@[i as int]@);
        match parse_status_line(lines[i].as_str()) {
            Some(change) => {
                changes.push(change);
                assert(change_views(changes@) =~= before.push(change@));
            },
            None => {},
        }
        i = i + 1;
    }
    assert(lines.deep_view().len() == lines@.len());
    changes
}

impl GitStatusResult {
    /// The status that the two outputs of `git` stand for: the name of the
    /// branch, trimmed, where it could be asked, and the changes of the short
    /// status.
    pub fn new(branch_output: Option<&str>, status_output: &str) -> (r: GitStatusResult)
        ensures
            r.branch.deep_view() == match branch_output {
                Some(text) => Some(trimmed(text@)),
                None => None,
            },
            change_views(r.changes@) == changes_of(
                lines_of(status_output@),
                lines_of(status_output@).len(),
            ),
    {
        GitStatusResult {
            branch: match branch_output {
                Some(text) => Some(trim(text)),
                None => None,
            },
            changes: parse_status(status_output),
        }
    }
}

/// Reads one line of the branch list.
pub fn parse_branch_line(line: &str) -> (r: GitBranch)
    ensures
        r@ == branch_of(line@),
{
    let t = trim(line);
    let chars = chars_of(t.as_str());
    let current = chars.len() > 0 && chars[0] == '*';
    let marker = chars_of("* ");
    let from = skip_prefixes(&chars, &marker, 0);
    let rest = string_of(&chars, from, chars.len());
    let marked = trim(rest.as_str());
    let name_chars = chars_of(marked.as_str());
    let remote = pattern_at(&name_chars, &chars_of("remotes/"), 0);
    let origin = chars_of("remotes/origin/");
    let start = skip_prefixes(&name_chars, &origin, 0);
    GitBranch { name: string_of(&name_chars, start, name_chars.len()), current, remote }
}

/// Reads the branch list: one branch for each line that is not blank.
pub fn parse_branches(output: &str) -> (r: Vec<GitBranch>)
    ensures
        branch_views(r@) == branches_of(lines_of(output@), lines_of(output@).len()),
{
    let lines = split_lines(output);
    let mut branches: Vec<GitBranch> = Vec::new();
    let mut i: usize = 0;
    assert(branch_views(branches@) =~= branches_of(lines.deep_view(), 0));
    while i < lines.len()
        invariant
            i <= lines@.len(),
            lines.deep_view() == lines_of(output@),
            branch_views(branches@) == branches_of(lines.deep_view(), i as nat),
        decreases lines.len() - i,
    {
        let ghost before = branch_views(branches@);
        assert(lines.deep_view()[i as int] == lines@[i as int]@);
        if trim(lines[i].as_str()).as_str().unicode_len() > 0 {
            let branch = parse_branch_line(lines[i].as_str());
            branches.push(branch);
            assert(branch_views(branches@) =~= before.push(branch_of(lines@[i as int]@)));
        }
        i = i + 1;
    }
    assert(lines.deep_view().len() == lines@.len());
    branches
}

/// Reads one line of the log.
pub fn parse_log_line(line: &str) -> (r: Option<GitCommit>)
    ensures
        r is Some == names_commit(line@),
        r matches Some(commit) ==> commit@ == commit_of(line@),
{
    let chars = chars_of(line);
    let first = find_char(&chars, '|', 0);
    if first >= chars.len() {
        return None;
    }
    let second = find_char(&chars, '|', first + 1);
    if second >= chars.len() {
        return None;
    }
    Some(
        GitCommit {
            hash: string_of(&chars, 0, first),
            full_hash: string_of(&chars, first + 1, second),
            message: string_of(&chars, second + 1, chars.len()),
        },
    )
}

/// Reads the log: one commit for each line that holds its three parts.
pub fn parse_log(output: &str) -> (r: Vec<GitCommit>)
    ensures
        commit_views(r@) == commits_of(lines_of(output@), lines_of(output@).len()),
{
    let lines = split_lines(output);
    let mut commits: Vec<GitCommit> = Vec::new();
    let mut i: usize = 0;
    assert(commit_views(commits@) =~= commits_of(lines.deep_view(), 0));
    while i < lines.len()
        invariant
            i <= lines@.len(),
            lines.deep_view() == lines_of(output@),
            commit_views(commits@) == commits_of(lines.deep_view(), i as nat),
        decreases lines.len() - i,
    {
        let ghost before = commit_views(commits@);
        assert(lines.deep_view()[i as int] == lines@[i as int]@);
        match parse_log_line(lines[i].as_str()) {
            Some(commit) => {
                commits.push(commit);
                assert(commit_views(commits@) =~= before.push(commit@));
            },
            None => {},
        }
        i = i + 1;
    }
    assert(lines.deep_view().len() == lines@.len());
    commits
}

/// The arguments that check a branch out, creating it where asked.
pub fn checkout_args(name: &str, create: Option<bool>) -> (r: Vec<String>)
    ensures
        create == Some(true) ==> r.deep_view() == seq!["checkout"@, "-b"@, name@],
        create != Some(true) ==> r.deep_view() == seq!["checkout"@, name@],
{
    let mut args: Vec<String> = Vec::new();
    args.push(String::from_str("checkout"));
    let creating = match create {
        Some(b) => b,
        None => false,
    };
    if creating {
        args.push(String::from_str("-b"));
    }
    args.push(String::from_str(name));
    proof {
        if creating {
            assert(args.deep_view() =~= seq!["checkout"@, "-b"@, name@]);
        } else {
            assert(args.deep_view() =~= seq!["checkout"@, name@]);
        }
    }
    args
}

/// How many commits the log shows where no limit is given.
pub const DEFAULT_LOG_LIMIT: usize = 50;

/// The arguments that print the log, one line for each of at most `limit`
/// commits: short hash, full hash and subject, with bars between.
pub fn log_args(limit: Option<usize>) -> (r: Vec<String>)
    ensures
        r.deep_view() == seq![
            "log"@,
            "--oneline"@,
            "-n"@,
            digits(
                match limit {
                    Some(n) => n as nat,
                    None => DEFAULT_LOG_LIMIT as nat,
                },
            ),
            "--format=%h|%H|%s"@,
        ],
{
    let n = match limit {
        Some(n) => n,
        None => DEFAULT_LOG_LIMIT,
    };
    let mut count = String::new();
    push_digits(&mut count, n as u64);
    assert(count@ =~= digits(n as nat));
    let mut args: Vec<String> = Vec::new();
    args.push(String::from_str("log"));
    args.push(String::from_str("--oneline"));
    args.push(String::from_str("-n"));
    args.push(count);
    args.push(String::from_str("--format=%h|%H|%s"));
    assert(args.deep_view() =~= seq![
        "log"@,
        "--oneline"@,
        "-n"@,
        digits(n as nat),
        "--format=%h|%H|%s"@,
    ]);
    args
}

} // verus!
