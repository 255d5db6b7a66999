//! What the terminal commands decide before a process is started, and the
//! shells that a listing of WSL distributions stands for.

use crate::chars::{
    lines_of, replace_char, replaced, split_lines, trim, trim_matches, trimmed,
    without_surrounding,
};
use crate::trusted::{is_hyphenated_id, lowercase, random_uuid, to_lowercase};
use vstd::prelude::*;

verus! {

/// A shell that can be started.
#[derive(Debug, Clone)]
pub struct ShellInfo {
    pub id: String,
    pub name: String,
    pub path: String,
    pub args: Vec<String>,
}

/// The mathematical form of a `ShellInfo`.
pub ghost struct ShellInfoView {
    pub id: Seq<char>,
    pub name: Seq<char>,
    pub path: Seq<char>,
    pub args: Seq<Seq<char>>,
}

impl View for ShellInfo {
    type V = ShellInfoView;

    open spec fn view(&self) -> ShellInfoView {
        ShellInfoView {
            id: self.id@,
            name: self.name@,
            path: self.path@,
            args: self.args.deep_view(),
        }
    }
}

/// How a command is to be started.
#[derive(Debug, Clone)]
pub struct LaunchPlan {
    pub terminal_id: String,
    pub working_dir: String,
    pub shell: String,
    pub shell_arg: String,
}

/// The views of a vector of shells.
pub open spec fn shell_views(shells: Seq<ShellInfo>) -> Seq<ShellInfoView> {
    Seq::new(shells.len(), |i: int| shells[i]@)
}

/// The name of a distribution in a line of the listing: the line trimmed of
/// white space and then of characters with code zero.
pub open spec fn distro_name(line: Seq<char>) -> Seq<char> {
    without_surrounding(trimmed(line), '\0')
}

/// The shell that starts a distribution, given its name also in lower case:
/// the id is `wsl-` and the lower-case name with a hyphen for each space.
pub open spec fn distro_shell_from(name: Seq<char>, lower: Seq<char>) -> ShellInfoView {
    ShellInfoView {
        id: "wsl-"@ + replaced(lower, ' ', "-"@, lower.len()),
        name: "WSL: "@ + name,
        path: "wsl.exe"@,
        args: seq!["-d"@, name],
    }
}

/// The shell that starts a distribution.
pub open spec fn distro_shell(name: Seq<char>) -> ShellInfoView {
    distro_shell_from(name, lowercase(name))
}

/// The shells for the distributions that the first `n` lines name.
pub open spec fn distro_shells(lines: Seq<Seq<char>>, n: nat) -> Seq<ShellInfoView>
    decreases n,
{
    if n == 0 {
        Seq::empty()
    } else if distro_name(lines[n - 1]).len() > 0 {
        distro_shells(lines, (n - 1) as nat).push(distro_shell(distro_name(lines[n - 1])))
    } else {
        distro_shells(lines, (n - 1) as nat)
    }
}

/// The shell that starts WSL without naming a distribution.
pub open spec fn generic_wsl() -> ShellInfoView {
    ShellInfoView { id: "wsl"@, name: "WSL"@, path: "wsl.exe"@, args: Seq::empty() }
}

/// The shells that a listing of distributions stands for: one for each
/// distribution, or the generic one where the listing names none.
pub open spec fn wsl_shell_views(listing: Seq<char>) -> Seq<ShellInfoView> {
    let named = distro_shells(lines_of(listing), lines_of(listing).len());
    if named.len() > 0 {
        named
    } else {
        seq![generic_wsl()]
    }
}

/// The shell that starts the distribution of the given name, which is given
/// in lower case too.
pub fn distro_shell_for(name: &str, lower: &str) -> (r: ShellInfo)
    ensures
        r@ == distro_shell_from(name@, lower@),
{
    let mut args: Vec<String> = Vec::new();
    args.push(String::from_str("-d"));
    args.push(String::from_str(name));
    assert(args.deep_view() =~= seq!["-d"@, name@]);
    ShellInfo {
        id: String::from_str("wsl-").concat(replace_char(lower, ' ', "-").as_str()),
        name: String::from_str("WSL: ").concat(name),
        path: String::from_str("wsl.exe"),
        args,
    }
}

/// The shells that a listing of WSL distributions stands for.
pub fn wsl_shells(listing: &str) -> (r: Vec<ShellInfo>)
    ensures
        shell_views(r@) == wsl_shell_views(listing@),
{
    let lines = split_lines(listing);
    let mut shells: Vec<ShellInfo> = Vec::new();
    let mut i: usize = 0;
    assert(shell_views(shells@) =~= distro_shells(lines.deep_view(), 0));
    while i < lines.len()
        invariant
            i <= lines@.len(),
            lines.deep_view() == lines_of(listing@),
            shell_views(shells@) == distro_shells(lines.deep_view(), i as nat),
        decreases lines.len() - i,
    {
        let ghost before = shell_views(shells@);
        assert(lines.deep_view()[i as int] == lines@[i as int]@);
        let name = trim_matches(trim(lines[i].as_str()).as_str(), '\0');
        if name.as_str().unicode_len() > 0 {
            let lower = to_lowercase(name.as_str());
            let shell = distro_shell_for(name.as_str(), lower.as_str());
            shells.push(shell);
            assert(shell_views(shells@) =~= before.push(distro_shell(name@)));
        }
        i = i + 1;
    }
    assert(lines.deep_view().len() == lines@.len());
    if shells.len() == 0 {
        let args: Vec<String> = Vec::new();
        assert(args.deep_view() =~= Seq::<Seq<char>>::empty());
        shells.push(
            ShellInfo {
                id: String::from_str("wsl"),
                name: String::from_str("WSL"),
                path: String::from_str("wsl.exe"),
                args,
            },
        );
        assert(shell_views(shells@) =~= seq![generic_wsl()]);
    }
    shells
}

/// The text, or a default where there is none.
pub open spec fn given_or(o: Option<&str>, default: Seq<char>) -> Seq<char> {
    match o {
        Some(s) => s@,
        None => default,
    }
}

fn take_or(o: Option<&str>, default: &str) -> (r: String)
    ensures
        r@ == given_or(o, default@),
{
    match o {
        Some(s) => String::from_str(s),
        None => String::from_str(default),
    }
}

/// Plans the start of a command in the terminal with the given id: in the
/// directory given or the current one, through the shell given or that of
/// the platform, `cmd /C` on Windows and `sh -c` elsewhere.
pub fn plan_launch_with(terminal_id: &str, cwd: Option<&str>, shell: Option<&str>, windows: bool) -> (r:
    LaunchPlan)
    ensures
        r.terminal_id@ == terminal_id@,
        r.working_dir@ == given_or(cwd, "."@),
        windows ==> r.shell@ == given_or(shell, "cmd"@) && r.shell_arg@ == "/C"@,
        !windows ==> r.shell@ == given_or(shell, "sh"@) && r.shell_arg@ == "-c"@,
{
    LaunchPlan {
        terminal_id: String::from_str(terminal_id),
        working_dir: take_or(cwd, "."),
        shell: if windows {
            take_or(shell, "cmd")
        } else {
            take_or(shell, "sh")
        },
        shell_arg: if windows {
            String::from_str("/C")
        } else {
            String::from_str("-c")
        },
    }
}

/// Plans the start of a command: in the terminal named, or in a new one with
/// a fresh random id.
pub fn plan_launch(terminal_id: Option<&str>, cwd: Option<&str>, shell: Option<&str>, windows: bool) -> (r:
    LaunchPlan)
    ensures
        terminal_id matches Some(id) ==> r.terminal_id@ == id@,
        terminal_id is None ==> is_hyphenated_id(r.terminal_id@),
        r.working_dir@ == given_or(cwd, "."@),
        windows ==> r.shell@ == given_or(shell, "cmd"@) && r.shell_arg@ == "/C"@,
        !windows ==> r.shell@ == given_or(shell, "sh"@) && r.shell_arg@ == "-c"@,
{
    match terminal_id {
        Some(id) => plan_launch_with(id, cwd, shell, windows),
        None => {
            let id = random_uuid();
            plan_launch_with(id.as_str(), cwd, shell, windows)
        },
    }
}

} // verus!
