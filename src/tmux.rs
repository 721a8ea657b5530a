//! Commands for the tmux terminal multiplexer: split a window and run a
//! command there, or open a file in the helix editor. Where a pane already
//! runs a shell (or helix), the command is sent to the last such pane instead.
use vstd::prelude::*;
use crate::text::{ends_with, has_suffix, join, joined, lines, lines_of, texts, words, words_of};

verus! {

/// The shell command that lists the panes of the current window, one per
/// line: window index, pane index, current command.
pub const LIST_PANES: &'static str = "tmux list-panes -F \"#{window_index} #{pane_index} #{pane_current_command}\"";

/// Split the window and run a command.
#[derive(Clone, Debug, PartialEq, Eq)]
pub struct SplitArgs {
    pub vertical: bool,
    /// Directory to start the new pane in.
    pub project: Option<String>,
    /// The command, as words joined with spaces.
    pub commands: Vec<String>,
}

/// Open `file` (`{file}:{line}:{col}`) of `project` in helix.
#[derive(Clone, Debug, PartialEq, Eq)]
pub struct OpenArgs {
    pub vertical: bool,
    pub project: String,
    pub file: String,
}

#[derive(Clone, Debug, PartialEq, Eq)]
pub enum TmuxCommands {
    Run(SplitArgs),
    Hx(OpenArgs),
}

pub open spec fn split_flag(vertical: bool) -> Seq<char> {
    if vertical {
        "-v"@
    } else {
        "-h"@
    }
}

pub open spec fn start_dir_option(project: Option<String>) -> Seq<char> {
    match project {
        Some(p) => "-c "@ + p@,
        None => Seq::empty(),
    }
}

/// The command line that a split runs.
pub open spec fn split_script(args: SplitArgs) -> Seq<char> {
    joined(texts(args.commands@), " "@)
}

/// Split a new pane and type the command into it.
pub open spec fn split_command(args: SplitArgs) -> Seq<char> {
    "tmux split-window "@ + split_flag(args.vertical) + " "@ + start_dir_option(args.project)
        + " & tmux send '"@ + split_script(args) + "' Enter"@
}

/// What is typed into a running helix to open the file.
pub open spec fn open_script(args: OpenArgs) -> Seq<char> {
    ":o "@ + args.file@
}

/// Split a new pane and start helix on the file in it.
pub open spec fn open_command(args: OpenArgs) -> Seq<char> {
    "tmux split-window "@ + split_flag(args.vertical) + " "@ + args.project@
        + " & tmux send 'hx -w "@ + args.project@ + " "@ + args.file@ + " ' Enter"@
}

/// The line ends with one of `ends`.
pub open spec fn ends_with_any(line: Seq<char>, ends: Seq<Seq<char>>) -> bool {
    exists|i: int| 0 <= i < ends.len() && has_suffix(line, #[trigger] ends[i])
}

/// The last line that ends with one of `ends`.
pub open spec fn last_matching(lines: Seq<Seq<char>>, ends: Seq<Seq<char>>) -> Option<Seq<char>>
    decreases lines.len(),
{
    if lines.len() == 0 {
        None
    } else if ends_with_any(lines.last(), ends) {
        Some(lines.last())
    } else {
        last_matching(lines.drop_last(), ends)
    }
}

/// Send `script` to the last pane of the listing whose command ends with
/// one of `ends`, where its line has exactly three words; else run `cmd`.
pub open spec fn pane_command(
    cmd: Seq<char>,
    script: Seq<char>,
    ends: Seq<Seq<char>>,
    panes: Seq<char>,
) -> Seq<char> {
    match last_matching(lines_of(panes), ends) {
        Some(line) => {
            let w = words_of(line);
            if w.len() == 3 {
                "tmux send -t "@ + w[0] + "."@ + w[1] + " '"@ + script + "' Enter"@
            } else {
                cmd
            }
        },
        None => cmd,
    }
}

pub open spec fn str_texts(v: Seq<&str>) -> Seq<Seq<char>> {
    v.map_values(|s: &str| s@)
}

/// Commands of panes where a split sends its command.
pub open spec fn shell_ends() -> Seq<Seq<char>> {
    seq!["sh"@, "tmux"@]
}

/// Commands of panes where an open sends its file.
pub open spec fn editor_ends() -> Seq<Seq<char>> {
    seq!["hx"@]
}

/// The shell command that `command` runs, given the pane listing.
pub open spec fn tmux_command(command: TmuxCommands, panes: Seq<char>) -> Seq<char> {
    match command {
        TmuxCommands::Run(args) => pane_command(
            split_command(args),
            split_script(args),
            shell_ends(),
            panes,
        ),
        TmuxCommands::Hx(args) => pane_command(
            open_command(args),
            open_script(args),
            editor_ends(),
            panes,
        ),
    }
}

fn matches_any(line: &str, ends: &[&str]) -> (r: bool)
    ensures
        r == ends_with_any(line@, str_texts(ends@)),
{
    let mut i: usize = 0;
    while i < ends.len()
        invariant
            i <= ends@.len(),
            forall|j: int| 0 <= j < i ==> !has_suffix(line@, #[trigger] str_texts(ends@)[j]),
        decreases ends@.len() - i,
    {
        if ends_with(line, ends[i]) {
            assert(has_suffix(line@, str_texts(ends@)[i as int]));
            return true;
        }
        i = i + 1;
    }
    false
}

/// The command to run: `cmd`, or a send of `script` to a pane of the listing
/// whose command ends with one of `ends`.
pub fn tmux_pane(cmd: String, script: String, ends: &[&str], panes: &str) -> (r: String)
    ensures
        r@ == pane_command(cmd@, script@, str_texts(ends@), panes@),
{
    let all = lines(panes);
    let ghost ls = lines_of(panes@);
    let mut found: Option<usize> = None;
    let mut i: usize = 0;
    while i < all.len()
        invariant
            i <= all@.len(),
            texts(all@) == ls,
            match found {
                Some(j) => j < i && last_matching(ls.take(i as int), str_texts(ends@)) == Some(
                    ls[j as int],
                ),
                None => last_matching(ls.take(i as int), str_texts(ends@)) is None,
            },
        decreases all@.len() - i,
    {
        assert(ls.take(i + 1).drop_last() =~= ls.take(i as int));
        assert(ls.take(i + 1).last() == all@[i as int]@);
        if matches_any(all[i].as_str(), ends) {
            found = Some(i);
        }
        i = i + 1;
    }
    assert(ls.take(i as int) =~= ls);
    match found {
        Some(j) => {
            let parts = words(all[j].as_str());
            if parts.len() == 3 {
                let mut out = String::from_str("tmux send -t ");
                out.append(parts[0].as_str());
                out.append(".");
                out.append(parts[1].as_str());
                out.append(" '");
                out.append(script.as_str());
                out.append("' Enter");
                proof {
                    assert(texts(parts@)[0] == parts@[0]@);
                    assert(texts(parts@)[1] == parts@[1]@);
                    assert(out@ =~= pane_command(cmd@, script@, str_texts(ends@), panes@));
                }
                out
            } else {
                cmd
            }
        },
        None => cmd,
    }
}

fn flag_text(vertical: bool) -> (r: &'static str)
    ensures
        r@ == split_flag(vertical),
{
    if vertical {
        "-v"
    } else {
        "-h"
    }
}

/// The command that a split runs, given the pane listing.
pub fn split_run(args: &SplitArgs, panes: &str) -> (r: String)
    ensures
        r@ == pane_command(split_command(*args), split_script(*args), shell_ends(), panes@),
{
    let script = join(&args.commands, " ");
    let mut cmd = String::from_str("tmux split-window ");
    cmd.append(flag_text(args.vertical));
    cmd.append(" ");
    match &args.project {
        Some(p) => {
            cmd.append("-c ");
            cmd.append(p.as_str());
        },
        None => {},
    }
    cmd.append(" & tmux send '");
    cmd.append(script.as_str());
    cmd.append("' Enter");
    assert(cmd@ =~= split_command(*args));
    let ends: Vec<&str> = vec!["sh", "tmux"];
    assert(str_texts(ends@) =~= shell_ends());
    tmux_pane(cmd, script, ends.as_slice(), panes)
}

/// The command that opens a file in helix, given the pane listing.
pub fn hx_open(args: &OpenArgs, panes: &str) -> (r: String)
    ensures
        r@ == pane_command(open_command(*args), open_script(*args), editor_ends(), panes@),
{
    let mut cmd = String::from_str("tmux split-window ");
    cmd.append(flag_text(args.vertical));
    cmd.append(" ");
    cmd.append(args.project.as_str());
    cmd.append(" & tmux send 'hx -w ");
    cmd.append(args.project.as_str());
    cmd.append(" ");
    cmd.append(args.file.as_str());
    cmd.append(" ' Enter");
    assert(cmd@ =~= open_command(*args));
    let mut script = String::from_str(":o ");
    script.append(args.file.as_str());
    let ends: Vec<&str> = vec!["hx"];
    assert(str_texts(ends@) =~= editor_ends());
    tmux_pane(cmd, script, ends.as_slice(), panes)
}

/// The shell command that `cmd` runs, given the output of [`LIST_PANES`].
pub fn parse(cmd: &TmuxCommands, panes: &str) -> (r: String)
    ensures
        r@ == tmux_command(*cmd, panes@),
{
    match cmd {
        TmuxCommands::Run(args) => split_run(args, panes),
        TmuxCommands::Hx(args) => hx_open(args, panes),
    }
}

} // verus!
