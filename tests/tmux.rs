use wayinfo::text::{lines, words};
use wayinfo::tmux::{hx_open, parse, split_run, tmux_pane, OpenArgs, SplitArgs, TmuxCommands};

fn split(vertical: bool, project: Option<&str>, commands: &[&str]) -> SplitArgs {
    SplitArgs {
        vertical,
        project: project.map(|p| p.to_string()),
        commands: commands.iter().map(|c| c.to_string()).collect(),
    }
}

#[test]
fn split_without_shell_pane() {
    let args = split(false, None, &["ls", "-la"]);
    assert_eq!(split_run(&args, "0 0 hx\n"), "tmux split-window -h  & tmux send 'ls -la' Enter");
}

#[test]
fn split_vertical_in_project() {
    let args = split(true, Some("/work"), &["cargo", "build"]);
    assert_eq!(
        split_run(&args, ""),
        "tmux split-window -v -c /work & tmux send 'cargo build' Enter"
    );
}

#[test]
fn split_sends_to_last_shell_pane() {
    let args = split(false, None, &["ls"]);
    let panes = "0 0 hx\n0 1 zsh\n0 2 bash\n1 0 hx\n";
    assert_eq!(split_run(&args, panes), "tmux send -t 0.2 'ls' Enter");
    assert_eq!(split_run(&args, "0 0 sh\n0 1 tmux\n"), "tmux send -t 0.1 'ls' Enter");
}

#[test]
fn pane_line_without_three_words_keeps_command() {
    let args = split(false, None, &["ls"]);
    assert_eq!(
        split_run(&args, "0 1 fish sh\n"),
        "tmux split-window -h  & tmux send 'ls' Enter"
    );
}

#[test]
fn open_in_running_editor() {
    let args = OpenArgs {
        vertical: false,
        project: "proj".to_string(),
        file: "src/main.rs:3:4".to_string(),
    };
    assert_eq!(hx_open(&args, "0 0 zsh\r\n1 0 hx\r\n"), "tmux send -t 1.0 ':o src/main.rs:3:4' Enter");
}

#[test]
fn open_in_new_pane() {
    let args = OpenArgs { vertical: true, project: "proj".to_string(), file: "a.rs".to_string() };
    assert_eq!(
        hx_open(&args, "0 0 zsh\n"),
        "tmux split-window -v proj & tmux send 'hx -w proj a.rs ' Enter"
    );
    assert_eq!(
        parse(&TmuxCommands::Hx(args), ""),
        "tmux split-window -v proj & tmux send 'hx -w proj a.rs ' Enter"
    );
}

#[test]
fn parse_runs_split() {
    let args = split(false, None, &["make"]);
    assert_eq!(parse(&TmuxCommands::Run(args), "2 3 sh"), "tmux send -t 2.3 'make' Enter");
}

#[test]
fn pane_choice_by_suffix() {
    let ends = ["vim"];
    let r = tmux_pane("run".to_string(), "x".to_string(), &ends, "0 0 nvim\n0 1 vi\n");
    assert_eq!(r, "tmux send -t 0.0 'x' Enter");
    assert_eq!(tmux_pane("run".to_string(), "x".to_string(), &[], "0 0 nvim\n"), "run");
}

#[test]
fn lines_like_std() {
    for s in ["", "a", "a\n", "a\r\nb\n\nc", "\n", "a\r", "a\r\r\n", "\r\n\r\n"] {
        let expected: Vec<String> = s.lines().map(|l| l.to_string()).collect();
        assert_eq!(lines(s), expected, "{s:?}");
    }
}

#[test]
fn words_like_std() {
    for s in ["", "  a \t b ", "a", "0 1\u{3000}zsh", "\u{a0}x\u{2028}y\n"] {
        let expected: Vec<String> = s.split_whitespace().map(|w| w.to_string()).collect();
        assert_eq!(words(s), expected, "{s:?}");
    }
}
