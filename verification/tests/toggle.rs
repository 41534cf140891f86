use kde_always_on_top::command::{Command, CommandOutcome};
use kde_always_on_top::session::Environment;
use kde_always_on_top::toggle::{
    kde_set_always_on_top, list_windows_command, listing_failed, resolve_listed_window,
    set_kde_always_on_top_wayland, set_kde_always_on_top_x11, state_change_failed,
    window_state_command, Pending, Step,
};

const UNSUPPORTED_PLATFORM: &str = "KDE always-on-top is only available on Linux";
const NOT_KDE: &str = "Not running on KDE Plasma, skipping KDE-specific window management";
const WAYLAND: &str = "Wayland does not support programmatic always-on-top. Please set it manually in KDE window rules.";
const APPLIED: &str = "KDE X11 always-on-top applied successfully";
const MISSING_DEPENDENCY: &str = "wmctrl not found. Please install it: sudo apt install wmctrl";

const LISTING: &[u8] = b"0x02000003 -1 host Desktop\n0x123 1 host Target Window\n0x456 1 host Target Two\n";

/// A command as it was asked for: the program and its arguments.
type Invocation = (String, Vec<String>);

fn environment(os: &str, desktop: Option<&str>, session_type: Option<&str>) -> Environment {
    Environment {
        os: os.to_string(),
        current_desktop: desktop.map(|s| s.to_string()),
        desktop_session: None,
        session_type: session_type.map(|s| s.to_string()),
    }
}

fn kde_x11() -> Environment {
    environment("linux", Some("KDE"), Some("x11"))
}

fn exited(code: i32, stdout: &[u8], stderr: &[u8]) -> CommandOutcome {
    CommandOutcome::Exited { code: Some(code), stdout: stdout.to_vec(), stderr: stderr.to_vec() }
}

fn not_started(reason: &str) -> CommandOutcome {
    CommandOutcome::NotStarted { reason: reason.to_string() }
}

fn invocation(command: &Command) -> Invocation {
    (command.program.clone(), command.args.clone())
}

fn wmctrl(args: &[&str]) -> Invocation {
    ("wmctrl".to_string(), args.iter().map(|a| a.to_string()).collect())
}

/// Runs a toggle to its end against scripted outcomes, and records each command asked for.
fn toggle(
    env: &Environment,
    title: &str,
    enable: bool,
    script: Vec<CommandOutcome>,
) -> (Result<String, String>, Vec<Invocation>) {
    let mut outcomes = script.into_iter();
    let mut invocations = Vec::new();
    let mut step = kde_set_always_on_top(env, title, enable);
    loop {
        match step {
            Step::Done(result) => return (result, invocations),
            Step::Run { command, pending } => {
                invocations.push(invocation(&command));
                let outcome = outcomes.next().expect("a command was asked for that the script does not answer");
                step = set_kde_always_on_top_x11(&pending, &outcome);
            }
        }
    }
}

fn done(step: Step) -> Result<String, String> {
    match step {
        Step::Done(result) => result,
        Step::Run { command, .. } => panic!("a command is to be run: {:?}", command),
    }
}

#[test]
fn other_platforms_succeed_without_doing_anything() {
    for os in ["macos", "windows"] {
        for enable in [true, false] {
            let env = environment(os, Some("KDE"), Some("x11"));
            let (result, invocations) = toggle(&env, "Target", enable, vec![]);
            assert_eq!(result, Ok(UNSUPPORTED_PLATFORM.to_string()));
            assert!(invocations.is_empty());
        }
    }
}

#[test]
fn other_desktops_succeed_without_running_a_command() {
    for desktop in [Some("GNOME"), Some("XFCE"), None] {
        for session_type in [Some("x11"), Some("wayland"), None] {
            for enable in [true, false] {
                let env = environment("linux", desktop, session_type);
                let (result, invocations) = toggle(&env, "Target", enable, vec![]);
                assert_eq!(result, Ok(NOT_KDE.to_string()));
                assert_eq!(invocations.len(), 0);
            }
        }
    }
}

#[test]
fn wayland_fails_with_the_advisory() {
    for enable in [true, false] {
        let env = environment("linux", Some("KDE"), Some("wayland"));
        let (result, invocations) = toggle(&env, "Target", enable, vec![]);
        assert_eq!(result, Err(WAYLAND.to_string()));
        assert!(invocations.is_empty());
    }
}

#[test]
fn the_wayland_handler_always_fails() {
    assert_eq!(set_kde_always_on_top_wayland(true), Err(WAYLAND.to_string()));
    assert_eq!(set_kde_always_on_top_wayland(false), Err(WAYLAND.to_string()));
}

#[test]
fn x11_lists_the_windows_first() {
    match kde_set_always_on_top(&kde_x11(), "Target", true) {
        Step::Run { command, pending } => {
            assert_eq!(invocation(&command), wmctrl(&["-l"]));
            match pending {
                Pending::WindowList { window_title, enable } => {
                    assert_eq!(window_title, "Target");
                    assert!(enable);
                }
                Pending::StateChange => panic!("the listing comes first"),
            }
        }
        Step::Done(result) => panic!("done at once: {:?}", result),
    }
}

#[test]
fn x11_is_assumed_for_any_session_type_but_wayland() {
    for session_type in [None, Some(""), Some("x11"), Some("Wayland"), Some("tty")] {
        let env = environment("linux", Some("KDE"), session_type);
        let (result, invocations) = toggle(&env, "Target", true, vec![exited(0, LISTING, b""), exited(0, b"", b"")]);
        assert_eq!(result, Ok(APPLIED.to_string()));
        assert_eq!(invocations.len(), 2);
    }
}

#[test]
fn x11_adds_the_hint_to_the_window_found() {
    let (result, invocations) =
        toggle(&kde_x11(), "Target", true, vec![exited(0, LISTING, b""), exited(0, b"", b"")]);
    assert_eq!(result, Ok(APPLIED.to_string()));
    assert_eq!(
        invocations,
        vec![wmctrl(&["-l"]), wmctrl(&["-i", "-r", "0x123", "-b", "add,above"])]
    );
}

#[test]
fn x11_removes_the_hint_from_the_window_found() {
    let (result, invocations) =
        toggle(&kde_x11(), "Desktop", false, vec![exited(0, LISTING, b""), exited(0, b"", b"")]);
    assert_eq!(result, Ok(APPLIED.to_string()));
    assert_eq!(
        invocations,
        vec![wmctrl(&["-l"]), wmctrl(&["-i", "-r", "0x02000003", "-b", "remove,above"])]
    );
}

#[test]
fn a_window_in_no_line_is_not_found() {
    for enable in [true, false] {
        let (result, invocations) =
            toggle(&kde_x11(), "No Such Title", enable, vec![exited(0, LISTING, b"")]);
        assert_eq!(result, Err("Window 'No Such Title' not found".to_string()));
        assert_eq!(invocations, vec![wmctrl(&["-l"])]);
    }
}

#[test]
fn an_empty_listing_holds_no_window() {
    let (result, invocations) = toggle(&kde_x11(), "Target", true, vec![exited(0, b"", b"")]);
    assert_eq!(result, Err("Window 'Target' not found".to_string()));
    assert_eq!(invocations.len(), 1);
}

#[test]
fn a_listing_tool_that_is_absent_is_a_missing_dependency() {
    let (result, invocations) =
        toggle(&kde_x11(), "Target", true, vec![not_started("No such file or directory (os error 2)")]);
    assert_eq!(result, Err(MISSING_DEPENDENCY.to_string()));
    assert_eq!(invocations, vec![wmctrl(&["-l"])]);
}

#[test]
fn a_listing_that_exits_non_zero_is_a_missing_dependency() {
    for code in [1, 2, 127, -1, 255] {
        let (result, invocations) =
            toggle(&kde_x11(), "Target", true, vec![exited(code, LISTING, b"Cannot open display.\n")]);
        assert_eq!(result, Err(MISSING_DEPENDENCY.to_string()));
        assert_eq!(invocations, vec![wmctrl(&["-l"])]);
    }
}

#[test]
fn a_listing_that_ends_without_exit_code_is_a_missing_dependency() {
    let killed = CommandOutcome::Exited { code: None, stdout: LISTING.to_vec(), stderr: vec![] };
    let (result, invocations) = toggle(&kde_x11(), "Target", true, vec![killed]);
    assert_eq!(result, Err(MISSING_DEPENDENCY.to_string()));
    assert_eq!(invocations.len(), 1);
}

#[test]
fn a_state_change_that_does_not_start_fails_with_the_reason() {
    let (result, invocations) = toggle(
        &kde_x11(),
        "Target",
        true,
        vec![exited(0, LISTING, b""), not_started("Permission denied (os error 13)")],
    );
    assert_eq!(
        result,
        Err("Failed to set window state: Permission denied (os error 13)".to_string())
    );
    assert_eq!(invocations.len(), 2);
}

#[test]
fn a_state_change_that_exits_non_zero_fails_with_what_it_reported() {
    let (result, invocations) = toggle(
        &kde_x11(),
        "Target",
        false,
        vec![exited(0, LISTING, b""), exited(1, b"ignored", b"Cannot change window state")],
    );
    assert_eq!(result, Err("Failed to set window state: Cannot change window state".to_string()));
    assert_eq!(invocations.len(), 2);
}

#[test]
fn a_state_change_that_ends_without_exit_code_fails() {
    let killed = CommandOutcome::Exited { code: None, stdout: vec![], stderr: vec![] };
    let step = set_kde_always_on_top_x11(&Pending::StateChange, &killed);
    assert_eq!(done(step), Err("Failed to set window state: ".to_string()));
}

#[test]
fn the_listing_is_decoded_with_replacement_characters() {
    let listing = b"0x1 0 host Caf\xff\n0x2 0 host Caf\xc3\xa9\n";
    let (_, invocations) = toggle(
        &kde_x11(),
        "Caf\u{fffd}",
        true,
        vec![exited(0, listing, b""), exited(0, b"", b"")],
    );
    assert_eq!(invocations[1], wmctrl(&["-i", "-r", "0x1", "-b", "add,above"]));
    let (_, invocations) = toggle(
        &kde_x11(),
        "Caf\u{e9}",
        true,
        vec![exited(0, listing, b""), exited(0, b"", b"")],
    );
    assert_eq!(invocations[1], wmctrl(&["-i", "-r", "0x2", "-b", "add,above"]));
}

#[test]
fn the_error_stream_is_decoded_with_replacement_characters() {
    let step = set_kde_always_on_top_x11(&Pending::StateChange, &exited(3, b"", b"bad \xfe byte"));
    assert_eq!(done(step), Err("Failed to set window state: bad \u{fffd} byte".to_string()));
}

#[test]
fn lower_case_is_taken_before_the_names_are_read() {
    let env = Environment {
        os: "linux".to_string(),
        current_desktop: Some("X-Cinnamon".to_string()),
        desktop_session: Some("PLASMA".to_string()),
        session_type: Some("wayland".to_string()),
    };
    let (result, _) = toggle(&env, "Target", true, vec![]);
    assert_eq!(result, Err(WAYLAND.to_string()));
}

#[test]
fn the_commands() {
    assert_eq!(invocation(&list_windows_command()), wmctrl(&["-l"]));
    assert_eq!(
        invocation(&window_state_command("0x03a00007", true)),
        wmctrl(&["-i", "-r", "0x03a00007", "-b", "add,above"])
    );
    assert_eq!(
        invocation(&window_state_command("0x03a00007", false)),
        wmctrl(&["-i", "-r", "0x03a00007", "-b", "remove,above"])
    );
}

#[test]
fn resolving_a_listed_window() {
    match resolve_listed_window("0x123 1 host Target Window", "Target", true) {
        Step::Run { command, pending } => {
            assert_eq!(invocation(&command), wmctrl(&["-i", "-r", "0x123", "-b", "add,above"]));
            assert!(matches!(pending, Pending::StateChange));
        }
        Step::Done(result) => panic!("done at once: {:?}", result),
    }
    assert_eq!(
        done(resolve_listed_window("0x123 1 host Target Window", "target", true)),
        Err("Window 'target' not found".to_string())
    );
    assert_eq!(
        done(resolve_listed_window("", "", false)),
        Err("Window '' not found".to_string())
    );
}

#[test]
fn the_fixed_failures() {
    assert_eq!(done(listing_failed()), Err(MISSING_DEPENDENCY.to_string()));
    assert_eq!(
        done(state_change_failed("no display")),
        Err("Failed to set window state: no display".to_string())
    );
}

#[test]
fn outcomes_succeed_with_exit_code_zero_only() {
    assert!(exited(0, b"", b"").succeeded());
    assert!(exited(0, b"out", b"err").succeeded());
    assert!(!exited(1, b"", b"").succeeded());
    assert!(!exited(-1, b"", b"").succeeded());
    assert!(!not_started("absent").succeeded());
    assert!(!CommandOutcome::Exited { code: None, stdout: vec![], stderr: vec![] }.succeeded());
}
