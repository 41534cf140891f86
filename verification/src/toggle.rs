//! The always-on-top toggler: what to do for a window, decided step by step.
//!
//! A toggle starts with [`kde_set_always_on_top`]. It is done at once, or names a command to
//! run; the outcome of that command goes to [`set_kde_always_on_top_x11`], which again is
//! done or names the next command. Nothing is kept between two toggles.

use crate::command::{decode_lossy, utf8_lossy, Command, CommandOutcome, CommandView, OutcomeView};
use crate::listing::{find_window_id, lemma_absent_title_not_found, title_absent, window_id};
use crate::session::{classify, Environment, SessionClassification};
use crate::text::lines_of;
use vstd::prelude::*;
use vstd::string::*;

verus! {

/// What a toggle waits for while a command runs.
#[derive(Debug)]
pub enum Pending {
    /// The listing of the open windows, in which the window is then looked up.
    WindowList { window_title: String, enable: bool },
    /// The change of the window's state.
    StateChange,
}

/// [`Pending`] as plain values.
pub enum PendingView {
    WindowList { window_title: Seq<char>, enable: bool },
    StateChange,
}

impl View for Pending {
    type V = PendingView;

    open spec fn view(&self) -> PendingView {
        match self {
            Pending::WindowList { window_title, enable } => PendingView::WindowList {
                window_title: window_title@,
                enable: *enable,
            },
            Pending::StateChange => PendingView::StateChange,
        }
    }
}

/// Where a toggle stands after a decision.
#[derive(Debug)]
pub enum Step {
    /// `command` is to be run, and its outcome handed back together with `pending`.
    Run { command: Command, pending: Pending },
    /// The toggle is over: with a message of success, or with an error.
    Done(Result<String, String>),
}

/// [`Step`] as plain values.
pub enum StepView {
    Run { command: CommandView, pending: PendingView },
    Done(Result<Seq<char>, Seq<char>>),
}

impl View for Step {
    type V = StepView;

    open spec fn view(&self) -> StepView {
        match self {
            Step::Run { command, pending } => StepView::Run {
                command: command@,
                pending: pending@,
            },
            Step::Done(Ok(message)) => StepView::Done(Ok(message@)),
            Step::Done(Err(message)) => StepView::Done(Err(message@)),
        }
    }
}

/// The message of success on a platform other than Linux, where nothing is done.
pub open spec fn unsupported_platform_message() -> Seq<char> {
    "KDE always-on-top is only available on Linux"@
}

/// The message of success on a desktop other than KDE Plasma, where nothing is done.
pub open spec fn not_kde_message() -> Seq<char> {
    "Not running on KDE Plasma, skipping KDE-specific window management"@
}

/// The error on a Wayland session, where a program cannot set the hint.
pub open spec fn wayland_unsupported_message() -> Seq<char> {
    "Wayland does not support programmatic always-on-top. Please set it manually in KDE window rules."@
}

/// The message of success on an X11 session.
pub open spec fn x11_applied_message() -> Seq<char> {
    "KDE X11 always-on-top applied successfully"@
}

/// The error where the window listing could not be had: it names the tool that is needed
/// and how to install it.
pub open spec fn missing_dependency_message() -> Seq<char> {
    "wmctrl not found. Please install it: sudo apt install wmctrl"@
}

/// The error where no listed window holds `title`.
pub open spec fn window_not_found_message(title: Seq<char>) -> Seq<char> {
    "Window '"@ + title + "' not found"@
}

/// The error where the window's state could not be changed, for the cause given.
pub open spec fn command_failure_message(cause: Seq<char>) -> Seq<char> {
    "Failed to set window state: "@ + cause
}

/// The command that lists the open windows.
pub open spec fn list_command() -> CommandView {
    CommandView { program: "wmctrl"@, args: seq!["-l"@] }
}

/// The command that adds the "always above" hint to the window `id`, or removes it.
pub open spec fn modify_command(id: Seq<char>, enable: bool) -> CommandView {
    CommandView {
        program: "wmctrl"@,
        args: seq![
            "-i"@,
            "-r"@,
            id,
            "-b"@,
            (if enable {
                "add"@
            } else {
                "remove"@
            }) + ",above"@,
        ],
    }
}

/// The first step of a toggle, by the kind of session.
pub open spec fn first_step(
    session: SessionClassification,
    window_title: Seq<char>,
    enable: bool,
) -> StepView {
    match session {
        SessionClassification::NonLinux => StepView::Done(Ok(unsupported_platform_message())),
        SessionClassification::NonKde => StepView::Done(Ok(not_kde_message())),
        SessionClassification::KdeWayland => StepView::Done(Err(wayland_unsupported_message())),
        SessionClassification::KdeX11 => StepView::Run {
            command: list_command(),
            pending: PendingView::WindowList { window_title, enable },
        },
    }
}

/// The step after the window listing has been decoded: the window is looked up, and its
/// state is to be changed if it is there.
pub open spec fn step_on_listing(listing: Seq<char>, window_title: Seq<char>, enable: bool)
    -> StepView {
    match window_id(listing, window_title) {
        Some(id) => StepView::Run {
            command: modify_command(id, enable),
            pending: PendingView::StateChange,
        },
        None => StepView::Done(Err(window_not_found_message(window_title))),
    }
}

/// The step after a command has ended.
///
/// A listing that could not be had, because the tool did not start or did not end with exit
/// code 0, ends the toggle with [`missing_dependency_message`]. A change of state that did not
/// end with exit code 0 ends it with [`command_failure_message`] and the cause of the failure.
pub open spec fn next_step(pending: PendingView, outcome: OutcomeView) -> StepView {
    match pending {
        PendingView::WindowList { window_title, enable } => if outcome.succeeded() {
            step_on_listing(utf8_lossy(outcome->stdout), window_title, enable)
        } else {
            StepView::Done(Err(missing_dependency_message()))
        },
        PendingView::StateChange => if outcome.succeeded() {
            StepView::Done(Ok(x11_applied_message()))
        } else {
            StepView::Done(Err(command_failure_message(outcome.failure_cause())))
        },
    }
}

/// The command that lists the open windows.
pub fn list_windows_command() -> (command: Command)
    ensures
        command@ == list_command(),
{
    let mut args: Vec<String> = Vec::new();
    args.push(String::from_str("-l"));
    let command = Command { program: String::from_str("wmctrl"), args };
    assert(command@.args =~= list_command().args);
    command
}

/// The command that adds the "always above" hint to the window `id`, or removes it.
pub fn window_state_command(id: &str, enable: bool) -> (command: Command)
    ensures
        command@ == modify_command(id@, enable),
{
    let mut change = String::from_str(
        if enable {
            "add"
        } else {
            "remove"
        },
    );
    change.append(",above");
    let mut args: Vec<String> = Vec::new();
    args.push(String::from_str("-i"));
    args.push(String::from_str("-r"));
    args.push(String::from_str(id));
    args.push(String::from_str("-b"));
    args.push(change);
    let command = Command { program: String::from_str("wmctrl"), args };
    assert(command@.args =~= modify_command(id@, enable).args);
    command
}

/// The Wayland handler: always fails with the fixed advisory, whatever `enable` is.
#[allow(unused_variables)]
pub fn set_kde_always_on_top_wayland(enable: bool) -> (r: Result<(), String>)
    ensures
        r matches Err(message) && message@ == wayland_unsupported_message(),
{
    Err(
        String::from_str(
            "Wayland does not support programmatic always-on-top. Please set it manually in KDE window rules.",
        ),
    )
}

/// Looks the window up in the listing of the open windows, and says what is to follow.
pub fn resolve_listed_window(listing: &str, window_title: &str, enable: bool) -> (step: Step)
    ensures
        step@ == step_on_listing(listing@, window_title@, enable),
{
    match find_window_id(listing, window_title) {
        Some(id) => Step::Run {
            command: window_state_command(id.as_str(), enable),
            pending: Pending::StateChange,
        },
        None => {
            let mut message = String::from_str("Window '");
            message.append(window_title);
            message.append("' not found");
            Step::Done(Err(message))
        },
    }
}

/// Ends a toggle with the error that the window's state could not be changed.
pub fn state_change_failed(cause: &str) -> (step: Step)
    ensures
        step@ == StepView::Done(Err(command_failure_message(cause@))),
{
    let mut message = String::from_str("Failed to set window state: ");
    message.append(cause);
    Step::Done(Err(message))
}

/// Starts a toggle of the always-on-top hint of the window with the title `window_title`.
///
/// On a platform other than Linux, and on a desktop other than KDE Plasma, the toggle is
/// done at once, with a message of success and no command run. On a Wayland session it
/// fails at once. On an X11 session the open windows are to be listed.
pub fn kde_set_always_on_top(env: &Environment, window_title: &str, enable: bool) -> (step: Step)
    ensures
        step@ == first_step(env.classification(), window_title@, enable),
        !env.on_linux() ==> step@ == StepView::Done(Ok(unsupported_platform_message())),
        env.on_linux() && !env.is_kde() ==> step@ == StepView::Done(Ok(not_kde_message())),
        env.on_linux() && env.is_kde() && env.on_wayland() ==> step@ == StepView::Done(
            Err(wayland_unsupported_message()),
        ),
        step@ is Run <==> env.classification() == SessionClassification::KdeX11,
{
    match classify(env) {
        SessionClassification::NonLinux => Step::Done(
            Ok(String::from_str("KDE always-on-top is only available on Linux")),
        ),
        SessionClassification::NonKde => Step::Done(
            Ok(
                String::from_str(
                    "Not running on KDE Plasma, skipping KDE-specific window management",
                ),
            ),
        ),
        SessionClassification::KdeWayland => match set_kde_always_on_top_wayland(enable) {
            Ok(()) => Step::Done(Ok(String::from_str("KDE Wayland always-on-top applied"))),
            Err(message) => Step::Done(Err(message)),
        },
        SessionClassification::KdeX11 => Step::Run {
            command: list_windows_command(),
            pending: Pending::WindowList { window_title: String::from_str(window_title), enable },
        },
    }
}

/// Ends a toggle with the error that the window listing could not be had.
pub fn listing_failed() -> (step: Step)
    ensures
        step@ == StepView::Done(Err(missing_dependency_message())),
{
    Step::Done(Err(String::from_str("wmctrl not found. Please install it: sudo apt install wmctrl")))
}

/// The X11 handler: takes the outcome of the command that the toggle waited for, and says
/// what is to follow.
///
/// Where the listing could not be had, the toggle ends with the error that names the missing
/// tool, and no further command is run. Where no line of the listing holds the title, it
/// ends with the error that names the title.
pub fn set_kde_always_on_top_x11(pending: &Pending, outcome: &CommandOutcome) -> (step: Step)
    ensures
        step@ == next_step(pending@, outcome@),
        pending@ is WindowList && !outcome@.succeeded() ==> step@ == StepView::Done(
            Err(missing_dependency_message()),
        ),
        pending@ is WindowList && outcome@.succeeded() && title_absent(
            utf8_lossy(outcome@->stdout),
            pending@->window_title,
        ) ==> step@ == StepView::Done(Err(window_not_found_message(pending@->window_title))),
        pending@ is StateChange ==> step@ is Done,
        step@ matches StepView::Run { pending: then, .. } ==> then is StateChange,
{
    match pending {
        Pending::WindowList { window_title, enable } => match outcome {
            CommandOutcome::Exited { code: Some(0), stdout, .. } => {
                let listing = decode_lossy(stdout.as_slice());
                proof {
                    if title_absent(listing@, window_title@) {
                        lemma_absent_title_not_found(lines_of(listing@), window_title@);
                    }
                }
                resolve_listed_window(listing.as_str(), window_title.as_str(), *enable)
            },
            _ => listing_failed(),
        },
        Pending::StateChange => match outcome {
            CommandOutcome::Exited { code: Some(0), .. } => Step::Done(
                Ok(String::from_str("KDE X11 always-on-top applied successfully")),
            ),
            CommandOutcome::Exited { stderr, .. } => {
                let cause = decode_lossy(stderr.as_slice());
                state_change_failed(cause.as_str())
            },
            CommandOutcome::NotStarted { reason } => state_change_failed(reason.as_str()),
        },
    }
}

/// Only on an X11 session does a toggle depend on `enable`, or on the window's title.
pub proof fn lemma_only_x11_reads_the_request(
    session: SessionClassification,
    title_a: Seq<char>,
    enable_a: bool,
    title_b: Seq<char>,
    enable_b: bool,
)
    requires
        session != SessionClassification::KdeX11,
    ensures
        first_step(session, title_a, enable_a) == first_step(session, title_b, enable_b),
        first_step(session, title_a, enable_a) is Done,
{
}

/// A toggle runs two commands at most: the listing, and then the change of state.
pub proof fn lemma_two_commands_at_most(
    session: SessionClassification,
    window_title: Seq<char>,
    enable: bool,
    first: OutcomeView,
    second: OutcomeView,
)
    ensures
        first_step(session, window_title, enable) matches StepView::Run { pending, .. } ==> (
        next_step(pending, first) matches StepView::Run { pending: then, .. } ==> next_step(
            then,
            second,
        ) is Done),
{
}

/// The change of state is asked for only after a listing that was had and in which a line
/// matches the title; it is asked for the window that the first such line names.
pub proof fn lemma_state_change_follows_match(
    window_title: Seq<char>,
    enable: bool,
    outcome: OutcomeView,
)
    ensures
        next_step(PendingView::WindowList { window_title, enable }, outcome) is Run <==> (
        outcome.succeeded() && window_id(utf8_lossy(outcome->stdout), window_title) is Some),
        next_step(PendingView::WindowList { window_title, enable }, outcome) matches StepView::Run {
            command,
            ..
        } ==> command == modify_command(
            window_id(utf8_lossy(outcome->stdout), window_title)->0,
            enable,
        ),
{
}

} // verus!
