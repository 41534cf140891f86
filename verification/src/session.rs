//! The desktop session, classified from the platform and three environment variables.

use crate::text::{has_substring, occurs_at, same_text, text_contains};
use vstd::prelude::*;
use vstd::string::*;

verus! {

/// What the classification reads: the platform's identifier and the values of the variables
/// `XDG_CURRENT_DESKTOP`, `DESKTOP_SESSION` and `XDG_SESSION_TYPE`, `None` where one is not
/// set.
#[derive(Debug)]
pub struct Environment {
    pub os: String,
    pub current_desktop: Option<String>,
    pub desktop_session: Option<String>,
    pub session_type: Option<String>,
}

/// The kind of desktop session.
#[derive(Clone, Copy, Debug, PartialEq, Eq, Structural)]
pub enum SessionClassification {
    KdeX11,
    KdeWayland,
    NonKde,
    NonLinux,
}

/// The lower-case equivalent of `s`, as `str::to_lowercase` of the standard library gives it.
pub uninterp spec fn lowercase(s: Seq<char>) -> Seq<char>;

/// Calls `str::to_lowercase`. The contract only names the result: it is the lower-case
/// equivalent of `s` by the Unicode rules, which this library does not restate.
#[verifier::external_body]
fn to_lowercase(s: &str) -> (r: String)
    ensures
        r@ == lowercase(s@),
{
    s.to_lowercase()
}

/// The text of a variable, empty where it is not set.
pub open spec fn text_or_empty(value: Option<String>) -> Seq<char> {
    match value {
        Some(text) => text@,
        None => Seq::empty(),
    }
}

/// The lower-case text of a variable, empty where it is not set.
pub open spec fn lowered(value: Option<String>) -> Seq<char> {
    match value {
        Some(text) => lowercase(text@),
        None => Seq::empty(),
    }
}

/// Whether the lower-case names of the desktop and of the session are those of KDE Plasma:
/// the desktop's name holds "kde", or the session's name holds "plasma" or "kde".
pub open spec fn names_kde(desktop_lower: Seq<char>, session_lower: Seq<char>) -> bool {
    ||| has_substring(desktop_lower, "kde"@)
    ||| has_substring(session_lower, "plasma"@)
    ||| has_substring(session_lower, "kde"@)
}

impl Environment {
    /// Whether the platform is Linux.
    pub open spec fn on_linux(&self) -> bool {
        self.os@ == "linux"@
    }

    /// Whether the desktop or the session variable names KDE Plasma, in any case of letters.
    pub open spec fn is_kde(&self) -> bool {
        names_kde(lowered(self.current_desktop), lowered(self.desktop_session))
    }

    /// Whether the session type is exactly "wayland".
    pub open spec fn on_wayland(&self) -> bool {
        text_or_empty(self.session_type) == "wayland"@
    }

    /// The kind of session that the environment describes. A KDE session of any type but
    /// "wayland", or of none, counts as X11.
    pub open spec fn classification(&self) -> SessionClassification {
        if !self.on_linux() {
            SessionClassification::NonLinux
        } else if !self.is_kde() {
            SessionClassification::NonKde
        } else if self.on_wayland() {
            SessionClassification::KdeWayland
        } else {
            SessionClassification::KdeX11
        }
    }

    /// The summary of the environment for troubleshooting: on Linux the three variables,
    /// elsewhere the platform's identifier.
    pub open spec fn description(&self) -> Seq<char> {
        if self.on_linux() {
            "Desktop: "@ + text_or_empty(self.current_desktop) + ", Session: "@ + text_or_empty(
                self.desktop_session,
            ) + ", Type: "@ + text_or_empty(self.session_type)
        } else {
            self.os@
        }
    }
}

/// Decides [`names_kde`] for names that are in lower case already.
pub fn lowered_names_kde(desktop_lower: &str, session_lower: &str) -> (r: bool)
    ensures
        r == names_kde(desktop_lower@, session_lower@),
{
    text_contains(desktop_lower, "kde") || text_contains(session_lower, "plasma") || text_contains(
        session_lower,
        "kde",
    )
}

/// The text of a variable in lower case, empty where it is not set.
fn lowered_value(value: &Option<String>) -> (r: String)
    ensures
        r@ == lowered(*value),
{
    match value {
        Some(text) => to_lowercase(text.as_str()),
        None => String::new(),
    }
}

/// The text of a variable, empty where it is not set.
fn value_or_empty<'a>(value: &'a Option<String>) -> (r: &'a str)
    ensures
        r@ == text_or_empty(*value),
{
    match value {
        Some(text) => text.as_str(),
        None => {
            proof {
                reveal_strlit("");
            }
            ""
        },
    }
}

/// Whether the environment is that of a KDE Plasma desktop.
pub fn is_kde_plasma(env: &Environment) -> (r: bool)
    ensures
        r == env.is_kde(),
{
    let desktop = lowered_value(&env.current_desktop);
    let session = lowered_value(&env.desktop_session);
    lowered_names_kde(desktop.as_str(), session.as_str())
}

/// Classifies the session that the environment describes.
pub fn classify(env: &Environment) -> (r: SessionClassification)
    ensures
        r == env.classification(),
{
    if !same_text(env.os.as_str(), "linux") {
        SessionClassification::NonLinux
    } else if !is_kde_plasma(env) {
        SessionClassification::NonKde
    } else if same_text(value_or_empty(&env.session_type), "wayland") {
        SessionClassification::KdeWayland
    } else {
        SessionClassification::KdeX11
    }
}

/// Describes the environment for troubleshooting.
pub fn get_desktop_environment(env: &Environment) -> (r: String)
    ensures
        r@ == env.description(),
{
    if same_text(env.os.as_str(), "linux") {
        let mut summary = String::from_str("Desktop: ");
        summary.append(value_or_empty(&env.current_desktop));
        summary.append(", Session: ");
        summary.append(value_or_empty(&env.desktop_session));
        summary.append(", Type: ");
        summary.append(value_or_empty(&env.session_type));
        summary
    } else {
        env.os.clone()
    }
}

/// On Linux, and for a session name that does not hold "plasma", the session is a KDE
/// session exactly if the desktop's name or the session's name holds "kde", in any case of
/// letters; otherwise it is no KDE session.
pub proof fn lemma_kde_by_name(env: Environment)
    requires
        env.on_linux(),
        !has_substring(lowered(env.desktop_session), "plasma"@),
    ensures
        has_substring(lowered(env.current_desktop), "kde"@) || has_substring(
            lowered(env.desktop_session),
            "kde"@,
        ) ==> env.classification() == SessionClassification::KdeX11 || env.classification()
            == SessionClassification::KdeWayland,
        !has_substring(lowered(env.current_desktop), "kde"@) && !has_substring(
            lowered(env.desktop_session),
            "kde"@,
        ) ==> env.classification() == SessionClassification::NonKde,
{
}

/// A session name that holds "plasma" makes a KDE session on Linux, whatever the desktop's
/// name is.
pub proof fn lemma_plasma_session_is_kde(env: Environment)
    requires
        env.on_linux(),
        has_substring(lowered(env.desktop_session), "plasma"@),
    ensures
        env.classification() == SessionClassification::KdeX11 || env.classification()
            == SessionClassification::KdeWayland,
{
}

/// Where neither the desktop nor the session variable is set, the session is no KDE session.
pub proof fn lemma_unset_names_no_desktop(env: Environment)
    requires
        env.current_desktop is None,
        env.desktop_session is None,
    ensures
        !env.is_kde(),
        env.on_linux() ==> env.classification() == SessionClassification::NonKde,
{
    reveal_strlit("kde");
    reveal_strlit("plasma");
    let empty = Seq::<char>::empty();
    assert forall|i: int| !occurs_at(empty, "kde"@, i) && !occurs_at(empty, "plasma"@, i) by {}
}

/// A KDE session on Linux is a Wayland session exactly if the session type is "wayland".
/// With any other type, and with none, it is an X11 session.
pub proof fn lemma_session_type_selects(env: Environment)
    requires
        env.on_linux(),
        env.is_kde(),
    ensures
        text_or_empty(env.session_type) == "wayland"@ ==> env.classification()
            == SessionClassification::KdeWayland,
        text_or_empty(env.session_type) != "wayland"@ ==> env.classification()
            == SessionClassification::KdeX11,
        env.session_type is None ==> env.classification() == SessionClassification::KdeX11,
{
    reveal_strlit("wayland");
    assert("wayland"@.len() != Seq::<char>::empty().len());
}

} // verus!
