//! Whether a paste has somewhere to land: the default is to paste, and text
//! is withheld only when a concrete non-text element holds focus, or when web
//! content holds focus for the whole polling budget without naming a field.

use vstd::prelude::*;

use crate::text::{chars_equal, chars_of, push_all, push_str, string_of};

verus! {

/// How long an app is asked to name its focused element.
pub const FOCUS_POLL_TIMEOUT_MS: u64 = 400;

/// Gap between those attempts.
pub const FOCUS_POLL_INTERVAL_MS: u64 = 60;

/// What one look at the focused element established.
#[derive(Debug, Clone, PartialEq, Eq)]
pub enum Verdict {
    /// Somewhere to paste; carries the evidence.
    Paste(String),
    /// A concrete non-text element holds focus: nowhere to paste.
    Widget(String),
    /// A container answered for whatever is focused inside it; decides
    /// nothing. Carries the role.
    Unresolved(String),
}

/// Roles that are text entry outright.
pub open spec fn is_text_role(r: Seq<char>) -> bool {
    r == "AXTextField"@ || r == "AXTextArea"@ || r == "AXComboBox"@ || r == "AXSearchField"@
}

/// Roles meaning the app itself owns the keystrokes.
pub open spec fn is_app_level_role(r: Seq<char>) -> bool {
    r == "AXWindow"@ || r == "AXApplication"@
}

/// Roles that stand for a container of the focused thing.
pub open spec fn is_container_role(r: Seq<char>) -> bool {
    r == "AXWebArea"@
}

pub enum VerdictKind {
    Paste,
    Widget,
    Unresolved,
}

pub open spec fn verdict_kind(v: Verdict) -> VerdictKind {
    match v {
        Verdict::Paste(_) => VerdictKind::Paste,
        Verdict::Widget(_) => VerdictKind::Widget,
        Verdict::Unresolved(_) => VerdictKind::Unresolved,
    }
}

pub open spec fn verdict_text(v: Verdict) -> Seq<char> {
    match v {
        Verdict::Paste(s) => s@,
        Verdict::Widget(s) => s@,
        Verdict::Unresolved(s) => s@,
    }
}

/// The verdict a role gives, with its evidence.
pub open spec fn role_verdict(role: Option<Seq<char>>) -> (VerdictKind, Seq<char>) {
    match role {
        None => (VerdictKind::Paste, "focused element has no readable role"@),
        Some(r) => if is_text_role(r) {
            (VerdictKind::Paste, "focused element is text (role "@ + r + ")"@)
        } else if is_app_level_role(r) {
            (VerdictKind::Paste, "app-level focus (role "@ + r + ")"@)
        } else if is_container_role(r) {
            (VerdictKind::Unresolved, r)
        } else {
            (VerdictKind::Widget, "a concrete non-text element holds focus (role "@ + r + ")"@)
        },
    }
}

fn is_one_of(role: &Vec<char>, options: &[&str]) -> (r: bool)
    ensures
        r == exists|i: int| 0 <= i < options@.len() && role@ == (#[trigger] options@[i])@,
{
    let mut i: usize = 0;
    while i < options.len()
        invariant
            i <= options@.len(),
            forall|k: int| 0 <= k < i ==> role@ != (#[trigger] options@[k])@,
        decreases options.len() - i,
    {
        let o = chars_of(options[i]);
        if chars_equal(role, &o) {
            return true;
        }
        i = i + 1;
    }
    false
}

fn with_role(prefix: &str, role: &Vec<char>) -> (r: String)
    ensures
        r@ == prefix@ + role@ + ")"@,
{
    let mut v = chars_of(prefix);
    push_all(&mut v, role);
    push_str(&mut v, ")");
    string_of(v.as_slice())
}

/// The verdict for a focused element by its role alone.
pub fn classify_role(role: Option<&str>) -> (v: Verdict)
    ensures
        (verdict_kind(v), verdict_text(v)) == role_verdict(
            match role {
                Some(r) => Some(r@),
                None => None,
            },
        ),
{
    let r = match role {
        None => {
            return Verdict::Paste("focused element has no readable role".to_owned());
        },
        Some(r) => chars_of(r),
    };
    let text_roles = ["AXTextField", "AXTextArea", "AXComboBox", "AXSearchField"];
    let app_roles = ["AXWindow", "AXApplication"];
    let container_roles = ["AXWebArea"];
    let is_text = is_one_of(&r, &text_roles);
    assert(is_text == is_text_role(r@)) by {
        if is_text_role(r@) {
            if r@ == "AXTextField"@ {
                assert(text_roles@[0]@ == "AXTextField"@);
            } else if r@ == "AXTextArea"@ {
                assert(text_roles@[1]@ == "AXTextArea"@);
            } else if r@ == "AXComboBox"@ {
                assert(text_roles@[2]@ == "AXComboBox"@);
            } else {
                assert(text_roles@[3]@ == "AXSearchField"@);
            }
        }
    }
    if is_text {
        return Verdict::Paste(with_role("focused element is text (role ", &r));
    }
    let is_app = is_one_of(&r, &app_roles);
    assert(is_app == is_app_level_role(r@)) by {
        if is_app_level_role(r@) {
            if r@ == "AXWindow"@ {
                assert(app_roles@[0]@ == "AXWindow"@);
            } else {
                assert(app_roles@[1]@ == "AXApplication"@);
            }
        }
    }
    if is_app {
        return Verdict::Paste(with_role("app-level focus (role ", &r));
    }
    let is_container = is_one_of(&r, &container_roles);
    assert(is_container == is_container_role(r@)) by {
        if is_container_role(r@) {
            assert(container_roles@[0]@ == "AXWebArea"@);
        }
    }
    if is_container {
        return Verdict::Unresolved(string_of(r.as_slice()));
    }
    Verdict::Widget(with_role("a concrete non-text element holds focus (role ", &r))
}

/// The verdict for a focused element: a settable value or a settable
/// selected text means it takes text, whatever its role claims.
pub fn classify_element(
    value_settable: bool,
    selected_text_settable: bool,
    role: Option<&str>,
) -> (v: Verdict)
    ensures
        value_settable ==> (verdict_kind(v) == VerdictKind::Paste && verdict_text(v)
            == "focused element has a settable AXValue"@),
        !value_settable && selected_text_settable ==> (verdict_kind(v) == VerdictKind::Paste
            && verdict_text(v) == "focused element has settable AXSelectedText"@),
        !value_settable && !selected_text_settable ==> (verdict_kind(v), verdict_text(v))
            == role_verdict(
            match role {
                Some(r) => Some(r@),
                None => None,
            },
        ),
{
    if value_settable {
        return Verdict::Paste("focused element has a settable AXValue".to_owned());
    }
    if selected_text_settable {
        return Verdict::Paste("focused element has settable AXSelectedText".to_owned());
    }
    classify_role(role)
}

/// What polling the focused element has settled so far.
#[derive(Debug, Clone, Copy, PartialEq, Eq, Structural)]
pub enum PollDecision {
    /// Paste, or withhold (`false`), now.
    Decided(bool),
    /// Keep asking; `saw_container` records that a container answered.
    KeepPolling { saw_container: bool },
}

/// One look at the focused element (`None` when the app named none):
/// a paste or widget verdict decides; otherwise polling goes on,
/// remembering whether a container ever answered.
pub fn after_look(saw_container: bool, look: &Option<Verdict>) -> (r: PollDecision)
    ensures
        r == match look {
            Some(Verdict::Paste(_)) => PollDecision::Decided(true),
            Some(Verdict::Widget(_)) => PollDecision::Decided(false),
            Some(Verdict::Unresolved(_)) => PollDecision::KeepPolling { saw_container: true },
            None => PollDecision::KeepPolling { saw_container },
        },
{
    match look {
        Some(Verdict::Paste(_)) => PollDecision::Decided(true),
        Some(Verdict::Widget(_)) => PollDecision::Decided(false),
        Some(Verdict::Unresolved(_)) => PollDecision::KeepPolling { saw_container: true },
        None => PollDecision::KeepPolling { saw_container },
    }
}

/// Once the polling budget is spent: a container that never resolved is web
/// content with no field focused, so withhold; silence is no evidence, so
/// paste.
pub fn after_poll(saw_container: bool) -> (paste: bool)
    ensures
        paste == !saw_container,
{
    !saw_container
}

} // verus!
