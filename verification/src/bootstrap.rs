//! The one-time webview setup pass: what the shell asks of the external
//! windowing host at startup, and how its two event handlers react.
//!
//! The host performs the effects; this module only decides them. The setup
//! pass is planned as a value, in the fixed order the host executes it:
//! navigate the main surface (if any), attach the file-drop suppression
//! handler, register the process-wide update-available handler.

use vstd::prelude::*;
use vstd::string::StringExecFns;
use crate::launch::{launch_url, launch_url_spec};
use crate::role::Role;

verus! {

/// How the shell treats a main surface the host cannot hand out at setup
/// time: `Strict` aborts startup with a diagnostic, `Degrade` proceeds with
/// navigation skipped. Both behaviours exist in the wild for this bootstrap;
/// the choice is made explicit here rather than silently picking one.
#[derive(Clone, Copy, PartialEq, Eq, Structural, Debug)]
pub enum SurfacePolicy {
    Strict,
    Degrade,
}

/// A modal notice the host is asked to render for the user.
pub struct UserNotice {
    pub title: String,
    pub message: String,
}

/// The effects the setup pass asks of the host, in execution order.
pub struct SetupPlan {
    /// URL the main surface is directed to, loaded by replacing the current
    /// history entry so back-navigation cannot reach prior state; `None`
    /// when the surface is absent and the policy degrades.
    pub navigate_to: Option<String>,
    /// Whether the file-drop suppression handler is attached; it hangs off
    /// the main surface, so it can only be attached when the surface exists.
    pub suppress_file_drops: bool,
    /// Whether the process-wide update-available handler is registered; it
    /// is registered in every setup that does not abort.
    pub watch_for_updates: bool,
}

/// The diagnostic a strict-mode abort carries.
pub open spec fn missing_surface_diagnostic() -> Seq<char> {
    "main surface not available at startup"@
}

/// Decides the whole setup pass from the resolved role, whether the host
/// handed out the main surface, and the missing-surface policy. With the
/// surface present, the plan navigates it to the launch URL of `role` and
/// registers both handlers. Without it, `Degrade` keeps the update handler
/// but skips navigation and drop suppression, while `Strict` aborts with a
/// diagnostic before any navigation is requested.
pub fn plan_setup(role: Role, surface_present: bool, policy: SurfacePolicy) -> (r: Result<
    SetupPlan,
    String,
>)
    ensures
        surface_present ==> (r matches Ok(p) && p.navigate_to matches Some(u) && u@
            == launch_url_spec(role) && p.suppress_file_drops && p.watch_for_updates),
        !surface_present && policy is Degrade ==> (r matches Ok(p) && p.navigate_to is None
            && !p.suppress_file_drops && p.watch_for_updates),
        !surface_present && policy is Strict ==> (r matches Err(d) && d@
            == missing_surface_diagnostic()),
{
    if surface_present {
        Ok(
            SetupPlan {
                navigate_to: Some(launch_url(role)),
                suppress_file_drops: true,
                watch_for_updates: true,
            },
        )
    } else {
        match policy {
            SurfacePolicy::Degrade => Ok(
                SetupPlan {
                    navigate_to: None,
                    suppress_file_drops: false,
                    watch_for_updates: true,
                },
            ),
            SurfacePolicy::Strict => Err(
                String::from_str("main surface not available at startup"),
            ),
        }
    }
}

/// What the shell answers when the host reports a file dropped onto the
/// window: suppress the host's default handling, or direct the surface to
/// a URL.
pub enum DropResponse {
    /// Do nothing; the drop triggers no navigation and no other effect.
    Suppress,
    /// Navigate the surface somewhere. The shell's handler never produces
    /// this; it exists because it is exactly the default the veto replaces.
    Navigate(String),
}

/// The file-drop handler: whatever was dropped and however often, the shell
/// suppresses the host's default navigation and produces no other effect.
pub fn on_file_drop() -> (r: DropResponse)
    ensures
        r is Suppress,
{
    DropResponse::Suppress
}

/// Notification requests a single firing of the update handler issues: one
/// whenever the surface reference it captured is still alive, else none.
pub open spec fn notices_per_firing(surface_alive: bool) -> nat {
    if surface_alive {
        1
    } else {
        0
    }
}

/// The update-available handler: each firing asks the host to render
/// exactly one notice, provided the main-surface reference captured at
/// registration time is still alive; with a dead reference the notice is
/// dropped silently rather than failing. The handler keeps no state
/// between firings.
pub fn on_update_available(surface_alive: bool) -> (r: Option<UserNotice>)
    ensures
        surface_alive ==> (r matches Some(n) && n.title@ == "Update"@ && n.message@
            == "A new version is available. Downloading\u{2026}"@),
        !surface_alive ==> r is None,
        (if r is Some {
            1nat
        } else {
            0nat
        }) == notices_per_firing(surface_alive),
{
    if surface_alive {
        Some(
            UserNotice {
                title: String::from_str("Update"),
                message: String::from_str("A new version is available. Downloading\u{2026}"),
            },
        )
    } else {
        None
    }
}

/// Total notices issued over `n` consecutive firings of the update handler,
/// with the captured surface reference in state `surface_alive` throughout.
pub open spec fn notices_after_firings(surface_alive: bool, n: nat) -> nat
    decreases n,
{
    if n == 0 {
        0
    } else {
        notices_per_firing(surface_alive) + notices_after_firings(surface_alive, (n - 1) as nat)
    }
}

/// Firing the update handler `n` times issues exactly `n` notification
/// requests while the captured surface reference stays alive — one per
/// firing, never deduplicated — and none once the reference has died.
pub proof fn lemma_notices_not_deduplicated(surface_alive: bool, n: nat)
    ensures
        notices_after_firings(surface_alive, n) == (if surface_alive {
            n
        } else {
            0nat
        }),
    decreases n,
{
    if n > 0 {
        lemma_notices_not_deduplicated(surface_alive, (n - 1) as nat);
    }
}

} // verus!
