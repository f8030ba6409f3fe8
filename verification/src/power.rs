//! Leaving the session: suspend, log out, restart, shut down.

use vstd::prelude::*;

use crate::text::same_text;

verus! {

/// The login manager may ask the user to authenticate.
pub const INTERACTIVE: bool = true;

/// The mode of a logout that the GNOME session manager is asked for: it asks back.
pub const GNOME_LOGOUT_MODE: u32 = 0;

/// What the buttons at the foot of the popup do to the session.
#[derive(Clone, Copy, Debug, PartialEq, Eq, Structural)]
pub enum PowerAction {
    Suspend,
    Logout,
    Restart,
    Shutdown,
}

/// What is asked of the login manager, or of the session for a logout.
#[derive(Clone, Copy, Debug, PartialEq, Eq, Structural)]
pub enum SystemCall {
    Suspend,
    LogOut,
    Reboot,
    PowerOff,
}

/// How an action is carried out: through the on-screen display, called with the
/// word `osd`, and by `call` where there is no word or the display did not start.
#[derive(Clone, Copy, Debug)]
pub struct PowerPlan {
    pub osd: Option<&'static str>,
    pub call: SystemCall,
}

/// The session that is asked to end.
#[derive(Clone, Copy, Debug, PartialEq, Eq, Structural)]
pub enum LogoutCall {
    /// The GNOME session manager, asked for a logout in this mode.
    Gnome(u32),
    /// The COSMIC session, asked to exit.
    Cosmic,
}

/// The word with which the on-screen display is called.
pub open spec fn osd_word(action: PowerAction) -> Option<Seq<char>> {
    match action {
        PowerAction::Suspend => None,
        PowerAction::Logout => Some("log-out"@),
        PowerAction::Restart => Some("restart"@),
        PowerAction::Shutdown => Some("shutdown"@),
    }
}

/// What does an action directly.
pub open spec fn direct_call(action: PowerAction) -> SystemCall {
    match action {
        PowerAction::Suspend => SystemCall::Suspend,
        PowerAction::Logout => SystemCall::LogOut,
        PowerAction::Restart => SystemCall::Reboot,
        PowerAction::Shutdown => SystemCall::PowerOff,
    }
}

/// A [`PowerPlan`] with its word as a sequence.
pub struct PlanView {
    pub osd: Option<Seq<char>>,
    pub call: SystemCall,
}

impl View for PowerPlan {
    type V = PlanView;

    open spec fn view(&self) -> PlanView {
        PlanView {
            osd: match self.osd {
                Some(word) => Some(word@),
                None => None,
            },
            call: self.call,
        }
    }
}

/// How an action is carried out.
pub open spec fn plan_for(action: PowerAction) -> PlanView {
    PlanView { osd: osd_word(action), call: direct_call(action) }
}

/// How an action is carried out.
pub fn perform_power_action(action: PowerAction) -> (r: PowerPlan)
    ensures
        r@ == plan_for(action),
{
    match action {
        PowerAction::Suspend => PowerPlan { osd: None, call: SystemCall::Suspend },
        PowerAction::Logout => PowerPlan { osd: Some("log-out"), call: SystemCall::LogOut },
        PowerAction::Restart => PowerPlan { osd: Some("restart"), call: SystemCall::Reboot },
        PowerAction::Shutdown => PowerPlan { osd: Some("shutdown"), call: SystemCall::PowerOff },
    }
}

/// What is left to do once the on-screen display was started, or could not be.
pub open spec fn left_to_do(plan: PlanView, started: bool) -> Option<SystemCall> {
    if plan.osd is Some && started {
        None
    } else {
        Some(plan.call)
    }
}

/// What is left to do once the on-screen display was started, or could not be.
pub fn osd_or_fallback(plan: PowerPlan, started: bool) -> (r: Option<SystemCall>)
    ensures
        r == (if plan.osd is Some && started {
            None
        } else {
            Some(plan.call)
        }),
        r == left_to_do(plan@, started),
{
    if plan.osd.is_some() && started {
        None
    } else {
        Some(plan.call)
    }
}

/// The session that is asked to end, by the name of the desktop.
pub open spec fn logout_of(desktop: Option<Seq<char>>) -> LogoutCall {
    if desktop == Some("pop:GNOME"@) {
        LogoutCall::Gnome(GNOME_LOGOUT_MODE)
    } else {
        LogoutCall::Cosmic
    }
}

/// The session that is asked to end, by the name of the desktop.
pub fn log_out(desktop: Option<&str>) -> (r: LogoutCall)
    ensures
        r == match desktop {
            Some(desktop) => logout_of(Some(desktop@)),
            None => logout_of(None),
        },
{
    match desktop {
        Some(desktop) => {
            if same_text(desktop, "pop:GNOME") {
                LogoutCall::Gnome(GNOME_LOGOUT_MODE)
            } else {
                LogoutCall::Cosmic
            }
        },
        None => LogoutCall::Cosmic,
    }
}

/// Different actions come to different calls.
pub proof fn actions_differ(a: PowerAction, b: PowerAction)
    requires
        a != b,
    ensures
        direct_call(a) != direct_call(b),
{
}

/// Each action has its own word for the on-screen display, but for suspending, which goes
/// without, and its own call.
pub proof fn actions_are_carried_out_as_named()
    ensures
        plan_for(PowerAction::Suspend).osd is None,
        plan_for(PowerAction::Suspend).call == SystemCall::Suspend,
        plan_for(PowerAction::Logout).osd == Some("log-out"@),
        plan_for(PowerAction::Logout).call == SystemCall::LogOut,
        plan_for(PowerAction::Restart).osd == Some("restart"@),
        plan_for(PowerAction::Restart).call == SystemCall::Reboot,
        plan_for(PowerAction::Shutdown).osd == Some("shutdown"@),
        plan_for(PowerAction::Shutdown).call == SystemCall::PowerOff,
{
}

/// The call is made just where the on-screen display does not take over: where it did not
/// start, or is not called at all.
pub proof fn call_is_made_unless_the_display_starts(plan: PlanView, started: bool)
    ensures
        left_to_do(plan, false) == Some(plan.call),
        left_to_do(PlanView { osd: None, ..plan }, started) == Some(plan.call),
        plan.osd is Some ==> left_to_do(plan, true) is None,
{
}

/// A logout asks the GNOME session manager, in the mode that asks back, just on the
/// desktop of that name, and the COSMIC session on every other.
pub proof fn logout_goes_by_the_desktop(desktop: Option<Seq<char>>)
    ensures
        logout_of(desktop) == LogoutCall::Gnome(0) <==> desktop == Some("pop:GNOME"@),
        logout_of(desktop) == LogoutCall::Cosmic <==> desktop != Some("pop:GNOME"@),
{
}

/// The view of a plan is its word and its call.
pub proof fn plan_view_is_faithful(plan: PowerPlan)
    ensures
        plan@.call == plan.call,
        plan@.osd is Some <==> plan.osd is Some,
        plan.osd matches Some(word) ==> plan@.osd == Some(word@),
{
}

} // verus!
