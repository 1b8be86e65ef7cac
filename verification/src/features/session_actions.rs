//! Routes the session actions that were asked for in the menu.

use vstd::prelude::*;

use crate::actionq;
use crate::actionq::{ActionQueue, SessionAction};
use crate::levels::{Level, LogLine, LogLineView};
use crate::notify::{Severity, Toast, ToastView};

verus! {

/// The router; it has no state of its own.
#[derive(Clone, Copy, Debug, PartialEq, Eq, Structural)]
pub struct SessionActionsTick;

/// What an action comes to.
#[derive(Clone, Copy, Debug, PartialEq, Eq, Structural)]
pub enum Route {
    Host,
    Join,
    Leave,
    /// Nothing stands behind the action yet: say so.
    NotWired,
}

impl SessionAction {
    /// The action's name in the log.
    pub open spec fn name_chars(self) -> Seq<char> {
        match self {
            SessionAction::OpenWorld => "OpenWorld"@,
            SessionAction::JoinWorld => "JoinWorld"@,
            SessionAction::LeaveWorld => "LeaveWorld"@,
            SessionAction::LockWorld => "LockWorld"@,
            SessionAction::UnlockWorld => "UnlockWorld"@,
            SessionAction::TogglePvp => "TogglePvp"@,
            SessionAction::TogglePvpTeams => "TogglePvpTeams"@,
            SessionAction::ToggleFriendlyFire => "ToggleFriendlyFire"@,
        }
    }

    /// The action's name in the log.
    pub fn name(self) -> (name: &'static str)
        ensures
            name@ == self.name_chars(),
    {
        match self {
            SessionAction::OpenWorld => "OpenWorld",
            SessionAction::JoinWorld => "JoinWorld",
            SessionAction::LeaveWorld => "LeaveWorld",
            SessionAction::LockWorld => "LockWorld",
            SessionAction::UnlockWorld => "UnlockWorld",
            SessionAction::TogglePvp => "TogglePvp",
            SessionAction::TogglePvpTeams => "TogglePvpTeams",
            SessionAction::ToggleFriendlyFire => "ToggleFriendlyFire",
        }
    }

    /// Where the action goes: the lobby verbs to the connection, everything else nowhere yet.
    pub open spec fn route(self) -> Route {
        match self {
            SessionAction::OpenWorld => Route::Host,
            SessionAction::JoinWorld => Route::Join,
            SessionAction::LeaveWorld => Route::Leave,
            _ => Route::NotWired,
        }
    }
}

/// A routed action.
#[derive(Debug)]
pub struct Routed {
    pub action: SessionAction,
    pub line: LogLine,
    pub route: Route,
}

/// A routed action with the characters of its line.
pub struct RoutedView {
    pub action: SessionAction,
    pub line: LogLineView,
    pub route: Route,
}

impl View for Routed {
    type V = RoutedView;

    open spec fn view(&self) -> RoutedView {
        RoutedView { action: self.action, line: self.line@, route: self.route }
    }
}

/// The routed actions with the characters of their lines.
pub open spec fn routed_view(list: Seq<Routed>) -> Seq<RoutedView> {
    Seq::new(list.len(), |i: int| list[i]@)
}

/// How one action is routed.
pub open spec fn routed(action: SessionAction) -> RoutedView {
    RoutedView {
        action,
        line: LogLineView {
            level: Level::Info,
            text: "menu requested session action "@ + action.name_chars(),
        },
        route: action.route(),
    }
}

/// How a list of actions is routed.
pub open spec fn all_routed(actions: Seq<SessionAction>) -> Seq<RoutedView> {
    Seq::new(actions.len(), |i: int| routed(actions[i]))
}

impl SessionActionsTick {
    /// The router.
    pub fn new() -> (tick: SessionActionsTick)
        ensures
            tick == SessionActionsTick,
    {
        SessionActionsTick
    }

    /// Takes every waiting action, oldest first, and says where each goes.
    pub fn on_frame(&self, queue: Option<&mut ActionQueue>) -> (list: Vec<Routed>)
        ensures
            match queue {
                Some(q) => routed_view(list@) == all_routed((*q)@) && final(q)@ == Seq::<
                    SessionAction,
                >::empty(),
                None => list@ == Seq::<Routed>::empty(),
            },
    {
        let actions = actionq::drain(queue);
        let mut list: Vec<Routed> = Vec::new();
        let mut i: usize = 0;
        assert(routed_view(list@) =~= all_routed(actions@.take(0)));
        while i < actions.len()
            invariant
                i <= actions@.len(),
                list@.len() == i,
                routed_view(list@) == all_routed(actions@.take(i as int)),
            decreases actions@.len() - i,
        {
            let action = actions[i];
            let mut text = "menu requested session action ".to_owned();
            text.append(action.name());
            let route = match action {
                SessionAction::OpenWorld => Route::Host,
                SessionAction::JoinWorld => Route::Join,
                SessionAction::LeaveWorld => Route::Leave,
                _ => Route::NotWired,
            };
            let ghost before = routed_view(list@);
            let entry = Routed { action, line: LogLine { level: Level::Info, text }, route };
            let ghost shown = entry@;
            list.push(entry);
            assert(routed_view(list@) =~= before.push(shown));
            i = i + 1;
            assert(all_routed(actions@.take(i as int)) =~= before.push(routed(actions@[i - 1])));
        }
        assert(actions@.take(i as int) =~= actions@);
        list
    }

    /// The notice about an action that nothing stands behind yet.
    pub fn not_wired(&self, label: &str) -> (toast: Toast)
        ensures
            toast@ == (ToastView {
                severity: Severity::Info,
                message: label@ + " (not wired up yet)"@,
            }),
    {
        let mut message = label.to_owned();
        message.append(" (not wired up yet)");
        Toast { severity: Severity::Info, message }
    }
}

/// Every action that was asked for is routed, at its place, as itself: opening hosts, joining joins and leaving
/// leaves, and nothing else does any of these.
pub proof fn every_action_is_routed(actions: Seq<SessionAction>, i: int)
    requires
        0 <= i < actions.len(),
    ensures
        all_routed(actions).len() == actions.len(),
        all_routed(actions)[i].action == actions[i],
        (all_routed(actions)[i].route == Route::Host) == (actions[i] == SessionAction::OpenWorld),
        (all_routed(actions)[i].route == Route::Join) == (actions[i] == SessionAction::JoinWorld),
        (all_routed(actions)[i].route == Route::Leave) == (actions[i] == SessionAction::LeaveWorld),
        all_routed(actions)[i].line.text == "menu requested session action "@
            + actions[i].name_chars(),
{
}

/// Each action goes by its own name.
pub proof fn actions_go_by_their_names()
    ensures
        SessionAction::OpenWorld.name_chars() == "OpenWorld"@,
        SessionAction::JoinWorld.name_chars() == "JoinWorld"@,
        SessionAction::LeaveWorld.name_chars() == "LeaveWorld"@,
        SessionAction::LockWorld.name_chars() == "LockWorld"@,
        SessionAction::UnlockWorld.name_chars() == "UnlockWorld"@,
        SessionAction::TogglePvp.name_chars() == "TogglePvp"@,
        SessionAction::TogglePvpTeams.name_chars() == "TogglePvpTeams"@,
        SessionAction::ToggleFriendlyFire.name_chars() == "ToggleFriendlyFire"@,
{
}

/// What was asked for is told to everyone.
pub proof fn a_request_is_told_to_everyone(action: SessionAction)
    ensures
        routed(action).line.level == Level::Info,
{
}

} // verus!
