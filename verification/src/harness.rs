//! The harness that drives two peers against each other: which scenarios run, when the peers are taken
//! to have settled, and what is printed.

use vstd::prelude::*;

use crate::notify::{banners_view, toasts_view, Notifications, NotificationsView, Severity};

verus! {

/// The scenarios, in the order they run.
#[derive(Clone, Copy, Debug, PartialEq, Eq, Structural)]
pub enum Scenario {
    Handshake,
    VersionMismatch,
    ConfigSync,
    SessionAction,
    LogForward,
}

/// The number of scenarios.
pub const SCENARIOS: usize = 5;

/// The scenarios, in the order they run.
pub open spec fn scenario(i: int) -> Scenario {
    if i == 0 {
        Scenario::Handshake
    } else if i == 1 {
        Scenario::VersionMismatch
    } else if i == 2 {
        Scenario::ConfigSync
    } else if i == 3 {
        Scenario::SessionAction
    } else {
        Scenario::LogForward
    }
}

impl Scenario {
    /// The scenario's name.
    pub open spec fn name_chars(self) -> Seq<char> {
        match self {
            Scenario::Handshake => "handshake"@,
            Scenario::VersionMismatch => "version-mismatch"@,
            Scenario::ConfigSync => "config-sync"@,
            Scenario::SessionAction => "session-action"@,
            Scenario::LogForward => "log-forward"@,
        }
    }

    /// The scenario's name.
    pub fn name(self) -> (name: &'static str)
        ensures
            name@ == self.name_chars(),
    {
        match self {
            Scenario::Handshake => "handshake",
            Scenario::VersionMismatch => "version-mismatch",
            Scenario::ConfigSync => "config-sync",
            Scenario::SessionAction => "session-action",
            Scenario::LogForward => "log-forward",
        }
    }

    /// What the scenario shows, as the line above its output puts it.
    pub fn title(self) -> (title: &'static str)
        ensures
            title@ == (match self {
                Scenario::Handshake => "=== handshake: two peers exchange versions ==="@,
                Scenario::VersionMismatch => "=== version-mismatch: incompatible majors warn the user ==="@,
                Scenario::ConfigSync => "=== config-sync: host's shared settings converge to the client ==="@,
                Scenario::SessionAction => "=== session-action: host-only actions are authorized by sender role ==="@,
                Scenario::LogForward => "=== log-forward: client debug logs aggregate on the host ==="@,
            }),
    {
        match self {
            Scenario::Handshake => "=== handshake: two peers exchange versions ===",
            Scenario::VersionMismatch => "=== version-mismatch: incompatible majors warn the user ===",
            Scenario::ConfigSync => "=== config-sync: host's shared settings converge to the client ===",
            Scenario::SessionAction => "=== session-action: host-only actions are authorized by sender role ===",
            Scenario::LogForward => "=== log-forward: client debug logs aggregate on the host ===",
        }
    }
}

/// What a run does.
#[derive(Debug)]
pub enum Selection {
    All,
    One(Scenario),
    /// There is no such scenario: say this and fail.
    Unknown(String),
}

pub const OPTIONS: &'static str = "'. options: handshake, version-mismatch, config-sync, session-action, log-forward, all";

/// The scenario of a name.
pub open spec fn named(name: Seq<char>) -> Option<Scenario> {
    if name == "handshake"@ {
        Some(Scenario::Handshake)
    } else if name == "version-mismatch"@ {
        Some(Scenario::VersionMismatch)
    } else if name == "config-sync"@ {
        Some(Scenario::ConfigSync)
    } else if name == "session-action"@ {
        Some(Scenario::SessionAction)
    } else if name == "log-forward"@ {
        Some(Scenario::LogForward)
    } else {
        None
    }
}

/// What a run does: everything unless a scenario is named.
pub fn select(which: Option<&str>) -> (selection: Selection)
    ensures
        match which {
            None => selection is All,
            Some(name) => if name@ == "all"@ {
                selection is All
            } else {
                match named(name@) {
                    Some(s) => selection matches Selection::One(one) && one == s,
                    None => selection matches Selection::Unknown(text) && text@
                        == "unknown scenario '"@ + name@ + OPTIONS@,
                }
            },
        },
{
    let name = match which {
        None => {
            return Selection::All;
        },
        Some(name) => name,
    };
    if crate::text::same_text(name, "all") {
        return Selection::All;
    }
    let mut i: usize = 0;
    while i < SCENARIOS
        invariant
            i <= SCENARIOS,
            forall|j: int| 0 <= j < i ==> name@ != (#[trigger] scenario(j)).name_chars(),
            name@ != "all"@,
            which == Some(name),
        decreases SCENARIOS - i,
    {
        let s = if i == 0 {
            Scenario::Handshake
        } else if i == 1 {
            Scenario::VersionMismatch
        } else if i == 2 {
            Scenario::ConfigSync
        } else if i == 3 {
            Scenario::SessionAction
        } else {
            Scenario::LogForward
        };
        if crate::text::same_text(name, s.name()) {
            proof {
                assert(scenario(i as int) == s);
                if i > 0 {
                    assert(name@ != scenario(0).name_chars());
                }
                if i > 1 {
                    assert(name@ != scenario(1).name_chars());
                }
                if i > 2 {
                    assert(name@ != scenario(2).name_chars());
                }
                if i > 3 {
                    assert(name@ != scenario(3).name_chars());
                }
            }
            return Selection::One(s);
        }
        assert(scenario(i as int) == s);
        i = i + 1;
    }
    proof {
        assert(name@ != scenario(0).name_chars());
        assert(name@ != scenario(1).name_chars());
        assert(name@ != scenario(2).name_chars());
        assert(name@ != scenario(3).name_chars());
        assert(name@ != scenario(4).name_chars());
    }
    let mut out = "unknown scenario '".to_owned();
    out.append(name);
    out.append(OPTIONS);
    Selection::Unknown(out)
}

/// The most rounds that two peers get to settle.
pub const MAX_ROUNDS: u32 = 100;

/// What a round comes to.
#[derive(Clone, Copy, Debug, PartialEq, Eq, Structural)]
pub enum Round {
    Again,
    /// Nothing moved: the peers have settled.
    Settled,
    /// They did not settle in time.
    Failed,
}

/// The rounds so far.
#[derive(Clone, Copy, Debug, PartialEq, Eq, Structural)]
pub struct Converge {
    pub rounds: u32,
}

impl Converge {
    /// No round yet.
    pub fn new() -> (c: Converge)
        ensures
            c.rounds == 0,
    {
        Converge { rounds: 0 }
    }

    /// After a round in which the host and the client handled so many frames.
    pub fn step(&mut self, host: usize, client: usize) -> (round: Round)
        requires
            old(self).rounds < MAX_ROUNDS,
        ensures
            final(self).rounds == old(self).rounds + 1,
            round == (if host == 0 && client == 0 {
                Round::Settled
            } else if final(self).rounds == MAX_ROUNDS {
                Round::Failed
            } else {
                Round::Again
            }),
            round == Round::Again ==> final(self).rounds < MAX_ROUNDS,
            (round == Round::Settled) == (host == 0 && client == 0),
    {
        self.rounds = self.rounds + 1;
        if host == 0 && client == 0 {
            Round::Settled
        } else if self.rounds == MAX_ROUNDS {
            Round::Failed
        } else {
            Round::Again
        }
    }
}

/// A severity's name.
pub open spec fn severity_chars(severity: Severity) -> Seq<char> {
    match severity {
        Severity::Info => "Info"@,
        Severity::Warning => "Warning"@,
        Severity::Error => "Error"@,
    }
}

/// A notice of one kind on the board of the peer with this label.
pub open spec fn notice_chars(
    label: Seq<char>,
    kind: Seq<char>,
    severity: Severity,
    message: Seq<char>,
) -> Seq<char> {
    "  ["@ + label + "] "@ + kind + "("@ + severity_chars(severity) + "): "@ + message
}

fn notice_text(label: &str, kind: &str, severity: Severity, message: &str) -> (out: String)
    ensures
        out@ == notice_chars(label@, kind@, severity, message@),
{
    let mut out = "  [".to_owned();
    out.append(label);
    out.append("] ");
    out.append(kind);
    out.append("(");
    out.append(
        match severity {
            Severity::Info => "Info",
            Severity::Warning => "Warning",
            Severity::Error => "Error",
        },
    );
    out.append("): ");
    out.append(message);
    out
}

/// The lines that show a board: its banners, then its toasts.
pub open spec fn notice_lines(label: Seq<char>, board: NotificationsView) -> Seq<Seq<char>> {
    Seq::new(
        board.banners.len(),
        |i: int|
            notice_chars(label, "banner"@, board.banners[i].severity, board.banners[i].message),
    ) + Seq::new(
        board.toasts.len(),
        |i: int|
            notice_chars(
                label,
                "toast"@,
                board.toasts[i].toast.severity,
                board.toasts[i].toast.message,
            ),
    )
}

/// The characters of some lines.
pub open spec fn lines_chars(lines: Seq<String>) -> Seq<Seq<char>> {
    Seq::new(lines.len(), |i: int| lines[i]@)
}

/// What the board of the peer with this label shows, line by line.
pub fn show_notifications(label: &str, board: &Notifications) -> (lines: Vec<String>)
    ensures
        lines_chars(lines@) == notice_lines(label@, board@),
{
    let banners = board.banners();
    let toasts = board.toasts();
    let ghost all = notice_lines(label@, board@);
    let mut lines: Vec<String> = Vec::new();
    let mut i: usize = 0;
    while i < banners.len()
        invariant
            i <= banners@.len(),
            all == notice_lines(label@, board@),
            banners_view(banners@) == board@.banners,
            lines@.len() == i,
            forall|j: int| 0 <= j < i ==> (#[trigger] lines@[j])@ == all[j],
        decreases banners@.len() - i,
    {
        let b = &banners[i];
        assert(board@.banners[i as int] == banners@[i as int]@);
        lines.push(notice_text(label, "banner", b.severity, b.message.as_str()));
        i = i + 1;
    }
    let mut k: usize = 0;
    while k < toasts.len()
        invariant
            k <= toasts@.len(),
            all == notice_lines(label@, board@),
            toasts_view(toasts@) == board@.toasts,
            lines@.len() == board@.banners.len() + k,
            forall|j: int| 0 <= j < lines@.len() ==> (#[trigger] lines@[j])@ == all[j],
        decreases toasts@.len() - k,
    {
        let t = &toasts[k].toast;
        assert(board@.toasts[k as int] == toasts@[k as int]@);
        lines.push(notice_text(label, "toast", t.severity, t.message.as_str()));
        k = k + 1;
    }
    assert(lines_chars(lines@) =~= all);
    lines
}

/// Naming a scenario by its name selects it.
pub proof fn every_scenario_can_be_selected(s: Scenario)
    ensures
        named(s.name_chars()) == Some(s),
        s.name_chars() != "all"@,
{
    reveal_strlit("all");
    reveal_strlit("handshake");
    reveal_strlit("version-mismatch");
    reveal_strlit("config-sync");
    reveal_strlit("session-action");
    reveal_strlit("log-forward");
    assert("all"@.len() == 3);
    assert("handshake"@.len() == 9);
    assert("version-mismatch"@.len() == 16);
    assert("config-sync"@.len() == 11);
    assert("session-action"@.len() == 14);
    assert("log-forward"@.len() == 11);
    assert("config-sync"@[0] == 'c');
    assert("log-forward"@[0] == 'l');
}

/// A name selects the scenario that has it, and a name that no scenario has selects none.
pub proof fn only_its_own_name_selects(name: Seq<char>)
    ensures
        named(name) matches Some(s) ==> name == s.name_chars(),
        named(name) is None ==> forall|s: Scenario| name != #[trigger] s.name_chars(),
{
}

/// Running them all runs each of the five scenarios once.
pub proof fn each_scenario_runs_once()
    ensures
        forall|i: int, j: int| 0 <= i < j < 5 ==> scenario(i) != scenario(j),
        forall|s: Scenario|
            #![trigger s.name_chars()]
            s == scenario(0) || s == scenario(1) || s == scenario(2) || s == scenario(3) || s
                == scenario(4),
        SCENARIOS == 5,
{
}

/// Every banner has its line and after them every toast, each with its severity and its message.
pub proof fn every_notice_has_its_line(label: Seq<char>, board: NotificationsView, i: int)
    ensures
        notice_lines(label, board).len() == board.banners.len() + board.toasts.len(),
        0 <= i < board.banners.len() ==> notice_lines(label, board)[i] == "  ["@ + label + "] "@
            + "banner"@ + "("@ + severity_chars(board.banners[i].severity) + "): "@
            + board.banners[i].message,
        0 <= i < board.toasts.len() ==> notice_lines(label, board)[board.banners.len() + i] == "  ["@
            + label + "] "@ + "toast"@ + "("@ + severity_chars(board.toasts[i].toast.severity)
            + "): "@ + board.toasts[i].toast.message,
{
}

/// Severities and scenarios go by their names.
pub proof fn severities_go_by_their_names()
    ensures
        severity_chars(Severity::Info) == "Info"@,
        severity_chars(Severity::Warning) == "Warning"@,
        severity_chars(Severity::Error) == "Error"@,
        Scenario::Handshake.name_chars() == "handshake"@,
        Scenario::VersionMismatch.name_chars() == "version-mismatch"@,
        Scenario::ConfigSync.name_chars() == "config-sync"@,
        Scenario::SessionAction.name_chars() == "session-action"@,
        Scenario::LogForward.name_chars() == "log-forward"@,
{
}

/// The scenarios run in the order in which they build on each other.
pub proof fn the_order_of_the_scenarios()
    ensures
        scenario(0) == Scenario::Handshake,
        scenario(1) == Scenario::VersionMismatch,
        scenario(2) == Scenario::ConfigSync,
        scenario(3) == Scenario::SessionAction,
        scenario(4) == Scenario::LogForward,
{
}

} // verus!
