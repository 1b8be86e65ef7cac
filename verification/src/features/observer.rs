//! Watches the session and logs every change of it, so that a teardown can be read off the log: which
//! state flipped in the frames before a player left, and in which order.

use vstd::prelude::*;

use crate::diag::MultiplierText;
use crate::levels::{lines_view, push_line, Level, LogLine, LogLineView};
use crate::session::{SessionView, Tether};
use crate::text;
use crate::text::{bool_chars, dec};

verus! {

/// The discrete part of a session reading. Anything that varies continuously is left out, or folded
/// into a flag, so that a comparison only notices real transitions.
#[derive(Clone, Copy, Debug, PartialEq, Eq, Structural)]
pub struct Snapshot {
    pub lobby: u32,
    pub protocol: u32,
    pub players: usize,
    pub limit: u32,
    pub limit_override: u32,
    pub restriction_disabled: bool,
    pub start_area_id: u32,
    pub warp_pending: bool,
    pub warp_possible: bool,
    pub fading_players: usize,
}

impl Snapshot {
    /// The snapshot of a reading; a tether that is not wired yet counts as neutral.
    pub open spec fn of(v: SessionView) -> Snapshot {
        Snapshot {
            lobby: v.lobby_state.code,
            protocol: v.protocol_state.code,
            players: v.players,
            limit: v.player_limit,
            limit_override: v.limit_override,
            restriction_disabled: v.tether is Some && v.tether->0.restriction_disabled,
            start_area_id: if v.tether is Some {
                v.tether->0.start_area_id
            } else {
                0
            },
            warp_pending: v.tether is Some && v.tether->0.warp_pending,
            warp_possible: v.tether is Some && v.tether->0.warp_possible,
            fading_players: if v.tether is Some {
                v.tether->0.fading_players
            } else {
                0
            },
        }
    }

    /// Folds a reading into its snapshot.
    pub fn from_view(v: &SessionView) -> (snapshot: Snapshot)
        ensures
            snapshot == Snapshot::of(*v),
    {
        match &v.tether {
            Some(t) => Snapshot {
                lobby: v.lobby_state.code,
                protocol: v.protocol_state.code,
                players: v.players,
                limit: v.player_limit,
                limit_override: v.limit_override,
                restriction_disabled: t.restriction_disabled,
                start_area_id: t.start_area_id,
                warp_pending: t.warp_pending,
                warp_possible: t.warp_possible,
                fading_players: t.fading_players,
            },
            None => Snapshot {
                lobby: v.lobby_state.code,
                protocol: v.protocol_state.code,
                players: v.players,
                limit: v.player_limit,
                limit_override: v.limit_override,
                restriction_disabled: false,
                start_area_id: 0,
                warp_pending: false,
                warp_possible: false,
                fading_players: 0,
            },
        }
    }
}

/// One connected player. The tag is a pseudonym: a raw Steam id would leak the player's identity into
/// a log that is meant to be shared.
#[derive(Debug)]
pub struct RosterEntry {
    pub tag: String,
    pub is_host: bool,
    pub is_local: bool,
    pub character_event_id: u32,
    pub join_wait: bool,
    pub rebreak_in: bool,
}

/// The tether as it is logged, telling "not wired yet" from a wired baseline.
pub open spec fn tether_chars(tether: Option<Tether>) -> Seq<char> {
    match tether {
        Some(t) => "restriction_disabled="@ + bool_chars(t.restriction_disabled)
            + " start_area_id="@ + dec(t.start_area_id as nat) + " warp_pending="@ + bool_chars(
            t.warp_pending,
        ) + " warp_delay="@ + t.warp_delay@ + " warp_possible="@ + bool_chars(t.warp_possible)
            + " fading="@ + dec(t.fading_players as nat),
        None => "(not initialized)"@,
    }
}

/// The marker for a roster that shrank.
pub open spec fn teardown_chars(prev: usize, v: SessionView, frame: u64) -> Seq<char> {
    "TEARDOWN @frame "@ + dec(frame as nat) + ": roster "@ + dec(prev as nat) + " -> "@ + dec(
        v.players as nat,
    ) + " | "@ + tether_chars(v.tether)
}

/// The line for any change.
pub open spec fn change_chars(v: SessionView, frame: u64) -> Seq<char> {
    "session change @frame "@ + dec(frame as nat) + ": lobby="@ + v.lobby_state.name@
        + " protocol="@ + v.protocol_state.name@ + " players="@ + dec(v.players as nat)
        + " limit="@ + dec(v.player_limit as nat) + " override="@ + dec(v.limit_override as nat)
        + " | tether: "@ + tether_chars(v.tether)
}

/// The line for one player of the roster.
pub open spec fn player_chars(i: int, p: RosterEntry) -> Seq<char> {
    "  player["@ + dec(i as nat) + "] "@ + p.tag@ + " host="@ + bool_chars(p.is_host) + " local="@
        + bool_chars(p.is_local) + " cid="@ + dec(p.character_event_id as nat) + " join_wait="@
        + bool_chars(p.join_wait) + " rebreak_in="@ + bool_chars(p.rebreak_in)
}

/// The party size that scaling is worked out for: the roster size, at least one, at most what fits.
pub open spec fn scaling_count(players: usize) -> nat {
    if players < 1 {
        1
    } else if players > u32::MAX {
        u32::MAX as nat
    } else {
        players as nat
    }
}

/// One multiplier set as the observer shows it.
pub open spec fn multiplier_chars(m: MultiplierText) -> Seq<char> {
    "(hp×"@ + m.health@ + " dmg×"@ + m.damage@ + " pos×"@ + m.posture@ + ")"@
}

/// The line on the scaling a party of this size would get.
pub open spec fn scaling_chars(
    players: usize,
    enemy: MultiplierText,
    boss: MultiplierText,
) -> Seq<char> {
    "  scaling@"@ + dec(scaling_count(players)) + "p: enemy"@ + multiplier_chars(enemy) + " boss"@
        + multiplier_chars(boss)
}

/// A line at `info`.
pub open spec fn info(text: Seq<char>) -> LogLineView {
    LogLineView { level: Level::Info, text }
}

/// Everything logged for one change.
pub open spec fn change_lines(
    prev: Option<Snapshot>,
    v: SessionView,
    roster: Seq<RosterEntry>,
    enemy: MultiplierText,
    boss: MultiplierText,
    frame: u64,
) -> Seq<LogLineView> {
    let marker = if prev is Some && v.players < prev->0.players {
        Seq::empty().push(
            LogLineView {
                level: Level::Warn,
                text: teardown_chars(prev->0.players, v, frame),
            },
        )
    } else {
        Seq::empty()
    };
    (marker.push(info(change_chars(v, frame))) + Seq::new(
        roster.len(),
        |i: int| info(player_chars(i, roster[i])),
    )).push(info(scaling_chars(v.players, enemy, boss)))
}

fn tether_text(tether: &Option<Tether>) -> (out: String)
    ensures
        out@ == tether_chars(*tether),
{
    match tether {
        Some(t) => {
            let mut out = "restriction_disabled=".to_owned();
            out.append(text::bool_text(t.restriction_disabled).as_str());
            out.append(" start_area_id=");
            out.append(text::dec_text(t.start_area_id as u64).as_str());
            out.append(" warp_pending=");
            out.append(text::bool_text(t.warp_pending).as_str());
            out.append(" warp_delay=");
            out.append(t.warp_delay.as_str());
            out.append(" warp_possible=");
            out.append(text::bool_text(t.warp_possible).as_str());
            out.append(" fading=");
            out.append(text::dec_text(t.fading_players as u64).as_str());
            out
        },
        None => "(not initialized)".to_owned(),
    }
}

fn teardown_text(prev: usize, v: &SessionView, frame: u64) -> (out: String)
    ensures
        out@ == teardown_chars(prev, *v, frame),
{
    let mut out = "TEARDOWN @frame ".to_owned();
    out.append(text::dec_text(frame).as_str());
    out.append(": roster ");
    out.append(text::dec_text(prev as u64).as_str());
    out.append(" -> ");
    out.append(text::dec_text(v.players as u64).as_str());
    out.append(" | ");
    out.append(tether_text(&v.tether).as_str());
    out
}

fn change_text(v: &SessionView, frame: u64) -> (out: String)
    ensures
        out@ == change_chars(*v, frame),
{
    let mut out = "session change @frame ".to_owned();
    out.append(text::dec_text(frame).as_str());
    out.append(": lobby=");
    out.append(v.lobby_state.name.as_str());
    out.append(" protocol=");
    out.append(v.protocol_state.name.as_str());
    out.append(" players=");
    out.append(text::dec_text(v.players as u64).as_str());
    out.append(" limit=");
    out.append(text::dec_text(v.player_limit as u64).as_str());
    out.append(" override=");
    out.append(text::dec_text(v.limit_override as u64).as_str());
    out.append(" | tether: ");
    out.append(tether_text(&v.tether).as_str());
    out
}

fn player_text(i: usize, p: &RosterEntry) -> (out: String)
    ensures
        out@ == player_chars(i as int, *p),
{
    let mut out = "  player[".to_owned();
    out.append(text::dec_text(i as u64).as_str());
    out.append("] ");
    out.append(p.tag.as_str());
    out.append(" host=");
    out.append(text::bool_text(p.is_host).as_str());
    out.append(" local=");
    out.append(text::bool_text(p.is_local).as_str());
    out.append(" cid=");
    out.append(text::dec_text(p.character_event_id as u64).as_str());
    out.append(" join_wait=");
    out.append(text::bool_text(p.join_wait).as_str());
    out.append(" rebreak_in=");
    out.append(text::bool_text(p.rebreak_in).as_str());
    out
}

/// The party size that scaling is worked out for.
pub fn party_count(players: usize) -> (count: u32)
    ensures
        count as nat == scaling_count(players),
{
    if players < 1 {
        1
    } else if players > u32::MAX as usize {
        u32::MAX
    } else {
        players as u32
    }
}

fn append_multipliers(out: &mut String, m: &MultiplierText)
    ensures
        final(out)@ == old(out)@ + multiplier_chars(*m),
{
    out.append("(hp×");
    out.append(m.health.as_str());
    out.append(" dmg×");
    out.append(m.damage.as_str());
    out.append(" pos×");
    out.append(m.posture.as_str());
    out.append(")");
    assert(out@ =~= old(out)@ + multiplier_chars(*m));
}

fn scaling_text(players: usize, enemy: &MultiplierText, boss: &MultiplierText) -> (out: String)
    ensures
        out@ == scaling_chars(players, *enemy, *boss),
{
    let mut out = "  scaling@".to_owned();
    out.append(text::dec_text(party_count(players) as u64).as_str());
    out.append("p: enemy");
    append_multipliers(&mut out, enemy);
    out.append(" boss");
    append_multipliers(&mut out, boss);
    out
}

/// Logs the session's transitions.
pub struct SessionObserver {
    /// The last snapshot that was seen.
    pub last: Option<Snapshot>,
}

impl SessionObserver {
    /// An observer that has seen nothing yet.
    pub fn new() -> (observer: SessionObserver)
        ensures
            observer.last is None,
    {
        SessionObserver { last: None }
    }

    /// The lines for this frame's reading: none while the snapshot stays what it was, else a marker if
    /// the roster shrank, the change itself, one line for each player, and the scaling of the party.
    pub fn observe(
        &mut self,
        view: &SessionView,
        roster: &Vec<RosterEntry>,
        enemy: &MultiplierText,
        boss: &MultiplierText,
        frame: u64,
    ) -> (lines: Vec<LogLine>)
        ensures
            final(self).last == Some(Snapshot::of(*view)),
            lines_view(lines@) == (if old(self).last == Some(Snapshot::of(*view)) {
                Seq::empty()
            } else {
                change_lines(old(self).last, *view, roster@, *enemy, *boss, frame)
            }),
    {
        let mut lines: Vec<LogLine> = Vec::new();
        assert(lines_view(lines@) =~= Seq::empty());
        let snapshot = Snapshot::from_view(view);
        match self.last {
            Some(prev) => {
                if prev == snapshot {
                    return lines;
                }
                if view.players < prev.players {
                    push_line(&mut lines, Level::Warn, teardown_text(prev.players, view, frame));
                }
            },
            None => {},
        }
        self.last = Some(snapshot);
        push_line(&mut lines, Level::Info, change_text(view, frame));
        let ghost head = lines_view(lines@);
        let ghost players = Seq::new(
            roster@.len(),
            |i: int| info(player_chars(i, roster@[i])),
        );
        let mut i: usize = 0;
        assert(lines_view(lines@) =~= head + players.take(0));
        while i < roster.len()
            invariant
                i <= roster@.len(),
                players == Seq::new(roster@.len(), |i: int| info(player_chars(i, roster@[i]))),
                lines_view(lines@) == head + players.take(i as int),
            decreases roster@.len() - i,
        {
            push_line(&mut lines, Level::Info, player_text(i, &roster[i]));
            i = i + 1;
            assert(players.take(i as int) =~= players.take(i - 1).push(players[i - 1]));
            assert(lines_view(lines@) =~= head + players.take(i as int));
        }
        assert(players.take(i as int) =~= players);
        push_line(&mut lines, Level::Info, scaling_text(view.players, enemy, boss));
        lines
    }

    /// The sign of life while there is no session manager: one line whenever the heartbeat is due.
    pub fn idle(&self, heartbeat_due: bool, frame: u64) -> (line: Option<LogLine>)
        ensures
            line is Some == heartbeat_due,
            line is Some ==> line->0@ == info(
                "observer live; no CSSessionManager yet (frame "@ + dec(frame as nat) + ")"@,
            ),
    {
        if !heartbeat_due {
            return None;
        }
        let mut out = "observer live; no CSSessionManager yet (frame ".to_owned();
        out.append(text::dec_text(frame).as_str());
        out.append(")");
        Some(LogLine { level: Level::Info, text: out })
    }
}

/// A warning is logged exactly when the roster shrank since the last change.
pub proof fn teardown_iff_roster_shrank(
    prev: Option<Snapshot>,
    v: SessionView,
    roster: Seq<RosterEntry>,
    enemy: MultiplierText,
    boss: MultiplierText,
    frame: u64,
)
    ensures
        (exists|i: int|
            0 <= i < change_lines(prev, v, roster, enemy, boss, frame).len() && (
            #[trigger] change_lines(prev, v, roster, enemy, boss, frame)[i]).level == Level::Warn)
            <==> (prev is Some && v.players < prev->0.players),
{
    let lines = change_lines(prev, v, roster, enemy, boss, frame);
    if prev is Some && v.players < prev->0.players {
        assert(lines[0].level == Level::Warn);
    }
}

/// Two sessions look the same exactly if nothing that is watched differs between them.
pub proof fn every_watched_value_counts(a: SessionView, b: SessionView)
    requires
        Snapshot::of(a) == Snapshot::of(b),
    ensures
        a.lobby_state.code == b.lobby_state.code,
        a.protocol_state.code == b.protocol_state.code,
        a.players == b.players,
        a.player_limit == b.player_limit,
        a.limit_override == b.limit_override,
        a.tether is Some && b.tether is Some ==> a.tether->0.restriction_disabled
            == b.tether->0.restriction_disabled && a.tether->0.start_area_id
            == b.tether->0.start_area_id && a.tether->0.warp_pending == b.tether->0.warp_pending
            && a.tether->0.warp_possible == b.tether->0.warp_possible
            && a.tether->0.fading_players == b.tether->0.fading_players,
{
}

/// A change is told with a line on the session, one for every player in the roster, at their place, and one on the
/// scaling; a teardown goes before them all.
pub proof fn every_player_has_a_line(
    prev: Option<Snapshot>,
    v: SessionView,
    roster: Seq<RosterEntry>,
    enemy: MultiplierText,
    boss: MultiplierText,
    frame: u64,
    i: int,
)
    requires
        0 <= i < roster.len(),
    ensures
        ({
            let lines = change_lines(prev, v, roster, enemy, boss, frame);
            let first: int = if prev is Some && v.players < prev->0.players {
                1
            } else {
                0
            };
            &&& lines.len() == first + 1 + roster.len() + 1
            &&& lines[first].text == change_chars(v, frame)
            &&& lines[first + 1 + i].text == player_chars(i, roster[i])
            &&& lines.last().text == scaling_chars(v.players, enemy, boss)
            &&& first == 1 ==> lines[0].text == teardown_chars(prev->0.players, v, frame)
        }),
{
}

/// The party counts as many players as there are, but never fewer than oneself.
pub proof fn the_party_counts_its_players(players: usize)
    ensures
        1 <= scaling_count(players) <= u32::MAX,
        1 <= players <= u32::MAX ==> scaling_count(players) == players,
        scaling_count(0) == 1,
        players > u32::MAX ==> scaling_count(players) == u32::MAX,
{
}

/// A teardown tells how many players were lost, a change what the session is now, and both the tether.
pub proof fn changes_tell_what_the_session_is(prev: usize, v: SessionView, frame: u64, t: Tether)
    ensures
        teardown_chars(prev, v, frame) == "TEARDOWN @frame "@ + dec(frame as nat) + ": roster "@
            + dec(prev as nat) + " -> "@ + dec(v.players as nat) + " | "@ + tether_chars(v.tether),
        change_chars(v, frame) == "session change @frame "@ + dec(frame as nat) + ": lobby="@
            + v.lobby_state.name@ + " protocol="@ + v.protocol_state.name@ + " players="@ + dec(
            v.players as nat,
        ) + " limit="@ + dec(v.player_limit as nat) + " override="@ + dec(v.limit_override as nat)
            + " | tether: "@ + tether_chars(v.tether),
        tether_chars(None) == "(not initialized)"@,
        tether_chars(Some(t)) == "restriction_disabled="@ + bool_chars(t.restriction_disabled)
            + " start_area_id="@ + dec(t.start_area_id as nat) + " warp_pending="@ + bool_chars(
            t.warp_pending,
        ) + " warp_delay="@ + t.warp_delay@ + " warp_possible="@ + bool_chars(t.warp_possible)
            + " fading="@ + dec(t.fading_players as nat),
{
}

/// A player is told with who they are and where they stand in joining; the scaling with enemies before bosses.
pub proof fn players_are_told_with_who_they_are(
    i: int,
    p: RosterEntry,
    players: usize,
    enemy: MultiplierText,
    boss: MultiplierText,
)
    ensures
        player_chars(i, p) == "  player["@ + dec(i as nat) + "] "@ + p.tag@ + " host="@ + bool_chars(
            p.is_host,
        ) + " local="@ + bool_chars(p.is_local) + " cid="@ + dec(p.character_event_id as nat)
            + " join_wait="@ + bool_chars(p.join_wait) + " rebreak_in="@ + bool_chars(p.rebreak_in),
        scaling_chars(players, enemy, boss) == "  scaling@"@ + dec(scaling_count(players))
            + "p: enemy"@ + multiplier_chars(enemy) + " boss"@ + multiplier_chars(boss),
        multiplier_chars(enemy) == "(hp×"@ + enemy.health@ + " dmg×"@ + enemy.damage@ + " pos×"@
            + enemy.posture@ + ")"@,
        info(enemy.health@).level == Level::Info,
        info(enemy.health@).text == enemy.health@,
{
}

} // verus!
