//! The side channel between two players: what its status line says, what is recorded of a connection
//! attempt and when, and what the driver does at each step of discovery, start-up and the link itself.
//! Times are milliseconds on one monotonic clock.

use vstd::prelude::*;

use crate::levels::{Level, LogLine, LogLineView};
use crate::notify;
use crate::notify::{
    banner_at, banner_cleared, banner_set, BannerView, LiveToastView, Notifications,
    NotificationsView, Severity, ToastView,
};
use crate::transport;
use crate::transport::{from_partner, Frame};

verus! {

/// Milliseconds between two looks at what was received.
pub const POLL_INTERVAL: u64 = 100;

/// Milliseconds between two rounds of heartbeat, re-assertion and liveness.
pub const MAINTAIN_INTERVAL: u64 = 1000;

/// Milliseconds the own identity is waited for, just past the time after which it cannot come any more.
pub const SELF_ID_TIMEOUT: u64 = 35000;

/// Milliseconds between two looks at the own identity.
pub const SELF_ID_POLL: u64 = 250;

/// Milliseconds a partner is waited for.
pub const LOBBY_DISCOVERY_TIMEOUT: u64 = 60000;

/// Milliseconds between two steps of discovery.
pub const LOBBY_DISCOVERY_POLL: u64 = 250;

/// Whether discovery runs at all.
pub const LOBBY_DISCOVERY_ENABLED: bool = false;

/// The banner about a partner whose version does not fit.
pub const BANNER_VERSION: &'static str = "coop-version";

/// The banner about a partner who went silent.
pub const BANNER_LIVENESS: &'static str = "coop-liveness";

/// How far the connection got.
#[derive(Clone, Copy, Debug, PartialEq, Eq, Structural)]
pub enum LinkPhase {
    /// Discovery never started.
    Off,
    /// The partner was not heard from yet.
    Linking,
    /// The partner was heard from.
    Linked,
    /// The partner was heard from and went silent.
    Lost,
    /// Start-up failed.
    Failed,
}

/// The side of discovery that is played.
#[derive(Clone, Copy, Debug, PartialEq, Eq, Structural)]
pub enum LobbyRole {
    Host,
    Joiner,
}

/// How far discovery got.
#[derive(Clone, Copy, Debug, PartialEq, Eq, Structural)]
pub struct LobbyProgress {
    pub role: LobbyRole,
    pub created_at: Option<u64>,
    pub list_returned_at: Option<u64>,
    pub candidates: Option<u32>,
    pub joined_at: Option<u64>,
    pub host_id_resolved: bool,
}

impl LobbyProgress {
    /// Nothing reached yet.
    pub open spec fn fresh(role: LobbyRole) -> LobbyProgress {
        LobbyProgress {
            role,
            created_at: None,
            list_returned_at: None,
            candidates: None,
            joined_at: None,
            host_id_resolved: false,
        }
    }
}

/// The verdict on the partner's version.
#[derive(Clone, Copy, Debug, PartialEq, Eq, Structural)]
pub enum VersionCheck {
    Unknown,
    Match,
    Mismatch,
}

/// The stages of a connection attempt, with the times they were reached since it began.
#[derive(Debug)]
pub struct ConnectReport {
    pub self_id_at: Option<u64>,
    pub session_accepted_at: Option<u64>,
    pub handshake_at: Option<u64>,
    pub version: VersionCheck,
    pub messages_sent: u64,
    pub messages_received: u64,
    pub failure: Option<String>,
    pub lobby: Option<LobbyProgress>,
}

/// A connection report with the characters of its failure.
pub struct ConnectView {
    pub self_id_at: Option<u64>,
    pub session_accepted_at: Option<u64>,
    pub handshake_at: Option<u64>,
    pub version: VersionCheck,
    pub messages_sent: u64,
    pub messages_received: u64,
    pub failure: Option<Seq<char>>,
    pub lobby: Option<LobbyProgress>,
}

/// The characters of a text that may be absent.
pub open spec fn opt_chars(s: Option<String>) -> Option<Seq<char>> {
    match s {
        Some(t) => Some(t@),
        None => None,
    }
}

impl View for ConnectReport {
    type V = ConnectView;

    open spec fn view(&self) -> ConnectView {
        ConnectView {
            self_id_at: self.self_id_at,
            session_accepted_at: self.session_accepted_at,
            handshake_at: self.handshake_at,
            version: self.version,
            messages_sent: self.messages_sent,
            messages_received: self.messages_received,
            failure: opt_chars(self.failure),
            lobby: self.lobby,
        }
    }
}

impl ConnectView {
    /// Nothing reached yet.
    pub open spec fn fresh() -> ConnectView {
        ConnectView {
            self_id_at: None,
            session_accepted_at: None,
            handshake_at: None,
            version: VersionCheck::Unknown,
            messages_sent: 0,
            messages_received: 0,
            failure: None,
            lobby: None,
        }
    }
}

/// Everything that is published of the side channel.
#[derive(Debug)]
pub struct SideChannel {
    phase: LinkPhase,
    attempted: bool,
    epoch: Option<u64>,
    report: ConnectReport,
}

/// The side channel in the open.
pub struct SideView {
    pub phase: LinkPhase,
    pub attempted: bool,
    pub epoch: Option<u64>,
    pub report: ConnectView,
}

impl View for SideChannel {
    type V = SideView;

    closed spec fn view(&self) -> SideView {
        SideView {
            phase: self.phase,
            attempted: self.attempted,
            epoch: self.epoch,
            report: self.report@,
        }
    }
}

impl SideView {
    /// The channel once a time is needed: the first need pins the moment that times count from.
    pub open spec fn timed(self, now: u64) -> SideView {
        SideView {
            epoch: match self.epoch {
                Some(e) => Some(e),
                None => Some(now),
            },
            ..self
        }
    }

    /// Milliseconds since the attempt began.
    pub open spec fn since(self, now: u64) -> u64 {
        match self.epoch {
            Some(e) => if now >= e {
                (now - e) as u64
            } else {
                0
            },
            None => 0,
        }
    }

    /// The channel with an attempt begun.
    pub open spec fn begun(self, now: u64) -> SideView {
        SideView { attempted: true, ..self.timed(now) }
    }

    /// The channel with an attempt begun and the partner being looked for.
    pub open spec fn linking(self, now: u64) -> SideView {
        SideView { phase: LinkPhase::Linking, ..self.begun(now) }
    }

    /// The channel with a reason of failure recorded.
    pub open spec fn because(self, why: Seq<char>) -> SideView {
        SideView { report: ConnectView { failure: Some(why), ..self.report }, ..self }
    }

    /// The channel after start-up failed for a reason.
    pub open spec fn failed(self, why: Seq<char>) -> SideView {
        SideView { phase: LinkPhase::Failed, ..self.because(why) }
    }

    /// The channel with the own identity found.
    pub open spec fn identified(self, now: u64) -> SideView {
        let timed = self.timed(now);
        SideView {
            report: ConnectView { self_id_at: Some(self.since(now)), ..timed.report },
            ..timed
        }
    }

    /// The channel with the partner accepted on the network.
    pub open spec fn accepted(self, now: u64) -> SideView {
        let timed = self.timed(now);
        SideView {
            report: ConnectView { session_accepted_at: Some(self.since(now)), ..timed.report },
            ..timed
        }
    }

    /// The channel with the discovery's progress changed, where there is any.
    pub open spec fn with_lobby(self, lobby: LobbyProgress) -> SideView {
        SideView { report: ConnectView { lobby: Some(lobby), ..self.report }, ..self }
    }
}

impl SideChannel {
    /// A channel on which nothing was attempted.
    pub fn new() -> (channel: SideChannel)
        ensures
            channel@ == (SideView {
                phase: LinkPhase::Off,
                attempted: false,
                epoch: None,
                report: ConnectView::fresh(),
            }),
    {
        SideChannel {
            phase: LinkPhase::Off,
            attempted: false,
            epoch: None,
            report: ConnectReport {
                self_id_at: None,
                session_accepted_at: None,
                handshake_at: None,
                version: VersionCheck::Unknown,
                messages_sent: 0,
                messages_received: 0,
                failure: None,
                lobby: None,
            },
        }
    }

    fn fail(&mut self, level: Level, line: &str, why: &str) -> (out: LogLine)
        ensures
            final(self)@ == old(self)@.failed(why@),
            out@ == (LogLineView { level, text: line@ }),
    {
        record_failure(self, why);
        self.phase = LinkPhase::Failed;
        LogLine { level, text: line.to_owned() }
    }

    /// Counts one message that was accepted for delivery.
    pub fn sent(&mut self, accepted: bool)
        requires
            accepted ==> old(self)@.report.messages_sent < u64::MAX,
        ensures
            final(self)@ == (if accepted {
                SideView {
                    report: ConnectView {
                        messages_sent: (old(self)@.report.messages_sent + 1) as u64,
                        ..old(self)@.report
                    },
                    ..old(self)@
                }
            } else {
                old(self)@
            }),
    {
        if accepted {
            self.report.messages_sent = self.report.messages_sent + 1;
        }
    }

    /// Counts everything that arrived and lets only the partner's frames through.
    pub fn received(&mut self, frames: Vec<Frame>, partner: u64) -> (kept: Vec<Frame>)
        requires
            old(self)@.report.messages_received + frames@.len() <= u64::MAX,
        ensures
            kept@ == from_partner(frames@, partner, frames@.len()),
            final(self)@ == (SideView {
                report: ConnectView {
                    messages_received: (old(self)@.report.messages_received + frames@.len()) as u64,
                    ..old(self)@.report
                },
                ..old(self)@
            }),
    {
        if frames.len() > 0 {
            self.report.messages_received = self.report.messages_received + frames.len() as u64;
        }
        transport::trusted_frames(frames, partner)
    }
}

/// The connection status in one line; a channel that was never set up and one that failed to start
/// read differently.
pub fn status_line(channel: &SideChannel) -> (line: &'static str)
    ensures
        line@ == (match channel@.phase {
            LinkPhase::Linking => "linking (Steam P2P)"@,
            LinkPhase::Linked => "linked"@,
            LinkPhase::Lost => "partner lost (silent)"@,
            LinkPhase::Failed => "attempted, but couldn't start (see log)"@,
            LinkPhase::Off => "off (no co-op password, or discovery disabled)"@,
        }),
{
    match channel.phase {
        LinkPhase::Linking => "linking (Steam P2P)",
        LinkPhase::Linked => "linked",
        LinkPhase::Lost => "partner lost (silent)",
        LinkPhase::Failed => "attempted, but couldn't start (see log)",
        LinkPhase::Off => "off (no co-op password, or discovery disabled)",
    }
}

/// Marks the start of an attempt; the first one pins the moment that stage times count from.
pub fn begin_attempt(channel: &mut SideChannel, now: u64)
    ensures
        final(channel)@ == old(channel)@.begun(now),
{
    channel.attempted = true;
    let _ = elapsed(channel, now);
}

/// Milliseconds since the first attempt began.
pub fn elapsed(channel: &mut SideChannel, now: u64) -> (at: u64)
    ensures
        at == old(channel)@.since(now),
        final(channel)@ == old(channel)@.timed(now),
{
    match channel.epoch {
        Some(e) => if now >= e {
            now - e
        } else {
            0
        },
        None => {
            channel.epoch = Some(now);
            0
        },
    }
}

/// The report of the attempt; nothing before one began.
pub fn connect_report(channel: &SideChannel) -> (report: Option<ConnectReport>)
    ensures
        report is Some == channel@.attempted,
        report is Some ==> report->0@ == channel@.report,
{
    if !channel.attempted {
        return None;
    }
    let r = &channel.report;
    Some(
        ConnectReport {
            self_id_at: r.self_id_at,
            session_accepted_at: r.session_accepted_at,
            handshake_at: r.handshake_at,
            version: r.version,
            messages_sent: r.messages_sent,
            messages_received: r.messages_received,
            failure: match &r.failure {
                Some(why) => Some(why.clone()),
                None => None,
            },
            lobby: r.lobby,
        },
    )
}

/// Records why the attempt failed.
pub fn record_failure(channel: &mut SideChannel, why: &str)
    ensures
        final(channel)@ == old(channel)@.because(why@),
{
    channel.report.failure = Some(why.to_owned());
}

/// Records the side of discovery that is played. The same side again keeps what was recorded; the
/// other side starts afresh.
pub fn note_lobby_role(channel: &mut SideChannel, role: LobbyRole)
    ensures
        final(channel)@ == (match old(channel)@.report.lobby {
            Some(l) => if l.role == role {
                old(channel)@
            } else {
                old(channel)@.with_lobby(LobbyProgress::fresh(role))
            },
            None => old(channel)@.with_lobby(LobbyProgress::fresh(role)),
        }),
{
    let same = match channel.report.lobby {
        Some(l) => l.role == role,
        None => false,
    };
    if !same {
        channel.report.lobby = Some(
            LobbyProgress {
                role,
                created_at: None,
                list_returned_at: None,
                candidates: None,
                joined_at: None,
                host_id_resolved: false,
            },
        );
    }
}

/// Records that the lobby was created.
pub fn note_lobby_created(channel: &mut SideChannel, now: u64)
    ensures
        final(channel)@ == (match old(channel)@.report.lobby {
            Some(l) => old(channel)@.timed(now).with_lobby(
                LobbyProgress { created_at: Some(old(channel)@.since(now)), ..l },
            ),
            None => old(channel)@.timed(now),
        }),
{
    let at: u64 = elapsed(channel, now);
    match channel.report.lobby {
        Some(l) => {
            channel.report.lobby = Some(LobbyProgress { created_at: Some(at), ..l });
        },
        None => {},
    }
}

/// Records that the list of lobbies came, with so many candidates.
pub fn note_lobby_list(channel: &mut SideChannel, candidates: u32, now: u64)
    ensures
        final(channel)@ == (match old(channel)@.report.lobby {
            Some(l) => old(channel)@.timed(now).with_lobby(
                LobbyProgress {
                    list_returned_at: Some(old(channel)@.since(now)),
                    candidates: Some(candidates),
                    ..l
                },
            ),
            None => old(channel)@.timed(now),
        }),
{
    let at: u64 = elapsed(channel, now);
    match channel.report.lobby {
        Some(l) => {
            channel.report.lobby = Some(
                LobbyProgress {
                    list_returned_at: Some(at),
                    candidates: Some(candidates),
                    ..l
                },
            );
        },
        None => {},
    }
}

/// Records that the lobby was entered.
pub fn note_lobby_joined(channel: &mut SideChannel, now: u64)
    ensures
        final(channel)@ == (match old(channel)@.report.lobby {
            Some(l) => old(channel)@.timed(now).with_lobby(
                LobbyProgress { joined_at: Some(old(channel)@.since(now)), ..l },
            ),
            None => old(channel)@.timed(now),
        }),
{
    let at: u64 = elapsed(channel, now);
    match channel.report.lobby {
        Some(l) => {
            channel.report.lobby = Some(LobbyProgress { joined_at: Some(at), ..l });
        },
        None => {},
    }
}

/// Records that the host's identity was read out of the lobby.
pub fn note_lobby_host_resolved(channel: &mut SideChannel)
    ensures
        final(channel)@ == (match old(channel)@.report.lobby {
            Some(l) => old(channel)@.with_lobby(LobbyProgress { host_id_resolved: true, ..l }),
            None => old(channel)@,
        }),
{
    match channel.report.lobby {
        Some(l) => {
            channel.report.lobby = Some(LobbyProgress { host_id_resolved: true, ..l });
        },
        None => {},
    }
}

/// Records why a step of discovery failed.
pub fn note_lobby_failure(channel: &mut SideChannel, why: &str)
    ensures
        final(channel)@ == old(channel)@.because(why@),
{
    record_failure(channel, why);
}

/// What waiting for the own identity comes to.
#[derive(Clone, Copy, Debug, PartialEq, Eq, Structural)]
pub enum IdWait {
    Found(u64),
    GaveUp,
    /// Look again after a while.
    Again,
}

/// One look at the own identity: it counts even at the deadline, and past it nothing is waited for.
pub fn wait_self_id(id: Option<u64>, now: u64, deadline: u64) -> (wait: IdWait)
    ensures
        wait == (match id {
            Some(i) => IdWait::Found(i),
            None => if now >= deadline {
                IdWait::GaveUp
            } else {
                IdWait::Again
            },
        }),
{
    match id {
        Some(i) => IdWait::Found(i),
        None => if now >= deadline {
            IdWait::GaveUp
        } else {
            IdWait::Again
        },
    }
}

/// Whether the side channel is started: discovery has to be enabled and needs a password to key a lobby
/// on.
pub fn should_start(enabled: bool, password: &str) -> (yes: bool)
    ensures
        yes == (enabled && password@.len() != 0),
{
    enabled && password.unicode_len() != 0
}

/// Whether the side channel is started in this build.
pub fn start(password: &str) -> (yes: bool)
    ensures
        yes == (LOBBY_DISCOVERY_ENABLED && password@.len() != 0),
{
    should_start(LOBBY_DISCOVERY_ENABLED, password)
}

pub const NO_IDENTITY: &'static str = "own SteamID never resolved (rung 1) — is Steam running and logged in?";

pub const NO_MATCHMAKING: &'static str = "Steam matchmaking unavailable (Steam not up or export missing)";

pub const NO_PARTNER: &'static str = "lobby discovery timed out (no partner found / wrong password?)";

pub const OWN_PARTNER: &'static str = "resolved partner is our own SteamID";

pub const NO_NETWORKING: &'static str = "ISteamNetworkingMessages unavailable (Steam not up or export missing)";

/// A warning.
pub open spec fn warned(text: Seq<char>) -> LogLineView {
    LogLineView { level: Level::Warn, text }
}

/// What a step of discovery comes to.
#[derive(Debug)]
pub enum DiscoveryStep {
    /// The partner is found: link up with them.
    Resolved { peer: u64, is_host: bool, forward: bool, line: LogLine },
    /// Nobody came.
    TimedOut(LogLine),
    /// Look again after a while.
    Again,
}

/// The word for the side that is played.
pub open spec fn side_word(is_host: bool) -> Seq<char> {
    if is_host {
        "host"@
    } else {
        "client"@
    }
}

fn side(is_host: bool) -> (word: &'static str)
    ensures
        word@ == side_word(is_host),
{
    if is_host {
        "host"
    } else {
        "client"
    }
}

/// The two ends of a link.
#[derive(Clone, Copy, Debug, PartialEq, Eq, Structural)]
pub struct Ends {
    pub own: u64,
    pub peer: u64,
    /// Whoever's settings hold for both.
    pub host: u64,
}

/// The ends of a link that the host made the lobby for.
pub open spec fn ends_of(own: u64, peer: u64, is_host: bool) -> Ends {
    Ends {
        own,
        peer,
        host: if is_host {
            own
        } else {
            peer
        },
    }
}

/// Whether the ends are two, and the host is the one that it should be.
pub open spec fn good_ends(ends: Ends, is_host: bool) -> bool {
    ends.own != ends.peer && ends == ends_of(ends.own, ends.peer, is_host)
}

impl SideChannel {
    /// Begins to look for a partner, or to link up with one.
    pub fn begin_linking(&mut self, now: u64)
        ensures
            final(self)@ == old(self)@.linking(now),
    {
        begin_attempt(self, now);
        self.phase = LinkPhase::Linking;
    }

    /// Discovery's own identity came, or never did.
    pub fn discovery_identity(&mut self, id: Option<u64>, now: u64) -> (out: Result<u64, LogLine>)
        ensures
            match id {
                Some(i) => out == Ok::<u64, LogLine>(i) && final(self)@ == old(self)@.identified(
                    now,
                ),
                None => out is Err && out->Err_0@ == (LogLineView {
                    level: Level::Warn,
                    text: "coop: own SteamID never resolved; lobby discovery not started"@,
                }) && final(self)@ == old(self)@.failed(NO_IDENTITY@),
            },
    {
        match id {
            Some(i) => {
                let at: u64 = elapsed(self, now);
                self.report.self_id_at = Some(at);
                Ok(i)
            },
            None => Err(
                self.fail(
                    Level::Warn,
                    "coop: own SteamID never resolved; lobby discovery not started",
                    NO_IDENTITY,
                ),
            ),
        }
    }

    /// Matchmaking could be reached, or could not.
    pub fn discovery_started(&mut self, available: bool) -> (failed: Option<LogLine>)
        ensures
            failed is None == available,
            available ==> final(self)@ == old(self)@,
            !available ==> final(self)@ == old(self)@.failed(NO_MATCHMAKING@),
            !available ==> failed->0@ == (LogLineView {
                level: Level::Warn,
                text: "coop: Steam matchmaking unavailable; lobby discovery not started"@,
            }),
    {
        if available {
            return None;
        }
        Some(
            self.fail(
                Level::Warn,
                "coop: Steam matchmaking unavailable; lobby discovery not started",
                NO_MATCHMAKING,
            ),
        )
    }

    /// One step of discovery. Whoever is found counts even at the deadline. Only a client forwards its
    /// log, and only when asked to.
    pub fn discovery_step(
        &mut self,
        resolved: Option<(u64, bool)>,
        tag: &str,
        forward_pref: bool,
        now: u64,
        deadline: u64,
    ) -> (step: DiscoveryStep)
        ensures
            match resolved {
                Some(r) => step matches DiscoveryStep::Resolved { peer, is_host, forward, line }
                    && peer == r.0 && is_host == r.1 && forward == (!r.1 && forward_pref) && line@
                    == (LogLineView {
                    level: Level::Info,
                    text: "coop: lobby discovery resolved partner "@ + tag@ + " (we are the "@
                        + side_word(r.1) + "); seeding rung 2"@,
                }) && final(self)@ == old(self)@,
                None => if now >= deadline {
                    step matches DiscoveryStep::TimedOut(line) && line@ == (LogLineView {
                        level: Level::Warn,
                        text: "coop: lobby discovery timed out; no partner found"@,
                    }) && final(self)@ == old(self)@.failed(NO_PARTNER@)
                } else {
                    step is Again && final(self)@ == old(self)@
                },
            },
    {
        match resolved {
            Some(r) => {
                let (peer, is_host) = r;
                let mut text = "coop: lobby discovery resolved partner ".to_owned();
                text.append(tag);
                text.append(" (we are the ");
                text.append(side(is_host));
                text.append("); seeding rung 2");
                DiscoveryStep::Resolved {
                    peer,
                    is_host,
                    forward: !is_host && forward_pref,
                    line: LogLine { level: Level::Info, text },
                }
            },
            None => if now >= deadline {
                DiscoveryStep::TimedOut(
                    self.fail(
                        Level::Warn,
                        "coop: lobby discovery timed out; no partner found",
                        NO_PARTNER,
                    ),
                )
            } else {
                DiscoveryStep::Again
            },
        }
    }

    /// The link's own identity came, or never did. Linking up with oneself fails. The host is the side
    /// that made the lobby.
    pub fn link_identity(&mut self, id: Option<u64>, peer: u64, is_host: bool, now: u64) -> (out:
        Result<Ends, LogLine>)
        ensures
            match id {
                None => out is Err && out->Err_0@ == (LogLineView {
                    level: Level::Warn,
                    text: "coop: own SteamID never resolved; side-channel not started"@,
                }) && final(self)@ == old(self)@.failed(NO_IDENTITY@),
                Some(own) => if own == peer {
                    out is Err && out->Err_0@ == (LogLineView {
                        level: Level::Error,
                        text: "coop: resolved partner is our own SteamID; nothing to connect to"@,
                    }) && final(self)@ == old(self)@.identified(now).failed(OWN_PARTNER@)
                } else {
                    out == Ok::<Ends, LogLine>(ends_of(own, peer, is_host)) && final(self)@ == old(self)@.identified(now)
                },
            },
    {
        match id {
            None => Err(
                self.fail(
                    Level::Warn,
                    "coop: own SteamID never resolved; side-channel not started",
                    NO_IDENTITY,
                ),
            ),
            Some(own) => {
                let at: u64 = elapsed(self, now);
                self.report.self_id_at = Some(at);
                if own == peer {
                    return Err(
                        self.fail(
                            Level::Error,
                            "coop: resolved partner is our own SteamID; nothing to connect to",
                            OWN_PARTNER,
                        ),
                    );
                }
                Ok(
                    Ends {
                        own,
                        peer,
                        host: if is_host {
                            own
                        } else {
                            peer
                        },
                    },
                )
            },
        }
    }

    /// The network could be reached, or could not. Where it could, the partner is accepted up front.
    pub fn link_network(&mut self, available: bool, is_host: bool, tag: &str, now: u64) -> (out:
        Result<LogLine, LogLine>)
        ensures
            out is Ok == available,
            available ==> out->Ok_0@ == (LogLineView {
                level: Level::Info,
                text: "coop: side-channel up as "@ + side_word(is_host) + " with partner "@ + tag@
                    + " (Steam P2P)"@,
            }),
            available ==> final(self)@ == old(self)@.accepted(now),
            !available ==> out->Err_0@ == (LogLineView {
                level: Level::Warn,
                text: "coop: ISteamNetworkingMessages unavailable; side-channel not started"@,
            }),
            !available ==> final(self)@ == old(self)@.failed(NO_NETWORKING@),
    {
        if !available {
            return Err(
                self.fail(
                    Level::Warn,
                    "coop: ISteamNetworkingMessages unavailable; side-channel not started",
                    NO_NETWORKING,
                ),
            );
        }
        let at: u64 = elapsed(self, now);
        self.report.session_accepted_at = Some(at);
        let mut text = "coop: side-channel up as ".to_owned();
        text.append(side(is_host));
        text.append(" with partner ");
        text.append(tag);
        text.append(" (Steam P2P)");
        Ok(LogLine { level: Level::Info, text })
    }
}

/// What one beat of the link does.
#[derive(Clone, Copy, Debug, PartialEq, Eq, Structural)]
pub struct Beat {
    /// Ship the log lines that wait, before anything is received.
    pub ship_logs: bool,
    /// Run a round of maintenance.
    pub maintain: bool,
}

/// The link as its driver sees it.
#[derive(Clone, Copy, Debug, PartialEq, Eq, Structural)]
pub struct LinkState {
    pub last_maintain: u64,
    pub linked: bool,
    pub lost: bool,
}

impl LinkState {
    /// A link that just came up.
    pub fn new(now: u64) -> (link: LinkState)
        ensures
            link == (LinkState { last_maintain: now, linked: false, lost: false }),
    {
        LinkState { last_maintain: now, linked: false, lost: false }
    }

    /// Plans one beat: maintenance once a second, counted from the last round.
    pub fn beat(&mut self, forward: bool, now: u64) -> (beat: Beat)
        ensures
            beat.ship_logs == forward,
            beat.maintain == (now >= old(self).last_maintain + MAINTAIN_INTERVAL),
            *final(self) == (if beat.maintain {
                LinkState { last_maintain: now, ..*old(self) }
            } else {
                *old(self)
            }),
    {
        let maintain = now >= self.last_maintain && now - self.last_maintain >= MAINTAIN_INTERVAL;
        if maintain {
            self.last_maintain = now;
        }
        Beat { ship_logs: forward, maintain }
    }
}

/// Whether the settings that were received are taken over: only a client takes any over, and only when
/// they differ from those it took over last.
pub fn adopts(is_host: bool, differs: bool) -> (yes: bool)
    ensures
        yes == (!is_host && differs),
{
    !is_host && differs
}

/// The board with a toast added.
pub open spec fn with_toast(
    board: NotificationsView,
    severity: Severity,
    message: Seq<char>,
    lifetime: u64,
) -> NotificationsView {
    NotificationsView {
        toasts: board.toasts.push(
            LiveToastView {
                toast: ToastView { severity, message },
                remaining: lifetime as nat,
                duration: lifetime as nat,
            },
        ),
        ..board
    }
}

/// The board with a banner set.
pub open spec fn with_banner(
    board: NotificationsView,
    id: Seq<char>,
    severity: Severity,
    message: Seq<char>,
) -> NotificationsView {
    NotificationsView {
        banners: banner_set(board.banners, BannerView { id, severity, message }),
        ..board
    }
}

/// The board with a banner cleared.
pub open spec fn without_banner(board: NotificationsView, id: Seq<char>) -> NotificationsView {
    NotificationsView { banners: banner_cleared(board.banners, id), ..board }
}

/// Shows a toast.
fn toast(board: &mut Notifications, severity: Severity, message: &str, lifetime: u64)
    ensures
        final(board)@ == with_toast(old(board)@, severity, message@, lifetime),
{
    notify::toast(Some(board), severity, message, lifetime);
}

/// Sets a banner.
fn set_banner(board: &mut Notifications, id: &str, severity: Severity, message: &str)
    ensures
        final(board)@ == with_banner(old(board)@, id@, severity, message@),
{
    notify::set_banner(Some(board), id, severity, message);
}

/// Clears a banner.
fn clear_banner(board: &mut Notifications, id: &str)
    ensures
        final(board)@ == without_banner(old(board)@, id@),
{
    notify::clear_banner(Some(board), id);
}

/// What the partner is known by on the screen.
#[derive(Debug)]
pub struct PartnerTexts {
    pub tag: String,
    pub version_mismatch: String,
    pub lost_contact: String,
}

/// What was heard of the partner up to now.
#[derive(Clone, Copy, Debug, PartialEq, Eq, Structural)]
pub struct Heard {
    /// Whether their version fits, once they said hello.
    pub compatible: Option<bool>,
    /// Whether they went silent.
    pub stale: bool,
}

impl LinkState {
    /// The link after a look at the partner.
    pub open spec fn seen(self, heard: Heard) -> LinkState {
        let linked = self.linked || heard.compatible is Some;
        LinkState {
            linked,
            lost: if linked {
                heard.stale
            } else {
                self.lost
            },
            ..self
        }
    }

    /// Whether a look is the first one at which the partner was heard.
    pub open spec fn meets(self, heard: Heard) -> bool {
        !self.linked && heard.compatible is Some
    }

    /// Whether a look finds the partner gone silent, or back.
    pub open spec fn flips(self, heard: Heard) -> bool {
        self.seen(heard).linked && heard.stale != self.lost
    }
}

/// The channel after a look at the partner.
pub open spec fn channel_seen(channel: SideView, link: LinkState, heard: Heard, now: u64) -> SideView {
    let met = if link.meets(heard) {
        let timed = channel.timed(now);
        SideView {
            phase: LinkPhase::Linked,
            report: ConnectView {
                handshake_at: Some(channel.since(now)),
                version: if heard.compatible->0 {
                    VersionCheck::Match
                } else {
                    VersionCheck::Mismatch
                },
                ..timed.report
            },
            ..timed
        }
    } else {
        channel
    };
    if link.flips(heard) {
        SideView {
            phase: if heard.stale {
                LinkPhase::Lost
            } else {
                LinkPhase::Linked
            },
            ..met
        }
    } else {
        met
    }
}

/// The board after a look at the partner.
pub open spec fn board_seen(
    board: NotificationsView,
    link: LinkState,
    heard: Heard,
    tag: Seq<char>,
    version_mismatch: Seq<char>,
    lost_contact: Seq<char>,
    lifetime: u64,
) -> NotificationsView {
    let met = if link.meets(heard) {
        let greeted = with_toast(
            board,
            Severity::Info,
            "Co-op partner connected ("@ + tag + ")"@,
            lifetime,
        );
        if heard.compatible->0 {
            greeted
        } else {
            with_banner(greeted, BANNER_VERSION@, Severity::Warning, version_mismatch)
        }
    } else {
        board
    };
    if link.flips(heard) {
        if heard.stale {
            with_banner(met, BANNER_LIVENESS@, Severity::Warning, lost_contact)
        } else {
            without_banner(met, BANNER_LIVENESS@)
        }
    } else {
        met
    }
}

/// Brings the phase, the report and the screen up to date with what was heard of the partner: a toast
/// when they are first heard, a banner if their version does not fit, and a banner while they are silent.
pub fn update_link_status(
    channel: &mut SideChannel,
    board: &mut Notifications,
    link: &mut LinkState,
    heard: Heard,
    texts: &PartnerTexts,
    lifetime: u64,
    now: u64,
)
    ensures
        *final(link) == old(link).seen(heard),
        final(channel)@ == channel_seen(old(channel)@, *old(link), heard, now),
        final(board)@ == board_seen(
            old(board)@,
            *old(link),
            heard,
            texts.tag@,
            texts.version_mismatch@,
            texts.lost_contact@,
            lifetime,
        ),
{
    if !link.linked {
        match heard.compatible {
            Some(compatible) => {
                link.linked = true;
                channel.phase = LinkPhase::Linked;
                let at: u64 = elapsed(channel, now);
                channel.report.handshake_at = Some(at);
                channel.report.version = if compatible {
                    VersionCheck::Match
                } else {
                    VersionCheck::Mismatch
                };
                let mut message = "Co-op partner connected (".to_owned();
                message.append(texts.tag.as_str());
                message.append(")");
                toast(board, Severity::Info, message.as_str(), lifetime);
                if !compatible {
                    set_banner(
                        board,
                        BANNER_VERSION,
                        Severity::Warning,
                        texts.version_mismatch.as_str(),
                    );
                }
            },
            None => {},
        }
    }
    if link.linked && heard.stale != link.lost {
        link.lost = heard.stale;
        if heard.stale {
            channel.phase = LinkPhase::Lost;
            set_banner(board, BANNER_LIVENESS, Severity::Warning, texts.lost_contact.as_str());
        } else {
            channel.phase = LinkPhase::Linked;
            clear_banner(board, BANNER_LIVENESS);
        }
    }
}

/// Whether a banner is set.
pub open spec fn has_banner(banners: Seq<BannerView>, id: Seq<char>) -> bool {
    exists|k: int| 0 <= k < banners.len() && (#[trigger] banners[k]).id == id
}

/// What holds of the link, the phase and the screen between any two looks at the partner.
pub open spec fn link_consistent(
    link: LinkState,
    phase: LinkPhase,
    banners: Seq<BannerView>,
) -> bool {
    &&& notify::ids_differ(banners)
    &&& link.lost ==> link.linked
    &&& link.linked ==> phase == (if link.lost {
        LinkPhase::Lost
    } else {
        LinkPhase::Linked
    })
    &&& !link.linked ==> phase != LinkPhase::Linked && phase != LinkPhase::Lost
    &&& has_banner(banners, BANNER_LIVENESS@) == link.lost
}

proof fn set_and_cleared(banners: Seq<BannerView>, banner: BannerView, id: Seq<char>)
    requires
        notify::ids_differ(banners),
    ensures
        notify::ids_differ(banner_set(banners, banner)),
        notify::ids_differ(banner_cleared(banners, banner.id)),
        has_banner(banner_set(banners, banner), id) == (has_banner(banners, id) || id == banner.id),
        has_banner(banner_cleared(banners, banner.id), id) == (has_banner(banners, id) && id
            != banner.id),
{
    notify::banners_have_one_per_id(banners, banner);
    notify::position_is_first(banners, banner.id, 0);
    let at = banner_at(banners, banner.id, 0);
    let set = banner_set(banners, banner);
    let cleared = banner_cleared(banners, banner.id);
    assert(at < banners.len() ==> set[at] == banner);
    assert(at >= banners.len() ==> set[banners.len() as int] == banner);
    if has_banner(banners, id) {
        let k = choose|k: int| 0 <= k < banners.len() && (#[trigger] banners[k]).id == id;
        assert(set[k].id == id);
        if id != banner.id {
            if k < at || at >= banners.len() {
                assert(cleared[k] == banners[k]);
            } else {
                assert(cleared[k - 1] == banners[k]);
            }
        }
    }
    if has_banner(set, id) && id != banner.id {
        let k = choose|k: int| 0 <= k < set.len() && (#[trigger] set[k]).id == id;
        assert(banners[k].id == id);
    }
    if has_banner(cleared, id) {
        let k = choose|k: int| 0 <= k < cleared.len() && (#[trigger] cleared[k]).id == id;
        if k < at || at >= banners.len() {
            assert(banners[k].id == id);
        } else {
            assert(banners[k + 1].id == id);
        }
    }
}

/// Between looks at the partner, the published phase says whether they were heard and whether they went
/// silent, and the banner about a silent partner is shown exactly while they are.
pub proof fn screen_follows_the_link(
    channel: SideView,
    board: NotificationsView,
    link: LinkState,
    heard: Heard,
    tag: Seq<char>,
    version_mismatch: Seq<char>,
    lost_contact: Seq<char>,
    lifetime: u64,
    now: u64,
)
    requires
        link_consistent(link, channel.phase, board.banners),
    ensures
        link_consistent(
            link.seen(heard),
            channel_seen(channel, link, heard, now).phase,
            board_seen(board, link, heard, tag, version_mismatch, lost_contact, lifetime).banners,
        ),
{
    let version = BannerView {
        id: BANNER_VERSION@,
        severity: Severity::Warning,
        message: version_mismatch,
    };
    let silent = BannerView {
        id: BANNER_LIVENESS@,
        severity: Severity::Warning,
        message: lost_contact,
    };
    reveal_strlit("coop-version");
    reveal_strlit("coop-liveness");
    assert(BANNER_VERSION@.len() != BANNER_LIVENESS@.len());
    set_and_cleared(board.banners, version, BANNER_LIVENESS@);
    set_and_cleared(board.banners, silent, BANNER_LIVENESS@);
    set_and_cleared(banner_set(board.banners, version), silent, BANNER_LIVENESS@);
}

/// A link that is heard of once stays met: the greeting comes at most once.
pub proof fn greeted_at_most_once(link: LinkState, heard: Heard, later: Heard)
    requires
        link.meets(heard),
    ensures
        !link.seen(heard).meets(later),
{
}

/// Stage times count from the moment the first one was needed, which nothing moves afterwards, and never run
/// backwards below zero.
pub proof fn stage_times_count_from_the_first(channel: SideView, now: u64, later: u64)
    ensures
        channel.timed(now).epoch is Some,
        channel.epoch is Some ==> channel.timed(now).epoch == channel.epoch,
        channel.epoch is None ==> channel.timed(now).epoch == Some(now),
        channel.timed(now).timed(later) == channel.timed(now),
        channel.epoch is None ==> channel.since(now) == 0,
        channel.epoch matches Some(e) ==> (now >= e ==> channel.since(now) + e == now) && (now < e
            ==> channel.since(now) == 0),
        channel.timed(now).report == channel.report,
        channel.timed(now).phase == channel.phase,
        channel.timed(now).attempted == channel.attempted,
{
}

/// Each stage is recorded at its own place, at the time it was reached, and nothing else is.
pub proof fn each_stage_is_recorded_at_its_place(channel: SideView, now: u64, why: Seq<char>)
    ensures
        channel.begun(now).attempted,
        channel.begun(now).phase == channel.phase,
        channel.begun(now).report == channel.report,
        channel.linking(now).attempted,
        channel.linking(now).phase == LinkPhase::Linking,
        channel.linking(now).report == channel.report,
        channel.identified(now).report.self_id_at == Some(channel.since(now)),
        channel.identified(now).report.session_accepted_at == channel.report.session_accepted_at,
        channel.identified(now).report.handshake_at == channel.report.handshake_at,
        channel.identified(now).report.failure == channel.report.failure,
        channel.identified(now).report.lobby == channel.report.lobby,
        channel.identified(now).phase == channel.phase,
        channel.accepted(now).report.session_accepted_at == Some(channel.since(now)),
        channel.accepted(now).report.self_id_at == channel.report.self_id_at,
        channel.accepted(now).report.handshake_at == channel.report.handshake_at,
        channel.accepted(now).report.failure == channel.report.failure,
        channel.accepted(now).phase == channel.phase,
        channel.because(why).report.failure == Some(why),
        channel.because(why).phase == channel.phase,
        channel.because(why).report.self_id_at == channel.report.self_id_at,
        channel.because(why).report.session_accepted_at == channel.report.session_accepted_at,
        channel.failed(why).phase == LinkPhase::Failed,
        channel.failed(why).report.failure == Some(why),
        channel.failed(why).attempted == channel.attempted,
{
}

/// The progress of discovery is replaced as a whole, and the rest of the report stays.
pub proof fn discovery_has_a_place_of_its_own(channel: SideView, lobby: LobbyProgress, role: LobbyRole)
    ensures
        channel.with_lobby(lobby).report.lobby == Some(lobby),
        channel.with_lobby(lobby).phase == channel.phase,
        channel.with_lobby(lobby).report.failure == channel.report.failure,
        channel.with_lobby(lobby).report.self_id_at == channel.report.self_id_at,
        channel.with_lobby(lobby).report.handshake_at == channel.report.handshake_at,
        LobbyProgress::fresh(role).role == role,
        LobbyProgress::fresh(role).created_at is None,
        LobbyProgress::fresh(role).list_returned_at is None,
        LobbyProgress::fresh(role).candidates is None,
        LobbyProgress::fresh(role).joined_at is None,
        !LobbyProgress::fresh(role).host_id_resolved,
{
}

/// Whoever made the lobby is the host: ourselves where we did, the partner where they did.
pub proof fn the_host_made_the_lobby(own: u64, peer: u64)
    ensures
        ends_of(own, peer, true).host == own,
        ends_of(own, peer, false).host == peer,
        ends_of(own, peer, true).own == own,
        ends_of(own, peer, false).own == own,
        ends_of(own, peer, true).peer == peer,
        ends_of(own, peer, false).peer == peer,
{
}

/// A partner counts as heard from their first word on, and as lost exactly while they are silent after that.
pub proof fn a_partner_is_lost_while_silent(link: LinkState, heard: Heard)
    ensures
        heard.compatible is Some ==> link.seen(heard).linked,
        link.linked ==> link.seen(heard).linked,
        link.seen(heard).linked ==> link.linked || heard.compatible is Some,
        link.seen(heard).linked ==> link.seen(heard).lost == heard.stale,
        !link.seen(heard).linked ==> link.seen(heard).lost == link.lost,
        link.seen(heard).last_maintain == link.last_maintain,
{
}

/// The first word of the partner is recorded with its time and with whether their version fits, and later words
/// change neither.
pub proof fn the_handshake_is_recorded_once(
    channel: SideView,
    link: LinkState,
    heard: Heard,
    now: u64,
)
    ensures
        ({
            let shown = channel_seen(channel, link, heard, now);
            &&& !link.linked && heard.compatible == Some(true) ==> shown.report.version
                == VersionCheck::Match && shown.report.handshake_at == Some(channel.since(now))
            &&& !link.linked && heard.compatible == Some(false) ==> shown.report.version
                == VersionCheck::Mismatch && shown.report.handshake_at == Some(channel.since(now))
            &&& link.linked || heard.compatible is None ==> shown.report == channel.report
            &&& !link.linked && heard.compatible is None ==> shown == channel
            &&& shown.report.messages_sent == channel.report.messages_sent
            &&& shown.report.failure == channel.report.failure
            &&& shown.attempted == channel.attempted
        }),
{
}

/// The player is greeted exactly when the partner is first heard, and no other notice is pushed.
pub proof fn the_greeting_comes_with_the_first_word(
    board: NotificationsView,
    link: LinkState,
    heard: Heard,
    tag: Seq<char>,
    version_mismatch: Seq<char>,
    lost_contact: Seq<char>,
    lifetime: u64,
)
    ensures
        ({
            let shown = board_seen(
                board,
                link,
                heard,
                tag,
                version_mismatch,
                lost_contact,
                lifetime,
            );
            &&& !link.linked && heard.compatible is Some ==> shown.toasts.len()
                == board.toasts.len() + 1 && shown.toasts.last().remaining == lifetime
                && shown.toasts.last().duration == lifetime
                && shown.toasts.last().toast.severity == Severity::Info
                && shown.toasts.last().toast.message == "Co-op partner connected ("@ + tag + ")"@
            &&& link.linked || heard.compatible is None ==> shown.toasts == board.toasts
            &&& !link.linked && heard.compatible is None ==> shown == board
        }),
{
}

/// A partner whose version does not fit is told of in a banner from their first word on, and one whose version
/// fits is not.
pub proof fn a_wrong_version_is_shown(
    board: NotificationsView,
    link: LinkState,
    heard: Heard,
    tag: Seq<char>,
    version_mismatch: Seq<char>,
    lost_contact: Seq<char>,
    lifetime: u64,
)
    requires
        notify::ids_differ(board.banners),
        link.meets(heard),
        !has_banner(board.banners, BANNER_VERSION@),
    ensures
        has_banner(
            board_seen(
                board,
                link,
                heard,
                tag,
                version_mismatch,
                lost_contact,
                lifetime,
            ).banners,
            BANNER_VERSION@,
        ) == !heard.compatible->0,
{
    reveal_strlit("coop-version");
    reveal_strlit("coop-liveness");
    assert(BANNER_VERSION@.len() != BANNER_LIVENESS@.len());
    let greeted = with_toast(
        board,
        Severity::Info,
        "Co-op partner connected ("@ + tag + ")"@,
        lifetime,
    );
    let wrong = BannerView {
        id: BANNER_VERSION@,
        severity: Severity::Warning,
        message: version_mismatch,
    };
    let silent = BannerView {
        id: BANNER_LIVENESS@,
        severity: Severity::Warning,
        message: lost_contact,
    };
    set_and_cleared(board.banners, wrong, BANNER_VERSION@);
    set_and_cleared(board.banners, silent, BANNER_VERSION@);
    set_and_cleared(banner_set(board.banners, wrong), silent, BANNER_VERSION@);
    assert(greeted.banners == board.banners);
}

/// A report starts out empty: no stage reached, no message counted, no failure.
pub proof fn a_report_starts_out_empty()
    ensures
        ConnectView::fresh().self_id_at is None,
        ConnectView::fresh().session_accepted_at is None,
        ConnectView::fresh().handshake_at is None,
        ConnectView::fresh().version == VersionCheck::Unknown,
        ConnectView::fresh().messages_sent == 0,
        ConnectView::fresh().messages_received == 0,
        ConnectView::fresh().failure is None,
        ConnectView::fresh().lobby is None,
{
}

/// The ends of a link are two players, one of whom is the host: oneself where one made the lobby.
pub proof fn the_ends_are_two_players(ends: Ends, is_host: bool)
    ensures
        good_ends(ends, is_host) == (ends.own != ends.peer && ends.host == (if is_host {
            ends.own
        } else {
            ends.peer
        })),
        side_word(true) == "host"@,
        side_word(false) == "client"@,
{
}

/// A link that was met shows as linked, or as lost while its partner is silent; one that was not shows as neither.
pub proof fn the_phase_shows_the_link(link: LinkState, phase: LinkPhase, banners: Seq<BannerView>)
    requires
        link_consistent(link, phase, banners),
    ensures
        (phase == LinkPhase::Linked) == (link.linked && !link.lost),
        (phase == LinkPhase::Lost) == link.lost,
        has_banner(banners, BANNER_LIVENESS@) == link.lost,
{
}

/// A partner is met by their first word only, and turns silent or is heard again exactly when that changes.
pub proof fn a_link_flips_with_its_partner(link: LinkState, heard: Heard)
    ensures
        link.meets(heard) == (!link.linked && heard.compatible is Some),
        link.meets(heard) ==> link.seen(heard).linked,
{
}

/// What goes wrong with a link is a warning.
pub proof fn trouble_is_warned_of(text: Seq<char>)
    ensures
        warned(text).level == Level::Warn,
        warned(text).text == text,
{
}

} // verus!
