//! The course of a connection, from the first look at the own identity to the link: what is waited for at
//! each point, for how long, and what a failure leaves behind.

use vstd::prelude::*;

use crate::coop::{
    ends_of, good_ends, side_word, wait_self_id, warned, DiscoveryStep, Ends, IdWait, LinkPhase, SideChannel, SideView,
    LOBBY_DISCOVERY_POLL, LOBBY_DISCOVERY_TIMEOUT, NO_IDENTITY, NO_MATCHMAKING, NO_NETWORKING,
    NO_PARTNER, OWN_PARTNER, POLL_INTERVAL, SELF_ID_POLL, SELF_ID_TIMEOUT,
};
use crate::levels::{Level, LogLine, LogLineView};

verus! {

/// Where a connection stands.
#[derive(Clone, Copy, Debug, PartialEq, Eq, Structural)]
pub enum Driver {
    /// Discovery waits for the own identity until a deadline.
    AwaitSelf { deadline: u64 },
    /// Discovery is to be started under this identity.
    Start { own: u64 },
    /// A partner is looked for until a deadline.
    Discover { deadline: u64 },
    /// A partner is found, and the link waits for the own identity until a deadline.
    LinkSelf { peer: u64, is_host: bool, forward: bool, deadline: u64 },
    /// The network is to be reached.
    Network { ends: Ends, is_host: bool, forward: bool },
    /// The link is up.
    Up { ends: Ends, is_host: bool, forward: bool },
    /// The attempt is over.
    Stopped,
}

/// What was found out.
#[derive(Clone, Copy, Debug)]
pub enum Found {
    /// The own identity, if it is there yet.
    Identity(Option<u64>),
    /// Whether discovery could be started.
    Discovery(bool),
    /// The partner and whether we are the host, if discovery found one.
    Partner(Option<(u64, bool)>),
    /// Whether the network could be reached.
    Network(bool),
}

/// A moment `span` milliseconds from now.
pub open spec fn later(now: u64, span: u64) -> u64 {
    if now + span <= u64::MAX {
        (now + span) as u64
    } else {
        u64::MAX
    }
}

fn after(now: u64, span: u64) -> (at: u64)
    ensures
        at == later(now, span),
{
    now.saturating_add(span)
}

impl Driver {
    /// Nobody links up with oneself, the host is one of the two ends, and only a client forwards its log.
    pub open spec fn wf(self) -> bool {
        match self {
            Driver::LinkSelf { is_host, forward, .. } => forward ==> !is_host,
            Driver::Network { ends, is_host, forward } => good_ends(ends, is_host) && (forward
                ==> !is_host),
            Driver::Up { ends, is_host, forward } => good_ends(ends, is_host) && (forward
                ==> !is_host),
            _ => true,
        }
    }

    /// Where the connection stands once this was found out. What was not asked for changes nothing.
    pub open spec fn next(self, found: Found, forward_pref: bool, now: u64) -> Driver {
        match (self, found) {
            (Driver::AwaitSelf { deadline }, Found::Identity(id)) => match id {
                Some(own) => Driver::Start { own },
                None => if now >= deadline {
                    Driver::Stopped
                } else {
                    self
                },
            },
            (Driver::Start { .. }, Found::Discovery(available)) => if available {
                Driver::Discover { deadline: later(now, LOBBY_DISCOVERY_TIMEOUT) }
            } else {
                Driver::Stopped
            },
            (Driver::Discover { deadline }, Found::Partner(partner)) => match partner {
                Some(p) => Driver::LinkSelf {
                    peer: p.0,
                    is_host: p.1,
                    forward: !p.1 && forward_pref,
                    deadline: later(now, SELF_ID_TIMEOUT),
                },
                None => if now >= deadline {
                    Driver::Stopped
                } else {
                    self
                },
            },
            (
                Driver::LinkSelf { peer, is_host, forward, deadline },
                Found::Identity(id),
            ) => match id {
                Some(own) => if own == peer {
                    Driver::Stopped
                } else {
                    Driver::Network { ends: ends_of(own, peer, is_host), is_host, forward }
                },
                None => if now >= deadline {
                    Driver::Stopped
                } else {
                    self
                },
            },
            (
                Driver::Network { ends, is_host, forward },
                Found::Network(available),
            ) => if available {
                Driver::Up { ends, is_host, forward }
            } else {
                Driver::Stopped
            },
            _ => self,
        }
    }

    /// What is published once this was found out.
    pub open spec fn published(self, channel: SideView, found: Found, now: u64) -> SideView {
        match (self, found) {
            (Driver::AwaitSelf { deadline }, Found::Identity(id)) => match id {
                Some(_) => channel.identified(now),
                None => if now >= deadline {
                    channel.failed(NO_IDENTITY@)
                } else {
                    channel
                },
            },
            (Driver::Start { .. }, Found::Discovery(available)) => if available {
                channel
            } else {
                channel.failed(NO_MATCHMAKING@)
            },
            (Driver::Discover { deadline }, Found::Partner(partner)) => match partner {
                Some(_) => channel.linking(now),
                None => if now >= deadline {
                    channel.failed(NO_PARTNER@)
                } else {
                    channel
                },
            },
            (Driver::LinkSelf { peer, deadline, .. }, Found::Identity(id)) => match id {
                Some(own) => if own == peer {
                    channel.identified(now).failed(OWN_PARTNER@)
                } else {
                    channel.identified(now)
                },
                None => if now >= deadline {
                    channel.failed(NO_IDENTITY@)
                } else {
                    channel
                },
            },
            (Driver::Network { .. }, Found::Network(available)) => if available {
                channel.accepted(now)
            } else {
                channel.failed(NO_NETWORKING@)
            },
            _ => channel,
        }
    }

    /// What is logged once this was found out. The partner goes by `tag`.
    pub open spec fn said(self, found: Found, tag: Seq<char>, now: u64) -> Option<LogLineView> {
        match (self, found) {
            (Driver::AwaitSelf { deadline }, Found::Identity(None)) => if now >= deadline {
                Some(warned("coop: own SteamID never resolved; lobby discovery not started"@))
            } else {
                None
            },
            (Driver::Start { .. }, Found::Discovery(false)) => Some(
                warned("coop: Steam matchmaking unavailable; lobby discovery not started"@),
            ),
            (Driver::Discover { deadline }, Found::Partner(partner)) => match partner {
                Some(p) => Some(
                    LogLineView {
                        level: Level::Info,
                        text: "coop: lobby discovery resolved partner "@ + tag + " (we are the "@
                            + side_word(p.1) + "); seeding rung 2"@,
                    },
                ),
                None => if now >= deadline {
                    Some(warned("coop: lobby discovery timed out; no partner found"@))
                } else {
                    None
                },
            },
            (Driver::LinkSelf { peer, deadline, .. }, Found::Identity(id)) => match id {
                Some(own) => if own == peer {
                    Some(
                        LogLineView {
                            level: Level::Error,
                            text:
                                "coop: resolved partner is our own SteamID; nothing to connect to"@,
                        },
                    )
                } else {
                    None
                },
                None => if now >= deadline {
                    Some(warned("coop: own SteamID never resolved; side-channel not started"@))
                } else {
                    None
                },
            },
            (Driver::Network { is_host, .. }, Found::Network(available)) => Some(
                if available {
                    LogLineView {
                        level: Level::Info,
                        text: "coop: side-channel up as "@ + side_word(is_host) + " with partner "@
                            + tag + " (Steam P2P)"@,
                    }
                } else {
                    warned(
                        "coop: ISteamNetworkingMessages unavailable; side-channel not started"@,
                    )
                },
            ),
            _ => None,
        }
    }

    /// Begins to look for a partner.
    pub fn begin(channel: &mut SideChannel, now: u64) -> (driver: Driver)
        ensures
            driver == (Driver::AwaitSelf { deadline: later(now, SELF_ID_TIMEOUT) }),
            final(channel)@ == old(channel)@.linking(now),
    {
        channel.begin_linking(now);
        Driver::AwaitSelf { deadline: after(now, SELF_ID_TIMEOUT) }
    }

    /// Milliseconds between two looks, or between two beats of the link.
    pub fn interval(self) -> (millis: u64)
        ensures
            millis == (match self {
                Driver::AwaitSelf { .. } => SELF_ID_POLL,
                Driver::LinkSelf { .. } => SELF_ID_POLL,
                Driver::Discover { .. } => LOBBY_DISCOVERY_POLL,
                Driver::Up { .. } => POLL_INTERVAL,
                _ => 0,
            }),
    {
        match self {
            Driver::AwaitSelf { .. } => SELF_ID_POLL,
            Driver::LinkSelf { .. } => SELF_ID_POLL,
            Driver::Discover { .. } => LOBBY_DISCOVERY_POLL,
            Driver::Up { .. } => POLL_INTERVAL,
            _ => 0,
        }
    }

    /// Goes on with what was found out; what is to be logged about it, if anything is.
    pub fn step(
        &mut self,
        channel: &mut SideChannel,
        found: Found,
        tag: &str,
        forward_pref: bool,
        now: u64,
    ) -> (line: Option<LogLine>)
        ensures
            *final(self) == old(self).next(found, forward_pref, now),
            final(channel)@ == old(self).published(old(channel)@, found, now),
            line_chars(line) == old(self).said(found, tag@, now),
            old(self).wf() ==> final(self).wf(),
    {
        match (*self, found) {
            (Driver::AwaitSelf { deadline }, Found::Identity(id)) => {
                match wait_self_id(id, now, deadline) {
                    IdWait::Again => None,
                    _ => match channel.discovery_identity(id, now) {
                        Ok(own) => {
                            *self = Driver::Start { own };
                            None
                        },
                        Err(line) => {
                            *self = Driver::Stopped;
                            Some(line)
                        },
                    },
                }
            },
            (Driver::Start { .. }, Found::Discovery(available)) => {
                let line = channel.discovery_started(available);
                *self = if available {
                    Driver::Discover { deadline: after(now, LOBBY_DISCOVERY_TIMEOUT) }
                } else {
                    Driver::Stopped
                };
                line
            },
            (Driver::Discover { deadline }, Found::Partner(partner)) => {
                match channel.discovery_step(partner, tag, forward_pref, now, deadline) {
                    DiscoveryStep::Resolved { peer, is_host, forward, line } => {
                        channel.begin_linking(now);
                        *self = Driver::LinkSelf {
                            peer,
                            is_host,
                            forward,
                            deadline: after(now, SELF_ID_TIMEOUT),
                        };
                        Some(line)
                    },
                    DiscoveryStep::TimedOut(line) => {
                        *self = Driver::Stopped;
                        Some(line)
                    },
                    DiscoveryStep::Again => None,
                }
            },
            (Driver::LinkSelf { peer, is_host, forward, deadline }, Found::Identity(id)) => {
                match wait_self_id(id, now, deadline) {
                    IdWait::Again => None,
                    _ => match channel.link_identity(id, peer, is_host, now) {
                        Ok(ends) => {
                            *self = Driver::Network { ends, is_host, forward };
                            None
                        },
                        Err(line) => {
                            *self = Driver::Stopped;
                            Some(line)
                        },
                    },
                }
            },
            (Driver::Network { ends, is_host, forward }, Found::Network(available)) => {
                match channel.link_network(available, is_host, tag, now) {
                    Ok(line) => {
                        *self = Driver::Up { ends, is_host, forward };
                        Some(line)
                    },
                    Err(line) => {
                        *self = Driver::Stopped;
                        Some(line)
                    },
                }
            },
            _ => None,
        }
    }
}

/// The line with its characters, if there is one.
pub open spec fn line_chars(line: Option<LogLine>) -> Option<LogLineView> {
    match line {
        Some(l) => Some(l@),
        None => None,
    }
}

/// One look: what it found, whether logs are to be forwarded, and when it was.
pub struct Look {
    pub found: Found,
    pub forward_pref: bool,
    pub now: u64,
}

/// Where the connection stands after some looks.
pub open spec fn driven(start: Driver, looks: Seq<Look>) -> Driver
    decreases looks.len(),
{
    if looks.len() == 0 {
        start
    } else {
        let last = looks.last();
        driven(start, looks.drop_last()).next(last.found, last.forward_pref, last.now)
    }
}

/// What is published after some looks.
pub open spec fn told(start: Driver, channel: SideView, looks: Seq<Look>) -> SideView
    decreases looks.len(),
{
    if looks.len() == 0 {
        channel
    } else {
        let last = looks.last();
        driven(start, looks.drop_last()).published(
            told(start, channel, looks.drop_last()),
            last.found,
            last.now,
        )
    }
}

/// Whatever is found out and in whatever order, a link never comes up with oneself, its host is the side
/// that it should be, and the host never forwards a log.
pub proof fn never_links_with_oneself(deadline: u64, looks: Seq<Look>)
    ensures
        driven(Driver::AwaitSelf { deadline }, looks).wf(),
        driven(Driver::AwaitSelf { deadline }, looks) matches Driver::Up { ends, is_host, forward }
            ==> ends.own != ends.peer && ends.host == (if is_host {
            ends.own
        } else {
            ends.peer
        }) && !(is_host && forward),
    decreases looks.len(),
{
    if looks.len() > 0 {
        never_links_with_oneself(deadline, looks.drop_last());
    }
}

/// An attempt that is over stays over: nothing that is found out afterwards changes anything or is said.
pub proof fn stopped_for_good(channel: SideView, found: Found, tag: Seq<char>, pref: bool, now: u64)
    ensures
        Driver::Stopped.next(found, pref, now) == Driver::Stopped,
        Driver::Stopped.published(channel, found, now) == channel,
        Driver::Stopped.said(found, tag, now) is None,
{
}

/// While an attempt runs, what is published says that the partner is being looked for. Once it is over, it
/// says that the attempt failed, and why.
pub proof fn failure_is_told(channel: SideView, now: u64, looks: Seq<Look>)
    ensures
        ({
            let start = Driver::AwaitSelf { deadline: later(now, SELF_ID_TIMEOUT) };
            let shown = told(start, channel.linking(now), looks);
            &&& shown.attempted
            &&& driven(start, looks) is Stopped ==> shown.phase == LinkPhase::Failed
                && shown.report.failure is Some
            &&& !(driven(start, looks) is Stopped) ==> shown.phase == LinkPhase::Linking
        }),
    decreases looks.len(),
{
    if looks.len() > 0 {
        failure_is_told(channel, now, looks.drop_last());
    }
}

/// A link is up only after its partner was found and the network was reached: the last look that led
/// there was at the network.
pub proof fn up_only_through_the_network(driver: Driver, found: Found, pref: bool, now: u64)
    requires
        !(driver is Up),
        driver.next(found, pref, now) is Up,
    ensures
        driver is Network,
        found == Found::Network(true),
{
}

/// An attempt that finds what it looks for in turn comes up: with the partner that was found, as the side that made
/// the lobby, and forwarding its log exactly if it is the client and was asked to.
pub proof fn a_partner_that_is_found_is_linked_with(
    start: Driver,
    own: u64,
    peer: u64,
    is_host: bool,
    pref: bool,
    t1: u64,
    t2: u64,
    t3: u64,
    t4: u64,
    t5: u64,
)
    requires
        start is AwaitSelf,
        own != peer,
    ensures
        start.next(Found::Identity(Some(own)), pref, t1).next(
            Found::Discovery(true),
            pref,
            t2,
        ).next(Found::Partner(Some((peer, is_host))), pref, t3).next(
            Found::Identity(Some(own)),
            pref,
            t4,
        ).next(Found::Network(true), pref, t5) == (Driver::Up {
            ends: Ends {
                own,
                peer,
                host: if is_host {
                    own
                } else {
                    peer
                },
            },
            is_host,
            forward: pref && !is_host,
        }),
{
}

/// What is not there yet is waited for until its deadline, and given up at it.
pub proof fn waiting_ends_at_the_deadline(driver: Driver, pref: bool, now: u64, deadline: u64)
    requires
        driver == (Driver::AwaitSelf { deadline }) || driver == (Driver::Discover { deadline }) || (
        driver matches Driver::LinkSelf { deadline: d, .. } && d == deadline),
    ensures
        ({
            let nothing = if driver is Discover {
                Found::Partner(None)
            } else {
                Found::Identity(None)
            };
            &&& now < deadline ==> driver.next(nothing, pref, now) == driver
            &&& now >= deadline ==> driver.next(nothing, pref, now) == Driver::Stopped
        }),
{
}

/// Whatever is missing at its turn ends the attempt: matchmaking, the network, or a partner who is not oneself.
pub proof fn what_is_missing_ends_the_attempt(
    own: u64,
    is_host: bool,
    forward: bool,
    ends: Ends,
    deadline: u64,
    pref: bool,
    now: u64,
)
    ensures
        (Driver::Start { own }).next(Found::Discovery(false), pref, now) == Driver::Stopped,
        (Driver::Network { ends, is_host, forward }).next(Found::Network(false), pref, now)
            == Driver::Stopped,
        (Driver::LinkSelf { peer: own, is_host, forward, deadline }).next(
            Found::Identity(Some(own)),
            pref,
            now,
        ) == Driver::Stopped,
{
}

/// A deadline lies the whole span ahead, as far as there is time left to count.
pub proof fn a_deadline_lies_ahead(now: u64, span: u64)
    ensures
        now <= later(now, span),
        now + span <= u64::MAX ==> later(now, span) - now == span,
        now + span > u64::MAX ==> later(now, span) == u64::MAX,
{
}

/// Discovery looks for a partner for as long as it is meant to, and the link waits for the identity as long.
pub proof fn discovery_has_its_time(own: u64, peer: u64, is_host: bool, pref: bool, now: u64)
    requires
        now + LOBBY_DISCOVERY_TIMEOUT <= u64::MAX,
        now + SELF_ID_TIMEOUT <= u64::MAX,
    ensures
        (Driver::Start { own }).next(Found::Discovery(true), pref, now) == (Driver::Discover {
            deadline: (now + LOBBY_DISCOVERY_TIMEOUT) as u64,
        }),
        forall|d: u64|
            (#[trigger] (Driver::Discover { deadline: d }).next(
                Found::Partner(Some((peer, is_host))),
                pref,
                now,
            )) == (Driver::LinkSelf {
                peer,
                is_host,
                forward: pref && !is_host,
                deadline: (now + SELF_ID_TIMEOUT) as u64,
            }),
{
}

/// What is found out is published at its own stage: the identity when it came, the partner's acceptance when the
/// network was reached, and why the attempt failed where it did.
pub proof fn stages_are_published_as_they_come(
    channel: SideView,
    own: u64,
    peer: u64,
    is_host: bool,
    forward: bool,
    ends: Ends,
    deadline: u64,
    now: u64,
)
    requires
        own != peer,
    ensures
        (Driver::AwaitSelf { deadline }).published(
            channel,
            Found::Identity(Some(own)),
            now,
        ).report.self_id_at == Some(channel.since(now)),
        (Driver::LinkSelf { peer, is_host, forward, deadline }).published(
            channel,
            Found::Identity(Some(own)),
            now,
        ).report.self_id_at == Some(channel.since(now)),
        (Driver::Network { ends, is_host, forward }).published(
            channel,
            Found::Network(true),
            now,
        ).report.session_accepted_at == Some(channel.since(now)),
        (Driver::Network { ends, is_host, forward }).published(
            channel,
            Found::Network(false),
            now,
        ).report.failure == Some(NO_NETWORKING@),
        (Driver::Start { own }).published(channel, Found::Discovery(false), now).report.failure
            == Some(NO_MATCHMAKING@),
        now >= deadline ==> (Driver::Discover { deadline }).published(
            channel,
            Found::Partner(None),
            now,
        ).report.failure == Some(NO_PARTNER@),
        now >= deadline ==> (Driver::AwaitSelf { deadline }).published(
            channel,
            Found::Identity(None),
            now,
        ).report.failure == Some(NO_IDENTITY@),
        (Driver::LinkSelf { peer, is_host, forward, deadline }).published(
            channel,
            Found::Identity(Some(peer)),
            now,
        ).report.failure == Some(OWN_PARTNER@),
{
}

/// Whenever an attempt ends without a link, and whenever one comes up, that is logged.
pub proof fn every_end_is_logged(
    driver: Driver,
    found: Found,
    tag: Seq<char>,
    pref: bool,
    now: u64,
)
    ensures
        !(driver is Stopped) && driver.next(found, pref, now) is Stopped ==> driver.said(
            found,
            tag,
            now,
        ) is Some && driver.said(found, tag, now)->0.level != Level::Info,
        !(driver is Up) && driver.next(found, pref, now) is Up ==> driver.said(found, tag, now) is Some
            && driver.said(found, tag, now)->0.level == Level::Info,
        driver.next(found, pref, now) == driver ==> driver.said(found, tag, now) is None,
{
}

/// A link that is up is told with one's side and the partner, and so is a partner that was found; each failure is told
/// in its own words.
pub proof fn what_happened_is_told(
    own: u64,
    peer: u64,
    is_host: bool,
    forward: bool,
    ends: Ends,
    deadline: u64,
    tag: Seq<char>,
    now: u64,
)
    requires
        now >= deadline,
    ensures
        (Driver::Network { ends, is_host, forward }).said(Found::Network(true), tag, now)->0.text
            == "coop: side-channel up as "@ + side_word(is_host) + " with partner "@ + tag
            + " (Steam P2P)"@,
        (Driver::Discover { deadline }).said(Found::Partner(Some((peer, is_host))), tag, now)->0.text
            == "coop: lobby discovery resolved partner "@ + tag + " (we are the "@ + side_word(
            is_host,
        ) + "); seeding rung 2"@,
        (Driver::AwaitSelf { deadline }).said(Found::Identity(None), tag, now)->0.text
            == "coop: own SteamID never resolved; lobby discovery not started"@,
        (Driver::Start { own }).said(Found::Discovery(false), tag, now)->0.text
            == "coop: Steam matchmaking unavailable; lobby discovery not started"@,
        (Driver::Discover { deadline }).said(Found::Partner(None), tag, now)->0.text
            == "coop: lobby discovery timed out; no partner found"@,
        (Driver::LinkSelf { peer, is_host, forward, deadline }).said(
            Found::Identity(None),
            tag,
            now,
        )->0.text == "coop: own SteamID never resolved; side-channel not started"@,
        (Driver::LinkSelf { peer, is_host, forward, deadline }).said(
            Found::Identity(Some(peer)),
            tag,
            now,
        )->0.text == "coop: resolved partner is our own SteamID; nothing to connect to"@,
        (Driver::Network { ends, is_host, forward }).said(Found::Network(false), tag, now)->0.text
            == "coop: ISteamNetworkingMessages unavailable; side-channel not started"@,
{
}

} // verus!
