use unseamless_coop::coop::{
    connect_report, status_line, Ends, SideChannel, NO_IDENTITY, NO_MATCHMAKING, NO_NETWORKING,
    NO_PARTNER, OWN_PARTNER,
};
use unseamless_coop::driver::{Driver, Found};
use unseamless_coop::levels::Level;

fn begun() -> (SideChannel, Driver) {
    let mut channel = SideChannel::new();
    let driver = Driver::begin(&mut channel, 1000);
    (channel, driver)
}

fn text(line: Option<unseamless_coop::levels::LogLine>) -> String {
    line.unwrap().text
}

#[test]
fn a_client_comes_up_step_by_step() {
    let (mut channel, mut driver) = begun();
    assert_eq!(driver, Driver::AwaitSelf { deadline: 36_000 });
    assert_eq!(driver.interval(), 250);
    assert_eq!(status_line(&channel), "linking (Steam P2P)");
    assert!(driver.step(&mut channel, Found::Identity(None), "", true, 1200).is_none());
    assert_eq!(driver, Driver::AwaitSelf { deadline: 36_000 });
    assert!(driver.step(&mut channel, Found::Identity(Some(7)), "", true, 1500).is_none());
    assert_eq!(driver, Driver::Start { own: 7 });
    assert!(driver.step(&mut channel, Found::Discovery(true), "", true, 2000).is_none());
    assert_eq!(driver, Driver::Discover { deadline: 62_000 });
    assert_eq!(driver.interval(), 250);
    assert!(driver.step(&mut channel, Found::Partner(None), "", true, 2250).is_none());
    let line = driver.step(&mut channel, Found::Partner(Some((9, false))), "p9", true, 3000);
    assert_eq!(
        text(line),
        "coop: lobby discovery resolved partner p9 (we are the client); seeding rung 2"
    );
    let waiting = Driver::LinkSelf { peer: 9, is_host: false, forward: true, deadline: 38_000 };
    assert_eq!(driver, waiting);
    assert!(driver.step(&mut channel, Found::Identity(Some(7)), "p9", true, 3000).is_none());
    let ends = Ends { own: 7, peer: 9, host: 9 };
    assert_eq!(driver, Driver::Network { ends, is_host: false, forward: true });
    let line = driver.step(&mut channel, Found::Network(true), "p9", true, 3100);
    assert_eq!(text(line), "coop: side-channel up as client with partner p9 (Steam P2P)");
    assert_eq!(driver, Driver::Up { ends, is_host: false, forward: true });
    assert_eq!(driver.interval(), 100);
    let report = connect_report(&channel).unwrap();
    assert_eq!(report.self_id_at, Some(2000));
    assert_eq!(report.session_accepted_at, Some(2100));
    assert!(report.failure.is_none());
}

#[test]
fn a_host_never_forwards_its_log() {
    let (mut channel, _) = begun();
    let mut driver = Driver::Discover { deadline: 62_000 };
    driver.step(&mut channel, Found::Partner(Some((9, true))), "p9", true, 3000);
    let waiting = Driver::LinkSelf { peer: 9, is_host: true, forward: false, deadline: 38_000 };
    assert_eq!(driver, waiting);
    driver.step(&mut channel, Found::Identity(Some(7)), "p9", true, 3000);
    let ends = Ends { own: 7, peer: 9, host: 7 };
    assert_eq!(driver, Driver::Network { ends, is_host: true, forward: false });
}

fn fails(mut driver: Driver, found: Found, now: u64, line: &str, level: Level, why: &str) {
    let (mut channel, _) = begun();
    let said = driver.step(&mut channel, found, "p9", false, now).unwrap();
    assert_eq!(said.text, line);
    assert_eq!(said.level, level);
    assert_eq!(driver, Driver::Stopped);
    assert_eq!(driver.interval(), 0);
    assert_eq!(status_line(&channel), "attempted, but couldn't start (see log)");
    assert_eq!(connect_report(&channel).unwrap().failure.unwrap(), why);
    assert!(driver.step(&mut channel, Found::Identity(Some(7)), "p9", false, now).is_none());
    assert!(driver.step(&mut channel, Found::Network(true), "p9", false, now).is_none());
    assert_eq!(driver, Driver::Stopped);
    assert_eq!(connect_report(&channel).unwrap().failure.unwrap(), why);
}

#[test]
fn every_failure_stops_the_attempt_and_is_told() {
    let (_, first) = begun();
    fails(
        first,
        Found::Identity(None),
        36_000,
        "coop: own SteamID never resolved; lobby discovery not started",
        Level::Warn,
        NO_IDENTITY,
    );
    fails(
        Driver::Start { own: 7 },
        Found::Discovery(false),
        2000,
        "coop: Steam matchmaking unavailable; lobby discovery not started",
        Level::Warn,
        NO_MATCHMAKING,
    );
    fails(
        Driver::Discover { deadline: 62_000 },
        Found::Partner(None),
        62_000,
        "coop: lobby discovery timed out; no partner found",
        Level::Warn,
        NO_PARTNER,
    );
    let waiting = Driver::LinkSelf { peer: 9, is_host: true, forward: false, deadline: 38_000 };
    fails(
        waiting,
        Found::Identity(None),
        38_000,
        "coop: own SteamID never resolved; side-channel not started",
        Level::Warn,
        NO_IDENTITY,
    );
    fails(
        waiting,
        Found::Identity(Some(9)),
        3000,
        "coop: resolved partner is our own SteamID; nothing to connect to",
        Level::Error,
        OWN_PARTNER,
    );
    let ends = Ends { own: 7, peer: 9, host: 7 };
    fails(
        Driver::Network { ends, is_host: true, forward: false },
        Found::Network(false),
        3000,
        "coop: ISteamNetworkingMessages unavailable; side-channel not started",
        Level::Warn,
        NO_NETWORKING,
    );
}

#[test]
fn what_was_not_asked_for_changes_nothing() {
    let (mut channel, mut driver) = begun();
    assert!(driver.step(&mut channel, Found::Network(true), "p9", true, 2000).is_none());
    assert!(driver.step(&mut channel, Found::Partner(Some((9, true))), "p9", true, 2000).is_none());
    assert_eq!(driver, Driver::AwaitSelf { deadline: 36_000 });
    assert_eq!(connect_report(&channel).unwrap().self_id_at, None);
}

#[test]
fn a_deadline_past_the_end_of_time_is_the_end_of_time() {
    let mut channel = SideChannel::new();
    let driver = Driver::begin(&mut channel, u64::MAX - 1);
    assert_eq!(driver, Driver::AwaitSelf { deadline: u64::MAX });
}
