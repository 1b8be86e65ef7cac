use unseamless_coop::coop::{
    adopts, begin_attempt, connect_report, elapsed, note_lobby_created, note_lobby_failure,
    note_lobby_host_resolved, note_lobby_joined, note_lobby_list, note_lobby_role, record_failure,
    should_start, start, status_line, update_link_status, wait_self_id, DiscoveryStep, Heard,
    IdWait, LinkState, LobbyRole, PartnerTexts, SideChannel, VersionCheck, BANNER_LIVENESS,
    BANNER_VERSION,
};
use unseamless_coop::levels::Level;
use unseamless_coop::notify;
use unseamless_coop::notify::{Notifications, Severity};
use unseamless_coop::steam::{
    after_attempt, discovery_lines, discovery_verdict, first_match, join_report,
    password_or_default, pump_step, roster_lines, self_join_line, token, token_of_digest,
    Discovery, JoinOutcome, Polled, PumpStep, RetryStep,
};
use unseamless_coop::transport::{
    read_step, stalled_line, trusted_frames, Connecting, ConnectStep, Frame, FrameWrite, ReadEvent,
    ReadStep, WriteEvent, WriteStep, MAX_CONNECTS, MAX_WRITE_STALLS,
};

#[test]
fn a_fresh_channel_is_off_and_reports_nothing() {
    let channel = SideChannel::new();
    assert_eq!(status_line(&channel), "off (no co-op password, or discovery disabled)");
    assert!(connect_report(&channel).is_none());
}

#[test]
fn stage_times_count_from_the_first_attempt() {
    let mut channel = SideChannel::new();
    begin_attempt(&mut channel, 1000);
    begin_attempt(&mut channel, 5000);
    assert_eq!(elapsed(&mut channel, 6500), 5500);
    assert_eq!(elapsed(&mut channel, 500), 0);
    assert!(connect_report(&channel).is_some());
}

#[test]
fn asking_for_the_time_first_pins_it() {
    let mut channel = SideChannel::new();
    assert_eq!(elapsed(&mut channel, 700), 0);
    assert_eq!(elapsed(&mut channel, 900), 200);
    assert!(connect_report(&channel).is_none());
}

#[test]
fn lobby_notes_need_a_role_and_survive_its_repetition() {
    let mut channel = SideChannel::new();
    begin_attempt(&mut channel, 0);
    note_lobby_created(&mut channel, 10);
    assert!(connect_report(&channel).unwrap().lobby.is_none());
    note_lobby_role(&mut channel, LobbyRole::Host);
    note_lobby_created(&mut channel, 20);
    note_lobby_role(&mut channel, LobbyRole::Host);
    assert_eq!(connect_report(&channel).unwrap().lobby.unwrap().created_at, Some(20));
    note_lobby_role(&mut channel, LobbyRole::Joiner);
    let lobby = connect_report(&channel).unwrap().lobby.unwrap();
    assert_eq!(lobby.role, LobbyRole::Joiner);
    assert_eq!(lobby.created_at, None);
    note_lobby_list(&mut channel, 0, 30);
    note_lobby_joined(&mut channel, 40);
    note_lobby_host_resolved(&mut channel);
    let lobby = connect_report(&channel).unwrap().lobby.unwrap();
    assert_eq!(lobby.list_returned_at, Some(30));
    assert_eq!(lobby.candidates, Some(0));
    assert_eq!(lobby.joined_at, Some(40));
    assert!(lobby.host_id_resolved);
}

#[test]
fn a_failure_is_recorded_in_words() {
    let mut channel = SideChannel::new();
    begin_attempt(&mut channel, 0);
    record_failure(&mut channel, "first");
    note_lobby_failure(&mut channel, "second");
    assert_eq!(connect_report(&channel).unwrap().failure, Some("second".to_string()));
}

#[test]
fn discovery_needs_to_be_enabled_and_a_password() {
    assert!(should_start(true, "pw"));
    assert!(!should_start(true, ""));
    assert!(!should_start(false, "pw"));
    assert!(!start("pw"));
}

#[test]
fn an_identity_counts_even_at_the_deadline() {
    assert_eq!(wait_self_id(Some(7), 100, 100), IdWait::Found(7));
    assert_eq!(wait_self_id(None, 100, 100), IdWait::GaveUp);
    assert_eq!(wait_self_id(None, 99, 100), IdWait::Again);
}

#[test]
fn discovery_without_an_identity_fails() {
    let mut channel = SideChannel::new();
    channel.begin_linking(0);
    assert_eq!(status_line(&channel), "linking (Steam P2P)");
    let line = channel.discovery_identity(None, 35_000).unwrap_err();
    assert_eq!(line.level, Level::Warn);
    assert_eq!(line.text, "coop: own SteamID never resolved; lobby discovery not started");
    assert_eq!(status_line(&channel), "attempted, but couldn't start (see log)");
    assert_eq!(
        connect_report(&channel).unwrap().failure.unwrap(),
        "own SteamID never resolved (rung 1) — is Steam running and logged in?"
    );
}

#[test]
fn discovery_finds_a_partner_or_times_out() {
    let mut channel = SideChannel::new();
    channel.begin_linking(0);
    assert_eq!(channel.discovery_identity(Some(1), 20).unwrap(), 1);
    assert_eq!(connect_report(&channel).unwrap().self_id_at, Some(20));
    assert!(channel.discovery_started(true).is_none());
    assert!(matches!(
        channel.discovery_step(None, "", true, 10, 60),
        DiscoveryStep::Again
    ));
    match channel.discovery_step(Some((9, false)), "…0009", true, 60, 60) {
        DiscoveryStep::Resolved { peer, is_host, forward, line } => {
            assert_eq!((peer, is_host, forward), (9, false, true));
            assert_eq!(
                line.text,
                "coop: lobby discovery resolved partner …0009 (we are the client); seeding rung 2"
            );
        }
        _ => panic!("must resolve"),
    }
    match channel.discovery_step(Some((9, true)), "x", true, 60, 60) {
        DiscoveryStep::Resolved { forward, .. } => assert!(!forward),
        _ => panic!("must resolve"),
    }
    match channel.discovery_step(None, "", true, 60, 60) {
        DiscoveryStep::TimedOut(line) => {
            assert_eq!(line.text, "coop: lobby discovery timed out; no partner found")
        }
        _ => panic!("must time out"),
    }
    assert_eq!(
        connect_report(&channel).unwrap().failure.unwrap(),
        "lobby discovery timed out (no partner found / wrong password?)"
    );
}

#[test]
fn matchmaking_that_is_not_there_fails_discovery() {
    let mut channel = SideChannel::new();
    channel.begin_linking(0);
    let line = channel.discovery_started(false).unwrap();
    assert_eq!(line.text, "coop: Steam matchmaking unavailable; lobby discovery not started");
    assert_eq!(
        connect_report(&channel).unwrap().failure.unwrap(),
        "Steam matchmaking unavailable (Steam not up or export missing)"
    );
}

#[test]
fn the_host_is_whoever_made_the_lobby() {
    let mut channel = SideChannel::new();
    channel.begin_linking(0);
    let ends = channel.link_identity(Some(1), 2, true, 5).unwrap();
    assert_eq!((ends.own, ends.peer, ends.host), (1, 2, 1));
    let ends = channel.link_identity(Some(1), 2, false, 5).unwrap();
    assert_eq!(ends.host, 2);
}

#[test]
fn nobody_links_up_with_themselves() {
    let mut channel = SideChannel::new();
    channel.begin_linking(0);
    let line = channel.link_identity(Some(2), 2, true, 5).unwrap_err();
    assert_eq!(line.level, Level::Error);
    assert_eq!(
        connect_report(&channel).unwrap().failure.unwrap(),
        "resolved partner is our own SteamID"
    );
    assert_eq!(connect_report(&channel).unwrap().self_id_at, Some(5));
    assert!(channel.link_identity(None, 2, true, 5).is_err());
}

#[test]
fn the_network_is_up_or_the_link_fails() {
    let mut channel = SideChannel::new();
    channel.begin_linking(0);
    let line = channel.link_network(true, true, "tag", 9).unwrap();
    assert_eq!(line.text, "coop: side-channel up as host with partner tag (Steam P2P)");
    assert_eq!(connect_report(&channel).unwrap().session_accepted_at, Some(9));
    let line = channel.link_network(false, true, "tag", 9).unwrap_err();
    assert_eq!(
        line.text,
        "coop: ISteamNetworkingMessages unavailable; side-channel not started"
    );
}

#[test]
fn maintenance_runs_once_a_second() {
    let mut link = LinkState::new(100);
    assert!(!link.beat(true, 1099).maintain);
    let beat = link.beat(true, 1100);
    assert!(beat.maintain && beat.ship_logs);
    assert!(!link.beat(false, 1500).maintain);
    assert!(!link.beat(false, 2000).ship_logs);
    assert!(link.beat(false, 2100).maintain);
}

#[test]
fn only_a_client_adopts_changed_settings() {
    assert!(adopts(false, true));
    assert!(!adopts(false, false));
    assert!(!adopts(true, true));
}

fn texts() -> PartnerTexts {
    PartnerTexts {
        tag: "…42".to_string(),
        version_mismatch: "versions differ".to_string(),
        lost_contact: "lost contact".to_string(),
    }
}

fn banner_ids(board: &Notifications) -> Vec<String> {
    board.banners().iter().map(|b| b.id.clone()).collect()
}

#[test]
fn the_screen_follows_the_link() {
    let mut channel = SideChannel::new();
    channel.begin_linking(0);
    let mut board = notify::init();
    let mut link = LinkState::new(0);
    let quiet = Heard { compatible: None, stale: true };
    update_link_status(&mut channel, &mut board, &mut link, quiet, &texts(), 5000, 10);
    assert!(board.is_empty());
    assert_eq!(status_line(&channel), "linking (Steam P2P)");

    let hello = Heard { compatible: Some(true), stale: false };
    update_link_status(&mut channel, &mut board, &mut link, hello, &texts(), 5000, 20);
    assert_eq!(status_line(&channel), "linked");
    assert_eq!(board.toasts().len(), 1);
    assert_eq!(board.toasts()[0].toast.message, "Co-op partner connected (…42)");
    let report = connect_report(&channel).unwrap();
    assert_eq!(report.handshake_at, Some(20));
    assert_eq!(report.version, VersionCheck::Match);

    let silent = Heard { compatible: Some(true), stale: true };
    update_link_status(&mut channel, &mut board, &mut link, silent, &texts(), 5000, 30);
    update_link_status(&mut channel, &mut board, &mut link, silent, &texts(), 5000, 40);
    assert_eq!(status_line(&channel), "partner lost (silent)");
    assert_eq!(banner_ids(&board), vec![BANNER_LIVENESS.to_string()]);
    assert_eq!(board.banners()[0].severity, Severity::Warning);

    update_link_status(&mut channel, &mut board, &mut link, hello, &texts(), 5000, 50);
    assert_eq!(status_line(&channel), "linked");
    assert!(board.banners().is_empty());
    assert_eq!(board.toasts().len(), 1);
}

#[test]
fn a_version_that_does_not_fit_is_shown() {
    let mut channel = SideChannel::new();
    channel.begin_linking(0);
    let mut board = notify::init();
    let mut link = LinkState::new(0);
    let hello = Heard { compatible: Some(false), stale: false };
    update_link_status(&mut channel, &mut board, &mut link, hello, &texts(), 5000, 20);
    assert_eq!(connect_report(&channel).unwrap().version, VersionCheck::Mismatch);
    assert_eq!(banner_ids(&board), vec![BANNER_VERSION.to_string()]);
    assert_eq!(board.banners()[0].message, "versions differ");
}

#[test]
fn what_arrives_is_counted_before_strangers_are_dropped() {
    let mut channel = SideChannel::new();
    begin_attempt(&mut channel, 0);
    channel.sent(true);
    channel.sent(false);
    let frames = vec![
        Frame { from: 1, bytes: vec![1] },
        Frame { from: 2, bytes: vec![2] },
        Frame { from: 1, bytes: vec![3] },
    ];
    let kept = channel.received(frames, 1);
    assert_eq!(kept.len(), 2);
    assert_eq!((kept[0].bytes[0], kept[1].bytes[0]), (1, 3));
    let report = connect_report(&channel).unwrap();
    assert_eq!((report.messages_sent, report.messages_received), (1, 3));
}

#[test]
fn only_the_partner_is_trusted() {
    assert!(trusted_frames(vec![Frame { from: 5, bytes: vec![] }], 6).is_empty());
    assert!(trusted_frames(vec![], 6).is_empty());
}

#[test]
fn a_frame_is_written_whole() {
    let mut frame = FrameWrite::new(10, Some(2));
    assert_eq!(frame.first(), WriteStep::Write);
    assert_eq!(frame.step(WriteEvent::Wrote(4)), WriteStep::Write);
    assert_eq!(frame.step(WriteEvent::WouldBlock), WriteStep::Wait);
    assert_eq!(frame.step(WriteEvent::Interrupted), WriteStep::Write);
    assert_eq!(frame.step(WriteEvent::Wrote(6)), WriteStep::Done);
    assert_eq!(FrameWrite::new(0, None).first(), WriteStep::Done);
}

#[test]
fn a_peer_that_never_reads_is_dropped() {
    let mut frame = FrameWrite::new(1, Some(MAX_WRITE_STALLS));
    for _ in 0..MAX_WRITE_STALLS {
        assert_eq!(frame.step(WriteEvent::WouldBlock), WriteStep::Wait);
    }
    assert_eq!(frame.step(WriteEvent::WouldBlock), WriteStep::CloseStalled);
    assert_eq!(stalled_line().text, "bridge: client not draining; dropping");
    let mut patient = FrameWrite::new(1, None);
    assert_eq!(patient.step(WriteEvent::WouldBlock), WriteStep::Wait);
    assert_eq!(patient.step(WriteEvent::Wrote(0)), WriteStep::Close);
    assert_eq!(patient.step(WriteEvent::Failed), WriteStep::Close);
}

#[test]
fn a_socket_is_drained_before_its_frames_are_read() {
    assert_eq!(read_step(ReadEvent::Got(3)), ReadStep::Feed);
    assert_eq!(read_step(ReadEvent::Got(0)), ReadStep::Closed);
    assert_eq!(read_step(ReadEvent::Interrupted), ReadStep::Again);
    assert_eq!(read_step(ReadEvent::WouldBlock), ReadStep::Drained);
    assert_eq!(read_step(ReadEvent::Failed), ReadStep::Closed);
}

#[test]
fn reaching_a_peer_is_tried_a_hundred_times() {
    let mut connecting = Connecting::new();
    for _ in 1..MAX_CONNECTS {
        assert_eq!(connecting.step(false), ConnectStep::Again);
    }
    assert_eq!(connecting.step(false), ConnectStep::GiveUp);
    assert_eq!(Connecting::new().step(true), ConnectStep::Up);
}

#[test]
fn the_token_has_known_values() {
    assert_eq!(token_of_digest(&(0u8..32).collect()), "000102030405060708090a0b0c0d0e0f");
    assert_ne!(token("pw"), token("PW"));
    assert_ne!(token("pw"), token(" pw "));
    assert_ne!(token("é"), token("e\u{301}"));
    assert_eq!(password_or_default(None), "harness-default-password");
    assert_eq!(password_or_default(Some(String::new())), "");
}

#[test]
fn asynchronous_results_are_waited_for() {
    assert_eq!(pump_step(Polled::Ready, 9, 5), PumpStep::Take);
    assert_eq!(pump_step(Polled::Disconnected, 0, 5), PumpStep::GiveUp);
    assert_eq!(pump_step(Polled::Empty, 4, 5), PumpStep::Wait);
    assert_eq!(pump_step(Polled::Empty, 5, 5), PumpStep::GiveUp);
}

#[test]
fn a_search_is_repeated_a_few_times() {
    assert!(matches!(after_attempt(Some(3), 1, 6), RetryStep::Found(3)));
    match after_attempt(None, 1, 6) {
        RetryStep::Retry(line) => assert_eq!(
            line,
            "[steam] no match yet (attempt 1/6); waiting for lobby data to propagate…"
        ),
        _ => panic!("must retry"),
    }
    assert!(matches!(after_attempt(None, 6, 6), RetryStep::GiveUp));
    assert_eq!(first_match(&vec![8, 9]), Some(8));
    assert_eq!(first_match(&vec![]), None);
}

#[test]
fn a_search_for_ones_own_lobby_is_judged() {
    assert_eq!(discovery_verdict(Some(1), 1), Discovery::Own);
    assert_eq!(discovery_verdict(Some(2), 1), Discovery::Other(2));
    assert_eq!(discovery_verdict(None, 1), Discovery::Missing);
    assert_eq!(
        discovery_lines(Discovery::Own, 1, 7, "0.1.0"),
        vec![
            "[lobby] discovery MATCH: found our lobby 1 via the password filter".to_string(),
            "[lobby] host SteamID from owner (raw u64) = 7".to_string(),
            "[lobby] usc_ver read back = 0.1.0".to_string(),
        ]
    );
    assert_eq!(discovery_lines(Discovery::Other(2), 1, 7, "").len(), 2);
    assert_eq!(discovery_lines(Discovery::Missing, 1, 7, "").len(), 2);
}

#[test]
fn entering_a_lobby_is_told() {
    assert_eq!(
        self_join_line(JoinOutcome::Joined(5)),
        "[lobby] JoinLobby OK (LobbyEnter for 5)"
    );
    let lines = join_report(JoinOutcome::Joined(5), 9, "0.1.0", "0.2.0").unwrap();
    assert_eq!(lines[2], "[join] lobby usc_ver = 0.1.0 (ours = 0.2.0)");
    assert_eq!(lines.len(), 4);
    assert_eq!(
        join_report(JoinOutcome::Refused, 9, "", "").unwrap_err(),
        "[join] FAILED: JoinLobby returned an error"
    );
    assert_eq!(
        join_report(JoinOutcome::TimedOut, 9, "", "").unwrap_err(),
        "[join] FAILED: JoinLobby timed out"
    );
}

#[test]
fn a_roster_is_shown_when_its_size_changes() {
    let mut last = 0usize;
    assert_eq!(
        roster_lines(&mut last, &vec![1, 2], 1),
        vec![
            "[host] roster (2 member(s)):".to_string(),
            "[host]   1 (host/us)".to_string(),
            "[host]   2 (joiner)".to_string(),
        ]
    );
    assert!(roster_lines(&mut last, &vec![1, 3], 1).is_empty());
    assert_eq!(roster_lines(&mut last, &vec![1], 1).len(), 2);
}
