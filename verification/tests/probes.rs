use unseamless_coop::debug_panel;
use unseamless_coop::diag::{
    build_report, dump, party, publish_live, AreaTime, Facts, FeatureHealth, FlagScanProbe, Gauge,
    MultiplierText, Vitals, VitalsRead,
};
use unseamless_coop::features::observer::{party_count, RosterEntry, SessionObserver};
use unseamless_coop::features::presence_probe::{
    camera_type_text, choose_target, gather, phantom_tag, status_text, update_text, AimReading,
    CameraRead, CameraWrite, Detail, LocalPlayer, LookAtPhantom, Measured, Pos, PresenceProbe,
    RawEntry, LOOK_ENABLED, WAITING,
};
use unseamless_coop::levels::Level;
use unseamless_coop::report::{DiagnosticReport, Row};
use unseamless_coop::session::{SessionView, StateTag, Tether};

fn multiplier(x: &str) -> MultiplierText {
    MultiplierText { health: x.to_owned(), damage: "1.00".to_owned(), posture: "1.20".to_owned() }
}

fn session(players: usize) -> SessionView {
    SessionView {
        lobby_state: StateTag { code: 3, name: "Host".to_owned() },
        protocol_state: StateTag { code: 6, name: "InGame".to_owned() },
        players,
        player_limit: 4,
        limit_override: 6,
        tether: Some(Tether {
            restriction_disabled: true,
            start_area_id: 11,
            warp_pending: false,
            warp_delay: "0.0".to_owned(),
            warp_possible: true,
            fading_players: 0,
        }),
    }
}

fn gauge(remaining: u32, max: u32, proc_timer: Option<&str>) -> Gauge {
    Gauge { remaining, max, proc_timer: proc_timer.map(|t| t.to_owned()) }
}

fn facts() -> Facts {
    Facts {
        version: "1.2".to_owned(),
        build_id: "abc".to_owned(),
        own_id: Some(76561),
        coop_status: "linked".to_owned(),
        connect: Some(vec![Row::new("lobby", "joined"), Row::new("handshake", "ok")]),
        session: Some(session(2)),
        in_gameplay: true,
        features: Some(vec![
            FeatureHealth { name: "a".to_owned(), disabled: false },
            FeatureHealth { name: "b".to_owned(), disabled: true },
        ]),
        party_size: 2,
        enemy: multiplier("1.50"),
        boss: multiplier("2.00"),
        time_lock: true,
        area_time: Some(AreaTime { hour: 7, minute: 5, target_hour: 12, target_minute: 0 }),
        vitals: VitalsRead::Live(Vitals {
            hp: (100, 200),
            fp: (30, 40),
            stamina: (50, 60),
            gauges: [
                gauge(100, 100, None),
                gauge(60, 100, None),
                gauge(100, 100, Some("3.5")),
                gauge(120, 100, None),
                gauge(0, 0, None),
                gauge(5, 5, None),
                gauge(5, 5, None),
            ],
        }),
    }
}

fn field(report: &DiagnosticReport, section: &str, label: &str) -> String {
    let at: usize = report.find(section).unwrap();
    for row in report.sections[at].fields.iter() {
        if row.label == label {
            return row.value.clone();
        }
    }
    panic!("no field {} in {}", label, section)
}

fn summary(report: &DiagnosticReport, section: &str, label: &str) -> String {
    let at: usize = report.find(section).unwrap();
    for row in report.sections[at].summary.iter() {
        if row.label == label {
            return row.value.clone();
        }
    }
    panic!("no summary {} in {}", label, section)
}

#[test]
fn a_full_report() {
    let report = build_report("t", &facts());
    let titles: Vec<&str> = report.sections.iter().map(|s| s.title.as_str()).collect();
    assert_eq!(
        titles,
        vec![
            "build",
            "steam",
            "coop_connect",
            "session",
            "features",
            "scaling",
            "world_time",
            "vitals",
            "status",
        ]
    );
    assert_eq!(field(&report, "build", "version"), "1.2");
    assert_eq!(field(&report, "steam", "own_id"), "76561");
    assert_eq!(summary(&report, "coop_connect", "connect"), "handshake ok");
    assert_eq!(summary(&report, "session", "session"), "Host, 2/4 players");
    assert_eq!(field(&report, "session", "roam_unrestricted"), "true");
    assert_eq!(field(&report, "features", "b"), "DISABLED (panicked)");
    assert_eq!(summary(&report, "features", "features"), "1/2 ok, DISABLED: b");
    assert_eq!(field(&report, "scaling", "enemy"), "hp x1.50 dmg x1.00 pos x1.20");
    assert_eq!(field(&report, "world_time", "clock"), "07:05");
    assert_eq!(field(&report, "world_time", "engine_target"), "12:00");
    assert_eq!(field(&report, "vitals", "hp"), "100/200");
    assert_eq!(field(&report, "status", "scarlet_rot"), "40/100");
    assert_eq!(field(&report, "status", "hemorrhage"), "0/100 (proc 3.5s)");
    assert_eq!(summary(&report, "status", "ailments"), "scarlet_rot, hemorrhage");
}

#[test]
fn a_report_before_anything_is_there() {
    let mut f = facts();
    f.own_id = None;
    f.connect = None;
    f.session = None;
    f.features = None;
    f.area_time = None;
    f.vitals = VitalsRead::NoManager;
    let report = build_report("t", &f);
    assert_eq!(report.find("coop_connect"), None);
    assert_eq!(report.find("status"), None);
    assert_eq!(field(&report, "steam", "own_id"), "(resolving)");
    assert_eq!(
        field(&report, "session", "status"),
        "no CSSessionManager yet (pre-init / title screen)"
    );
    assert_eq!(summary(&report, "features", "features"), "not registered yet (pre-init)");
    assert_eq!(
        field(&report, "vitals", "status"),
        "no GameDataMan yet (pre-init / title screen)"
    );
    f.vitals = VitalsRead::NotWired;
    f.features = Some(vec![]);
    f.connect = Some(vec![Row::new("failure", "timeout"), Row::new("handshake", "ok")]);
    let report = build_report("t", &f);
    assert_eq!(field(&report, "vitals", "status"), "GameDataMan up, player data not wired yet");
    assert_eq!(summary(&report, "features", "features"), "not registered yet");
    assert_eq!(summary(&report, "coop_connect", "connect"), "failed: timeout");
    assert_eq!(party(&None), 0);
    assert_eq!(party(&Some(session(3))), 3);
}

#[test]
fn a_live_report_is_published_only_while_it_is_wanted() {
    let mut panel = debug_panel::init();
    publish_live(&mut panel, true, &facts(), 7, "60.0");
    assert_eq!(debug_panel::version(&panel), 0);
    debug_panel::set_report_wanted(&mut panel, true);
    publish_live(&mut panel, false, &facts(), 7, "60.0");
    assert_eq!(debug_panel::version(&panel), 0);
    publish_live(&mut panel, true, &facts(), 7, "60.0");
    assert_eq!(debug_panel::version(&panel), 1);
    let report = debug_panel::snapshot(Some(&panel)).unwrap();
    assert_eq!(report.title, "debug");
    assert_eq!(field(&report, "runtime", "frame"), "7");
    assert_eq!(field(&report, "runtime", "fps"), "60.0");
    assert_eq!(dump("x").text, "\nx");
}

#[test]
fn flags_that_flip_are_told() {
    let mut probe = FlagScanProbe::new(100, 3);
    assert!(probe.on_scan(None).is_empty());
    let lines = probe.on_scan(Some(vec![true, false, false]));
    assert_eq!(lines.len(), 1);
    assert_eq!(lines[0].text, "diag-flag-scan: watching 3 flags from 100 (1 on at baseline)");
    assert!(probe.on_scan(Some(vec![true, false, false])).is_empty());
    let lines = probe.on_scan(Some(vec![false, false, true]));
    assert_eq!(lines[0].text, "diag-flag-scan: flag 100 -> off");
    assert_eq!(lines[1].text, "diag-flag-scan: flag 102 -> ON");
    assert_eq!(probe.flag_at(2), 102);
    assert_eq!(FlagScanProbe::new(u32::MAX, 2).flag_at(1), u32::MAX);
}

#[test]
fn a_change_of_the_session_is_logged_once() {
    let mut observer = SessionObserver::new();
    let roster = vec![RosterEntry {
        tag: "P1".to_owned(),
        is_host: true,
        is_local: true,
        character_event_id: 5,
        join_wait: false,
        rebreak_in: false,
    }];
    let lines = observer.observe(&session(2), &roster, &multiplier("1.5"), &multiplier("2.0"), 10);
    assert_eq!(lines.len(), 3);
    assert!(lines.iter().all(|l| l.level == Level::Info));
    assert!(lines[2].text.starts_with("  scaling@2p: enemy(hp×1.5 dmg×1.00 pos×1.20) boss(hp×2.0"));
    assert!(observer
        .observe(&session(2), &roster, &multiplier("1.5"), &multiplier("2.0"), 11)
        .is_empty());
    let lines = observer.observe(&session(1), &roster, &multiplier("1.5"), &multiplier("2.0"), 12);
    assert_eq!(lines[0].level, Level::Warn);
    assert_eq!(lines.len(), 4);
    assert!(observer.idle(false, 1).is_none());
    assert_eq!(
        observer.idle(true, 9).unwrap().text,
        "observer live; no CSSessionManager yet (frame 9)"
    );
    assert_eq!(party_count(0), 1);
    assert_eq!(party_count(4), 4);
}

#[test]
fn names_behind_raw_values() {
    assert_eq!(phantom_tag(0x1234_5678_9abc_def0), "pabcdef");
    assert_eq!(phantom_tag(0x10), "p000001");
    assert_eq!(status_text(2), "2 (Active)");
    assert_eq!(status_text(9), "9 (UNKNOWN)");
    assert_eq!(update_text(4), "4 (Remote)");
    assert_eq!(update_text(5), "5 (UNKNOWN)");
    assert_eq!(camera_type_text(0), "0 (Unk0, normal follow cam)");
    assert_eq!(camera_type_text(7), "7 (DeathCam)");
    assert_eq!(camera_type_text(3), "3");
}

fn detail(block: u32) -> Option<Detail> {
    Some(Detail {
        pos: Pos { x: 1, y: 2, z: 3 },
        pos_text: "1.00, 2.00, 3.00".to_owned(),
        block,
        block_text: format!("m{}", block),
    })
}

fn entry(ptr: u64, status: u8, update_type: u8, block: u32) -> RawEntry {
    RawEntry { ptr: Some(ptr), status, update_type, detail: detail(block) }
}

fn measured(n: usize) -> Vec<Measured> {
    let mut list: Vec<Measured> = Vec::new();
    while list.len() < n {
        list.push(Measured { moved: "0.50".to_owned(), from_self: "4.00".to_owned() });
    }
    list
}

#[test]
fn a_reading_leaves_oneself_and_empty_entries_out() {
    let entries = vec![
        entry(0x100, 2, 0, 1),
        RawEntry { ptr: None, status: 0, update_type: 0, detail: None },
        entry(0x200, 1, 4, 1),
    ];
    let sample = gather(&entries, Some(0x100), detail(1));
    assert_eq!(sample.phantoms.len(), 1);
    assert_eq!(sample.phantoms[0].index, 2);
    assert!(sample.phantoms[0].detail.is_none());
    assert!(sample.exclusion_ok);
    let sample = gather(&entries, None, None);
    assert_eq!(sample.phantoms.len(), 2);
    assert!(!sample.exclusion_ok);
}

#[test]
fn phantoms_come_change_and_go() {
    let mut probe = PresenceProbe::new();
    let lines = probe.on_gap();
    assert_eq!(lines[0].text, WAITING);
    assert!(probe.on_gap().is_empty());
    let one = vec![entry(0x200, 1, 4, 1)];
    let lines = probe.on_frame(gather(&one, Some(1), detail(1)), false, &vec![], "", 5);
    assert_eq!(lines.len(), 2);
    assert!(lines[0].text.starts_with("presence-probe: live @tick 5"));
    assert_eq!(
        lines[1].text,
        "presence-probe: EDGE @tick 5 SPAWNED slot=0 tag=p000020 chr_ins=0x200 status=1 (Initializing) update=4 (Remote)  pos_havok=(not readable; entry not Active)"
    );
    assert!(probe.on_frame(gather(&one, Some(1), detail(1)), false, &vec![], "", 6).is_empty());
    let active = vec![entry(0x200, 2, 4, 1)];
    let lines = probe.on_frame(gather(&active, Some(1), detail(1)), false, &vec![], "", 7);
    assert_eq!(
        lines[0].text,
        "presence-probe: EDGE @tick 7 STATUS 1 (Initializing) -> 2 (Active) slot=0 tag=p000020 chr_ins=0x200 status=2 (Active) update=4 (Remote)  pos_havok=(1.00, 2.00, 3.00) block=m1"
    );
    let retyped = vec![entry(0x200, 2, 0, 1)];
    let lines = probe.on_frame(gather(&retyped, Some(1), detail(1)), false, &vec![], "", 8);
    assert!(lines[0].text.starts_with(
        "presence-probe: EDGE @tick 8 UPDATE-TYPE 4 (Remote) -> 0 (Local) slot=0"
    ));
    let other = vec![entry(0x300, 2, 0, 1)];
    let lines = probe.on_frame(gather(&other, Some(1), detail(1)), false, &vec![], "", 9);
    assert!(lines[0].text.starts_with(
        "presence-probe: EDGE @tick 9 REPLACED (was tag=p000020 chr_ins=0x200) slot=0"
    ));
    let lines = probe.on_frame(gather(&vec![], Some(1), detail(1)), false, &vec![], "", 10);
    assert!(lines[0].text.starts_with("presence-probe: EDGE @tick 10 DESPAWNED slot=0"));
}

#[test]
fn edges_have_a_budget_until_the_next_sample() {
    let mut probe = PresenceProbe::new();
    let mut many: Vec<RawEntry> = Vec::new();
    let mut i: u64 = 1;
    while i <= 10 {
        many.push(entry(i * 0x100, 2, 4, 1));
        i = i + 1;
    }
    let lines = probe.on_frame(gather(&many, Some(1), detail(1)), false, &vec![], "", 1);
    assert_eq!(lines.len(), 1 + 8);
    let lines = probe.on_frame(gather(&vec![], Some(1), detail(1)), false, &vec![], "", 2);
    assert!(lines.is_empty());
    let lines = probe.on_frame(gather(&vec![], Some(1), detail(1)), true, &vec![], "1.00", 3);
    assert_eq!(lines.len(), 1);
    assert!(lines[0].text.contains("12"));
    let lines = probe.on_frame(gather(&many, Some(1), detail(1)), false, &vec![], "", 4);
    assert_eq!(lines.len(), 8);
}

#[test]
fn a_sample_tells_distances_within_one_block() {
    let mut probe = PresenceProbe::new();
    let entries = vec![entry(0x200, 2, 4, 1), entry(0x300, 2, 4, 2)];
    let lines = probe.on_frame(gather(&entries, Some(1), detail(1)), true, &measured(2), "1.00", 1);
    assert_eq!(lines.len(), 1 + 2 + 1 + 2);
    assert!(lines[4].text.ends_with("dist=4.00m moved=n/a (no baseline yet)"));
    assert!(lines[5]
        .text
        .ends_with("dist=n/a (different block: m2 vs self m1) moved=n/a (no baseline yet)"));
    let moved = vec![entry(0x200, 2, 4, 1), entry(0x300, 2, 4, 3)];
    let lines = probe.on_frame(gather(&moved, Some(1), detail(1)), true, &measured(2), "1.00", 2);
    assert!(lines[1].text.ends_with("dist=4.00m moved=0.50m"));
    assert!(lines[2].text.ends_with("moved=n/a (block changed; Havok frames differ)"));
    assert_eq!(probe.baseline(0x300).unwrap().block, 3);
    assert!(probe.baseline(0x999).is_none());
}

#[test]
fn an_empty_roster_is_sampled_rarely() {
    let mut probe = PresenceProbe::new();
    let first = probe.on_frame(gather(&vec![], Some(1), detail(1)), true, &vec![], "1.00", 1);
    assert_eq!(first.len(), 2);
    let mut i: u64 = 0;
    while i < 29 {
        let lines = probe.on_frame(gather(&vec![], Some(1), detail(1)), true, &vec![], "1.00", 2 + i);
        assert!(lines.is_empty());
        i = i + 1;
    }
    let again = probe.on_frame(gather(&vec![], Some(1), detail(1)), true, &vec![], "1.00", 40);
    assert_eq!(again.len(), 1);
}

fn local() -> Option<LocalPlayer> {
    Some(LocalPlayer { addr: 0x100, block: 1, block_text: "m1".to_owned() })
}

#[test]
fn the_first_eligible_phantom_is_the_target() {
    let entries = vec![
        entry(0x100, 2, 4, 1),
        entry(0x200, 1, 4, 1),
        entry(0x300, 2, 0, 1),
        RawEntry { ptr: Some(0x400), status: 2, update_type: 4, detail: None },
        entry(0x500, 2, 4, 1),
        entry(0x600, 2, 4, 1),
    ];
    assert_eq!(choose_target(&local(), &entries), Some(4));
    assert_eq!(choose_target(&None, &entries), None);
}

#[test]
fn the_camera_is_aimed_confirmed_and_released_once() {
    let mut look = LookAtPhantom::new();
    assert_eq!(look.announce().unwrap().text, LOOK_ENABLED);
    assert!(look.announce().is_none());
    let entries = vec![entry(0x500, 2, 4, 1)];
    let camera = Some(CameraRead { camera_type: 7, held: Some(0x500) });
    let aim = AimReading { distance: "3.00".to_owned(), error: Some("2.5".to_owned()) };
    let none = look.tick(&local(), &entries, None, &aim);
    assert_eq!(none.write, CameraWrite::Keep);
    let out = look.tick(&local(), &entries, camera, &aim);
    assert_eq!(out.write, CameraWrite::Aim(0x500));
    assert!(out
        .line
        .unwrap()
        .text
        .starts_with("presence-probe: look-at: aiming at phantom tag=p000050 chr_ins=0x500 block=m1"));
    let mut i: u32 = 0;
    while i < 59 {
        assert!(look.tick(&local(), &entries, camera, &aim).line.is_none());
        i = i + 1;
    }
    let line = look.tick(&local(), &entries, camera, &aim).line.unwrap();
    assert!(line.text.contains(
        "camera_type=7 (DeathCam) target_held=yes cam_to_phantom=3.00m aim_error=2.5deg"
    ));
    assert!(look.tick(&local(), &entries, camera, &aim).line.is_none());
    let mut k: u32 = 0;
    while k < 29 {
        let out = look.tick(&local(), &vec![], camera, &aim);
        assert_eq!(out.write, CameraWrite::Keep);
        k = k + 1;
    }
    let out = look.tick(&local(), &vec![], camera, &aim);
    assert_eq!(out.write, CameraWrite::Release);
    assert_eq!(
        out.line.unwrap().text,
        "presence-probe: look-at: released camera — no Active+Remote phantom for 30 frames"
    );
    assert_eq!(look.tick(&local(), &vec![], camera, &aim).write, CameraWrite::Keep);
}

#[test]
fn a_confirmation_tells_what_the_game_did() {
    let mut look = LookAtPhantom::new();
    look.current = Some(0x500);
    look.since_acquire = 59;
    let entries = vec![entry(0x500, 2, 4, 2)];
    let aim = AimReading { distance: "3.00".to_owned(), error: None };
    let cleared = Some(CameraRead { camera_type: 0, held: None });
    let line = look.tick(&local(), &entries, cleared, &aim).line.unwrap();
    assert!(line.text.contains(
        "camera_type=0 (Unk0, normal follow cam) target_held=no (game cleared it) cam_to_phantom=n/a (phantom block m2 != local block m1)"
    ));
    let mut look = LookAtPhantom::new();
    look.current = Some(0x500);
    look.since_acquire = 59;
    let entries = vec![entry(0x500, 2, 4, 1)];
    let other = Some(CameraRead { camera_type: 3, held: Some(0x700) });
    let line = look.tick(&local(), &entries, other, &aim).line.unwrap();
    assert!(line.text.contains(
        "target_held=no (game holds 0x700) cam_to_phantom=3.00m aim_error=n/a (degenerate vector)"
    ));
}
