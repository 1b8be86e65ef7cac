use unseamless_coop::app::{
    build_features, disable_feature, feature_disabled, feature_status, frames_so_far, input_hooked, install,
    note_toast, own_dir_line, register_features, startup_guard, tick, wait_for_task_system,
    FeatureId, FeaturePlan, Installed, Registry, TaskPhase, TaskWait, INPUT_BANNER, INPUT_HOOKED,
    TWICE,
};
use unseamless_coop::diag::{probe_features, ProbeKind};
use unseamless_coop::features::auto_session::AutoSession;
use unseamless_coop::features::rig_guide::{RigBanner, RigView};
use unseamless_coop::hook::HookError;
use unseamless_coop::levels::Level;
use unseamless_coop::nameplates;
use unseamless_coop::nameplates::{NameplateKind, NameplateLabel};
use unseamless_coop::notify;
use unseamless_coop::notify::Severity;

fn two_features() -> Vec<FeatureId> {
    vec![
        FeatureId { name: "one".to_owned(), phase: TaskPhase::FrameBegin },
        FeatureId { name: "two".to_owned(), phase: TaskPhase::ChrInsPostPhysics },
    ]
}

#[test]
fn the_features_in_the_order_they_run() {
    let plan = FeaturePlan {
        snapshot_secs: 0,
        scan_start: 0,
        scan_count: 0,
        session_probes: vec![],
        guide: false,
        auto_session: AutoSession::Off,
    };
    let names: Vec<String> = build_features(plan).into_iter().map(|f| f.name).collect();
    assert_eq!(
        names,
        vec![
            "notifications",
            "session-limit",
            "seamless-roam",
            "session-observer",
            "session-actions",
            "playstate-probe",
            "death-debuffs",
            "crit-coop",
            "nameplates",
            "native_nameplates",
            "native_toasts",
            "world-time-lock",
            "scaling",
            "boot-volume",
            "debug-panel",
        ]
    );
    let plan = FeaturePlan {
        snapshot_secs: 30,
        scan_start: 100,
        scan_count: 8,
        session_probes: vec![FeatureId { name: "probe".to_owned(), phase: TaskPhase::FrameBegin }],
        guide: true,
        auto_session: AutoSession::Join,
    };
    let names: Vec<String> = build_features(plan).into_iter().map(|f| f.name).collect();
    assert_eq!(names.len(), 20);
    assert_eq!(names[0], "notifications");
    assert_eq!(
        names[15..].to_vec(),
        vec!["diag-snapshot", "diag-flag-scan", "probe", "rig-guide", "auto-session"]
    );
}

#[test]
fn probes_only_run_where_they_were_asked_for() {
    assert!(probe_features(0, 5, 0).is_empty());
    let probes = probe_features(10, 0, 0);
    assert_eq!(probes.len(), 1);
    assert!(matches!(probes[0], ProbeKind::Snapshot { secs: 10 }));
}

#[test]
fn features_are_registered_once() {
    let mut registry = Registry::new();
    assert!(feature_disabled(&registry, 0));
    assert!(feature_status(&registry).is_none());
    let lines = register_features(&mut registry, &two_features()).unwrap();
    assert_eq!(lines[0].text, "registered feature 'one' in FrameBegin");
    assert_eq!(lines[1].text, "registered feature 'two' in ChrIns_PostPhysics");
    assert!(!feature_disabled(&registry, 1));
    assert!(feature_disabled(&registry, 2));
    let line = register_features(&mut registry, &two_features()).unwrap_err();
    assert_eq!(line.text, TWICE);
    assert_eq!(line.level, Level::Error);
}

#[test]
fn a_failed_feature_never_runs_again_and_the_others_go_on() {
    let mut registry = Registry::new();
    let _ = register_features(&mut registry, &two_features());
    assert_eq!(frames_so_far(&registry, 0), Some(0));
    assert_eq!(tick(&mut registry, 0), Some(1));
    assert_eq!(tick(&mut registry, 0), Some(2));
    assert_eq!(frames_so_far(&registry, 0), Some(2));
    assert_eq!(frames_so_far(&registry, usize::MAX), None);
    let mut labels = nameplates::init();
    let label = NameplateLabel {
        ndc: (0, 0),
        depth: 0,
        color: (0, 0, 0),
        kind: NameplateKind::Edge,
        text: "x".to_owned(),
    };
    nameplates::publish(Some(&mut labels), vec![label]);
    let mut guide = Some(RigView::Banner(RigBanner { text: "y".to_owned(), color: (0, 0, 0) }));
    let out = disable_feature(&mut registry, &mut labels, &mut guide, 0).unwrap();
    assert_eq!(
        out.line.text,
        "feature 'one' (index 0) panicked; disabled for the rest of the session"
    );
    assert_eq!(
        out.toast.message,
        "A feature was disabled after an error; the game will continue. (one)"
    );
    assert_eq!(out.toast.severity, Severity::Warning);
    assert!(guide.is_none());
    assert!(nameplates::snapshot(Some(&labels)).unwrap().is_empty());
    assert_eq!(tick(&mut registry, 0), None);
    assert_eq!(tick(&mut registry, 1), Some(1));
    assert_eq!(
        feature_status(&registry).unwrap(),
        vec![("one".to_owned(), true), ("two".to_owned(), false)]
    );
    assert!(disable_feature(&mut registry, &mut labels, &mut guide, 9).is_none());
}

#[test]
fn what_an_installation_comes_to() {
    let mut registry = Registry::new();
    assert!(matches!(
        install(&mut registry, false, &two_features(), true),
        Installed::Fatal(m) if m.starts_with("unseamless-coop couldn't initialize")
    ));
    assert!(matches!(
        install(&mut registry, true, &two_features(), false),
        Installed::Up { lines, overlay: false } if lines.len() == 2
    ));
    assert!(matches!(
        install(&mut registry, true, &two_features(), true),
        Installed::Twice(l) if l.text == TWICE
    ));
}

#[test]
fn the_guards_at_start_up() {
    assert!(startup_guard(None, true, 4).is_none());
    let fatal = startup_guard(Some("no room"), false, 4).unwrap();
    assert_eq!(fatal.line.text, "co-op saves: no room");
    assert!(fatal.message.starts_with("unseamless-coop couldn't protect your save file (no room)."));
    let fatal = startup_guard(None, false, 4).unwrap();
    assert_eq!(fatal.line.text, "co-op password too short; aborting");
    assert!(fatal.message.contains("at least 4 characters"));
}

#[test]
fn notes_the_player_can_act_on_are_shown() {
    assert_eq!(note_toast(Level::Error, "e").unwrap().severity, Severity::Error);
    assert_eq!(note_toast(Level::Warn, "w").unwrap().severity, Severity::Warning);
    assert!(note_toast(Level::Info, "i").is_none());
    assert!(own_dir_line(true).is_none());
    assert_eq!(own_dir_line(false).unwrap().level, Level::Warn);
}

#[test]
fn the_task_system_is_waited_for() {
    let mut announced: bool = false;
    assert!(matches!(wait_for_task_system(None, &mut announced, 0, 10), TaskWait::Ready));
    match wait_for_task_system(Some("null"), &mut announced, 0, 10) {
        TaskWait::Again(Some(line)) => assert_eq!(
            line.text,
            "task system not ready yet (null); retrying until the game finishes init"
        ),
        _ => panic!("no line"),
    }
    assert!(matches!(
        wait_for_task_system(Some("null"), &mut announced, 9, 10),
        TaskWait::Again(None)
    ));
    assert!(matches!(
        wait_for_task_system(Some("null"), &mut announced, 10, 10),
        TaskWait::GiveUp(l) if l.text == "CSTaskImp unavailable after 120s: null"
    ));
}

#[test]
fn a_failed_input_hook_is_told_to_the_player() {
    let mut board = notify::init();
    assert_eq!(input_hooked(&Ok(()), &mut board).text, INPUT_HOOKED);
    assert!(board.is_empty());
    let line = input_hooked(&Err(HookError::Win32("denied".to_owned())), &mut board);
    assert_eq!(
        line.text,
        "input: hook install failed (denied); game input won't be suppressed while the overlay is open"
    );
    assert_eq!(board.banners()[0].id, INPUT_BANNER);
    assert_eq!(board.banners()[0].severity, Severity::Warning);
}
