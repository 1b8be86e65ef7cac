use unseamless_coop::actionq;
use unseamless_coop::actionq::SessionAction;
use unseamless_coop::features::announce_held;
use unseamless_coop::features::auto_session;
use unseamless_coop::features::auto_session::{AutoSession, AutoStep, SteamStatus, JOINING, OPENING};
use unseamless_coop::features::boot_volume::{BootVolume, CLOSED};
use unseamless_coop::features::crit_coop::{CritCoop, CritTarget};
use unseamless_coop::features::nameplates::{
    gather_labels, peer_list, placeholder_names, publish_frame, Candidate, Nameplates, Projection,
};
use unseamless_coop::features::native_nameplates::{
    active_characters, gather, ChrEntry, Marker, NativeNameplates, OwnChr,
};
use unseamless_coop::features::native_toasts;
use unseamless_coop::features::native_toasts::{NativeToasts, NoticePlan};
use unseamless_coop::features::notifications::NotificationsTick;
use unseamless_coop::features::playstate::PlayStateProbe;
use unseamless_coop::features::rig_guide;
use unseamless_coop::features::rig_guide::{
    after_tick, chords, new_lines, ChoiceMade, ChoiceView, GuideChoice, GuideInfo, GuideTick,
    RigView, COMPLETE, DONE_TOAST,
};
use unseamless_coop::features::seamless::SeamlessRoam;
use unseamless_coop::features::session_actions::{Route, SessionActionsTick};
use unseamless_coop::features::session_limit::SessionLimit;
use unseamless_coop::features::summons::Summons;
use unseamless_coop::features::world_time::WorldTimeLock;
use unseamless_coop::guide_log;
use unseamless_coop::levels::Level;
use unseamless_coop::nameplates;
use unseamless_coop::nameplates::NameplateKind;
use unseamless_coop::notify;
use unseamless_coop::notify::Severity;
use unseamless_coop::playstate;
use unseamless_coop::playstate::GameState;
use unseamless_coop::util::Applied;

#[test]
fn a_baseline_is_logged_and_a_change_is_shown() {
    let first = announce_held(Applied::First, "info".to_owned(), "toast".to_owned());
    assert!(first.line.is_some() && first.toast.is_none());
    let again = announce_held(Applied::Reasserted, "info".to_owned(), "toast".to_owned());
    assert!(again.line.is_none() && again.toast.is_none());
    let changed = announce_held(Applied::Changed, "info".to_owned(), "toast".to_owned());
    assert_eq!(changed.line.unwrap().text, "info");
    assert_eq!(changed.toast.unwrap().message, "toast");
}

#[test]
fn a_session_is_started_once_when_everything_is_up() {
    assert!(auto_session::feature(AutoSession::Off).is_none());
    let mut host = auto_session::feature(AutoSession::Host).unwrap();
    assert!(matches!(host.on_frame(SteamStatus::Connecting, true, false), AutoStep::Nothing));
    assert!(matches!(host.on_frame(SteamStatus::Ready, false, false), AutoStep::Nothing));
    assert!(matches!(
        host.on_frame(SteamStatus::Ready, true, false),
        AutoStep::Host(l) if l.text == OPENING
    ));
    assert!(matches!(host.on_frame(SteamStatus::Ready, true, false), AutoStep::Nothing));
    let mut join = auto_session::feature(AutoSession::Join).unwrap();
    assert!(matches!(join.on_frame(SteamStatus::Failed, true, false), AutoStep::Nothing));
    assert!(matches!(
        join.on_frame(SteamStatus::Ready, true, false),
        AutoStep::Join(l) if l.text == JOINING
    ));
}

#[test]
fn a_session_that_is_up_already_settles_the_matter() {
    let mut join = auto_session::feature(AutoSession::Join).unwrap();
    assert!(matches!(join.on_frame(SteamStatus::Ready, true, true), AutoStep::Nothing));
    assert!(matches!(join.on_frame(SteamStatus::Ready, true, false), AutoStep::Nothing));
}

#[test]
fn the_boot_volume_is_held_and_then_left_alone() {
    let mut feature = BootVolume::new();
    assert_eq!(feature.volume(None), None);
    assert_eq!(feature.volume(Some(3)), Some(3));
    assert!(feature.wrote(3, 10, None, false).is_empty());
    let lines = feature.wrote(3, 10, Some(7), false);
    assert_eq!(
        lines[0].text,
        "boot master volume set to 3/10 (was 7); re-asserting across main-menu entry"
    );
    assert_eq!(feature.volume(Some(9)), Some(3));
    let lines = feature.wrote(3, 10, Some(8), false);
    assert_eq!(lines.len(), 1);
    assert_eq!(
        lines[0].text,
        "boot volume: options-load clobbered master_volume to 8; re-asserted 3"
    );
    assert!(feature.wrote(3, 10, Some(8), false).is_empty());
    let lines = feature.wrote(3, 10, Some(3), true);
    assert_eq!(lines[0].text, CLOSED);
    assert_eq!(feature.volume(Some(3)), None);
}

#[test]
fn crit_invulnerability_is_cleared_on_the_loaded() {
    let chars = vec![
        CritTarget { active: true, invincible: true, character_id: 10 },
        CritTarget { active: false, invincible: true, character_id: 11 },
        CritTarget { active: true, invincible: false, character_id: 12 },
        CritTarget { active: true, invincible: true, character_id: 13 },
    ];
    let mut feature = CritCoop::new();
    let step = feature.on_frame(true, None);
    assert_eq!(step.lines[0].text, "crit co-op enabled");
    assert!(step.clear.is_empty());
    let step = feature.on_frame(true, Some(&chars));
    assert_eq!(step.clear, vec![0, 3]);
    assert_eq!(step.lines[0].text, "crit co-op: cleared crit-invuln on cid=10 (total 1)");
    assert_eq!(step.lines[1].text, "crit co-op: cleared crit-invuln on cid=13 (total 2)");
    let step = feature.on_frame(false, Some(&chars));
    assert!(step.clear.is_empty());
    assert_eq!(step.lines[0].text, "crit co-op disabled");
    feature.clears = 498;
    let step = feature.on_frame(true, Some(&chars));
    assert_eq!(step.lines.len(), 2);
    assert_eq!(step.lines[1].text, "crit co-op: cleared crit-invuln on cid=13 (total 500)");
}

#[test]
fn roaming_is_written_where_it_differs() {
    let mut feature = SeamlessRoam::new();
    assert_eq!(feature.on_frame(true, None).write, None);
    assert_eq!(feature.on_frame(true, Some(true)).write, None);
    let step = feature.on_frame(true, Some(false));
    assert_eq!(step.write, Some(true));
    assert_eq!(
        step.said.line.unwrap().text,
        "seamless roam set to true (disable_multiplay_restriction)"
    );
    assert!(step.said.toast.is_none());
    let step = feature.on_frame(true, Some(false));
    let line = step.said.line.unwrap();
    assert_eq!(line.level, Level::Debug);
    assert_eq!(line.text, "re-applied roam_anywhere = true");
    let step = feature.on_frame(false, Some(true));
    assert_eq!(step.said.toast.unwrap().message, "Roaming disabled (vanilla area tether)");
}

#[test]
fn actions_are_routed_in_order() {
    let mut queue = actionq::init();
    let all = [
        (SessionAction::OpenWorld, Route::Host, "OpenWorld"),
        (SessionAction::JoinWorld, Route::Join, "JoinWorld"),
        (SessionAction::LeaveWorld, Route::Leave, "LeaveWorld"),
        (SessionAction::LockWorld, Route::NotWired, "LockWorld"),
        (SessionAction::UnlockWorld, Route::NotWired, "UnlockWorld"),
        (SessionAction::TogglePvp, Route::NotWired, "TogglePvp"),
        (SessionAction::TogglePvpTeams, Route::NotWired, "TogglePvpTeams"),
        (SessionAction::ToggleFriendlyFire, Route::NotWired, "ToggleFriendlyFire"),
    ];
    for (action, _, _) in all {
        assert!(actionq::try_offer(Some(&mut queue), action));
    }
    let tick = SessionActionsTick::new();
    let routed = tick.on_frame(Some(&mut queue));
    assert_eq!(routed.len(), 8);
    for (r, (action, route, name)) in routed.iter().zip(all) {
        assert_eq!(r.action, action);
        assert_eq!(r.route, route);
        assert_eq!(r.line.text, format!("menu requested session action {}", name));
    }
    assert!(tick.on_frame(Some(&mut queue)).is_empty());
    assert_eq!(tick.not_wired("Lock world").message, "Lock world (not wired up yet)");
}

#[test]
fn the_player_limit_is_held_within_bounds() {
    let mut feature = SessionLimit::new();
    assert_eq!(feature.on_frame(6, 2, 6, None).write, None);
    assert_eq!(feature.on_frame(4, 2, 6, Some(4)).write, None);
    let step = feature.on_frame(99, 2, 6, Some(4));
    assert_eq!(step.write, Some(6));
    let line = step.line.unwrap();
    assert_eq!(line.level, Level::Info);
    assert_eq!(line.text, "session player limit override set to 6");
    let line = feature.on_frame(99, 2, 6, Some(4)).line.unwrap();
    assert_eq!(line.level, Level::Debug);
    assert_eq!(line.text, "re-applied session player limit override = 6");
    assert_eq!(feature.on_frame(0, 2, 6, Some(4)).write, Some(2));
}

#[test]
fn the_summons_switch_is_logged_once() {
    let mut feature = Summons::new();
    assert_eq!(
        feature.on_frame(true).unwrap().text,
        "summons enabled (apply RE-pending — see features::summons docs)"
    );
    assert!(feature.on_frame(true).is_none());
    assert!(feature.on_frame(false).is_some());
}

#[test]
fn the_time_of_day_is_held() {
    let mut feature = WorldTimeLock::new();
    assert_eq!(feature.target(false, 12, 0), None);
    assert_eq!(feature.target(true, 99, 99), Some((23, 59)));
    assert_eq!(feature.target(true, 7, 5), Some((7, 5)));
    let said = feature.held((7, 5), false);
    assert!(said.line.is_none() && said.toast.is_none());
    let said = feature.held((7, 5), true);
    assert_eq!(said.line.unwrap().text, "world time locked to 07:05");
    assert!(said.toast.is_none());
    assert!(feature.held((7, 5), true).line.is_none());
    let said = feature.held((8, 0), true);
    assert_eq!(said.toast.unwrap().message, "Time of day locked to 08:00");
}

#[test]
fn notices_age_by_the_frame() {
    let mut board = notify::init();
    notify::toast(Some(&mut board), Severity::Info, "x", 30);
    let tick = NotificationsTick::new();
    tick.on_frame(Some(&mut board), 16);
    assert_eq!(board.toasts()[0].remaining, 14);
    tick.on_frame(Some(&mut board), 16);
    assert!(board.is_empty());
    tick.on_frame(None, 16);
}

#[test]
fn the_play_state_is_published() {
    let probe = PlayStateProbe::new();
    let mut play = playstate::init();
    probe.on_frame(&mut play, true, None);
    assert_eq!(playstate::current(play), GameState::Frontend);
    probe.on_frame(&mut play, true, Some(true));
    assert_eq!(playstate::current(play), GameState::InGame);
    probe.on_frame(&mut play, false, Some(false));
    assert_eq!(playstate::current(play), GameState::Booting);
}

#[test]
fn what_there_is_to_draw_of_the_notices() {
    let mut board = notify::init();
    assert!(native_toasts::plan(Some(&board)).is_none());
    assert!(native_toasts::plan(None).is_none());
    notify::set_banner(Some(&mut board), "a", Severity::Info, "b");
    assert_eq!(
        native_toasts::plan(Some(&board)),
        Some(NoticePlan { toasts: false, banners: true })
    );
    let mut feature = NativeToasts::new();
    assert_eq!(feature.on_switch(true).unwrap().text, "native toasts enabled");
    assert!(feature.on_switch(true).is_none());
}

#[test]
fn only_loaded_characters_are_marked_and_oneself_once() {
    let entries = vec![
        ChrEntry { active: true, address: Some(1) },
        ChrEntry { active: false, address: Some(2) },
        ChrEntry { active: true, address: None },
        ChrEntry { active: true, address: Some(3) },
    ];
    let chars = active_characters(&entries);
    assert_eq!(chars, vec![1, 3]);
    let own = OwnChr { address: 1, active: true };
    assert_eq!(gather(Some(own), &chars), vec![Marker::Own, Marker::Peer(3)]);
    let joining = OwnChr { address: 1, active: false };
    assert_eq!(gather(Some(joining), &chars), vec![Marker::Peer(3)]);
    assert_eq!(gather(None, &chars), vec![Marker::Peer(1), Marker::Peer(3)]);
    let mut feature = NativeNameplates::new();
    assert_eq!(feature.on_switch(false).unwrap().text, "native nameplates disabled");
    assert!(feature.on_switch(false).is_none());
}

fn candidate(in_range: bool, on_screen: bool, text: Option<&str>) -> Candidate {
    Candidate {
        projection: Projection {
            in_range,
            on_screen,
            point: (1, 2),
            depth: 3,
            edge: (4, 5),
            distance: 6,
        },
        color: (7, 8, 9),
        text: text.map(|t| t.to_owned()),
    }
}

#[test]
fn who_gets_which_label() {
    let list = vec![
        candidate(true, true, Some("near")),
        candidate(false, true, Some("far")),
        candidate(true, false, Some("behind")),
        candidate(true, true, None),
    ];
    let labels = gather_labels(&list, Some(&candidate(true, true, Some("me"))));
    assert_eq!(labels.len(), 3);
    assert_eq!(labels[0].text, "near");
    assert_eq!(labels[0].kind, NameplateKind::Plate);
    assert_eq!(labels[0].ndc, (1, 2));
    assert_eq!(labels[1].kind, NameplateKind::Edge);
    assert_eq!(labels[1].ndc, (4, 5));
    assert_eq!(labels[1].depth, 6);
    assert_eq!(labels[2].text, "me");
    assert_eq!(gather_labels(&list, None).len(), 2);
    assert_eq!(peer_list(&vec![1, 2, 3], Some(2)), vec![1, 3]);
    assert_eq!(placeholder_names(2), vec!["Player 1".to_owned(), "Player 2".to_owned()]);
}

#[test]
fn switching_nameplates_off_takes_them_down() {
    let mut cell = nameplates::init();
    let mut feature = Nameplates::new();
    assert_eq!(
        feature.on_switch(true, false, Some(&mut cell)).unwrap().text,
        "nameplates enabled"
    );
    publish_frame(Some(&mut cell), Some(gather_labels(&vec![candidate(true, true, Some("x"))], None)));
    assert_eq!(nameplates::snapshot(Some(&cell)).unwrap().len(), 1);
    assert!(feature.on_switch(true, false, Some(&mut cell)).is_none());
    assert_eq!(nameplates::snapshot(Some(&cell)).unwrap().len(), 1);
    assert_eq!(
        feature.on_switch(true, true, Some(&mut cell)).unwrap().text,
        "nameplates disabled"
    );
    assert!(nameplates::snapshot(Some(&cell)).unwrap().is_empty());
}

#[test]
fn chords_need_both_buttons() {
    assert!(chords(0x0041).done);
    assert!(!chords(0x0041).skip);
    assert!(!chords(0x0040).done);
    assert!(!chords(0x0001).done);
    assert!(chords(0x1042).skip);
}

#[test]
fn the_configured_guide_is_looked_up_without_blanks() {
    assert!(matches!(rig_guide::feature("  ", None, "host", "a, b"), GuideChoice::Off));
    assert!(matches!(
        rig_guide::feature(" x ", None, "host", "a, b"),
        GuideChoice::Unknown(l)
            if l.text == "rig-guide: no guide named 'x' (available: a, b); guide off"
    ));
    let info = GuideInfo { name: "a".to_owned(), steps: 3 };
    assert!(matches!(
        rig_guide::feature("a", Some(&info), "host", "a, b"),
        GuideChoice::Run(l)
            if l.text == "rig-guide: running 'a' as role host (3 steps); done = L3 + Up, skip = L3 + Down"
    ));
}

#[test]
fn lines_are_recorded_while_a_step_is_shown() {
    let mut tee: bool = false;
    let mut queue = guide_log::init();
    let tick = GuideTick {
        banner: Some("walk".to_owned()),
        choice: None,
        color: (1, 2, 3),
        finished_now: false,
        choice_made: None,
    };
    let step = after_tick(tick, &mut tee, Some(&mut queue));
    assert!(tee);
    assert!(step.lines.is_empty() && step.toast.is_none());
    assert!(matches!(step.view, Some(RigView::Banner(b)) if b.text == "walk" && b.color == (1, 2, 3)));
    guide_log::push(Some(&mut queue), "seen");
    assert_eq!(new_lines(Some(&mut queue)), vec!["seen".to_owned()]);
    guide_log::push(Some(&mut queue), "late");
    let tick = GuideTick {
        banner: None,
        choice: None,
        color: (0, 0, 0),
        finished_now: true,
        choice_made: Some(ChoiceMade {
            step_id: "s".to_owned(),
            label: "good".to_owned(),
            note: "odd".to_owned(),
        }),
    };
    let step = after_tick(tick, &mut tee, Some(&mut queue));
    assert!(!tee);
    assert_eq!(step.lines[0].text, "rig-guide: 's' -> 'good' note = \"odd\"");
    assert_eq!(step.lines[1].text, COMPLETE);
    assert_eq!(step.toast.unwrap().message, DONE_TOAST);
    assert!(step.view.is_none());
    assert!(new_lines(Some(&mut queue)).is_empty());
}

#[test]
fn a_question_comes_before_an_instruction() {
    let mut tee: bool = false;
    let tick = GuideTick {
        banner: Some("walk".to_owned()),
        choice: Some(ChoiceView {
            step_id: "q".to_owned(),
            prompt: "?".to_owned(),
            options: vec![],
            selected: 0,
            note_enabled: false,
            skip_hint: "x".to_owned(),
            color: (0, 0, 0),
        }),
        color: (0, 0, 0),
        finished_now: false,
        choice_made: Some(ChoiceMade {
            step_id: "s".to_owned(),
            label: "bad".to_owned(),
            note: "".to_owned(),
        }),
    };
    let step = after_tick(tick, &mut tee, None);
    assert!(tee);
    assert_eq!(step.lines[0].text, "rig-guide: 's' -> 'bad'");
    assert!(matches!(step.view, Some(RigView::Choice(c)) if c.step_id == "q"));
}
