use std::collections::VecDeque;

use unseamless_coop::actionq;
use unseamless_coop::actionq::SessionAction;
use unseamless_coop::debug_panel;
use unseamless_coop::forward;
use unseamless_coop::forward::{forward_logger, ForwardGuard, ForwardState};
use unseamless_coop::guide_log;
use unseamless_coop::guide_log::guide_logger;
use unseamless_coop::levels::{Level, LevelFilter};
use unseamless_coop::logbuf;
use unseamless_coop::logbuf::{newest_first, ring_logger, short_time, tail_text};
use unseamless_coop::nameplates;
use unseamless_coop::nameplates::{NameplateKind, NameplateLabel};
use unseamless_coop::notify;
use unseamless_coop::notify::Severity;
use unseamless_coop::playstate;
use unseamless_coop::playstate::{GameSignals, GameState};
use unseamless_coop::report::{DiagnosticReport, Section};
use unseamless_coop::util::{classify_flag, classify_pair, drain_all, push_capped, Applied};

#[test]
fn a_capped_queue_keeps_the_newest_in_order() {
    let mut q: VecDeque<u32> = VecDeque::new();
    let mut i: u32 = 0;
    while i < 7 {
        push_capped(&mut q, i, 3);
        i = i + 1;
    }
    assert_eq!(drain_all(&mut q), vec![4, 5, 6]);
    assert!(q.is_empty());
}

#[test]
fn a_queue_over_its_cap_shrinks_to_it() {
    let mut q: VecDeque<u32> = VecDeque::from(vec![1, 2, 3, 4, 5]);
    push_capped(&mut q, 6, 2);
    assert_eq!(drain_all(&mut q), vec![5, 6]);
}

#[test]
fn a_held_value_is_first_then_reasserted_then_changed() {
    let mut last: Option<bool> = None;
    assert_eq!(classify_flag(&mut last, true), Applied::First);
    assert_eq!(classify_flag(&mut last, true), Applied::Reasserted);
    assert_eq!(classify_flag(&mut last, false), Applied::Changed);
    assert_eq!(last, Some(false));
    let mut pair: Option<(u32, u32)> = None;
    assert_eq!(classify_pair(&mut pair, (4, 4)), Applied::First);
    assert_eq!(classify_pair(&mut pair, (4, 4)), Applied::Reasserted);
    assert_eq!(classify_pair(&mut pair, (4, 6)), Applied::Changed);
    assert_eq!(pair, Some((4, 6)));
}

#[test]
fn actions_come_out_in_the_order_they_were_offered() {
    let mut queue = actionq::init();
    assert!(actionq::try_offer(Some(&mut queue), SessionAction::OpenWorld));
    assert!(actionq::try_offer(Some(&mut queue), SessionAction::TogglePvp));
    assert_eq!(
        actionq::drain(Some(&mut queue)),
        vec![SessionAction::OpenWorld, SessionAction::TogglePvp]
    );
    assert!(actionq::drain(Some(&mut queue)).is_empty());
}

#[test]
fn setting_the_action_queue_up_again_keeps_what_waits() {
    let mut cell = None;
    actionq::init_once(&mut cell);
    assert!(actionq::try_offer(cell.as_mut(), SessionAction::OpenWorld));
    actionq::init_once(&mut cell);
    assert_eq!(actionq::drain(cell.as_mut()), vec![SessionAction::OpenWorld]);
}

#[test]
fn setting_the_ring_up_again_keeps_its_lines() {
    let mut cell = None;
    logbuf::init_once(&mut cell);
    assert_eq!(tail_text(cell.as_ref()), "");
    logbuf::push(cell.as_mut(), Level::Info, "x", 1);
    logbuf::init_once(&mut cell);
    assert_eq!(tail_text(cell.as_ref()), "00:00:01 x");
}

#[test]
fn the_guide_tee_starts_off_and_empties_when_it_is_turned_off() {
    let logger = guide_log::guide_logger(LevelFilter::Info);
    let mut queue = guide_log::init();
    let mut on = guide_log::off_at_first();
    assert!(!on);
    logger.log(on, Some(&mut queue), Level::Error, "before");
    assert!(guide_log::drain(Some(&mut queue)).is_empty());
    guide_log::set_enabled(&mut on, Some(&mut queue), true);
    logger.log(on, Some(&mut queue), Level::Info, "seen");
    logger.log(on, Some(&mut queue), Level::Debug, "too fine");
    guide_log::set_enabled(&mut on, Some(&mut queue), true);
    assert_eq!(guide_log::drain(Some(&mut queue)), vec!["seen"]);
    logger.log(on, Some(&mut queue), Level::Info, "late");
    guide_log::set_enabled(&mut on, Some(&mut queue), false);
    logger.log(on, Some(&mut queue), Level::Info, "after");
    assert!(guide_log::drain(Some(&mut queue)).is_empty());
}

#[test]
fn an_action_without_a_queue_is_handed_back() {
    assert!(!actionq::try_offer(None, SessionAction::JoinWorld));
    assert!(actionq::drain(None).is_empty());
}

#[test]
fn the_action_queue_drops_the_oldest_at_its_cap() {
    let mut queue = actionq::init();
    assert!(actionq::try_offer(Some(&mut queue), SessionAction::LeaveWorld));
    let mut i: usize = 0;
    while i < actionq::CAP {
        assert!(actionq::try_offer(Some(&mut queue), SessionAction::LockWorld));
        i = i + 1;
    }
    let actions = actionq::drain(Some(&mut queue));
    assert_eq!(actions.len(), 64);
    assert_eq!(actions[0], SessionAction::LockWorld);
}

#[test]
fn toasts_age_and_leave() {
    let mut board = notify::init();
    assert!(board.is_empty());
    notify::toast(Some(&mut board), Severity::Info, "short", 100);
    notify::toast(Some(&mut board), Severity::Error, "long", 250);
    board.tick(100);
    assert_eq!(board.toasts().len(), 1);
    assert_eq!(board.toasts()[0].toast.message, "long");
    assert_eq!(board.toasts()[0].remaining, 150);
    assert_eq!(board.toasts()[0].duration, 250);
    board.tick(149);
    assert!(!board.is_empty());
    board.tick(1);
    assert!(board.is_empty());
}

#[test]
fn a_banner_keeps_its_place_when_it_is_set_again() {
    let mut board = notify::init();
    notify::set_banner(Some(&mut board), "a", Severity::Info, "one");
    notify::set_banner(Some(&mut board), "b", Severity::Info, "two");
    notify::set_banner(Some(&mut board), "a", Severity::Error, "three");
    assert_eq!(board.banners().len(), 2);
    assert_eq!(board.banners()[0].id, "a");
    assert_eq!(board.banners()[0].message, "three");
    assert_eq!(board.banners()[0].severity, Severity::Error);
    board.tick(u64::MAX);
    assert_eq!(board.banners().len(), 2);
    notify::clear_banner(Some(&mut board), "a");
    notify::clear_banner(Some(&mut board), "missing");
    assert_eq!(board.banners().len(), 1);
    assert_eq!(board.banners()[0].id, "b");
}

#[test]
fn the_time_of_day_is_fixed_width_and_wraps_at_midnight() {
    assert_eq!(short_time(0), "00:00:00");
    assert_eq!(short_time(86_399), "23:59:59");
    assert_eq!(short_time(86_400), "00:00:00");
    assert_eq!(short_time(2 * 86_400 + 3 * 3600 + 4 * 60 + 5), "03:04:05");
}

#[test]
fn the_ring_captures_up_to_its_level() {
    let mut buffer = logbuf::init();
    let logger = ring_logger(LevelFilter::Info);
    logger.log(Some(&mut buffer), Level::Warn, "kept", 61);
    logger.log(Some(&mut buffer), Level::Debug, "dropped", 62);
    logger.log(Some(&mut buffer), Level::Info, "kept too", 63);
    assert_eq!(tail_text(Some(&buffer)), "00:01:01 kept\n00:01:03 kept too");
    let lines = newest_first(Some(&buffer)).unwrap();
    assert_eq!(lines.len(), 2);
    assert_eq!(lines[0].text, "00:01:03 kept too");
    assert_eq!(lines[1].level, Level::Warn);
    assert!(logger.enabled(Level::Error));
    assert!(!logger.enabled(Level::Trace));
}

#[test]
fn the_ring_holds_its_cap() {
    let mut buffer = logbuf::init();
    let mut i: u64 = 0;
    while i < 401 {
        logbuf::push(Some(&mut buffer), Level::Info, "x", i);
        i = i + 1;
    }
    assert_eq!(logbuf::try_read(Some(&buffer), |lines| lines.len()), Some(400));
    assert_eq!(buffer.lines[0].text, "00:00:01 x");
}

#[test]
fn a_buffer_that_is_busy_reads_as_nothing() {
    assert_eq!(tail_text(None), "");
    assert!(newest_first(None).is_none());
    assert_eq!(logbuf::try_read(None, |lines| lines.len()), None);
}

#[test]
fn forwarding_is_off_until_it_is_turned_on() {
    let mut state = ForwardState { enabled: false, in_forward: false };
    let mut queue = forward::init();
    let logger = forward_logger(LevelFilter::Debug);
    logger.log(state, Some(&mut queue), Level::Info, "unseamless_coop::app", "early");
    forward::set_enabled(&mut state, true);
    logger.log(state, Some(&mut queue), Level::Info, "unseamless_coop::app", "seen");
    logger.log(state, Some(&mut queue), Level::Trace, "unseamless_coop::app", "too fine");
    logger.log(state, Some(&mut queue), Level::Info, "unseamless_coop::coop::link", "chatter");
    logger.log(state, Some(&mut queue), Level::Info, "unseamless_coop::steam", "chatter");
    logger.log(state, Some(&mut queue), Level::Info, "unseamless_coop::forward", "chatter");
    let records = forward::drain(Some(&mut queue));
    assert_eq!(records.len(), 1);
    assert_eq!(records[0].message, "seen");
    assert_eq!(records[0].level, Level::Info);
}

#[test]
fn nothing_is_forwarded_while_forwarding() {
    let mut state = ForwardState { enabled: true, in_forward: false };
    let logger = forward_logger(LevelFilter::Trace);
    let guard = ForwardGuard::enter(&mut state);
    assert!(!logger.admits(state, Level::Error, "other"));
    guard.leave(&mut state);
    assert!(logger.admits(state, Level::Error, "other"));
}

#[test]
fn the_forward_queue_holds_its_cap() {
    let mut queue = forward::init();
    forward::push(Some(&mut queue), Level::Info, "first");
    let mut i: usize = 0;
    while i < forward::CAP {
        forward::push(Some(&mut queue), Level::Info, "later");
        i = i + 1;
    }
    let records = forward::drain(Some(&mut queue));
    assert_eq!(records.len(), 256);
    assert_eq!(records[0].message, "later");
}

#[test]
fn the_guide_tee_empties_when_it_is_turned_off() {
    let mut enabled: bool = false;
    let mut queue = guide_log::init();
    let logger = guide_logger(LevelFilter::Info);
    logger.log(enabled, Some(&mut queue), Level::Info, "before");
    guide_log::set_enabled(&mut enabled, Some(&mut queue), true);
    logger.log(enabled, Some(&mut queue), Level::Info, "kept");
    logger.log(enabled, Some(&mut queue), Level::Debug, "too fine");
    assert_eq!(guide_log::drain(Some(&mut queue)), vec!["kept".to_owned()]);
    logger.log(enabled, Some(&mut queue), Level::Warn, "dropped at the end");
    guide_log::set_enabled(&mut enabled, Some(&mut queue), false);
    assert!(guide_log::drain(Some(&mut queue)).is_empty());
    assert!(!enabled);
}

#[test]
fn the_guide_queue_holds_its_cap() {
    let mut queue = guide_log::init();
    guide_log::push(Some(&mut queue), "first");
    let mut i: usize = 0;
    while i < guide_log::CAP {
        guide_log::push(Some(&mut queue), "later");
        i = i + 1;
    }
    assert_eq!(guide_log::drain(Some(&mut queue)).len(), 512);
}

#[test]
fn a_published_report_is_noticed_and_copied() {
    let mut panel = debug_panel::init();
    assert!(debug_panel::snapshot(Some(&panel)).is_none());
    assert_eq!(debug_panel::version(&panel), 0);
    debug_panel::set_report_wanted(&mut panel, true);
    assert!(debug_panel::report_wanted(&panel));
    let mut report = DiagnosticReport::new("title");
    let mut section = Section::titled("Session");
    section.field("players", "3");
    report.push_section(section);
    debug_panel::publish(Some(&mut panel), report);
    assert_eq!(debug_panel::version(&panel), 1);
    let copy = debug_panel::snapshot(Some(&panel)).unwrap();
    assert_eq!(copy.title, "title");
    assert_eq!(copy.find("Session"), Some(0));
    assert_eq!(copy.find("Party"), None);
    assert_eq!(copy.sections[0].fields[0].value, "3");
    assert!(!copy.sections[0].has_summary());
    assert!(debug_panel::snapshot(None).is_none());
}

#[test]
fn labels_are_replaced_whole() {
    let mut cell = nameplates::init();
    assert!(nameplates::snapshot(Some(&cell)).unwrap().is_empty());
    let label = NameplateLabel {
        ndc: (1, 2),
        depth: 3,
        color: (4, 5, 6),
        kind: NameplateKind::Plate,
        text: "Host".to_owned(),
    };
    nameplates::publish(Some(&mut cell), vec![label]);
    assert_eq!(nameplates::snapshot(Some(&cell)).unwrap()[0].text, "Host");
    nameplates::publish(Some(&mut cell), vec![]);
    assert!(nameplates::snapshot(Some(&cell)).unwrap().is_empty());
    assert!(nameplates::snapshot(None).is_none());
}

#[test]
fn the_game_state_follows_its_signals() {
    let mut play = playstate::init();
    assert_eq!(playstate::current(play), GameState::Booting);
    assert!(!GameState::Booting.frontend_ready());
    let state = GameState::classify(GameSignals { menu_system_up: true, player_in_world: false });
    assert_eq!(state, GameState::Frontend);
    assert!(state.frontend_ready());
    playstate::set(&mut play, state);
    assert!(!playstate::in_gameplay(play));
    let state = GameState::classify(GameSignals { menu_system_up: false, player_in_world: true });
    playstate::set(&mut play, state);
    assert!(playstate::in_gameplay(play));
}
