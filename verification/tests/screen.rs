use unseamless_coop::actionq;
use unseamless_coop::actionq::SessionAction;
use unseamless_coop::debug_layout::{
    category_at, concise_groups, detail_groups, layout, widest, Columns, HeavyColumn, Measure,
};
use unseamless_coop::debug_panel;
use unseamless_coop::features::rig_guide::{ChoiceView, RigBanner, RigView};
use unseamless_coop::input::InputBlock;
use unseamless_coop::levels::Level;
use unseamless_coop::notify::Severity;
use unseamless_coop::overlay::{
    action_label, choice_hint, choice_options, clamp_into_viewport, copy_secret, cursor_is_lost,
    exported, flush_pending, install, installed_line, is_choice, level_color, modal_input,
    paint_order, request_action, reveal_label, scroll_pane, secret_text, session_context,
    severity_color, watermark, window_title, ActionRow, ChoiceNote, DebugAct, Drag, FrameInput,
    HomeSnap, Menu, ModalInput, ReportCache, Swatch, HOOKED, NO_MODULE, OPEN_HINT,
};
use unseamless_coop::report::{DiagnosticReport, Section};

fn keys(toggle: bool, cancel: bool, choice_active: bool) -> FrameInput {
    FrameInput { toggle, cancel, choice_active, in_gameplay: false }
}

#[test]
fn opening_the_menu_takes_the_input_and_closing_gives_it_back() {
    let mut menu = Menu::new(false);
    let mut block = InputBlock { blocked: false };
    let mut panel = debug_panel::init();
    menu.actions_sel = 3;
    let plan = menu.begin_frame(keys(true, false, false), &mut block, &mut panel);
    assert!(menu.open && block.blocked && plan.window && plan.watermark);
    assert!(menu.message_filter());
    assert_eq!(menu.actions_sel, 0);
    let plan = menu.begin_frame(keys(false, true, false), &mut block, &mut panel);
    assert!(!menu.open && !block.blocked && !plan.window);
    assert!(!menu.message_filter());
    let plan = menu.begin_frame(keys(true, true, false), &mut block, &mut panel);
    assert!(!menu.open && !block.blocked && !plan.window);
}

#[test]
fn a_question_takes_the_place_of_the_window() {
    let mut menu = Menu::new(true);
    let mut block = InputBlock { blocked: false };
    let mut panel = debug_panel::init();
    let plan = menu.begin_frame(keys(true, false, true), &mut block, &mut panel);
    assert!(menu.open && !plan.window && block.blocked && menu.message_filter());
    assert!(plan.summary && !plan.watermark);
    assert!(debug_panel::report_wanted(&panel));
    let plan = menu.begin_frame(keys(false, false, false), &mut block, &mut panel);
    assert!(plan.window);
}

#[test]
fn a_given_up_overlay_lets_go_of_the_input() {
    let mut menu = Menu::new(false);
    let mut block = InputBlock { blocked: true };
    menu.open = true;
    menu.choice_active = true;
    let line = menu.give_up(&mut block, "render");
    assert_eq!(line.level, Level::Error);
    assert_eq!(
        line.text,
        "overlay: render panicked; overlay disabled for the rest of the session"
    );
    assert!(!block.blocked && !menu.message_filter() && menu.disabled);
}

#[test]
fn tabs_go_round() {
    let mut menu = Menu::new(false);
    assert_eq!(menu.cycle_tabs(false, true), Some(3));
    assert_eq!(menu.cycle_tabs(true, false), Some(0));
    assert_eq!(menu.cycle_tabs(true, true), Some(0));
    assert_eq!(menu.cycle_tabs(false, false), None);
    assert_eq!(menu.tab, 0);
}

#[test]
fn a_newer_report_is_taken_over_when_it_can_be_had() {
    let mut panel = debug_panel::init();
    let mut cache = ReportCache { report: None, version: 0 };
    cache.refresh(&panel, true);
    assert!(cache.report.is_none());
    debug_panel::publish(Some(&mut panel), DiagnosticReport::new("one"));
    cache.refresh(&panel, false);
    assert!(cache.report.is_none());
    cache.refresh(&panel, true);
    assert_eq!(cache.report.as_ref().unwrap().title, "one");
    assert_eq!(cache.version, 1);
}

#[test]
fn the_rows_of_the_debug_tab() {
    let mut menu = Menu::new(false);
    assert_eq!(menu.debug_label(0), "Debug panel: off###debug-panel-toggle");
    assert_eq!(menu.debug_label(1), "Connection: off###debug-detail-0");
    assert_eq!(menu.debug_label(3), "Player status: off###debug-detail-2");
    assert_eq!(menu.debug_label(4), "Export diagnostics###export-diag");
    assert_eq!(menu.debug_input(true, None), DebugAct::Flipped);
    assert!(menu.show_debug);
    assert_eq!(menu.debug_input(false, Some(2)), DebugAct::Flipped);
    assert_eq!(menu.details, [false, true, false]);
    assert_eq!(menu.debug_sel, 2);
    assert_eq!(menu.debug_label(2), "Features: on###debug-detail-1");
    assert_eq!(menu.debug_input(false, None), DebugAct::Nothing);
    assert_eq!(menu.debug_input(false, Some(4)), DebugAct::Export);
    assert!(menu.show_debug);
    assert_eq!(menu.details, [false, true, false]);
}

#[test]
fn only_enabled_actions_are_activated() {
    let rows = vec![
        ActionRow { action: SessionAction::OpenWorld, enabled: true },
        ActionRow { action: SessionAction::JoinWorld, enabled: false },
    ];
    let mut menu = Menu::new(false);
    assert_eq!(menu.actions_input(&rows, false, None), None);
    assert_eq!(menu.actions_input(&rows, true, None), Some(SessionAction::OpenWorld));
    assert_eq!(menu.actions_input(&rows, false, Some(1)), None);
    assert_eq!(menu.actions_sel, 1);
    assert!(cursor_is_lost(1, &rows));
    assert!(cursor_is_lost(2, &rows));
    assert!(!cursor_is_lost(0, &rows));
    menu.actions_sel = 7;
    assert_eq!(menu.actions_input(&rows, true, None), None);
    assert_eq!(action_label("Open world", 0), "Open world###action-0");
}

#[test]
fn an_action_that_does_not_get_through_waits() {
    let mut queue = actionq::init();
    let mut pending: Vec<SessionAction> = vec![];
    request_action(&mut pending, SessionAction::OpenWorld, &mut queue, &vec![false]);
    assert_eq!(pending, vec![SessionAction::OpenWorld]);
    request_action(&mut pending, SessionAction::LockWorld, &mut queue, &vec![false, true]);
    assert_eq!(pending, vec![SessionAction::OpenWorld]);
    flush_pending(&mut pending, &mut queue, &vec![true]);
    assert!(pending.is_empty());
    assert_eq!(
        actionq::drain(Some(&mut queue)),
        vec![SessionAction::LockWorld, SessionAction::OpenWorld]
    );
}

#[test]
fn secrets_stay_masked() {
    assert_eq!(secret_text("hunter2", true), "hunter2");
    assert_eq!(secret_text("hunter2", false), "*******");
    let long: String = "x".repeat(100);
    assert_eq!(secret_text(long.as_str(), false).len(), 64);
    assert_eq!(reveal_label("password", false), "Reveal###reveal-password");
    assert_eq!(reveal_label("password", true), "Hide###reveal-password");
    let copy = copy_secret("password", "hunter2");
    assert_eq!(copy.text, "hunter2");
    assert_eq!(copy.toast.message, "Copied password to clipboard");
    assert_eq!(copy.toast.severity, Severity::Info);
}

#[test]
fn the_context_of_the_menus_rows() {
    let ctx = session_context(true, false, true, true);
    assert!(ctx.in_session && !ctx.is_host && ctx.steam_ready && ctx.in_game);
    assert!(!ctx.world_locked && !ctx.pvp_on && !ctx.pvp_teams_on && !ctx.friendly_fire_on);
}

#[test]
fn colours() {
    assert_eq!(severity_color(Severity::Info), Swatch::Blue);
    assert_eq!(severity_color(Severity::Warning), Swatch::Amber);
    assert_eq!(severity_color(Severity::Error), Swatch::Red);
    assert_eq!(level_color(Level::Error), Swatch::Red);
    assert_eq!(level_color(Level::Trace), Swatch::DimGrey);
    assert_eq!(level_color(Level::Debug), Swatch::Teal);
}

#[test]
fn scrolling_is_by_two_lines_within_the_pane() {
    assert_eq!(scroll_pane(10, 100, 20, true, false), Some(50));
    assert_eq!(scroll_pane(90, 100, 20, true, false), Some(100));
    assert_eq!(scroll_pane(90, 100, 20, false, true), Some(50));
    assert_eq!(scroll_pane(30, 100, 20, false, true), Some(0));
    assert_eq!(scroll_pane(30, 100, 20, true, true), None);
    assert_eq!(scroll_pane(30, 100, 20, false, false), None);
}

#[test]
fn letting_go_over_the_home_snaps_once() {
    let mut home = HomeSnap { dragging: false, snap: false };
    let held = Drag { mouse_down: true, released: false, moved: true, in_home: true };
    assert!(home.on_frame(held));
    assert!(home.dragging);
    let released = Drag { mouse_down: false, released: true, moved: false, in_home: true };
    assert!(!home.on_frame(released));
    assert!(!home.dragging);
    assert!(home.take_snap());
    assert!(!home.take_snap());
    let still = Drag { mouse_down: true, released: false, moved: false, in_home: true };
    assert!(!home.on_frame(still));
    assert!(!home.on_frame(released));
    assert!(!home.take_snap());
}

#[test]
fn a_window_off_the_screen_is_brought_back() {
    assert_eq!(clamp_into_viewport((-5, 10), (100, 100), (800, 600), false), Some((0, 10)));
    assert_eq!(clamp_into_viewport((750, 550), (100, 100), (800, 600), false), Some((700, 500)));
    assert_eq!(clamp_into_viewport((700, 500), (100, 100), (800, 600), false), None);
    assert_eq!(clamp_into_viewport((750, 550), (100, 100), (800, 600), true), None);
    assert_eq!(clamp_into_viewport((5, 0), (900, 100), (800, 600), false), Some((0, 0)));
}

#[test]
fn titles_and_the_stamp() {
    assert_eq!(window_title("1.2"), "unseamless-coop  v1.2###unseamless-coop");
    assert_eq!(watermark("1.2", None), vec!["unseamless-coop  v1.2".to_owned(), OPEN_HINT.to_owned()]);
    assert_eq!(watermark("1.2", Some("abc"))[1], "build abc");
}

fn question(step: &str) -> Option<RigView> {
    Some(RigView::Choice(ChoiceView {
        step_id: step.to_owned(),
        prompt: "How was it?".to_owned(),
        options: vec!["good".to_owned(), "bad".to_owned()],
        selected: 1,
        note_enabled: true,
        skip_hint: "L3 + Down".to_owned(),
        color: (1, 2, 3),
    }))
}

#[test]
fn a_note_belongs_to_one_question() {
    let mut note = ChoiceNote { note: "left over".to_owned(), step: None };
    note.follow(&question("a"));
    assert_eq!(note.note, "");
    note.note = "mine".to_owned();
    note.follow(&question("a"));
    assert_eq!(note.note, "mine");
    note.follow(&question("b"));
    assert_eq!(note.note, "");
    assert_eq!(note.step, Some("b".to_owned()));
    let banner = Some(RigView::Banner(RigBanner { text: "walk".to_owned(), color: (0, 0, 0) }));
    note.follow(&banner);
    assert_eq!(note.step, None);
    assert!(is_choice(&question("a")));
    assert!(!is_choice(&banner));
    assert!(!is_choice(&None));
}

#[test]
fn a_question_and_the_moves_that_drive_it() {
    match question("a") {
        Some(RigView::Choice(choice)) => {
            assert_eq!(choice_options(&choice), vec!["  good".to_owned(), "> bad".to_owned()]);
            assert_eq!(
                choice_hint(&choice),
                "d-pad/arrows: choose | A/Enter: confirm | L3 + Down: skip"
            );
        },
        _ => unreachable!(),
    }
    let none = ModalInput { up: false, down: false, confirm: false };
    let all = ModalInput { up: true, down: true, confirm: true };
    assert_eq!(modal_input(none, all, false), all);
    assert_eq!(modal_input(none, all, true), none);
    assert_eq!(modal_input(all, none, true), all);
}

#[test]
fn what_is_said_of_an_export_and_of_the_installation() {
    let out = exported("d.txt", None);
    assert_eq!(out.line.text, "exported diagnostics bundle to d.txt");
    assert_eq!(out.toast.message, "Diagnostics saved to d.txt");
    let out = exported("d.txt", Some("full"));
    assert_eq!(out.line.text, "failed to export diagnostics to d.txt: full");
    assert_eq!(out.toast.severity, Severity::Error);
    assert_eq!(install(0).unwrap().text, NO_MODULE);
    assert!(install(0x1000).is_none());
    assert_eq!(installed_line(None).text, HOOKED);
    assert_eq!(
        installed_line(Some("x")).text,
        "overlay: hook install failed (x); no overlay this session"
    );
}

#[test]
fn labels_are_painted_from_far_to_near() {
    let near = 0.1f32.to_bits();
    let far = 0.9f32.to_bits();
    let behind = (-0.5f32).to_bits();
    assert_eq!(paint_order(&vec![near, far, behind, far]), vec![1, 3, 0, 2]);
    let nan = f32::NAN.to_bits();
    assert_eq!(paint_order(&vec![far, nan]), vec![1, 0]);
    assert!(paint_order(&vec![]).is_empty());
}

fn sample_report() -> DiagnosticReport {
    let mut report = DiagnosticReport::new("t");
    let mut session = Section::titled("session");
    session.field("lobby", "3");
    session.field("players", "2");
    session.summary_line("state", "hosting");
    report.push_section(session);
    let mut status = Section::titled("status");
    status.field("hp", "10");
    report.push_section(status);
    report
}

#[test]
fn the_short_view_prefers_summaries() {
    let groups = concise_groups(&sample_report());
    assert_eq!(groups.len(), 2);
    assert_eq!(groups[0].title, "session");
    assert_eq!(groups[0].lines, vec!["  state = hosting".to_owned()]);
    assert_eq!(groups[1].lines, vec!["  hp = 10".to_owned()]);
}

#[test]
fn the_detail_view_holds_what_is_switched_on() {
    let report = sample_report();
    assert!(detail_groups(&report, [false, false, false]).is_empty());
    let groups = detail_groups(&report, [true, true, false]);
    assert_eq!(groups.len(), 1);
    assert_eq!(groups[0].lines, vec!["  lobby = 3".to_owned(), "  players = 2".to_owned()]);
    assert_eq!(detail_groups(&report, [true, false, true]).len(), 2);
    assert_eq!(category_at(2).label(), "Player status");
}

#[test]
fn blocks_are_split_into_two_columns() {
    let m = Measure { line: 10, gap: 5 };
    let rows: Vec<usize> = vec![2, 1, 3];
    assert_eq!(
        layout(&rows, m, HeavyColumn::Left),
        Columns { split: 2, pad_left: 0, pad_right: 15 }
    );
    assert_eq!(
        layout(&rows, m, HeavyColumn::Right),
        Columns { split: 1, pad_left: 35, pad_right: 0 }
    );
    assert_eq!(
        layout(&vec![4], m, HeavyColumn::Left),
        Columns { split: 1, pad_left: 0, pad_right: 50 }
    );
    assert_eq!(
        layout(&vec![4], m, HeavyColumn::Right),
        Columns { split: 0, pad_left: 50, pad_right: 0 }
    );
    assert_eq!(
        layout(&vec![], m, HeavyColumn::Left),
        Columns { split: 0, pad_left: 0, pad_right: 0 }
    );
    assert_eq!(widest(&vec![3, 9, 4]), 9);
    assert_eq!(widest(&vec![]), 0);
}
