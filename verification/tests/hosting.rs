use unseamless_coop::bridge;
use unseamless_coop::clipboard::{set_text_warning, wide_text};
use unseamless_coop::config;
use unseamless_coop::config::{config_source, weak_bytes, ConfigSource, ReadOutcome};
use unseamless_coop::crashdump::{
    code_name, handler, module_at, CrashContext, CrashInfo, CrashRecord, FilterWatch, Owner,
    CLEARED_LINE, END_LINE,
};
use unseamless_coop::dx12::{done_line, HarnessConfig, HarnessEnv, PresentLoop};
use unseamless_coop::guard::{ensure_launched_by_us_or_abort, Launch};
use unseamless_coop::harness::{select, show_notifications, Converge, Round, Scenario, Selection};
use unseamless_coop::hook::HookError;
use unseamless_coop::input::{
    capture_pad, mouse_needs_own_hook, on_clip_cursor, on_device_state, on_set_cursor_pos,
    on_xinput_state, pack_pad, pad_snapshot, release_pad, set_blocked, unpack_pad, xinput_line,
    InputBlock, PadCell, XInputGamepad, XInputState, NO_OWNER,
};
use unseamless_coop::launcher::{game_env, launch_failed, refusal};
use unseamless_coop::levels::{Level, LevelFilter};
use unseamless_coop::logger::{
    log_name, name_at_most, opening_lines, platform, profile, prune_old_logs, run_id, run_level,
};
use unseamless_coop::mods::{
    discover_dlls, load_result, load_start, path_read_whole, DirEntry, LoadStart,
};
use unseamless_coop::notify;
use unseamless_coop::notify::Severity;
use unseamless_coop::proxy::{fallback, real_dinput8_path, Export};

#[test]
fn every_hook_failure_in_words() {
    let e = HookError::ModuleNotLoaded { module: "xinput1_4".to_owned(), err: "gone".to_owned() };
    assert_eq!(e.message(), "xinput1_4 not loaded: gone");
    assert_eq!(HookError::ModuleHandle("x".to_owned()).message(), "GetModuleHandle failed: x");
    assert_eq!(HookError::ExportNotFound("F".to_owned()).message(), "F not found");
    let e = HookError::Install { what: "F".to_owned(), detail: "busy".to_owned() };
    assert_eq!(e.message(), "hooking F: busy");
    let e = HookError::DInputProbe { what: "CreateDevice".to_owned(), hr: -2147024809 };
    assert_eq!(e.message(), "CreateDevice failed: 0x80070057");
    let e = HookError::DInputProbe { what: "CreateDevice".to_owned(), hr: 1 };
    assert_eq!(e.message(), "CreateDevice failed: 0x00000001");
    assert_eq!(HookError::Win32("denied".to_owned()).message(), "denied");
}

#[test]
fn packing_a_pad_and_back() {
    assert_eq!(pack_pad(0x1234, -1, 2), 0x0000_0002_ffff_1234);
    assert_eq!(unpack_pad(pack_pad(0xffff, i16::MIN, i16::MAX)), (0xffff, i16::MIN, i16::MAX));
    assert_eq!(unpack_pad(0), (0, 0, 0));
}

#[test]
fn only_the_first_controller_is_heard_until_it_leaves() {
    let mut cell = PadCell::new();
    capture_pad(&mut cell, 1, 5, 6, 7);
    capture_pad(&mut cell, 0, 9, 9, 9);
    assert_eq!(pad_snapshot(cell), (5, 6, 7));
    release_pad(&mut cell, 0);
    assert_eq!(cell.owner, 1);
    release_pad(&mut cell, 1);
    assert_eq!(cell.owner, NO_OWNER);
    assert_eq!(pad_snapshot(cell), (0, 0, 0));
    capture_pad(&mut cell, 0, 9, 9, 9);
    assert_eq!(pad_snapshot(cell), (9, 9, 9));
}

#[test]
fn a_blocked_pad_is_blank_for_the_game_and_still_captured() {
    let pad = XInputGamepad {
        buttons: 3,
        left_trigger: 1,
        right_trigger: 2,
        thumb_lx: 4,
        thumb_ly: 5,
        thumb_rx: 6,
        thumb_ry: 7,
    };
    let state = XInputState { packet_number: u32::MAX, gamepad: pad };
    let mut cell = PadCell::new();
    let mut block = InputBlock::new();
    assert_eq!(on_xinput_state(&mut cell, block, 0, 0, Some(state)), Some(state));
    set_blocked(&mut block, true);
    let seen = on_xinput_state(&mut cell, block, 0, 0, Some(state)).unwrap();
    assert_eq!(seen.packet_number, 0);
    assert_eq!(seen.gamepad.buttons, 0);
    assert_eq!(seen.gamepad.thumb_ry, 0);
    assert_eq!(pad_snapshot(cell), (3, 4, 5));
    assert_eq!(on_xinput_state(&mut cell, block, 0, 1167, None), None);
    assert_eq!(cell.owner, NO_OWNER);
}

#[test]
fn blocked_devices_and_cursor() {
    let open = InputBlock { blocked: false };
    let blocked = InputBlock { blocked: true };
    assert_eq!(on_device_state(open, 0, vec![1, 2]), vec![1, 2]);
    assert_eq!(on_device_state(blocked, 0, vec![1, 2]), vec![0, 0]);
    assert_eq!(on_device_state(blocked, 5, vec![1, 2]), vec![1, 2]);
    assert_eq!(on_set_cursor_pos(open), None);
    assert_eq!(on_set_cursor_pos(blocked), Some(1));
    assert_eq!(on_clip_cursor(open, 77), 77);
    assert_eq!(on_clip_cursor(blocked, 77), 0);
    assert!(mouse_needs_own_hook(1, 2));
    assert!(!mouse_needs_own_hook(2, 2));
    let failed: Result<(), HookError> = Err(HookError::ExportNotFound("XInputGetState".to_owned()));
    let line = xinput_line(&failed);
    assert_eq!(line.level, Level::Warn);
    assert_eq!(
        line.text,
        "input: XInput hook not installed (XInputGetState not found); controller won't drive the menu or be suppressed"
    );
    assert_eq!(xinput_line(&Ok(())).level, Level::Info);
}

#[test]
fn addresses_by_module() {
    let owner = Some(Owner { path: "C:\\game\\eldenring.exe".to_owned(), base: 0x1000 });
    assert_eq!(module_at(0x1234, &owner), "eldenring.exe+0x234");
    assert_eq!(module_at(0, &owner), "0x0 (null)");
    assert_eq!(module_at(0x1234, &None), "0x0000000000001234 (no owning module)");
    let bare = Some(Owner { path: "a.dll".to_owned(), base: 2 });
    assert_eq!(module_at(1, &bare), "a.dll+0xffffffffffffffff");
    assert_eq!(code_name(0xC000_0005), "ACCESS_VIOLATION");
    assert_eq!(code_name(0xC000_00FD), "STACK_OVERFLOW");
    assert_eq!(code_name(1), "UNKNOWN");
}

#[test]
fn one_warning_for_each_displacement() {
    let mut watch = FilterWatch::new();
    assert!(watch.reassert(10, 10, &None).is_none());
    let line = watch.reassert(0, 10, &None).unwrap();
    assert_eq!(line.text, CLEARED_LINE);
    assert_eq!(line.level, Level::Warn);
    assert!(watch.reassert(0, 10, &None).is_none());
    assert!(watch.reassert(20, 10, &None).is_some());
    assert!(watch.reassert(20, 10, &None).is_none());
    assert!(watch.reassert(10, 10, &None).is_none());
    assert!(watch.reassert(20, 10, &None).is_some());
}

#[test]
fn a_crash_report_in_full() {
    let context = CrashContext {
        rip: 0x1_4000_1000,
        rip_owner: Some(Owner { path: "eldenring.exe".to_owned(), base: 0x1_4000_0000 }),
        rsp: 0x2000,
        rbp: 0x2040,
        base: 0x1_4000_0000,
        stack: vec![1, 0x1_4000_0fff, 0x1_4000_1000, 0x1_46ff_ffff, 0x1_4700_0000],
    };
    let record = CrashRecord {
        code: 0xC000_0005,
        fault: 0x1_4000_1000,
        fault_owner: None,
        parameters: 2,
        operation: 1,
        target: 0x18,
        context: Some(context),
    };
    let lines = handler(&CrashInfo::Record(record));
    let texts: Vec<&str> = lines.iter().map(|l| l.text.as_str()).collect();
    assert_eq!(
        texts,
        vec![
            "crashdump: ==== UNHANDLED EXCEPTION ==== code=0xc0000005 (ACCESS_VIOLATION) at 0x0000000140001000 (no owning module) [raw 0x0000000140001000]",
            "crashdump:   access violation: tried to write 0x0000000000000018",
            "crashdump:   regs: rip=0x0000000140001000 (eldenring.exe+0x1000) rsp=0x0000000000002000 rbp=0x0000000000002040",
            "crashdump:   bt[0] eldenring.exe+0x1000  (stack 0x0000000000002010)",
            "crashdump:   bt[1] eldenring.exe+0x6ffffff  (stack 0x0000000000002018)",
            END_LINE,
        ]
    );
    assert!(lines.iter().all(|l| l.level == Level::Error));
}

#[test]
fn a_crash_with_an_unknown_operation_ends_early() {
    let record = CrashRecord {
        code: 0xC000_0005,
        fault: 0,
        fault_owner: None,
        parameters: 2,
        operation: 5,
        target: 0,
        context: None,
    };
    let lines = handler(&CrashInfo::Record(record));
    assert_eq!(lines.len(), 2);
    assert_eq!(lines[1].text, "crashdump:   access violation (op code 5)");
    let record = CrashRecord {
        code: 0x8000_0003,
        fault: 0,
        fault_owner: None,
        parameters: 0,
        operation: 5,
        target: 0,
        context: None,
    };
    let lines = handler(&CrashInfo::Record(record));
    assert_eq!(lines.len(), 2);
    assert_eq!(lines[1].text, END_LINE);
    assert_eq!(handler(&CrashInfo::NoPointers).len(), 1);
    assert_eq!(handler(&CrashInfo::NoRecord).len(), 1);
}

#[test]
fn all_but_the_five_newest_logs_go() {
    let mut names: Vec<String> = vec![
        "unseamless_coop-105-1.log".to_owned(),
        "unseamless_coop-101-1.log".to_owned(),
        "notes.txt".to_owned(),
        "unseamless_coop-103-1.log".to_owned(),
        "unseamless_coop-102-1.log".to_owned(),
        "unseamless_coop-104-1.log".to_owned(),
        "unseamless_coop-.txt".to_owned(),
    ];
    assert!(prune_old_logs(&names).is_empty());
    names.push("unseamless_coop-107-1.log".to_owned());
    names.push("unseamless_coop-106-1.log".to_owned());
    assert_eq!(
        prune_old_logs(&names),
        vec!["unseamless_coop-101-1.log".to_owned(), "unseamless_coop-102-1.log".to_owned()]
    );
    assert!(prune_old_logs(&names[1..5].to_vec()).is_empty());
    assert!(name_at_most("a", "ab"));
    assert!(!name_at_most("b", "ab"));
}

#[test]
fn a_runs_log_and_its_first_lines() {
    assert_eq!(run_id(1700000000, 42), "1700000000-42");
    assert_eq!(log_name("7-8"), "unseamless_coop-7-8.log");
    assert_eq!(platform("windows", "x86_64", true), "windows-x86_64 (proton)");
    assert_eq!(platform("windows", "x86_64", false), "windows-x86_64");
    assert_eq!(profile(true), "debug-assertions on (symbols)");
    assert_eq!(profile(false), "release (stripped)");
    assert_eq!(run_level(false, LevelFilter::Trace), LevelFilter::Info);
    assert_eq!(run_level(true, LevelFilter::Trace), LevelFilter::Trace);
    let lines = opening_lines(LevelFilter::Info, "a.log", false);
    assert_eq!(lines.len(), 2);
    assert_eq!(lines[0].text, "logging at INFO -> a.log");
    assert_eq!(opening_lines(LevelFilter::Debug, "a.log", true).len(), 1);
    assert!(Level::Warn.is_warning());
    assert!(!Level::Error.passes(LevelFilter::Off));
}

#[test]
fn only_regular_dlls_are_mods() {
    let entries = vec![
        DirEntry { name: "a.DLL".to_owned(), is_file: true },
        DirEntry { name: "dir.dll".to_owned(), is_file: false },
        DirEntry { name: "b.dll.bak".to_owned(), is_file: true },
        DirEntry { name: "c.dll".to_owned(), is_file: true },
    ];
    assert_eq!(discover_dlls(&entries), vec!["a.DLL".to_owned(), "c.dll".to_owned()]);
    assert!(!path_read_whole(0));
    assert!(path_read_whole(1023));
    assert!(!path_read_whole(1024));
}

#[test]
fn how_mod_loading_starts() {
    assert!(matches!(
        load_start(false, "mods", 2, 2),
        LoadStart::Nothing(l) if l.text == "extra mod loading disabled ([loader] enabled = false)"
    ));
    assert!(matches!(
        load_start(true, "mods", 0, 0),
        LoadStart::Nothing(l) if l.text == "no extra mods found in mods"
    ));
    assert!(matches!(
        load_start(true, "mods", 2, 2),
        LoadStart::Load(l) if l.text == "loading 2 extra mod(s) from mods"
    ));
    assert_eq!(load_result("a.dll", true).text, "loaded mod: a.dll");
    let failed = load_result("a.dll", false);
    assert_eq!(failed.level, Level::Error);
    assert_eq!(failed.text, "failed to load mod: a.dll");
}

#[test]
fn where_the_settings_come_from() {
    let parsed = ReadOutcome::Parsed(vec!["odd key".to_owned()]);
    assert_eq!(config_source(&parsed), ConfigSource::File);
    let notes = config::load("c.toml", &parsed, &Ok(()));
    assert_eq!(notes.len(), 2);
    assert_eq!(notes[0].text, "config: odd key");
    assert_eq!(notes[1].text, "loaded config from c.toml");
    let malformed = ReadOutcome::Malformed("line 3".to_owned());
    assert_eq!(config_source(&malformed), ConfigSource::Defaults);
    let notes = config::load("c.toml", &malformed, &Ok(()));
    assert_eq!(notes.len(), 1);
    assert_eq!(notes[0].level, Level::Error);
    assert_eq!(notes[0].text, "config at c.toml is malformed (line 3); using defaults");
    let missing = ReadOutcome::Missing("not found".to_owned());
    assert_eq!(config_source(&missing), ConfigSource::FreshDefaults);
    let notes = config::load("c.toml", &missing, &Ok(()));
    assert_eq!(notes.len(), 3);
    assert_eq!(notes[0].text, "no config at c.toml (not found); using defaults");
    assert_eq!(notes[1].text, "wrote default config to c.toml");
    let notes = config::load("c.toml", &missing, &Err("denied".to_owned()));
    assert_eq!(notes.len(), 2);
    assert_eq!(notes[1].text, "couldn't write default config: denied");
}

#[test]
fn weak_bytes_mix_the_seed_with_the_position() {
    let bytes = weak_bytes(0x0201, 18);
    assert_eq!(bytes.len(), 18);
    assert_eq!(bytes[0], 0x01);
    assert_eq!(bytes[1], 0x02 ^ 31);
    assert_eq!(bytes[2], 62);
    assert_eq!(bytes[9], 0x17);
    assert_eq!(bytes[16], 0x01 ^ 0xf0);
}

#[test]
fn clipboard_text_is_utf16_with_a_zero() {
    assert_eq!(wide_text("aé"), vec![0x61, 0xe9, 0]);
    assert_eq!(wide_text("𝄞"), vec![0xD834, 0xDD1E, 0]);
    assert!(set_text_warning(true, true).is_none());
    assert!(set_text_warning(true, false).is_some());
    assert!(set_text_warning(false, false).is_some());
}

#[test]
fn the_genuine_library_and_its_stand_ins() {
    let buf: Vec<u16> = vec![67, 58, 0, 0];
    let path = real_dinput8_path(&buf, 2).unwrap();
    assert_eq!(path.len(), 2 + 12 + 1);
    assert_eq!(path[2], 92);
    assert_eq!(path[14], 0);
    assert!(real_dinput8_path(&buf, 0).is_none());
    assert!(real_dinput8_path(&buf, 4).is_none());
    assert_eq!(fallback(Export::DirectInput8Create), 0x8007_007E);
    assert_eq!(fallback(Export::DllCanUnloadNow), 1);
    assert_eq!(fallback(Export::DllGetClassObject), 0x8004_0111);
    assert_eq!(fallback(Export::DllRegisterServer), 0x8007_007E);
}

#[test]
fn launching_and_refusing_to() {
    let vars = game_env("MARK");
    assert_eq!(vars[0].name, "MARK");
    assert_eq!(vars[0].value, "1");
    assert_eq!(vars[2].value, "1245620");
    assert!(refusal(Some(("x/eldenring.exe", true))).is_none());
    assert_eq!(refusal(None).unwrap(), "Could not determine the launcher's own location.");
    assert_eq!(
        refusal(Some(("x", false))).unwrap(),
        "eldenring.exe was not found next to the launcher:\nx\n\nPut the mod files in your 'ELDEN RING/Game' folder."
    );
    assert_eq!(launch_failed("no"), "Failed to launch eldenring.exe:\nno");
    assert!(matches!(ensure_launched_by_us_or_abort(true), Launch::Proceed));
    assert!(matches!(ensure_launched_by_us_or_abort(false), Launch::Abort(_)));
}

#[test]
fn the_bridge_is_local_and_optional() {
    assert_eq!(bridge::address(7777), "127.0.0.1:7777");
    assert!(!bridge::should_start(0));
    assert!(bridge::should_start(1));
    assert_eq!(
        bridge::listening_line(7, Some("in use")).text,
        "bridge: could not bind 127.0.0.1:7: in use; bridge disabled"
    );
    assert_eq!(bridge::listening_line(7, None).level, Level::Info);
    assert!(bridge::mirrors(None));
    assert!(bridge::mirrors(Some(false)));
    assert!(!bridge::mirrors(Some(true)));
}

#[test]
fn scenarios_are_selected_by_name() {
    assert!(matches!(select(None), Selection::All));
    assert!(matches!(select(Some("all")), Selection::All));
    let all = [
        Scenario::Handshake,
        Scenario::VersionMismatch,
        Scenario::ConfigSync,
        Scenario::SessionAction,
        Scenario::LogForward,
    ];
    for s in all {
        assert!(matches!(select(Some(s.name())), Selection::One(one) if one == s));
    }
    match select(Some("nope")) {
        Selection::Unknown(text) => assert!(text.starts_with("unknown scenario 'nope'. options: ")),
        _ => panic!("selected"),
    }
}

#[test]
fn a_board_is_shown_banners_first() {
    assert_eq!(Scenario::Handshake.title(), "=== handshake: two peers exchange versions ===");
    let mut board = notify::init();
    notify::toast(Some(&mut board), Severity::Info, "hello", 1000);
    notify::set_banner(Some(&mut board), "version", Severity::Warning, "update");
    assert_eq!(
        show_notifications("host", &board),
        ["  [host] banner(Warning): update", "  [host] toast(Info): hello"]
    );
    assert!(show_notifications("client", &notify::init()).is_empty());
}

#[test]
fn peers_settle_or_run_out_of_rounds() {
    let mut c = Converge::new();
    assert_eq!(c.step(1, 0), Round::Again);
    assert_eq!(c.step(0, 0), Round::Settled);
    let mut c = Converge { rounds: 99 };
    assert_eq!(c.step(0, 1), Round::Failed);
    let mut c = Converge { rounds: 99 };
    assert_eq!(c.step(0, 0), Round::Settled);
}

fn no_env() -> HarnessEnv {
    HarnessEnv {
        log: None,
        warmup: None,
        frames: None,
        buffers: None,
        vsync: None,
        warp: None,
        hook_thread: None,
        no_hook: None,
    }
}

#[test]
fn the_rendering_harness_reads_its_environment() {
    let config = HarnessConfig::from_env(&no_env());
    assert_eq!(
        config.start_line("b1").text,
        "dx12-harness start: build b1 | warmup=120 frames=0 buffers=3 vsync=1 warp=false hook=true hook_thread=true"
    );
    assert_eq!(config.log_path, "dx12-harness.log");
    let env = HarnessEnv {
        log: Some("x.log".to_owned()),
        warmup: Some("ten".to_owned()),
        frames: Some("4".to_owned()),
        buffers: Some("4294967298".to_owned()),
        vsync: Some("0".to_owned()),
        warp: Some("true".to_owned()),
        hook_thread: Some("yes".to_owned()),
        no_hook: Some("1".to_owned()),
    };
    let config = HarnessConfig::from_env(&env);
    assert_eq!(config.warmup, 120);
    assert_eq!(config.frames, 4);
    assert_eq!(config.buffers, 2);
    assert!(config.warp);
    assert!(!config.hook_thread);
    assert!(!config.hook);
}

#[test]
fn the_hook_is_placed_once_after_the_warm_up() {
    let mut env = no_env();
    env.warmup = Some("2".to_owned());
    env.frames = Some("3".to_owned());
    let config = HarnessConfig::from_env(&env);
    let mut state = PresentLoop::new();
    assert!(state.presented(&config).inject.is_none());
    let step = state.presented(&config);
    assert_eq!(
        step.inject.unwrap().text,
        "dx12-harness: warmup complete (2 frames presented); injecting overlay hook"
    );
    assert!(step.stop.is_none());
    let step = state.presented(&config);
    assert!(step.inject.is_none());
    assert_eq!(step.stop.unwrap().text, "dx12-harness: reached frame cap (3); exiting");
    assert_eq!(
        done_line(3, 1).text,
        "dx12-harness done: presented 3 frames, overlay rendered 1 frames"
    );
}
