use unseamless_coop::levels::Level;
use unseamless_coop::patch::{
    apply_boot_patches, code_in_image, is_followable, locate, nop_landmark, nop_result,
    overwrite_landmark, overwrite_result, plan_for, site_after_scan, BootPatches, PatchPlan, Scan,
    Site, IS_OFFLINE_LANDMARK, NOP,
};
use unseamless_coop::xinput::{
    abs_jmp, colliding_patch, entry_line, find_slot, hex, locate_slot, missing_slot,
    near_candidates, phase_failed_line, prologue_warning, rel32_jmp, slot_after_read,
    slot_call_line, slot_offset, survival_line, survived_line, swapped_line, trampoline, ImportDesc,
    ImportEntry, Phase, SlotScan, TableRead, GRANULE,
};

fn put32(image: &mut Vec<u8>, at: usize, n: u32) {
    for (i, b) in n.to_le_bytes().iter().enumerate() {
        image[at + i] = *b;
    }
}

/// A bare 64-bit image whose code is at 0x400..0xc00.
fn bare_image() -> Vec<u8> {
    let mut image = vec![0u8; 0x1000];
    image[0] = b'M';
    image[1] = b'Z';
    put32(&mut image, 0x3c, 0x80);
    image[0x80] = b'P';
    image[0x81] = b'E';
    image[0x84] = 0x64;
    image[0x85] = 0x86;
    image[0x94] = 0xf0;
    image[0x98] = 0x0b;
    image[0x99] = 0x02;
    put32(&mut image, 0x9c, 0x800);
    put32(&mut image, 0xac, 0x400);
    put32(&mut image, 0x98 + 56, 0x1000);
    put32(&mut image, 0x98 + 60, 0x400);
    image
}

const OFFLINE: [u8; 20] = [
    0x48, 0x83, 0xec, 0x28, 0xe8, 0x11, 0x22, 0x33, 0x44, 0x83, 0xf8, 0x02, 0x0f, 0x94, 0xc0, 0x48,
    0x83, 0xc4, 0x28, 0xc3,
];

fn with_code(at: usize) -> Vec<u8> {
    let mut image = bare_image();
    image[at..at + OFFLINE.len()].copy_from_slice(&OFFLINE);
    image
}

#[test]
fn a_unique_landmark_is_found_and_patched() {
    let image = with_code(0x500);
    match locate("offline", &image, IS_OFFLINE_LANDMARK, 12, 0x0f) {
        Site::At(at) => assert_eq!(at, 0x50c),
        Site::Skip(line) => panic!("{}", line.text),
    }
    match overwrite_landmark("offline", &image, IS_OFFLINE_LANDMARK, 12, 0x0f, vec![0x31, 0xc0, 0x90]) {
        PatchPlan::Write { at, bytes } => {
            assert_eq!(at, 0x50c);
            assert_eq!(bytes, vec![0x31, 0xc0, 0x90]);
        }
        PatchPlan::Skip(line) => panic!("{}", line.text),
    }
    match nop_landmark("offline", &image, IS_OFFLINE_LANDMARK, 12, 0x0f, 2) {
        PatchPlan::Write { at, bytes } => {
            assert_eq!(at, 0x50c);
            assert_eq!(bytes, vec![NOP, NOP]);
        }
        PatchPlan::Skip(line) => panic!("{}", line.text),
    }
}

#[test]
fn an_ambiguous_or_absent_landmark_is_skipped() {
    let mut twice = with_code(0x500);
    twice[0x700..0x700 + OFFLINE.len()].copy_from_slice(&OFFLINE);
    for image in [bare_image(), twice, vec![0u8; 8]] {
        match locate("offline", &image, IS_OFFLINE_LANDMARK, 12, 0x0f) {
            Site::At(_) => panic!("must not be found"),
            Site::Skip(line) => {
                assert_eq!(line.level, Level::Warn);
                assert_eq!(
                    line.text,
                    "patch 'offline': landmark not found or not unique; feature disabled this session"
                );
            }
        }
    }
}

#[test]
fn a_landmark_outside_the_code_is_not_found() {
    let image = with_code(0xd00);
    assert!(matches!(
        locate("offline", &image, IS_OFFLINE_LANDMARK, 12, 0x0f),
        Site::Skip(_)
    ));
}

#[test]
fn code_past_the_end_of_the_image_is_not_scanned() {
    let mut image = with_code(0x500);
    assert!(code_in_image(&image));
    put32(&mut image, 0x9c, 0x2000);
    assert!(code_in_image(&image));
    assert!(matches!(
        locate("offline", &image, IS_OFFLINE_LANDMARK, 12, 0x0f),
        Site::At(0x50c)
    ));
    put32(&mut image, 0xac, 0x1001);
    assert!(!code_in_image(&image));
    assert!(matches!(
        locate("offline", &image, IS_OFFLINE_LANDMARK, 12, 0x0f),
        Site::Skip(_)
    ));
    put32(&mut image, 0xac, 0x400);
    put32(&mut image, 0x9c, 0xffff_fc00);
    assert!(!code_in_image(&image));
    assert!(!code_in_image(&vec![0u8; 0x3f]));
}

#[test]
fn landmarks_may_follow_references() {
    let mut image = with_code(0x500);
    image[0x600..0x606].copy_from_slice(&[0xe8, 0xfb, 0xfe, 0xff, 0xff, 0x90]);
    for landmark in ["e8 $ { 48 83 ec 28 } 90", "e8 [4] 90", "e8 [2-9] 90", "(11 22|e8 ????) 90", "e8 i4 90 @0"] {
        match locate("call", &image, landmark, 5, 0x90) {
            Site::At(at) => assert_eq!(at, 0x605, "{}", landmark),
            Site::Skip(line) => panic!("{}: {}", landmark, line.text),
        }
    }
    assert!(matches!(locate("call", &image, "e8 $ { 48 83 ed 28 } 90", 5, 0x90), Site::Skip(_)));
    assert!(matches!(locate("call", &image, "e8 @z 90", 5, 0x90), Site::Skip(_)));
}

#[test]
fn only_the_expected_byte_is_patched() {
    let image = with_code(0x500);
    match locate("offline", &image, IS_OFFLINE_LANDMARK, 12, 0x74) {
        Site::Skip(line) => assert_eq!(
            line.text,
            "patch 'offline': site byte 0x0F != expected 0x74 (AOB drift?); skipping"
        ),
        Site::At(_) => panic!("drifted"),
    }
}

#[test]
fn a_site_outside_the_image_is_refused() {
    let image = vec![0u8; 0x100];
    match site_after_scan("p", Scan::At(0x10), &image, -60, 0) {
        Site::Skip(line) => assert_eq!(
            line.text,
            "patch 'p': patch site (match 0x10 -60) out of range; skipping"
        ),
        Site::At(_) => panic!("negative"),
    }
    match site_after_scan("p", Scan::At(0x10), &image, 0x200, 0) {
        Site::Skip(line) => assert_eq!(
            line.text,
            "patch 'p': patch site RVA 0x210 not in the loaded image; skipping"
        ),
        Site::At(_) => panic!("past the end"),
    }
    assert!(matches!(site_after_scan("p", Scan::At(0x10), &image, -16, 0), Site::Skip(_)));
    assert!(matches!(site_after_scan("p", Scan::NotAnImage, &image, 0, 0), Site::Skip(_)));
    assert!(matches!(site_after_scan("p", Scan::At(0x10), &image, 1, 0), Site::At(0x11)));
}

#[test]
fn every_boot_patch_has_its_switch() {
    let none = BootPatches {
        skip_splash_screens: false,
        enable_offline_multiplayer: false,
        force_online_menu_mode: false,
        bypass_session_create_gate: false,
    };
    assert_eq!(apply_boot_patches(none).len(), 0);
    let all = apply_boot_patches(BootPatches {
        skip_splash_screens: true,
        enable_offline_multiplayer: true,
        force_online_menu_mode: true,
        bypass_session_create_gate: true,
    });
    assert_eq!(all.len(), 4);
    assert_eq!(all[0].name, "skip_splash_screens");
    assert_eq!((all[0].offset, all[0].expect), (-60, 0x74));
    assert_eq!(all[0].bytes, vec![0x90, 0x90]);
    assert_eq!(all[1].bytes, vec![0x31, 0xc0, 0x90]);
    assert_eq!(all[2].bytes, vec![0xb8, 1, 0, 0, 0, 0x90, 0x90]);
    assert_eq!((all[3].offset, all[3].expect), (13, 0x75));
    assert_eq!(all[3].bytes, vec![0xeb]);
    for spec in &all {
        assert!(is_followable(&spec.landmark));
    }
}

#[test]
fn a_landmark_is_followed_within_limits() {
    assert!(is_followable("e8 $ { ' 48 } 90"));
    assert!(is_followable("e8 @v 90"));
    assert!(!is_followable("e8 @w 90"));
    assert!(!is_followable("e8 @Z"));
    assert!(is_followable("b8 * \"@z\" 00"));
    let deep = "${".repeat(255);
    assert!(is_followable(&deep));
    assert!(!is_followable(&"${".repeat(256)));
    assert!(is_followable(&"${}".repeat(300)));
    assert!(is_followable(&"(90|91)".repeat(300)));
    assert!(is_followable(&"(${|90)".repeat(16)));
    assert!(!is_followable(&"(${|90)".repeat(17)));
    assert!(is_followable(&format!("{}90", "[4]".repeat(300))));
    assert!(is_followable(&format!("{}90", "[3-4]".repeat(127))));
    assert!(!is_followable(&format!("{}90", "[0-1]".repeat(128))));
    assert!(is_followable("e8 [0-16383] [5-9] 90"));
    assert!(!is_followable("e8 [0-16383] [4-9] 90"));
    assert!(!is_followable(&format!("{}90", "[0-16383]".repeat(6))));
    assert!(!is_followable("[9-9] 90"));
    assert!(is_followable("\"[0-99999]\""));
}

#[test]
fn a_plan_follows_the_site() {
    match plan_for(Site::At(0x40), vec![1, 2]) {
        PatchPlan::Write { at, bytes } => assert_eq!((at, bytes), (0x40, vec![1, 2])),
        PatchPlan::Skip(line) => panic!("{}", line.text),
    }
    let skip = site_after_scan("p", Scan::NotAnImage, &vec![0u8; 4], 0, 0);
    assert!(matches!(plan_for(skip, vec![1]), PatchPlan::Skip(_)));
}

#[test]
fn the_outcome_of_a_patch_is_told() {
    let ok = nop_result("skip", 2, &Ok(vec![0x74, 0x10]));
    assert_eq!(ok.level, Level::Info);
    assert_eq!(ok.text, "patched 'skip': [74, 10] -> NOP×2");
    let failed = nop_result("skip", 2, &Err("denied".to_string()));
    assert_eq!(failed.level, Level::Error);
    assert_eq!(failed.text, "patch 'skip' write failed: denied");
    let other = overwrite_result("off", &vec![0x31, 0xc0], &Ok(vec![0x0f, 0x94]));
    assert_eq!(other.text, "patched 'off': [0F, 94] -> [31, C0]");
    let failed = overwrite_result("off", &vec![0x31], &Err("denied".to_string()));
    assert_eq!((failed.level, failed.text.as_str()), (Level::Error, "patch 'off' write failed: denied"));
}

#[test]
fn phases_are_parsed_whatever_their_case() {
    assert_eq!(Phase::parse(" Repro "), Some(Phase::Repro));
    assert_eq!(Phase::parse("INLINE"), Some(Phase::Repro));
    assert_eq!(Phase::parse("iat"), Some(Phase::Iat));
    assert_eq!(Phase::parse("survival"), Some(Phase::Iat));
    assert_eq!(Phase::parse("\tSurvive\n"), Some(Phase::Iat));
    assert_eq!(Phase::parse("rep ro"), None);
    assert_eq!(Phase::parse(""), None);
}

#[test]
fn bytes_are_shown_in_pairs() {
    assert_eq!(hex(&vec![]), "");
    assert_eq!(hex(&vec![0x0f]), "0f");
    assert_eq!(hex(&vec![0x48, 0x89, 0x5c, 0x24, 0x08]), "48 89 5c 24 08");
}

#[test]
fn jumps_hit_their_targets() {
    let code = abs_jmp(0x1122_3344_5566_7788);
    assert_eq!(
        code,
        vec![0xff, 0x25, 0, 0, 0, 0, 0x88, 0x77, 0x66, 0x55, 0x44, 0x33, 0x22, 0x11]
    );
    assert_eq!(rel32_jmp(0x1000, 0x1005), vec![0xe9, 0, 0, 0, 0]);
    assert_eq!(rel32_jmp(0x1000, 0x2000), vec![0xe9, 0xfb, 0x0f, 0, 0]);
    assert_eq!(rel32_jmp(0x2000, 0x1000), vec![0xe9, 0xfb, 0xef, 0xff, 0xff]);
    let back = rel32_jmp(0x7fff_0000_0000, 0x7ffe_9000_0000);
    let distance = i32::from_le_bytes([back[1], back[2], back[3], back[4]]) as i64;
    assert_eq!(0x7fff_0000_0000 + 5 + distance, 0x7ffe_9000_0000);
}

#[test]
fn a_trampoline_runs_the_prologue_and_jumps_past_it() {
    let code = trampoline(&vec![1, 2, 3, 4, 5], 0x1000);
    assert_eq!(code.len(), 19);
    assert_eq!(&code[..5], &[1, 2, 3, 4, 5]);
    assert_eq!(&code[5..], &abs_jmp(0x1005)[..]);
    let patch = colliding_patch(0x1000, 0x2000);
    assert_eq!(&patch[..5], &rel32_jmp(0x1000, 0x2000)[..]);
    assert_eq!(&patch[5..], &[0x48, 0x8b, 0x04, 0x25, 0, 0, 0, 0]);
}

#[test]
fn memory_is_looked_for_on_both_sides() {
    let near = 0x7ff0_1234_5678u64;
    let places = near_candidates(near);
    assert_eq!(places.len(), 2 * 0x3fff);
    assert_eq!(places[0], 0x7ff0_1233_0000);
    assert_eq!(places[1], 0x7ff0_1235_0000);
    for p in &places {
        assert_eq!(p % GRANULE, 0);
        assert!((*p as i64 - near as i64).abs() < 0x4001_0000);
    }
}

#[test]
fn another_prologue_is_warned_of() {
    assert!(prologue_warning(&vec![0x48, 0x89, 0x5c, 0x24, 0x08]).is_none());
    let line = prologue_warning(&vec![0x90, 0x89, 0x5c, 0x24, 0x08]).unwrap();
    assert_eq!(line.level, Level::Warn);
    assert!(line.text.starts_with("xinput: [second hooker] prologue [90 89 5c 24 08] != expected"));
}

fn desc(dll: Option<&str>, entries: Option<Vec<ImportEntry>>) -> ImportDesc {
    ImportDesc { dll: dll.map(|d| d.to_string()), first_thunk: 0x3000, entries }
}

#[test]
fn the_first_slot_of_the_query_is_found() {
    let imports = vec![
        desc(None, Some(vec![ImportEntry::ByName("XInputGetState".to_string())])),
        desc(Some("kernel32.dll"), Some(vec![ImportEntry::ByOrdinal(2)])),
        desc(Some("xinput1_4.dll"), None),
        desc(
            Some("XINPUT1_4.dll"),
            Some(vec![
                ImportEntry::Unreadable,
                ImportEntry::ByName("xinputgetstate".to_string()),
                ImportEntry::ByOrdinal(2),
                ImportEntry::ByName("XInputGetState".to_string()),
            ]),
        ),
    ];
    assert_eq!(find_slot(&imports), Some((3, 2)));
    assert_eq!(slot_offset(0x3000, 2), 0x3010);
    assert_eq!(find_slot(&vec![]), None);
}

fn put_text(image: &mut Vec<u8>, at: usize, text: &str) {
    image[at..at + text.len()].copy_from_slice(text.as_bytes());
}

/// An image that imports one function by name from a first library, and from `dll` one by name, one by
/// ordinal 7 and `XInputGetState`.
fn importing_image(dll: &str) -> Vec<u8> {
    let mut image = bare_image();
    put32(&mut image, 0x80 + 132, 16);
    put32(&mut image, 0x80 + 144, 0x200);
    put32(&mut image, 0x200, 0x240);
    put32(&mut image, 0x20c, 0x300);
    put32(&mut image, 0x210, 0x250);
    put32(&mut image, 0x214, 0x260);
    put32(&mut image, 0x220, 0x310);
    put32(&mut image, 0x224, 0x280);
    put32(&mut image, 0x240, 0x320);
    put32(&mut image, 0x250, 0x320);
    put32(&mut image, 0x260, 0x340);
    put32(&mut image, 0x268, 7);
    put32(&mut image, 0x26c, 0x8000_0000);
    put32(&mut image, 0x270, 0x360);
    put32(&mut image, 0x280, 0x340);
    put32(&mut image, 0x288, 7);
    put32(&mut image, 0x290, 0x360);
    put_text(&mut image, 0x300, "kernel32.dll");
    put_text(&mut image, 0x310, dll);
    put_text(&mut image, 0x322, "XInputGetState");
    put_text(&mut image, 0x342, "XInputSetState");
    put_text(&mut image, 0x362, "XInputGetState");
    image
}

#[test]
fn the_slot_is_found_in_an_image() {
    assert!(matches!(locate_slot(&importing_image("XInput1_4.dll")), SlotScan::At(0x290)));
    assert!(matches!(locate_slot(&importing_image("xinput1_3.dll")), SlotScan::NotImported));
    let mut by_ordinal = importing_image("XInput1_4.dll");
    put32(&mut by_ordinal, 0x268, 2);
    assert!(matches!(locate_slot(&by_ordinal), SlotScan::At(0x288)));
}

#[test]
fn an_image_without_imports_has_no_slot() {
    match locate_slot(&bare_image()) {
        SlotScan::NoDirectory(why) => assert_eq!(why, pelite::Error::Bounds.to_string()),
        other => panic!("{:?}", other),
    }
    let mut null = importing_image("XInput1_4.dll");
    put32(&mut null, 0x80 + 144, 0);
    match locate_slot(&null) {
        SlotScan::NoDirectory(why) => assert_eq!(why, pelite::Error::Null.to_string()),
        other => panic!("{:?}", other),
    }
    assert!(matches!(locate_slot(&vec![0u8; 8]), SlotScan::NotRead));
    let mut off = importing_image("XInput1_4.dll");
    put32(&mut off, 0x214, 0x264);
    assert!(matches!(locate_slot(&off), SlotScan::NotImported));
}

#[test]
fn a_library_with_misplaced_tables_is_passed_over() {
    let mut image = importing_image("XInput1_4.dll");
    put_text(&mut image, 0x300, "xinput1_4.dll");
    assert!(matches!(locate_slot(&image), SlotScan::At(0x250)));
    put32(&mut image, 0x200, 0x244);
    assert!(matches!(locate_slot(&image), SlotScan::At(0x290)));
}

#[test]
fn the_slot_follows_from_what_was_read() {
    assert!(matches!(slot_after_read(TableRead::NotRead), SlotScan::NotRead));
    match slot_after_read(TableRead::NoDirectory("null".to_string())) {
        SlotScan::NoDirectory(why) => assert_eq!(why, "null"),
        other => panic!("{:?}", other),
    }
    let none = TableRead::Libraries(vec![desc(Some("kernel32.dll"), None)]);
    assert!(matches!(slot_after_read(none), SlotScan::NotImported));
    let entries = vec![ImportEntry::Unreadable, ImportEntry::ByOrdinal(2)];
    let some = TableRead::Libraries(vec![desc(Some("xinput1_4.dll"), Some(entries))]);
    assert!(matches!(slot_after_read(some), SlotScan::At(0x3008)));
}

#[test]
fn the_experiment_tells_what_it_does() {
    assert_eq!(
        entry_line(0x7ff0_0000_9a60, 0x7ff0_0000_0000).text,
        "xinput: XInputGetState @ 0x7ff000009a60 | XINPUT1_4.dll base 0x7ff000000000 | RVA 0x9a60 | entry+5 RVA 0x9a65 (WER P8 was 0x9a65)"
    );
    assert_eq!(
        phase_failed_line(Phase::Iat, "boom").text,
        "xinput: phase Iat panicked during setup: boom (backtrace in run-out.txt)"
    );
    assert_eq!(
        swapped_line(0x10, 0x20, 0x30).text,
        "xinput: [our IAT hook] swapped harness IAT slot 0x10 (0x20 -> 0x30)"
    );
    assert!(missing_slot(&SlotScan::At(1)).is_empty());
    assert_eq!(missing_slot(&SlotScan::NotImported).len(), 1);
    let lines = missing_slot(&SlotScan::NoDirectory("null".to_string()));
    assert_eq!(lines.len(), 2);
    assert_eq!(lines[0].text, "xinput: harness has no import directory: null");
    assert!(survived_line(1167).text.contains("10 polls (last rc 1167)"));
    assert!(survival_line(2, 0).is_none());
    assert_eq!(
        survival_line(10, 1167).unwrap().text,
        "xinput: [survival] IAT poll #10 returned 1167"
    );
    assert!(slot_call_line(4, 0).is_none());
    assert!(slot_call_line(3, 0).is_some());
}
