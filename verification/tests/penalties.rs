use unseamless_coop::features::death_debuffs;
use unseamless_coop::features::death_debuffs::{
    apply_active_tiers, census, cleanup_settled, differing_words, heal_actions, heals, icon_line,
    mint_candidates, mint_line, neutralize_side_effects, on_death, on_grace, owned_rows,
    player_is_dead, probe_log_intended_writes, row_of_tier, self_heal, word_line, write_back_line,
    write_tier_row, ActiveTier, DeathDebuffsFeature, EffectRow, Health, ProbeTier, RowAction,
    TierRates, WordTexts, CLEANUP_DONE, CLEANUP_PENDING, PERMANENT_ENDURANCE, RATE_ONE,
};
use unseamless_coop::features::scaling;
use unseamless_coop::features::scaling::{
    correction_row_classes, describe, plan_stamp, probe_param_map, stamped, Category, Clients,
    EffectRates, ProbeRow, Scaling, ScalingFeature, Target,
};
use unseamless_coop::features::spectate::{
    aim_death_cam, candidates, clear_death_cam_target, probe_line, reset_chr_cam, CamType,
    Candidate, ChrCam, MainState, PlayerChr, SpectateFeature, SpectatePhase, ENTERING, NO_PARTNER,
};
use unseamless_coop::levels::Level;

#[test]
fn each_tier_has_its_row() {
    assert_eq!(row_of_tier(1), 7210);
    assert_eq!(row_of_tier(5), 7250);
    assert_eq!(owned_rows(), vec![7210, 7220, 7230, 7240, 7250]);
    assert!(death_debuffs::rows_defined());
}

#[test]
fn death_is_told_from_filled_in_data() {
    assert_eq!(player_is_dead(None), None);
    assert_eq!(player_is_dead(Some(Health { hp: 0, max_hp: 0 })), Some(false));
    assert_eq!(player_is_dead(Some(Health { hp: 1, max_hp: 10 })), Some(false));
    assert_eq!(player_is_dead(Some(Health { hp: 0, max_hp: 10 })), Some(true));
    assert_eq!(player_is_dead(Some(Health { hp: -3, max_hp: 10 })), Some(true));
}

fn dirty_row(n: i32) -> EffectRow {
    EffectRow {
        regist_change_rate: [n as u32; 7],
        attack_power_rate: [n as u32; 11],
        status_attack_power: [n; 7],
        vfx_id: [n; 8],
        add_foot_effect_sfx_id: n,
        chained_id: [n; 5],
        icon_id: n,
        effect_endurance: n as u32,
        stamina_recover_change_speed: n,
        max_hp_rate: n as u32,
        max_mp_rate: n as u32,
        max_stamina_rate: n as u32,
        have_soul_rate: n as u32,
        item_drop_rate: n as u32,
        state_info: n as u16,
        diffence_rate: [n as u32; 5],
        attack_rate: [n as u32; 5],
    }
}

fn rates(affects_item_drop: bool) -> TierRates {
    TierRates {
        stamina_recover_change_speed: -5,
        max_hp_rate: 1,
        max_fp_rate: 2,
        max_stamina_rate: 3,
        have_soul_rate: 4,
        item_drop_rate: 5,
        affects_item_drop,
        defence_rate: 6,
        attack_rate: 7,
    }
}

#[test]
fn scrubbing_a_row_leaves_the_overlay() {
    let mut row = dirty_row(9);
    neutralize_side_effects(&mut row);
    assert_eq!(row.regist_change_rate, [RATE_ONE; 7]);
    assert_eq!(RATE_ONE, 1.0f32.to_bits());
    assert_eq!(row.attack_power_rate, [RATE_ONE; 11]);
    assert_eq!(row.status_attack_power, [0; 7]);
    assert_eq!(row.vfx_id, [-1; 8]);
    assert_eq!(row.chained_id, [-1; 5]);
    assert_eq!(row.icon_id, 9);
    assert_eq!(row.max_hp_rate, 9);
    assert_eq!(row.attack_rate, [9; 5]);
}

#[test]
fn a_written_row_is_the_tier_alone() {
    let mut a = dirty_row(9);
    let mut b = dirty_row(3);
    assert!(write_tier_row(Some(&mut a), rates(true), Some(42)));
    assert!(write_tier_row(Some(&mut b), rates(true), Some(42)));
    assert_eq!(format!("{:?}", a), format!("{:?}", b));
    assert_eq!(a.icon_id, 42);
    assert_eq!(a.effect_endurance, PERMANENT_ENDURANCE);
    assert_eq!(PERMANENT_ENDURANCE, (-1.0f32).to_bits());
    assert_eq!(a.state_info, 66);
    assert_eq!(a.max_mp_rate, 2);
    assert_eq!(a.diffence_rate, [6; 5]);
    assert!(write_tier_row(Some(&mut b), rates(false), None));
    assert_eq!(b.icon_id, -1);
    assert_eq!(b.state_info, 0);
    assert!(!write_tier_row(None, rates(true), Some(42)));
}

#[test]
fn removal_is_tried_until_a_player_was_there() {
    let mut feature = DeathDebuffsFeature::new();
    assert!(feature.on_cleanup(true).is_none());
    assert!(feature.on_switch(false).is_none());
    assert!(feature.on_switch(true).is_none());
    assert!(!feature.pending_disable_cleanup);
    assert_eq!(feature.on_switch(false).unwrap().text, CLEANUP_PENDING);
    assert!(feature.on_switch(false).is_none());
    assert!(feature.on_cleanup(false).is_none());
    assert!(feature.pending_disable_cleanup);
    assert_eq!(feature.on_cleanup(true).unwrap().text, CLEANUP_DONE);
    assert!(!feature.pending_disable_cleanup);
    assert!(feature.on_cleanup(true).is_none());
    assert!(cleanup_settled(&vec![]));
    assert!(cleanup_settled(&vec![false, true]));
    assert!(!cleanup_settled(&vec![true, false]));
    assert!(heals(false, true));
    assert!(!heals(true, true));
    assert!(!heals(false, false));
}

fn tiers() -> Vec<ActiveTier> {
    vec![
        ActiveTier { level: 1, label: "Frailty".to_owned(), rates: "hp x0.9".to_owned() },
        ActiveTier { level: 3, label: "Despair".to_owned(), rates: "atk x0.8".to_owned() },
    ]
}

#[test]
fn tiers_are_taken_off_before_they_are_put_on() {
    let plan = apply_active_tiers(&tiers(), &vec![true, false], "1.50");
    assert_eq!(plan.actions, vec![RowAction::Remove(7210), RowAction::Apply(7210)]);
    let texts: Vec<&str> = plan.lines.iter().map(|l| l.text.as_str()).collect();
    assert_eq!(
        texts,
        vec![
            "death debuffs: tier Frailty @intensity 1.50 -> hp x0.9 (row 7210)",
            "death debuffs: tier Despair @intensity 1.50 -> atk x0.8 (row 7230)",
            "death debuffs: SpEffectParam row 7230 not writable (param repo not live?); skipped apply",
        ]
    );
}

#[test]
fn only_dropped_rows_are_put_back() {
    let plan = self_heal(&tiers(), Some(&vec![1, 7210, 2]));
    assert_eq!(plan.missing, vec![1]);
    assert_eq!(
        plan.lines[0].text,
        "death debuffs: self-heal re-applying Despair (row 7230) — game dropped it across a load"
    );
    assert!(self_heal(&tiers(), None).missing.is_empty());
    assert_eq!(self_heal(&tiers(), Some(&vec![])).missing, vec![0, 1]);
    assert_eq!(heal_actions(3, true), vec![RowAction::Remove(7230), RowAction::Apply(7230)]);
    assert!(heal_actions(3, false).is_empty());
}

#[test]
fn what_is_said_of_a_death_and_of_a_rest() {
    let step = on_death(2, 1, "1.00", Some("Frailty"), true);
    assert_eq!(
        step.line.text,
        "death debuffs: death #2 -> 1 tier(s) active, intensity 1.00"
    );
    assert_eq!(step.toast.unwrap().message, "Afflicted by Frailty");
    assert_eq!(on_death(2, 1, "1.00", None, true).toast.unwrap().message, "Your afflictions deepen");
    assert!(on_death(2, 1, "1.00", None, false).toast.is_none());
    let step = on_grace(true);
    assert_eq!(step.line.unwrap().text, "death debuffs: cured at grace");
    assert_eq!(step.toast.unwrap().message, "Afflictions cleansed");
    assert!(on_grace(false).line.is_none());
}

#[test]
fn the_dump_of_intended_writes() {
    let tiers = vec![ProbeTier {
        level: 2,
        label: "Greed".to_owned(),
        rates: "runes x0.5".to_owned(),
        affects_item_drop: true,
    }];
    let lines = probe_log_intended_writes("startup", 3, 1, "1.00", &tiers, "-1");
    assert_eq!(lines.len(), 3);
    assert_eq!(
        lines[0].text,
        "death-debuffs probe (startup): deaths=3 active_tiers=1 intensity=1.00 rows_defined=true"
    );
    assert_eq!(
        lines[1].text,
        "death-debuffs probe:   Greed -> row 7220: effect_endurance=-1 state_info=66 runes x0.5"
    );
    assert!(lines[2].text.starts_with("death-debuffs probe: grace cure flag = 9000 (0 = UNSET"));
}

#[test]
fn what_is_told_of_the_table() {
    assert!(census(&vec![]).is_none());
    assert_eq!(
        census(&vec![5, 7, 9]).unwrap().text,
        "death-debuffs probe: SpEffectParam = 3 rows, id range 5..=9; highest ids [9, 7, 5] (pick a verified-unused one to repurpose)"
    );
    let many: Vec<u32> = (1..=20).collect();
    assert!(census(&many)
        .unwrap()
        .text
        .contains("highest ids [20, 19, 18, 17, 16, 15, 14, 13, 12, 11, 10, 9] "));
    assert_eq!(
        icon_line(None).text,
        "death-debuffs probe: debuff icon_id = -1 (from source row 6860)"
    );
    assert_eq!(
        write_back_line(9, true).text,
        "death-debuffs probe: mutate existing row 9: write-back stuck = true (restored)"
    );
    assert_eq!(mint_candidates(), vec![7400000, 9000000, 9999999]);
    assert_eq!(
        mint_line(7400000, false).text,
        "death-debuffs probe: mint candidate id 7400000: get_mut -> None (absent — get_mut can't mint it; repurpose an existing row instead)"
    );
    assert_eq!(differing_words(&vec![0, 0, 0, 0, 1, 2, 3, 4, 9], &vec![0, 0, 0, 0, 1, 2, 3, 5, 8]), vec![1]);
    let texts = WordTexts {
        clean: 0,
        clean_point: "0".to_owned(),
        dirty: -1,
        dirty_point: "NaN".to_owned(),
    };
    assert_eq!(
        word_line(5, &texts).text,
        "  @0x014 (20): template i32=0 f32=0 | dirty i32=-1 f32=NaN"
    );
}

#[test]
fn the_rows_that_are_scaled() {
    let rows = correction_row_classes();
    assert_eq!(rows.len(), 38);
    assert_eq!(rows[4].row, 10000200);
    assert_eq!(rows[4].category, Category::Enemy);
    assert_eq!(rows[5].row, 300);
    assert_eq!(rows[5].category, Category::Boss);
    assert_eq!(rows[37].row, 10000400);
    assert!(scaling::rows_defined());
}

#[test]
fn every_effect_is_written_once_for_its_number_of_players() {
    let mut found: Vec<Option<Clients>> = vec![Some(Clients { one: 0, two: 0, three: -1 }); 38];
    found[0] = Some(Clients { one: 10, two: 11, three: 12 });
    found[5] = Some(Clients { one: 10, two: 20, three: 0 });
    found[1] = None;
    let plan = plan_stamp(&found);
    assert_eq!(
        plan.targets,
        vec![
            Target { sp_effect: 10, category: Category::Enemy, players: 2 },
            Target { sp_effect: 11, category: Category::Enemy, players: 3 },
            Target { sp_effect: 12, category: Category::Enemy, players: 4 },
            Target { sp_effect: 20, category: Category::Boss, players: 3 },
        ]
    );
    assert_eq!(plan.lines.len(), 1);
    assert_eq!(
        plan.lines[0].text,
        "scaling: MultiPlayCorrectionParam row 100 not found; skipping"
    );
    let out = stamped(&plan.targets, &vec![true, false, true, true]);
    assert_eq!(out.written, 3);
    assert_eq!(
        out.lines[0].text,
        "scaling: SpEffectParam 11 (referenced by a correction row) not found; skipping"
    );
}

fn some_scaling(enemy_health: u32) -> Scaling {
    Scaling {
        enemy_health,
        enemy_damage: 5,
        enemy_posture: 10,
        boss_health: 60,
        boss_damage: 7,
        boss_posture: 20,
    }
}

#[test]
fn when_a_pass_is_due_and_what_it_says() {
    let mut feature = ScalingFeature::new();
    let s = some_scaling(35);
    assert_eq!(
        describe(&s),
        "enemy hp+35%/dmg+5%/pos+10% boss hp+60%/dmg+7%/pos+20% per extra player"
    );
    assert!(feature.stamp_due(s, None, false));
    assert!(feature.on_stamp(s, Some(2), None).line.is_none());
    assert!(feature.stamp_due(s, None, false));
    let said = feature.on_stamp(s, Some(2), Some(4));
    assert!(said.line.unwrap().text.starts_with("scaling applied to 4 SpEffect row(s): enemy hp+35%"));
    assert!(said.toast.is_none());
    assert!(!feature.stamp_due(s, Some(2), false));
    assert!(!feature.stamp_due(s, None, false));
    assert!(feature.stamp_due(s, Some(3), false));
    assert!(feature.stamp_due(s, Some(2), true));
    let said = feature.on_stamp(s, None, Some(4));
    let line = said.line.unwrap();
    assert_eq!(line.level, Level::Debug);
    assert_eq!(line.text, "scaling re-asserted (4 row(s); party=None)");
    let said = feature.on_stamp(some_scaling(40), Some(3), Some(4));
    assert_eq!(said.toast.unwrap().message, "Co-op scaling updated");
}

#[test]
fn the_probe_of_the_correction_table() {
    let r = EffectRates {
        max_hp: "1.500".to_owned(),
        physics: "1.100".to_owned(),
        magic: "1.000".to_owned(),
        fire: "1.000".to_owned(),
        thunder: "1.000".to_owned(),
        dark: "1.000".to_owned(),
        toughness_cut: "0.900".to_owned(),
        sa_receive: "0.800".to_owned(),
    };
    let rows = vec![ProbeRow {
        row: 300,
        clients: Clients { one: 7, two: -1, three: 8 },
        overrides: 1,
        one: Some(r),
        two: None,
        three: None,
    }];
    let lines = probe_param_map(&rows);
    assert_eq!(lines.len(), 3);
    assert_eq!(
        lines[1].text,
        "scaling-probe: correction row 300: client1=7 client2=-1 client3=8 b_override=1"
    );
    assert_eq!(
        lines[2].text,
        "scaling-probe:   speffect 7: max_hp_rate=1.500 phys_atk_pow_rate=1.100 mag=1.000 fire=1.000 thunder=1.000 dark=1.000 toughness_cut=0.900 sa_receive=0.800"
    );
}

fn fresh_cam() -> ChrCam {
    ChrCam { death_cam_target: Some(9), camera_type: CamType::Other(3), request_camera_reset: false }
}

#[test]
fn the_camera_and_its_target() {
    let mut cam = fresh_cam();
    clear_death_cam_target(&mut cam);
    assert_eq!(cam.death_cam_target, None);
    assert_eq!(cam.camera_type, CamType::Other(3));
    aim_death_cam(&mut cam, Some(4));
    assert_eq!(cam.death_cam_target, Some(4));
    assert_eq!(cam.camera_type, CamType::Death);
    aim_death_cam(&mut cam, None);
    assert_eq!(cam.death_cam_target, None);
    assert_eq!(cam.camera_type, CamType::Death);
    reset_chr_cam(&mut cam);
    assert_eq!(cam.camera_type, CamType::Follow);
    assert!(cam.request_camera_reset);
}

#[test]
fn oneself_is_never_a_candidate() {
    let chars = vec![
        PlayerChr { address: 1, dead: true },
        PlayerChr { address: 2, dead: false },
        PlayerChr { address: 3, dead: true },
    ];
    assert_eq!(
        candidates(&chars, 1),
        vec![Candidate { id: 2, alive: true }, Candidate { id: 3, alive: false }]
    );
}

#[test]
fn a_death_is_followed_until_the_revival() {
    let mut feature = SpectateFeature::new();
    let mut cam = fresh_cam();
    assert!(feature.on_switch(true, Some(&mut cam)).is_none());
    let alive = Some(MainState { address: 1, dead: false });
    let dead = Some(MainState { address: 1, dead: true });
    assert_eq!(feature.start(alive, false, Some(&mut cam)).phase, SpectatePhase::Idle);
    let start = feature.start(dead, true, Some(&mut cam));
    assert_eq!(start.phase, SpectatePhase::Spectating);
    assert!(start.probe);
    assert_eq!(start.line.unwrap().text, ENTERING);
    let list = vec![Candidate { id: 0x20, alive: true }, Candidate { id: 0x30, alive: false }];
    let line = feature.follow(&list, Some(0x20), Some(&mut cam)).unwrap();
    assert_eq!(line.text, "spectate: following partner 0x20 (1 living of 2)");
    assert_eq!(cam.death_cam_target, Some(0x20));
    assert!(feature.follow(&list, Some(0x20), Some(&mut cam)).is_none());
    assert_eq!(feature.start(None, false, Some(&mut cam)).phase, SpectatePhase::Hold);
    assert_eq!(cam.death_cam_target, None);
    assert!(feature.active);
    let line = feature.follow(&vec![], None, Some(&mut cam)).unwrap();
    assert_eq!(line.text, NO_PARTNER);
    let start = feature.start(alive, false, Some(&mut cam));
    assert_eq!(start.phase, SpectatePhase::Released);
    assert_eq!(start.line.unwrap().text, "spectate: released camera (revived)");
    assert_eq!(cam.camera_type, CamType::Follow);
    assert_eq!(feature.start(alive, false, Some(&mut cam)).phase, SpectatePhase::Idle);
    let start = feature.start(dead, true, Some(&mut cam));
    assert!(!start.probe);
}

#[test]
fn a_partner_who_left_is_not_aimed_at() {
    let mut feature = SpectateFeature::new();
    let mut cam = fresh_cam();
    let list = vec![Candidate { id: 5, alive: true }];
    assert!(feature.follow(&list, Some(6), Some(&mut cam)).is_some());
    assert_eq!(cam.death_cam_target, None);
}

#[test]
fn switching_off_while_spectating_hands_the_camera_back() {
    let mut feature = SpectateFeature::new();
    let mut cam = fresh_cam();
    let _ = feature.on_switch(true, Some(&mut cam));
    let _ = feature.start(Some(MainState { address: 1, dead: true }), true, Some(&mut cam));
    let line = feature.on_switch(false, Some(&mut cam)).unwrap();
    assert_eq!(line.text, "spectate: released camera (disabled)");
    assert!(cam.request_camera_reset && !feature.active);
    assert!(probe_line(true, 3).text.starts_with(
        "spectate probe (first death): chr_cam present=true, player_chr_set Active entries=3 (incl. self)."
    ));
}
