//! Scales enemies and bosses with the size of the party: which rows of the game's tables are written,
//! for how many players each, when they are written, and what is said about it.

use vstd::prelude::*;

use crate::features;
use crate::features::{held_announcement, Announcement, AnnouncementView};
use crate::levels;
use crate::levels::{lines_view, Level, LogLine, LogLineView};
use crate::text;
use crate::text::{dec, signed_dec};
use crate::util::{classified, Applied};

verus! {

/// Whose multipliers a row takes.
#[derive(Clone, Copy, Debug, PartialEq, Eq, Structural)]
pub enum Category {
    Enemy,
    Boss,
}

/// A row of the correction table, and whose multipliers its effects take.
#[derive(Clone, Copy, Debug, PartialEq, Eq, Structural)]
pub struct RowClass {
    pub row: u32,
    pub category: Category,
}

/// A row of ordinary enemies.
pub open spec fn enemy(row: u32) -> RowClass {
    RowClass { row, category: Category::Enemy }
}

/// A row of bosses.
pub open spec fn boss(row: u32) -> RowClass {
    RowClass { row, category: Category::Boss }
}

/// The rows that are scaled.
pub open spec fn row_classes() -> Seq<RowClass> {
    seq![
        enemy(0),
        enemy(100),
        enemy(200),
        enemy(10000100),
        enemy(10000200),
        boss(300),
        boss(400),
        boss(203000),
        boss(203100),
        boss(211000),
        boss(212000),
        boss(213000),
        boss(219000),
        boss(219200),
        boss(305000),
        boss(325000),
        boss(325100),
        boss(325200),
        boss(356000),
        boss(357000),
        boss(451000),
        boss(452000),
        boss(465000),
        boss(467000),
        boss(468000),
        boss(471000),
        boss(472000),
        boss(472100),
        boss(473000),
        boss(475000),
        boss(476000),
        boss(480000),
        boss(491000),
        boss(495000),
        boss(496000),
        boss(498000),
        boss(10000300),
        boss(10000400),
    ]
}

fn enemy_row(row: u32) -> (c: RowClass)
    ensures
        c == enemy(row),
{
    RowClass { row, category: Category::Enemy }
}

fn boss_row(row: u32) -> (c: RowClass)
    ensures
        c == boss(row),
{
    RowClass { row, category: Category::Boss }
}

/// The rows that are scaled.
pub fn correction_row_classes() -> (rows: Vec<RowClass>)
    ensures
        rows@ == row_classes(),
{
    let rows: Vec<RowClass> = vec![
        enemy_row(0),
        enemy_row(100),
        enemy_row(200),
        enemy_row(10000100),
        enemy_row(10000200),
        boss_row(300),
        boss_row(400),
        boss_row(203000),
        boss_row(203100),
        boss_row(211000),
        boss_row(212000),
        boss_row(213000),
        boss_row(219000),
        boss_row(219200),
        boss_row(305000),
        boss_row(325000),
        boss_row(325100),
        boss_row(325200),
        boss_row(356000),
        boss_row(357000),
        boss_row(451000),
        boss_row(452000),
        boss_row(465000),
        boss_row(467000),
        boss_row(468000),
        boss_row(471000),
        boss_row(472000),
        boss_row(472100),
        boss_row(473000),
        boss_row(475000),
        boss_row(476000),
        boss_row(480000),
        boss_row(491000),
        boss_row(495000),
        boss_row(496000),
        boss_row(498000),
        boss_row(10000300),
        boss_row(10000400),
    ];
    assert(rows@ =~= row_classes());
    rows
}

/// Whether any rows are scaled at all.
pub fn rows_defined() -> (yes: bool)
    ensures
        yes == (row_classes().len() != 0),
{
    correction_row_classes().len() != 0
}

/// The effects that a correction row refers to, for one, two and three additional players.
#[derive(Clone, Copy, Debug, PartialEq, Eq, Structural)]
pub struct Clients {
    pub one: i32,
    pub two: i32,
    pub three: i32,
}

/// An effect to write: with the multipliers of a category for a number of players.
#[derive(Clone, Copy, Debug, PartialEq, Eq, Structural)]
pub struct Target {
    pub sp_effect: i32,
    pub category: Category,
    pub players: u32,
}

/// The target of one column; an effect that is not a positive number stands for none.
pub open spec fn column_target(sp_effect: i32, category: Category, players: u32) -> Seq<Target> {
    if sp_effect > 0 {
        seq![Target { sp_effect, category, players }]
    } else {
        Seq::empty()
    }
}

/// The targets of one row: the column for so many additional players counts one player more.
pub open spec fn row_targets(category: Category, clients: Clients) -> Seq<Target> {
    column_target(clients.one, category, 2) + column_target(clients.two, category, 3)
        + column_target(clients.three, category, 4)
}

/// The targets of the first `n` rows; a row that is not in the table has none.
pub open spec fn all_targets(
    classes: Seq<RowClass>,
    found: Seq<Option<Clients>>,
    n: nat,
) -> Seq<Target>
    decreases n,
{
    if n == 0 {
        Seq::empty()
    } else {
        let before = all_targets(classes, found, (n - 1) as nat);
        match found[n - 1] {
            Some(clients) => before + row_targets(classes[n - 1].category, clients),
            None => before,
        }
    }
}

/// Whether an effect is among targets.
pub open spec fn names(targets: Seq<Target>, sp_effect: i32) -> bool {
    exists|i: int| 0 <= i < targets.len() && (#[trigger] targets[i]).sp_effect == sp_effect
}

/// The first `n` targets, each effect only where it comes first.
pub open spec fn first_of_each(targets: Seq<Target>, n: nat) -> Seq<Target>
    decreases n,
{
    if n == 0 {
        Seq::empty()
    } else {
        let before = first_of_each(targets, (n - 1) as nat);
        if names(before, targets[n - 1].sp_effect) {
            before
        } else {
            before.push(targets[n - 1])
        }
    }
}

/// The line on a row that is not in the table.
pub open spec fn missing_row_line(row: u32) -> LogLineView {
    LogLineView {
        level: Level::Debug,
        text: "scaling: MultiPlayCorrectionParam row "@ + dec(row as nat) + " not found; skipping"@,
    }
}

/// The lines on the rows among the first `n` that are not in the table.
pub open spec fn missing_rows(
    classes: Seq<RowClass>,
    found: Seq<Option<Clients>>,
    n: nat,
) -> Seq<LogLineView>
    decreases n,
{
    if n == 0 {
        Seq::empty()
    } else {
        let before = missing_rows(classes, found, (n - 1) as nat);
        if found[n - 1] is None {
            before.push(missing_row_line(classes[n - 1].row))
        } else {
            before
        }
    }
}

/// What is to be written.
#[derive(Debug)]
pub struct StampPlan {
    pub targets: Vec<Target>,
    pub lines: Vec<LogLine>,
}

fn push_column(list: &mut Vec<Target>, sp_effect: i32, category: Category, players: u32)
    ensures
        final(list)@ == old(list)@ + column_target(sp_effect, category, players),
{
    if sp_effect > 0 {
        list.push(Target { sp_effect, category, players });
        assert(list@ =~= old(list)@ + column_target(sp_effect, category, players));
    } else {
        assert(list@ =~= old(list)@ + column_target(sp_effect, category, players));
    }
}

fn names_effect(list: &Vec<Target>, sp_effect: i32) -> (yes: bool)
    ensures
        yes == names(list@, sp_effect),
{
    let mut i: usize = 0;
    while i < list.len()
        invariant
            i <= list@.len(),
            forall|j: int| 0 <= j < i ==> (#[trigger] list@[j]).sp_effect != sp_effect,
        decreases list@.len() - i,
    {
        if list[i].sp_effect == sp_effect {
            return true;
        }
        i = i + 1;
    }
    false
}

/// Plans what is written, given what was found for each scaled row: every effect that a row refers to,
/// once, with the absolute multipliers for its column's number of players. The order is that of the rows,
/// and of two rows that refer to one effect the first one counts.
pub fn plan_stamp(found: &Vec<Option<Clients>>) -> (plan: StampPlan)
    requires
        found@.len() == row_classes().len(),
    ensures
        ({
            let all = all_targets(row_classes(), found@, found@.len());
            &&& plan.targets@ == first_of_each(all, all.len())
            &&& lines_view(plan.lines@) == missing_rows(row_classes(), found@, found@.len())
        }),
        forall|k: int|
            0 <= k < plan.targets@.len() ==> 2 <= (#[trigger] plan.targets@[k]).players <= 4
                && plan.targets@[k].sp_effect > 0,
        forall|i: int|
            0 <= i < found@.len() && (#[trigger] found@[i]) is Some && found@[i]->0.one > 0 ==> names(
                plan.targets@,
                found@[i]->0.one,
            ),
{
    let classes = correction_row_classes();
    let mut all: Vec<Target> = Vec::new();
    let mut lines: Vec<LogLine> = Vec::new();
    assert(lines_view(lines@) =~= Seq::empty());
    let mut i: usize = 0;
    while i < found.len()
        invariant
            i <= found@.len(),
            classes@ == row_classes(),
            found@.len() == classes@.len(),
            all@ == all_targets(row_classes(), found@, i as nat),
            lines_view(lines@) == missing_rows(row_classes(), found@, i as nat),
        decreases found@.len() - i,
    {
        let ghost said = lines_view(lines@);
        let ghost before = all@;
        match found[i] {
            Some(clients) => {
                let category = classes[i].category;
                push_column(&mut all, clients.one, category, 2);
                push_column(&mut all, clients.two, category, 3);
                push_column(&mut all, clients.three, category, 4);
                assert(all@ =~= before + row_targets(category, clients));
            },
            None => {
                let mut out = "scaling: MultiPlayCorrectionParam row ".to_owned();
                out.append(text::dec_text(classes[i].row as u64).as_str());
                out.append(" not found; skipping");
                levels::push_line(&mut lines, Level::Debug, out);
                assert(lines_view(lines@) =~= said.push(
                    missing_row_line(row_classes()[i as int].row),
                ));
            },
        }
        i = i + 1;
    }
    let mut targets: Vec<Target> = Vec::new();
    let mut k: usize = 0;
    while k < all.len()
        invariant
            k <= all@.len(),
            targets@ == first_of_each(all@, k as nat),
        decreases all@.len() - k,
    {
        if !names_effect(&targets, all[k].sp_effect) {
            targets.push(all[k]);
        }
        k = k + 1;
    }
    proof {
        assert forall|k: int| 0 <= k < targets@.len() implies 2 <= (
        #[trigger] targets@[k]).players <= 4 && targets@[k].sp_effect > 0 by {
            a_column_counts_one_player_more(found@, k);
        }
        assert forall|i: int|
            0 <= i < found@.len() && (#[trigger] found@[i]) is Some && found@[i]->0.one
                > 0 implies names(targets@, found@[i]->0.one) by {
            every_column_of_a_found_row_is_written(found@, i);
        }
    }
    StampPlan { targets, lines }
}

/// No effect is written twice in one pass.
pub proof fn each_effect_is_written_once(targets: Seq<Target>, n: nat)
    requires
        n <= targets.len(),
    ensures
        forall|i: int, j: int|
            0 <= i < j < first_of_each(targets, n).len() ==> (#[trigger] first_of_each(
                targets,
                n,
            )[i]).sp_effect != (#[trigger] first_of_each(targets, n)[j]).sp_effect,
    decreases n,
{
    if n > 0 {
        each_effect_is_written_once(targets, (n - 1) as nat);
    }
}

/// Every effect that a scaled row refers to is written.
pub proof fn every_effect_is_written(targets: Seq<Target>, n: nat, k: int)
    requires
        n <= targets.len(),
        0 <= k < n,
    ensures
        names(first_of_each(targets, n), targets[k].sp_effect),
    decreases n,
{
    let before = first_of_each(targets, (n - 1) as nat);
    let now = first_of_each(targets, n);
    if k < n - 1 {
        every_effect_is_written(targets, (n - 1) as nat, k);
        let i = choose|i: int|
            0 <= i < before.len() && (#[trigger] before[i]).sp_effect == targets[k].sp_effect;
        assert(now[i].sp_effect == targets[k].sp_effect);
    } else if !names(before, targets[k].sp_effect) {
        assert(now[before.len() as int].sp_effect == targets[k].sp_effect);
    }
}

/// The line on an effect that is not in the table.
pub open spec fn missing_effect_line(sp_effect: i32) -> LogLineView {
    LogLineView {
        level: Level::Debug,
        text: "scaling: SpEffectParam "@ + signed_dec(sp_effect as int)
            + " (referenced by a correction row) not found; skipping"@,
    }
}

/// How many of the first `n` effects are in the table.
pub open spec fn written(present: Seq<bool>, n: nat) -> nat
    decreases n,
{
    if n == 0 {
        0
    } else {
        written(present, (n - 1) as nat) + (if present[n - 1] {
            1nat
        } else {
            0
        })
    }
}

/// The lines on the effects among the first `n` that are not in the table.
pub open spec fn missing_effects(targets: Seq<Target>, present: Seq<bool>, n: nat) -> Seq<LogLineView>
    decreases n,
{
    if n == 0 {
        Seq::empty()
    } else {
        let before = missing_effects(targets, present, (n - 1) as nat);
        if present[n - 1] {
            before
        } else {
            before.push(missing_effect_line(targets[n - 1].sp_effect))
        }
    }
}

/// What was written.
#[derive(Debug)]
pub struct Stamped {
    pub written: usize,
    pub lines: Vec<LogLine>,
}

/// Sums up a pass, given which of the effects were in the table and so were written.
pub fn stamped(targets: &Vec<Target>, present: &Vec<bool>) -> (out: Stamped)
    requires
        targets@.len() == present@.len(),
    ensures
        out.written as nat == written(present@, present@.len()),
        lines_view(out.lines@) == missing_effects(targets@, present@, present@.len()),
{
    let mut n: usize = 0;
    let mut lines: Vec<LogLine> = Vec::new();
    assert(lines_view(lines@) =~= Seq::empty());
    let mut i: usize = 0;
    while i < present.len()
        invariant
            i <= present@.len(),
            targets@.len() == present@.len(),
            n <= i,
            n as nat == written(present@, i as nat),
            lines_view(lines@) == missing_effects(targets@, present@, i as nat),
        decreases present@.len() - i,
    {
        let ghost said = lines_view(lines@);
        if present[i] {
            n = n + 1;
        } else {
            let mut out = "scaling: SpEffectParam ".to_owned();
            out.append(text::signed_text(targets[i].sp_effect as i64).as_str());
            out.append(" (referenced by a correction row) not found; skipping");
            levels::push_line(&mut lines, Level::Debug, out);
            assert(lines_view(lines@) =~= said.push(
                missing_effect_line(targets@[i as int].sp_effect),
            ));
        }
        i = i + 1;
    }
    Stamped { written: n, lines }
}

/// The configured scaling: what each additional player adds, in percent.
#[derive(Clone, Copy, Debug, PartialEq, Eq, Structural)]
pub struct Scaling {
    pub enemy_health: u32,
    pub enemy_damage: u32,
    pub enemy_posture: u32,
    pub boss_health: u32,
    pub boss_damage: u32,
    pub boss_posture: u32,
}

impl Scaling {
    /// The scaling in words.
    pub open spec fn words(self) -> Seq<char> {
        "enemy hp+"@ + dec(self.enemy_health as nat) + "%/dmg+"@ + dec(self.enemy_damage as nat)
            + "%/pos+"@ + dec(self.enemy_posture as nat) + "% boss hp+"@ + dec(
            self.boss_health as nat,
        ) + "%/dmg+"@ + dec(self.boss_damage as nat) + "%/pos+"@ + dec(self.boss_posture as nat)
            + "% per extra player"@
    }
}

/// The scaling in words.
pub fn describe(s: &Scaling) -> (out: String)
    ensures
        out@ == s.words(),
{
    let mut out = "enemy hp+".to_owned();
    out.append(text::dec_text(s.enemy_health as u64).as_str());
    out.append("%/dmg+");
    out.append(text::dec_text(s.enemy_damage as u64).as_str());
    out.append("%/pos+");
    out.append(text::dec_text(s.enemy_posture as u64).as_str());
    out.append("% boss hp+");
    out.append(text::dec_text(s.boss_health as u64).as_str());
    out.append("%/dmg+");
    out.append(text::dec_text(s.boss_damage as u64).as_str());
    out.append("%/pos+");
    out.append(text::dec_text(s.boss_posture as u64).as_str());
    out.append("% per extra player");
    out
}

/// The feature: the scaling and the number of players at the last pass that took.
#[derive(Clone, Copy, Debug, PartialEq, Eq, Structural)]
pub struct ScalingFeature {
    pub last_config: Option<Scaling>,
    pub last_count: Option<usize>,
}

/// An optional number as it is logged.
pub open spec fn opt_count(players: Option<usize>) -> Seq<char> {
    match players {
        Some(p) => "Some("@ + dec(p as nat) + ")"@,
        None => "None"@,
    }
}

fn opt_count_text(players: Option<usize>) -> (out: String)
    ensures
        out@ == opt_count(players),
{
    match players {
        Some(p) => {
            let mut out = "Some(".to_owned();
            out.append(text::dec_text(p as u64).as_str());
            out.append(")");
            out
        },
        None => "None".to_owned(),
    }
}

impl ScalingFeature {
    /// Nothing written yet.
    pub fn new() -> (feature: ScalingFeature)
        ensures
            feature == (ScalingFeature { last_config: None, last_count: None }),
    {
        ScalingFeature { last_config: None, last_count: None }
    }

    /// Whether a pass is due: the scaling changed, somebody joined or left, or it is time to write the
    /// rows again in case the game reset them. `players` is not known while there is no session manager.
    pub fn stamp_due(&self, scaling: Scaling, players: Option<usize>, heal: bool) -> (due: bool)
        ensures
            due == (self.last_config != Some(scaling) || (players is Some && self.last_count
                != players) || heal),
            heal ==> due,
            self.last_config is None ==> due,
            self.last_config matches Some(c) && c != scaling ==> due,
            players is Some && self.last_count != players ==> due,
            self.last_config == Some(scaling) && players is None && !heal ==> !due,
            self.last_config == Some(scaling) && players == self.last_count && !heal ==> !due,
    {
        let config_changed = match self.last_config {
            Some(c) => c != scaling,
            None => true,
        };
        let count_changed = match players {
            Some(p) => match self.last_count {
                Some(l) => l != p,
                None => true,
            },
            None => false,
        };
        config_changed || count_changed || heal
    }

    /// Follows up on a pass that wrote so many rows, or that could not be made (`None`: the tables are
    /// not loaded), after which nothing is remembered and the pass stays due.
    pub fn on_stamp(&mut self, scaling: Scaling, players: Option<usize>, rows: Option<usize>) -> (said:
        Announcement)
        ensures
            match rows {
                None => *final(self) == *old(self) && said@ == (AnnouncementView {
                    line: None,
                    toast: None,
                }),
                Some(n) => {
                    &&& *final(self) == (ScalingFeature {
                        last_config: Some(scaling),
                        last_count: if players is Some {
                            players
                        } else {
                            old(self).last_count
                        },
                    })
                    &&& said@ == (if old(self).last_config == Some(scaling) {
                        AnnouncementView {
                            line: Some(
                                LogLineView {
                                    level: Level::Debug,
                                    text: "scaling re-asserted ("@ + dec(n as nat)
                                        + " row(s); party="@ + opt_count(players) + ")"@,
                                },
                            ),
                            toast: None,
                        }
                    } else {
                        held_announcement(
                            classified(old(self).last_config, scaling),
                            "scaling applied to "@ + dec(n as nat) + " SpEffect row(s): "@
                                + scaling.words(),
                            "Co-op scaling updated"@,
                        )
                    })
                },
            },
    {
        let n: usize = match rows {
            None => {
                return Announcement { line: None, toast: None };
            },
            Some(n) => n,
        };
        let applied = match self.last_config {
            None => Applied::First,
            Some(c) => if c == scaling {
                Applied::Reasserted
            } else {
                Applied::Changed
            },
        };
        self.last_config = Some(scaling);
        match players {
            Some(_) => {
                self.last_count = players;
            },
            None => {},
        }
        match applied {
            Applied::Reasserted => {
                let mut out = "scaling re-asserted (".to_owned();
                out.append(text::dec_text(n as u64).as_str());
                out.append(" row(s); party=");
                out.append(opt_count_text(players).as_str());
                out.append(")");
                Announcement {
                    line: Some(LogLine { level: Level::Debug, text: out }),
                    toast: None,
                }
            },
            _ => {
                let mut info = "scaling applied to ".to_owned();
                info.append(text::dec_text(n as u64).as_str());
                info.append(" SpEffect row(s): ");
                info.append(describe(&scaling).as_str());
                features::announce_held(applied, info, "Co-op scaling updated".to_owned())
            },
        }
    }
}

/// What the game's tables hold of one effect, each rate with three decimals.
#[derive(Debug)]
pub struct EffectRates {
    pub max_hp: String,
    pub physics: String,
    pub magic: String,
    pub fire: String,
    pub thunder: String,
    pub dark: String,
    pub toughness_cut: String,
    pub sa_receive: String,
}

impl EffectRates {
    /// The rates in words.
    pub open spec fn words(self) -> Seq<char> {
        "max_hp_rate="@ + self.max_hp@ + " phys_atk_pow_rate="@ + self.physics@ + " mag="@
            + self.magic@ + " fire="@ + self.fire@ + " thunder="@ + self.thunder@ + " dark="@
            + self.dark@ + " toughness_cut="@ + self.toughness_cut@ + " sa_receive="@
            + self.sa_receive@
    }

    fn text(&self) -> (out: String)
        ensures
            out@ == self.words(),
    {
        let mut out = "max_hp_rate=".to_owned();
        out.append(self.max_hp.as_str());
        out.append(" phys_atk_pow_rate=");
        out.append(self.physics.as_str());
        out.append(" mag=");
        out.append(self.magic.as_str());
        out.append(" fire=");
        out.append(self.fire.as_str());
        out.append(" thunder=");
        out.append(self.thunder.as_str());
        out.append(" dark=");
        out.append(self.dark.as_str());
        out.append(" toughness_cut=");
        out.append(self.toughness_cut.as_str());
        out.append(" sa_receive=");
        out.append(self.sa_receive.as_str());
        out
    }
}

/// A row of the correction table as the probe finds it, with what is known of its effects.
#[derive(Debug)]
pub struct ProbeRow {
    pub row: u32,
    pub clients: Clients,
    pub overrides: u8,
    pub one: Option<EffectRates>,
    pub two: Option<EffectRates>,
    pub three: Option<EffectRates>,
}

/// The line on a row.
pub open spec fn probe_row_line(r: ProbeRow) -> LogLineView {
    LogLineView {
        level: Level::Info,
        text: "scaling-probe: correction row "@ + dec(r.row as nat) + ": client1="@ + signed_dec(
            r.clients.one as int,
        ) + " client2="@ + signed_dec(r.clients.two as int) + " client3="@ + signed_dec(
            r.clients.three as int,
        ) + " b_override="@ + dec(r.overrides as nat),
    }
}

/// The line on an effect, if it is one and was found.
pub open spec fn probe_effect_lines(sp_effect: i32, rates: Option<EffectRates>) -> Seq<LogLineView> {
    match rates {
        Some(r) => if sp_effect > 0 {
            seq![
                LogLineView {
                    level: Level::Info,
                    text: "scaling-probe:   speffect "@ + signed_dec(sp_effect as int) + ": "@
                        + r.words(),
                },
            ]
        } else {
            Seq::empty()
        },
        None => Seq::empty(),
    }
}

/// The lines on a row and its effects.
pub open spec fn probe_row_lines(r: ProbeRow) -> Seq<LogLineView> {
    seq![probe_row_line(r)] + probe_effect_lines(r.clients.one, r.one) + probe_effect_lines(
        r.clients.two,
        r.two,
    ) + probe_effect_lines(r.clients.three, r.three)
}

/// The lines on the first `n` rows, after a line that counts them all.
pub open spec fn probe_lines(rows: Seq<ProbeRow>, n: nat) -> Seq<LogLineView>
    decreases n,
{
    if n == 0 {
        seq![
            LogLineView {
                level: Level::Info,
                text: "scaling-probe: "@ + dec(rows.len()) + " MultiPlayCorrectionParam row(s)"@,
            },
        ]
    } else {
        probe_lines(rows, (n - 1) as nat) + probe_row_lines(rows[n - 1])
    }
}

fn push_effect(lines: &mut Vec<LogLine>, sp_effect: i32, rates: &Option<EffectRates>)
    ensures
        lines_view(final(lines)@) == lines_view(old(lines)@) + probe_effect_lines(
            sp_effect,
            *rates,
        ),
{
    let ghost before = lines_view(lines@);
    match rates {
        Some(r) => {
            if sp_effect > 0 {
                let mut out = "scaling-probe:   speffect ".to_owned();
                out.append(text::signed_text(sp_effect as i64).as_str());
                out.append(": ");
                out.append(r.text().as_str());
                levels::push_line(lines, Level::Info, out);
            }
        },
        None => {},
    }
    assert(lines_view(lines@) =~= before + probe_effect_lines(sp_effect, *rates));
}

/// The dump of the correction table; none while the player is not in play or the tables are not loaded.
pub fn probe_param_map(rows: &Vec<ProbeRow>) -> (lines: Vec<LogLine>)
    ensures
        lines_view(lines@) == probe_lines(rows@, rows@.len()),
{
    let mut lines: Vec<LogLine> = Vec::new();
    let mut head = "scaling-probe: ".to_owned();
    head.append(text::dec_text(rows.len() as u64).as_str());
    head.append(" MultiPlayCorrectionParam row(s)");
    levels::push_line(&mut lines, Level::Info, head);
    assert(lines_view(lines@) =~= probe_lines(rows@, 0));
    let mut i: usize = 0;
    while i < rows.len()
        invariant
            i <= rows@.len(),
            lines_view(lines@) == probe_lines(rows@, i as nat),
        decreases rows@.len() - i,
    {
        let ghost before = lines_view(lines@);
        let r = &rows[i];
        let mut out = "scaling-probe: correction row ".to_owned();
        out.append(text::dec_text(r.row as u64).as_str());
        out.append(": client1=");
        out.append(text::signed_text(r.clients.one as i64).as_str());
        out.append(" client2=");
        out.append(text::signed_text(r.clients.two as i64).as_str());
        out.append(" client3=");
        out.append(text::signed_text(r.clients.three as i64).as_str());
        out.append(" b_override=");
        out.append(text::dec_text(r.overrides as u64).as_str());
        levels::push_line(&mut lines, Level::Info, out);
        push_effect(&mut lines, r.clients.one, &r.one);
        push_effect(&mut lines, r.clients.two, &r.two);
        push_effect(&mut lines, r.clients.three, &r.three);
        assert(lines_view(lines@) =~= before + probe_row_lines(*r));
        i = i + 1;
    }
    lines
}

/// Whether a target stands for a column of a found row: the effect is the column's, the category the row's, and
/// the players are one more than the column's additional ones.
pub open spec fn is_column_of(t: Target, category: Category, clients: Clients) -> bool {
    &&& t.category == category
    &&& t.sp_effect > 0
    &&& {
        ||| t.players == 1 + 1 && t.sp_effect == clients.one
        ||| t.players == 2 + 1 && t.sp_effect == clients.two
        ||| t.players == 3 + 1 && t.sp_effect == clients.three
    }
}

proof fn all_targets_are_columns(
    classes: Seq<RowClass>,
    found: Seq<Option<Clients>>,
    n: nat,
    k: int,
)
    requires
        n <= found.len() <= classes.len(),
        0 <= k < all_targets(classes, found, n).len(),
    ensures
        exists|i: int|
            0 <= i < n && (#[trigger] found[i]) is Some && is_column_of(
                all_targets(classes, found, n)[k],
                classes[i].category,
                found[i]->0,
            ),
    decreases n,
{
    if n > 0 {
        let before = all_targets(classes, found, (n - 1) as nat);
        if k < before.len() {
            all_targets_are_columns(classes, found, (n - 1) as nat, k);
            let i = choose|i: int|
                0 <= i < n - 1 && (#[trigger] found[i]) is Some && is_column_of(
                    before[k],
                    classes[i].category,
                    found[i]->0,
                );
            assert(found[i] is Some);
        } else {
            assert(found[n - 1] is Some);
        }
    }
}

proof fn columns_are_among_all(classes: Seq<RowClass>, found: Seq<Option<Clients>>, n: nat, i: int)
    requires
        0 <= i < n <= found.len() <= classes.len(),
        found[i] is Some,
    ensures
        found[i]->0.one > 0 ==> all_targets(classes, found, n).contains(
            Target { sp_effect: found[i]->0.one, category: classes[i].category, players: 2 },
        ),
        found[i]->0.two > 0 ==> all_targets(classes, found, n).contains(
            Target { sp_effect: found[i]->0.two, category: classes[i].category, players: 3 },
        ),
        found[i]->0.three > 0 ==> all_targets(classes, found, n).contains(
            Target { sp_effect: found[i]->0.three, category: classes[i].category, players: 4 },
        ),
    decreases n,
{
    let now = all_targets(classes, found, n);
    let before = all_targets(classes, found, (n - 1) as nat);
    if i < n - 1 {
        columns_are_among_all(classes, found, (n - 1) as nat, i);
        assert forall|t: Target| #[trigger] before.contains(t) implies now.contains(t) by {
            let j = choose|j: int| 0 <= j < before.len() && before[j] == t;
            assert(now[j] == t);
        }
    } else {
        let c = found[i]->0;
        let g = classes[i].category;
        let one = column_target(c.one, g, 2);
        let two = column_target(c.two, g, 3);
        let three = column_target(c.three, g, 4);
        assert(now == before + (one + two + three));
        if c.one > 0 {
            assert(now[before.len() as int] == one[0]);
        }
        if c.two > 0 {
            assert(now[(before.len() + one.len()) as int] == two[0]);
        }
        if c.three > 0 {
            assert(now[(before.len() + one.len() + two.len()) as int] == three[0]);
        }
    }
}

/// What is kept of a list was in it, and nothing before it there named the same effect.
pub proof fn the_first_mention_counts(targets: Seq<Target>, n: nat, k: int)
    requires
        n <= targets.len(),
        0 <= k < first_of_each(targets, n).len(),
    ensures
        exists|m: int|
            0 <= m < n && #[trigger] targets[m] == first_of_each(targets, n)[k] && forall|j: int|
                0 <= j < m ==> (#[trigger] targets[j]).sp_effect != targets[m].sp_effect,
    decreases n,
{
    if n > 0 {
        let before = first_of_each(targets, (n - 1) as nat);
        if k < before.len() {
            the_first_mention_counts(targets, (n - 1) as nat, k);
        } else {
            let m = n - 1;
            assert forall|j: int| 0 <= j < m implies (#[trigger] targets[j]).sp_effect
                != targets[m].sp_effect by {
                every_effect_is_written(targets, m as nat, j);
            }
            assert(targets[m] == first_of_each(targets, n)[k]);
        }
    }
}

/// Every effect that is planned to be written comes from a column of a row that was found, takes the row's
/// category, and counts one player more than the column's additional ones, whatever the category.
pub proof fn a_column_counts_one_player_more(found: Seq<Option<Clients>>, k: int)
    requires
        found.len() == row_classes().len(),
        ({
            let all = all_targets(row_classes(), found, found.len());
            0 <= k < first_of_each(all, all.len()).len()
        }),
    ensures
        ({
            let all = all_targets(row_classes(), found, found.len());
            let t = first_of_each(all, all.len())[k];
            exists|i: int|
                0 <= i < found.len() && (#[trigger] found[i]) is Some && t.category
                    == row_classes()[i].category && t.sp_effect > 0 && ((t.players == 2
                    && t.sp_effect == found[i]->0.one) || (t.players == 3 && t.sp_effect
                    == found[i]->0.two) || (t.players == 4 && t.sp_effect == found[i]->0.three))
        }),
{
    let all = all_targets(row_classes(), found, found.len());
    the_first_mention_counts(all, all.len(), k);
    let m = choose|m: int|
        0 <= m < all.len() && #[trigger] all[m] == first_of_each(all, all.len())[k] && forall|j: int|
            0 <= j < m ==> (#[trigger] all[j]).sp_effect != all[m].sp_effect;
    all_targets_are_columns(row_classes(), found, found.len(), m);
    let i = choose|i: int|
        0 <= i < found.len() && (#[trigger] found[i]) is Some && is_column_of(
            all[m],
            row_classes()[i].category,
            found[i]->0,
        );
    assert(found[i] is Some);
}

/// Every effect that a found row refers to is planned to be written, for two, three and four players alike.
pub proof fn every_column_of_a_found_row_is_written(found: Seq<Option<Clients>>, i: int)
    requires
        found.len() == row_classes().len(),
        0 <= i < found.len(),
        found[i] is Some,
    ensures
        ({
            let all = all_targets(row_classes(), found, found.len());
            let plan = first_of_each(all, all.len());
            let c = found[i]->0;
            &&& c.one > 0 ==> exists|k: int|
                0 <= k < plan.len() && (#[trigger] plan[k]).sp_effect == c.one
            &&& c.two > 0 ==> exists|k: int|
                0 <= k < plan.len() && (#[trigger] plan[k]).sp_effect == c.two
            &&& c.three > 0 ==> exists|k: int|
                0 <= k < plan.len() && (#[trigger] plan[k]).sp_effect == c.three
        }),
{
    let all = all_targets(row_classes(), found, found.len());
    columns_are_among_all(row_classes(), found, found.len(), i);
    assert forall|j: int| 0 <= j < all.len() implies names(
        first_of_each(all, all.len()),
        (#[trigger] all[j]).sp_effect,
    ) by {
        every_effect_is_written(all, all.len(), j);
    }
}

/// Ordinary enemies are in five rows and bosses in all others, and no row is listed twice.
pub proof fn enemies_and_bosses_are_told_apart()
    ensures
        forall|i: int|
            0 <= i < row_classes().len() ==> ((#[trigger] row_classes()[i]).category
                == Category::Enemy <==> ([0u32, 100, 200, 10000100, 10000200])@.contains(
                row_classes()[i].row,
            )),
        forall|i: int, j: int|
            0 <= i < j < row_classes().len() ==> (#[trigger] row_classes()[i]).row != (
            #[trigger] row_classes()[j]).row,
{
    let plain = ([0u32, 100, 200, 10000100, 10000200])@;
    assert(plain[0] == 0 && plain[1] == 100 && plain[2] == 200 && plain[3] == 10000100 && plain[4]
        == 10000200);
    assert(plain.len() == 5);
}

/// Of the effects that are tried each was written or is told to be missing.
pub proof fn every_effect_is_accounted_for(targets: Seq<Target>, present: Seq<bool>, n: nat)
    requires
        n <= targets.len() == present.len(),
    ensures
        written(present, n) + missing_effects(targets, present, n).len() == n,
        (forall|i: int| 0 <= i < n ==> #[trigger] present[i]) ==> written(present, n) == n,
        (forall|i: int| 0 <= i < n ==> !#[trigger] present[i]) ==> written(present, n) == 0,
    decreases n,
{
    if n > 0 {
        every_effect_is_accounted_for(targets, present, (n - 1) as nat);
    }
}

/// A row that is not in the table is told, and only such a row.
pub proof fn missing_rows_are_told(classes: Seq<RowClass>, found: Seq<Option<Clients>>, n: nat)
    requires
        n <= found.len() <= classes.len(),
    ensures
        forall|i: int|
            0 <= i < n && (#[trigger] found[i]) is None ==> missing_rows(classes, found, n).contains(
                missing_row_line(classes[i].row),
            ),
        forall|k: int|
            0 <= k < missing_rows(classes, found, n).len() ==> exists|i: int|
                0 <= i < n && (#[trigger] found[i]) is None && #[trigger] missing_rows(
                    classes,
                    found,
                    n,
                )[k] == missing_row_line(classes[i].row),
    decreases n,
{
    if n > 0 {
        missing_rows_are_told(classes, found, (n - 1) as nat);
        let before = missing_rows(classes, found, (n - 1) as nat);
        let now = missing_rows(classes, found, n);
        assert forall|i: int| 0 <= i < n && (#[trigger] found[i]) is None implies now.contains(
            missing_row_line(classes[i].row),
        ) by {
            let line = missing_row_line(classes[i].row);
            if i < n - 1 {
                assert(before.contains(line));
                let j = choose|j: int| 0 <= j < before.len() && before[j] == line;
                assert(now[j] == line);
            } else {
                assert(now[before.len() as int] == line);
            }
        }
        assert forall|k: int| 0 <= k < now.len() implies exists|i: int|
            0 <= i < n && (#[trigger] found[i]) is None && #[trigger] now[k] == missing_row_line(
                classes[i].row,
            ) by {
            if k < before.len() {
                assert(before[k] == now[k]);
            } else {
                assert(found[n - 1] is None);
            }
        }
    }
}

/// The rows that are scaled, by their numbers.
pub proof fn the_rows_that_are_scaled()
    ensures
        row_classes().len() == 38,
        Seq::new(row_classes().len(), |i: int| row_classes()[i].row) == seq![
            0u32, 100, 200, 10000100, 10000200, 300, 400, 203000, 203100, 211000, 212000, 213000,
            219000, 219200, 305000, 325000, 325100, 325200, 356000, 357000, 451000, 452000, 465000,
            467000, 468000, 471000, 472000, 472100, 473000, 475000, 476000, 480000, 491000, 495000,
            496000, 498000, 10000300, 10000400,
        ],
{
}

/// Every effect that is missing is told, and none that is there.
pub proof fn missing_effects_are_told(targets: Seq<Target>, present: Seq<bool>, n: nat)
    requires
        n <= targets.len() == present.len(),
    ensures
        forall|i: int|
            0 <= i < n && !#[trigger] present[i] ==> missing_effects(targets, present, n).contains(
                missing_effect_line(targets[i].sp_effect),
            ),
        forall|k: int|
            0 <= k < missing_effects(targets, present, n).len() ==> exists|i: int|
                0 <= i < n && !#[trigger] present[i] && #[trigger] missing_effects(
                    targets,
                    present,
                    n,
                )[k] == missing_effect_line(targets[i].sp_effect),
        n < present.len() ==> written(present, n + 1) - written(present, n) == (
        if present[n as int] {
            1int
        } else {
            0
        }),
    decreases n,
{
    if n > 0 {
        missing_effects_are_told(targets, present, (n - 1) as nat);
        let before = missing_effects(targets, present, (n - 1) as nat);
        let now = missing_effects(targets, present, n);
        assert forall|i: int| 0 <= i < n && !#[trigger] present[i] implies now.contains(
            missing_effect_line(targets[i].sp_effect),
        ) by {
            let line = missing_effect_line(targets[i].sp_effect);
            if i < n - 1 {
                assert(before.contains(line));
                let j = choose|j: int| 0 <= j < before.len() && before[j] == line;
                assert(now[j] == line);
            } else {
                assert(now[before.len() as int] == line);
            }
        }
        assert forall|k: int| 0 <= k < now.len() implies exists|i: int|
            0 <= i < n && !#[trigger] present[i] && #[trigger] now[k] == missing_effect_line(
                targets[i].sp_effect,
            ) by {
            if k < before.len() {
                assert(before[k] == now[k]);
                let i = choose|i: int|
                    0 <= i < n - 1 && !#[trigger] present[i] && before[k] == missing_effect_line(
                        targets[i].sp_effect,
                    );
                assert(!present[i]);
            } else {
                assert(!present[n - 1]);
            }
        }
    }
}

/// What is missing is told by its number, and so is the size of a party that is known.
pub proof fn what_is_missing_is_told_by_its_number(row: u32, sp_effect: i32, players: usize)
    ensures
        missing_row_line(row).text == "scaling: MultiPlayCorrectionParam row "@ + dec(row as nat)
            + " not found; skipping"@,
        missing_effect_line(sp_effect).text == "scaling: SpEffectParam "@ + signed_dec(
            sp_effect as int,
        ) + " (referenced by a correction row) not found; skipping"@,
        opt_count(Some(players)) == "Some("@ + dec(players as nat) + ")"@,
        opt_count(None) == "None"@,
{
}

/// The settings are told each under its own name.
pub proof fn the_settings_are_told(s: Scaling)
    ensures
        s.words() == "enemy hp+"@ + dec(s.enemy_health as nat) + "%/dmg+"@ + dec(
            s.enemy_damage as nat,
        ) + "%/pos+"@ + dec(s.enemy_posture as nat) + "% boss hp+"@ + dec(s.boss_health as nat)
            + "%/dmg+"@ + dec(s.boss_damage as nat) + "%/pos+"@ + dec(s.boss_posture as nat)
            + "% per extra player"@,
{
}

/// An effect is probed exactly if a row names it and it could be read.
pub proof fn a_named_effect_is_probed(sp_effect: i32, rates: EffectRates)
    ensures
        probe_effect_lines(sp_effect, None).len() == 0,
        sp_effect <= 0 ==> probe_effect_lines(sp_effect, Some(rates)).len() == 0,
        sp_effect > 0 ==> probe_effect_lines(sp_effect, Some(rates)).len() == 1
            && probe_effect_lines(sp_effect, Some(rates))[0].text == "scaling-probe:   speffect "@
            + signed_dec(sp_effect as int) + ": "@ + rates.words(),
        rates.words() == "max_hp_rate="@ + rates.max_hp@ + " phys_atk_pow_rate="@ + rates.physics@
            + " mag="@ + rates.magic@ + " fire="@ + rates.fire@ + " thunder="@ + rates.thunder@
            + " dark="@ + rates.dark@ + " toughness_cut="@ + rates.toughness_cut@
            + " sa_receive="@ + rates.sa_receive@,
{
}

/// Every row is probed, after a line that counts them, with its three columns in their order.
pub proof fn every_row_is_probed(rows: Seq<ProbeRow>, n: nat, row: ProbeRow)
    requires
        n < rows.len(),
    ensures
        probe_lines(rows, 0).len() == 1,
        probe_lines(rows, 0)[0].text == "scaling-probe: "@ + dec(rows.len())
            + " MultiPlayCorrectionParam row(s)"@,
        probe_lines(rows, n + 1) == probe_lines(rows, n) + probe_row_lines(rows[n as int]),
        probe_row_lines(row)[0] == probe_row_line(row),
        probe_row_lines(row).skip(1) == probe_effect_lines(row.clients.one, row.one)
            + probe_effect_lines(row.clients.two, row.two) + probe_effect_lines(
            row.clients.three,
            row.three,
        ),
        probe_row_line(row).text == "scaling-probe: correction row "@ + dec(row.row as nat)
            + ": client1="@ + signed_dec(row.clients.one as int) + " client2="@ + signed_dec(
            row.clients.two as int,
        ) + " client3="@ + signed_dec(row.clients.three as int) + " b_override="@ + dec(
            row.overrides as nat,
        ),
{
    assert(probe_row_lines(row).skip(1) =~= probe_effect_lines(row.clients.one, row.one)
        + probe_effect_lines(row.clients.two, row.two) + probe_effect_lines(
        row.clients.three,
        row.three,
    ));
}

/// What is skipped is told to who debugs it, and what a probe finds to everyone.
pub proof fn how_loud_the_scaling_is_told(row: u32, e: i32, r: EffectRates, p: ProbeRow, rows: Seq<ProbeRow>)
    ensures
        missing_row_line(row).level == Level::Debug,
        missing_effect_line(e).level == Level::Debug,
        e > 0 ==> probe_effect_lines(e, Some(r))[0].level == Level::Info,
        probe_row_line(p).level == Level::Info,
        probe_lines(rows, 0)[0].level == Level::Info,
{
}

} // verus!
