//! The stacking death penalty: which rows of the game's tables carry it, what is written into them, when
//! they are applied, healed and removed, and what is said about it. Rates are carried as the bit patterns
//! of their numbers; only the game looks inside.

use vstd::prelude::*;

use crate::levels;
use crate::levels::{lines_view, Level, LogLine, LogLineView};
use crate::notify::{Severity, Toast, ToastView};
use crate::text;
use crate::text::{bool_chars, dec, hex_digits, joined, signed_dec, texts, zero_pad};

verus! {

/// The event flag that is on while the player rests at a grace.
pub const GRACE_REST_FLAG: u32 = 9000;

/// The row whose icon the penalty shows.
pub const DEBUFF_ICON_SOURCE_ID: u32 = 6860;

/// The number of tiers.
pub const TIERS: usize = 5;

/// The bit pattern of one.
pub const RATE_ONE: u32 = 0x3f80_0000;

/// The bit pattern of minus one: an effect that lasts for ever.
pub const PERMANENT_ENDURANCE: u32 = 0xbf80_0000;

/// The state that makes a row change what enemies drop.
pub const ITEM_DROP_STATE_INFO: u16 = 66;

/// Stands for no effect, no sound and no icon.
pub const NONE_ID: i32 = -1;

/// The row of a tier, from the first to the fifth.
pub open spec fn tier_row_id(level: int) -> i32 {
    (7200 + 10 * level) as i32
}

/// The rows of the tiers.
pub open spec fn tier_rows() -> Seq<i32> {
    Seq::new(TIERS as nat, |i: int| tier_row_id(i + 1))
}

/// The row of a tier.
pub fn row_of_tier(level: u8) -> (id: i32)
    requires
        1 <= level <= TIERS,
    ensures
        id == tier_row_id(level as int),
{
    7200 + 10 * (level as i32)
}

/// The rows of the tiers.
pub fn owned_rows() -> (ids: Vec<i32>)
    ensures
        ids@ == tier_rows(),
{
    let ids: Vec<i32> = vec![7210, 7220, 7230, 7240, 7250];
    assert(ids@ =~= tier_rows());
    ids
}

/// No two tiers share a row, and none of the rows is the zero that stands for none.
pub proof fn tiers_have_rows_of_their_own(a: int, b: int)
    requires
        1 <= a <= TIERS,
        1 <= b <= TIERS,
    ensures
        tier_row_id(a) != 0,
        tier_row_id(a) == tier_row_id(b) ==> a == b,
{
}

/// Whether any tier has a row.
pub fn rows_defined() -> (yes: bool)
    ensures
        yes == exists|i: int| 0 <= i < tier_rows().len() && #[trigger] tier_rows()[i] != 0,
{
    let ids = owned_rows();
    let mut i: usize = 0;
    while i < ids.len()
        invariant
            i <= ids@.len(),
            ids@ == tier_rows(),
            forall|j: int| 0 <= j < i ==> #[trigger] tier_rows()[j] == 0,
        decreases ids@.len() - i,
    {
        if ids[i] != 0 {
            assert(tier_rows()[i as int] != 0);
            return true;
        }
        i = i + 1;
    }
    false
}

/// What is read of the local player.
#[derive(Clone, Copy, Debug, PartialEq, Eq, Structural)]
pub struct Health {
    pub hp: i32,
    pub max_hp: i32,
}

/// Whether the player is dead; not known while there is no player. A player whose data is not filled in
/// yet is not dead.
pub fn player_is_dead(health: Option<Health>) -> (dead: Option<bool>)
    ensures
        dead == (match health {
            Some(h) => Some(h.max_hp > 0 && h.hp <= 0),
            None => None,
        }),
        health is None ==> dead is None,
        health matches Some(h) && h.hp > 0 ==> dead == Some(false),
        health matches Some(h) && h.max_hp <= 0 ==> dead == Some(false),
        health matches Some(h) && h.max_hp > 0 && h.hp <= 0 ==> dead == Some(true),
{
    match health {
        Some(h) => Some(h.max_hp > 0 && h.hp <= 0),
        None => None,
    }
}

/// The fields of a row of the effect table that are written.
#[derive(Clone, Copy, Debug)]
pub struct EffectRow {
    /// How resistances to poison, rot, bleeding, death, frost, sleep and madness change.
    pub regist_change_rate: [u32; 7],
    /// The outgoing attack power: physical, magic, fire, thunder, dark, slash, blow, thrust, neutral,
    /// stamina and poise.
    pub attack_power_rate: [u32; 11],
    /// The build-up of the seven ailments that the row inflicts.
    pub status_attack_power: [i32; 7],
    pub vfx_id: [i32; 8],
    pub add_foot_effect_sfx_id: i32,
    /// The effects and the behaviour that the row brings about: replacement, cycle, attack, spirit's
    /// death, behaviour.
    pub chained_id: [i32; 5],
    pub icon_id: i32,
    pub effect_endurance: u32,
    pub stamina_recover_change_speed: i32,
    pub max_hp_rate: u32,
    pub max_mp_rate: u32,
    pub max_stamina_rate: u32,
    pub have_soul_rate: u32,
    pub item_drop_rate: u32,
    pub state_info: u16,
    /// Defence against physical, magic, fire, thunder and dark damage.
    pub diffence_rate: [u32; 5],
    /// Outgoing physical, magic, fire, thunder and dark damage.
    pub attack_rate: [u32; 5],
}

/// All of a list are one value.
pub open spec fn all_are<T>(list: Seq<T>, value: T) -> bool {
    forall|i: int| 0 <= i < list.len() ==> #[trigger] list[i] == value
}

impl EffectRow {
    /// The row carries nothing but what is overlaid on it: resistances and attack power are neutral, it
    /// inflicts no ailment, shows and sounds nothing, and brings nothing else about.
    pub open spec fn is_neutral(self) -> bool {
        &&& all_are(self.regist_change_rate@, RATE_ONE)
        &&& all_are(self.attack_power_rate@, RATE_ONE)
        &&& all_are(self.status_attack_power@, 0i32)
        &&& all_are(self.vfx_id@, NONE_ID)
        &&& self.add_foot_effect_sfx_id == NONE_ID
        &&& all_are(self.chained_id@, NONE_ID)
    }

    /// Two rows agree in everything that is overlaid.
    pub open spec fn same_overlay(self, other: EffectRow) -> bool {
        &&& self.icon_id == other.icon_id
        &&& self.effect_endurance == other.effect_endurance
        &&& self.stamina_recover_change_speed == other.stamina_recover_change_speed
        &&& self.max_hp_rate == other.max_hp_rate
        &&& self.max_mp_rate == other.max_mp_rate
        &&& self.max_stamina_rate == other.max_stamina_rate
        &&& self.have_soul_rate == other.have_soul_rate
        &&& self.item_drop_rate == other.item_drop_rate
        &&& self.state_info == other.state_info
        &&& self.diffence_rate@ == other.diffence_rate@
        &&& self.attack_rate@ == other.attack_rate@
    }
}

/// Scrubs what a repurposed row carries besides, and leaves what is overlaid on it alone.
pub fn neutralize_side_effects(row: &mut EffectRow)
    ensures
        final(row).is_neutral(),
        final(row).same_overlay(*old(row)),
{
    row.regist_change_rate = [
        RATE_ONE,
        RATE_ONE,
        RATE_ONE,
        RATE_ONE,
        RATE_ONE,
        RATE_ONE,
        RATE_ONE,
    ];
    row.attack_power_rate = [
        RATE_ONE,
        RATE_ONE,
        RATE_ONE,
        RATE_ONE,
        RATE_ONE,
        RATE_ONE,
        RATE_ONE,
        RATE_ONE,
        RATE_ONE,
        RATE_ONE,
        RATE_ONE,
    ];
    row.status_attack_power = [0, 0, 0, 0, 0, 0, 0];
    row.vfx_id = [
        NONE_ID,
        NONE_ID,
        NONE_ID,
        NONE_ID,
        NONE_ID,
        NONE_ID,
        NONE_ID,
        NONE_ID,
    ];
    row.add_foot_effect_sfx_id = NONE_ID;
    row.chained_id = [NONE_ID, NONE_ID, NONE_ID, NONE_ID, NONE_ID];
}

/// The rates of a tier.
#[derive(Clone, Copy, Debug, PartialEq, Eq, Structural)]
pub struct TierRates {
    /// What is added to the recovery of stamina, rounded.
    pub stamina_recover_change_speed: i32,
    pub max_hp_rate: u32,
    pub max_fp_rate: u32,
    pub max_stamina_rate: u32,
    pub have_soul_rate: u32,
    pub item_drop_rate: u32,
    /// Whether the tier changes what enemies drop.
    pub affects_item_drop: bool,
    pub defence_rate: u32,
    pub attack_rate: u32,
}

impl EffectRow {
    /// The row carries a tier's rates and its icon for ever, and nothing else.
    pub open spec fn carries(self, rates: TierRates, icon: i32) -> bool {
        &&& self.is_neutral()
        &&& self.icon_id == icon
        &&& self.effect_endurance == PERMANENT_ENDURANCE
        &&& self.stamina_recover_change_speed == rates.stamina_recover_change_speed
        &&& self.max_hp_rate == rates.max_hp_rate
        &&& self.max_mp_rate == rates.max_fp_rate
        &&& self.max_stamina_rate == rates.max_stamina_rate
        &&& self.have_soul_rate == rates.have_soul_rate
        &&& self.item_drop_rate == rates.item_drop_rate
        &&& self.state_info == (if rates.affects_item_drop {
            ITEM_DROP_STATE_INFO
        } else {
            0
        })
        &&& all_are(self.diffence_rate@, rates.defence_rate)
        &&& all_are(self.attack_rate@, rates.attack_rate)
    }
}

/// Writes a tier into its row; not where there is no such row. `icon` is the icon of the row it is copied
/// from, if that is there.
pub fn write_tier_row(row: Option<&mut EffectRow>, rates: TierRates, icon: Option<i32>) -> (written:
    bool)
    ensures
        written == (row is Some),
        row matches Some(r) ==> final(r).carries(
            rates,
            match icon {
                Some(i) => i,
                None => NONE_ID,
            },
        ),
{
    match row {
        None => false,
        Some(r) => {
            neutralize_side_effects(r);
            r.icon_id = match icon {
                Some(i) => i,
                None => NONE_ID,
            };
            r.effect_endurance = PERMANENT_ENDURANCE;
            r.stamina_recover_change_speed = rates.stamina_recover_change_speed;
            r.max_hp_rate = rates.max_hp_rate;
            r.max_mp_rate = rates.max_fp_rate;
            r.max_stamina_rate = rates.max_stamina_rate;
            r.have_soul_rate = rates.have_soul_rate;
            r.item_drop_rate = rates.item_drop_rate;
            r.state_info = if rates.affects_item_drop {
                ITEM_DROP_STATE_INFO
            } else {
                0
            };
            let d: u32 = rates.defence_rate;
            r.diffence_rate = [d, d, d, d, d];
            let a: u32 = rates.attack_rate;
            r.attack_rate = [a, a, a, a, a];
            true
        },
    }
}

/// What a row holds after a tier was written into it does not depend on what it held before.
pub proof fn written_row_is_the_tier_alone(a: EffectRow, b: EffectRow, rates: TierRates, icon: i32)
    requires
        a.carries(rates, icon),
        b.carries(rates, icon),
    ensures
        a.same_overlay(b),
        a.regist_change_rate@ == b.regist_change_rate@,
        a.attack_power_rate@ == b.attack_power_rate@,
        a.status_attack_power@ == b.status_attack_power@,
        a.vfx_id@ == b.vfx_id@,
        a.add_foot_effect_sfx_id == b.add_foot_effect_sfx_id,
        a.chained_id@ == b.chained_id@,
{
    assert(a.diffence_rate@ =~= b.diffence_rate@);
    assert(a.attack_rate@ =~= b.attack_rate@);
    assert(a.regist_change_rate@ =~= b.regist_change_rate@);
    assert(a.attack_power_rate@ =~= b.attack_power_rate@);
    assert(a.status_attack_power@ =~= b.status_attack_power@);
    assert(a.vfx_id@ =~= b.vfx_id@);
    assert(a.chained_id@ =~= b.chained_id@);
}

/// The feature's own state.
#[derive(Clone, Copy, Debug, PartialEq, Eq, Structural)]
pub struct DeathDebuffsFeature {
    /// Whether rows are still to be removed after it was switched off.
    pub pending_disable_cleanup: bool,
    /// The switch as it was seen last.
    pub enabled: Option<bool>,
}

pub const CLEANUP_PENDING: &'static str = "death debuffs: disabled — cleanup pending";

pub const CLEANUP_DONE: &'static str = "death debuffs: disabled — owned rows removed";

impl DeathDebuffsFeature {
    /// Nothing to remove.
    pub fn new() -> (feature: DeathDebuffsFeature)
        ensures
            feature == (DeathDebuffsFeature { pending_disable_cleanup: false, enabled: None }),
    {
        DeathDebuffsFeature { pending_disable_cleanup: false, enabled: None }
    }

    /// Whether the switch goes off now.
    pub open spec fn switched_off(self, enabled: bool) -> bool {
        self.enabled == Some(true) && !enabled
    }

    /// Follows the switch. When it goes off, which the line tells, the stack is emptied, and the rows, which
    /// last for ever, are to be removed.
    pub fn on_switch(&mut self, enabled: bool) -> (line: Option<LogLine>)
        ensures
            *final(self) == (DeathDebuffsFeature {
                pending_disable_cleanup: old(self).pending_disable_cleanup || old(
                    self,
                ).switched_off(enabled),
                enabled: Some(enabled),
            }),
            line is Some == old(self).switched_off(enabled),
            line is Some ==> line->0@ == (LogLineView {
                level: Level::Debug,
                text: CLEANUP_PENDING@,
            }),
    {
        let was_on = match self.enabled {
            Some(e) => e,
            None => false,
        };
        self.enabled = Some(enabled);
        if was_on && !enabled {
            self.pending_disable_cleanup = true;
            Some(LogLine { level: Level::Debug, text: CLEANUP_PENDING.to_owned() })
        } else {
            None
        }
    }

    /// After the rows were tried to be removed: the wish stands until a player was there to remove them
    /// from.
    pub fn on_cleanup(&mut self, settled: bool) -> (line: Option<LogLine>)
        ensures
            final(self).pending_disable_cleanup == still_pending(
                old(self).pending_disable_cleanup,
                seq![settled],
            ),
            final(self).enabled == old(self).enabled,
            line is Some == (old(self).pending_disable_cleanup && settled),
            line is Some ==> line->0@ == (LogLineView { level: Level::Debug, text: CLEANUP_DONE@ }),
    {
        proof {
            let one = seq![settled];
            assert(one.drop_last() =~= Seq::empty());
            assert(still_pending(self.pending_disable_cleanup, one.drop_last())
                == self.pending_disable_cleanup);
        }
        if self.pending_disable_cleanup && settled {
            self.pending_disable_cleanup = false;
            Some(LogLine { level: Level::Debug, text: CLEANUP_DONE.to_owned() })
        } else {
            None
        }
    }
}

/// Whether the removal of the owned rows is settled, given of each removal whether a player was there:
/// the last one tells, and with no rows there is nothing to settle.
pub fn cleanup_settled(reached: &Vec<bool>) -> (settled: bool)
    ensures
        settled == (reached@.len() == 0 || reached@.last()),
{
    if reached.len() == 0 {
        true
    } else {
        reached[reached.len() - 1]
    }
}

/// Whether this frame looks for rows that the game dropped: not in the frame of a death, in which every
/// row was just applied, and only when it is time to.
pub fn heals(died: bool, due: bool) -> (yes: bool)
    ensures
        yes == (!died && due),
        died ==> !yes,
        !due ==> !yes,
{
    !died && due
}

/// A tier that is in force.
#[derive(Debug)]
pub struct ActiveTier {
    /// From one to five.
    pub level: u8,
    pub label: String,
    /// The rates in words.
    pub rates: String,
}

impl ActiveTier {
    /// The tier is one of the five.
    pub open spec fn wf(self) -> bool {
        1 <= self.level <= TIERS
    }
}

/// The line on a tier.
pub open spec fn tier_line(tier: ActiveTier, intensity: Seq<char>) -> LogLineView {
    LogLineView {
        level: Level::Debug,
        text: "death debuffs: tier "@ + tier.label@ + " @intensity "@ + intensity + " -> "@
            + tier.rates@ + " (row "@ + signed_dec(tier_row_id(tier.level as int) as int) + ")"@,
    }
}

/// The line on a row that could not be written.
pub open spec fn skipped_line(id: i32) -> LogLineView {
    LogLineView {
        level: Level::Debug,
        text: "death debuffs: SpEffectParam row "@ + signed_dec(id as int)
            + " not writable (param repo not live?); skipped apply"@,
    }
}

/// What is done with a row.
#[derive(Clone, Copy, Debug, PartialEq, Eq, Structural)]
pub enum RowAction {
    Remove(i32),
    Apply(i32),
}

/// What follows for a tier from its row having been written, or not: a row that was written is taken off
/// the player and put on them again, so that it is never on them twice; one that was not is not applied.
pub open spec fn row_actions(id: i32, written: bool) -> Seq<RowAction> {
    if written {
        seq![RowAction::Remove(id), RowAction::Apply(id)]
    } else {
        Seq::empty()
    }
}

/// What is done on a death, and what is said.
#[derive(Debug)]
pub struct ApplyPlan {
    pub actions: Vec<RowAction>,
    pub lines: Vec<LogLine>,
}

/// The actions for the first `n` tiers.
pub open spec fn apply_actions(tiers: Seq<ActiveTier>, written: Seq<bool>, n: nat) -> Seq<RowAction>
    decreases n,
{
    if n == 0 {
        Seq::empty()
    } else {
        apply_actions(tiers, written, (n - 1) as nat) + row_actions(
            tier_row_id(tiers[n - 1].level as int),
            written[n - 1],
        )
    }
}

/// The lines for the first `n` tiers.
pub open spec fn apply_lines(
    tiers: Seq<ActiveTier>,
    written: Seq<bool>,
    intensity: Seq<char>,
    n: nat,
) -> Seq<LogLineView>
    decreases n,
{
    if n == 0 {
        Seq::empty()
    } else {
        let before = apply_lines(tiers, written, intensity, (n - 1) as nat).push(
            tier_line(tiers[n - 1], intensity),
        );
        if written[n - 1] {
            before
        } else {
            before.push(skipped_line(tier_row_id(tiers[n - 1].level as int)))
        }
    }
}

fn push_actions(actions: &mut Vec<RowAction>, id: i32, written: bool)
    ensures
        final(actions)@ == old(actions)@ + row_actions(id, written),
{
    if written {
        actions.push(RowAction::Remove(id));
        actions.push(RowAction::Apply(id));
    }
    assert(actions@ =~= old(actions)@ + row_actions(id, written));
}

/// Puts every tier in force on the player, given which of their rows could be written. `intensity` is the
/// intensity of the stack in words.
pub fn apply_active_tiers(tiers: &Vec<ActiveTier>, written: &Vec<bool>, intensity: &str) -> (plan:
    ApplyPlan)
    requires
        tiers@.len() == written@.len(),
        forall|i: int| 0 <= i < tiers@.len() ==> (#[trigger] tiers@[i]).wf(),
    ensures
        plan.actions@ == apply_actions(tiers@, written@, tiers@.len()),
        lines_view(plan.lines@) == apply_lines(tiers@, written@, intensity@, tiers@.len()),
        forall|k: int|
            0 <= k < tiers@.len() && #[trigger] written@[k] ==> plan.actions@.contains(
                RowAction::Apply(tier_row_id(tiers@[k].level as int)),
            ),
        forall|k: int|
            0 <= k < tiers@.len() && #[trigger] written@[k] ==> plan.actions@.contains(
                RowAction::Remove(tier_row_id(tiers@[k].level as int)),
            ),
{
    let mut actions: Vec<RowAction> = Vec::new();
    let mut lines: Vec<LogLine> = Vec::new();
    assert(lines_view(lines@) =~= Seq::empty());
    let mut i: usize = 0;
    while i < tiers.len()
        invariant
            i <= tiers@.len(),
            tiers@.len() == written@.len(),
            forall|j: int| 0 <= j < tiers@.len() ==> (#[trigger] tiers@[j]).wf(),
            actions@ == apply_actions(tiers@, written@, i as nat),
            lines_view(lines@) == apply_lines(tiers@, written@, intensity@, i as nat),
        decreases tiers@.len() - i,
    {
        let ghost said = lines_view(lines@);
        let tier = &tiers[i];
        assert(tiers@[i as int].wf());
        let id: i32 = row_of_tier(tier.level);
        let mut out = "death debuffs: tier ".to_owned();
        out.append(tier.label.as_str());
        out.append(" @intensity ");
        out.append(intensity);
        out.append(" -> ");
        out.append(tier.rates.as_str());
        out.append(" (row ");
        out.append(text::signed_text(id as i64).as_str());
        out.append(")");
        levels::push_line(&mut lines, Level::Debug, out);
        assert(lines_view(lines@) =~= said.push(tier_line(*tier, intensity@)));
        let ghost now = lines_view(lines@);
        push_actions(&mut actions, id, written[i]);
        if !written[i] {
            let mut skip = "death debuffs: SpEffectParam row ".to_owned();
            skip.append(text::signed_text(id as i64).as_str());
            skip.append(" not writable (param repo not live?); skipped apply");
            levels::push_line(&mut lines, Level::Debug, skip);
            assert(lines_view(lines@) =~= now.push(skipped_line(id)));
        }
        i = i + 1;
    }
    proof {
        every_written_tier_is_applied(tiers@, written@, tiers@.len());
        assert forall|k: int| 0 <= k < tiers@.len() && #[trigger] written@[k] implies actions@.contains(
            RowAction::Apply(tier_row_id(tiers@[k].level as int)),
        ) && actions@.contains(RowAction::Remove(tier_row_id(tiers@[k].level as int))) by {
            let id = tier_row_id(tiers@[k].level as int);
            let j = choose|j: int|
                0 <= j < actions@.len() && #[trigger] actions@[j] == RowAction::Apply(id);
            removed_before_applied(tiers@, written@, tiers@.len(), j, id);
            assert(actions@[j - 1] == RowAction::Remove(id));
        }
    }
    ApplyPlan { actions, lines }
}

/// Whether a row is on the player.
pub open spec fn is_on(present: Seq<i32>, id: i32) -> bool {
    exists|i: int| 0 <= i < present.len() && #[trigger] present[i] == id
}

/// The positions of the first `n` tiers whose row is not on the player.
pub open spec fn missing_tiers(tiers: Seq<ActiveTier>, present: Seq<i32>, n: nat) -> Seq<usize>
    decreases n,
{
    if n == 0 {
        Seq::empty()
    } else {
        let before = missing_tiers(tiers, present, (n - 1) as nat);
        if is_on(present, tier_row_id(tiers[n - 1].level as int)) {
            before
        } else {
            before.push((n - 1) as usize)
        }
    }
}

/// The line on a tier that is put back.
pub open spec fn heal_line(tier: ActiveTier) -> LogLineView {
    LogLineView {
        level: Level::Debug,
        text: "death debuffs: self-heal re-applying "@ + tier.label@ + " (row "@ + signed_dec(
            tier_row_id(tier.level as int) as int,
        ) + ") — game dropped it across a load"@,
    }
}

/// The lines on the tiers that are put back.
pub open spec fn heal_lines(tiers: Seq<ActiveTier>, missing: Seq<usize>) -> Seq<LogLineView> {
    Seq::new(missing.len(), |i: int| heal_line(tiers[missing[i] as int]))
}

/// The tiers to put back.
#[derive(Debug)]
pub struct HealPlan {
    /// Their positions.
    pub missing: Vec<usize>,
    pub lines: Vec<LogLine>,
}

fn row_is_on(present: &Vec<i32>, id: i32) -> (yes: bool)
    ensures
        yes == is_on(present@, id),
{
    let mut i: usize = 0;
    while i < present.len()
        invariant
            i <= present@.len(),
            forall|j: int| 0 <= j < i ==> #[trigger] present@[j] != id,
        decreases present@.len() - i,
    {
        if present[i] == id {
            return true;
        }
        i = i + 1;
    }
    false
}

/// Finds the tiers in force whose rows the game dropped. `present` holds the effects that are on the
/// player; it is not known while there is no player, and then nothing is put back.
pub fn self_heal(tiers: &Vec<ActiveTier>, present: Option<&Vec<i32>>) -> (plan: HealPlan)
    requires
        forall|i: int| 0 <= i < tiers@.len() ==> (#[trigger] tiers@[i]).wf(),
    ensures
        plan.missing@ == (match present {
            Some(p) => missing_tiers(tiers@, p@, tiers@.len()),
            None => Seq::empty(),
        }),
        lines_view(plan.lines@) == heal_lines(tiers@, plan.missing@),
{
    let mut missing: Vec<usize> = Vec::new();
    let mut lines: Vec<LogLine> = Vec::new();
    assert(lines_view(lines@) =~= heal_lines(tiers@, missing@));
    match present {
        None => {},
        Some(p) => {
            let mut i: usize = 0;
            while i < tiers.len()
                invariant
                    i <= tiers@.len(),
                    forall|j: int| 0 <= j < tiers@.len() ==> (#[trigger] tiers@[j]).wf(),
                    missing@ == missing_tiers(tiers@, p@, i as nat),
                    lines_view(lines@) == heal_lines(tiers@, missing@),
                decreases tiers@.len() - i,
            {
                let tier = &tiers[i];
                assert(tiers@[i as int].wf());
                let id: i32 = row_of_tier(tier.level);
                if !row_is_on(p, id) {
                    let ghost before = missing@;
                    let mut out = "death debuffs: self-heal re-applying ".to_owned();
                    out.append(tier.label.as_str());
                    out.append(" (row ");
                    out.append(text::signed_text(id as i64).as_str());
                    out.append(") — game dropped it across a load");
                    levels::push_line(&mut lines, Level::Debug, out);
                    missing.push(i);
                    assert(heal_lines(tiers@, missing@) =~= heal_lines(tiers@, before).push(
                        heal_line(*tier),
                    ));
                }
                i = i + 1;
            }
        },
    }
    HealPlan { missing, lines }
}

/// What is done with the row of a tier that was put back.
pub fn heal_actions(level: u8, written: bool) -> (actions: Vec<RowAction>)
    requires
        1 <= level <= TIERS,
    ensures
        actions@ == row_actions(tier_row_id(level as int), written),
{
    let mut actions: Vec<RowAction> = Vec::new();
    push_actions(&mut actions, row_of_tier(level), written);
    assert(actions@ =~= row_actions(tier_row_id(level as int), written));
    actions
}

/// A row that is on the player is never touched by healing.
pub proof fn healing_leaves_present_rows(
    tiers: Seq<ActiveTier>,
    present: Seq<i32>,
    n: nat,
    k: int,
)
    requires
        n <= tiers.len() <= usize::MAX,
        0 <= k < missing_tiers(tiers, present, n).len(),
    ensures
        missing_tiers(tiers, present, n)[k] < n,
        !is_on(
            present,
            tier_row_id(tiers[missing_tiers(tiers, present, n)[k] as int].level as int),
        ),
    decreases n,
{
    if n > 0 {
        let before = missing_tiers(tiers, present, (n - 1) as nat);
        if k < before.len() {
            healing_leaves_present_rows(tiers, present, (n - 1) as nat, k);
        }
    }
}

/// Whenever a row is put on the player it was taken off them right before, so it is never on them twice.
pub proof fn removed_before_applied(
    tiers: Seq<ActiveTier>,
    written: Seq<bool>,
    n: nat,
    k: int,
    id: i32,
)
    requires
        n <= tiers.len() == written.len(),
        0 <= k < apply_actions(tiers, written, n).len(),
        apply_actions(tiers, written, n)[k] == RowAction::Apply(id),
    ensures
        k >= 1,
        apply_actions(tiers, written, n)[k - 1] == RowAction::Remove(id),
    decreases n,
{
    if n > 0 {
        let before = apply_actions(tiers, written, (n - 1) as nat);
        let last = row_actions(tier_row_id(tiers[n - 1].level as int), written[n - 1]);
        assert(apply_actions(tiers, written, n) == before + last);
        if k < before.len() {
            removed_before_applied(tiers, written, (n - 1) as nat, k, id);
        }
    }
}

/// What a death comes to.
#[derive(Debug)]
pub struct DeathStep {
    pub line: LogLine,
    pub toast: Option<Toast>,
}

/// Follows up on a death, after which the stack counts `deaths`, has `tiers` in force and an intensity
/// of `intensity` in words. A tier that came with it is named to the player; without one, they are told
/// if the intensity grew.
pub fn on_death(deaths: u64, tiers: u64, intensity: &str, new_tier: Option<&str>, deepened: bool) -> (
step: DeathStep)
    ensures
        step.line@ == (LogLineView {
            level: Level::Debug,
            text: "death debuffs: death #"@ + dec(deaths as nat) + " -> "@ + dec(tiers as nat)
                + " tier(s) active, intensity "@ + intensity@,
        }),
        match new_tier {
            Some(label) => step.toast is Some && step.toast->0@ == (ToastView {
                severity: Severity::Info,
                message: "Afflicted by "@ + label@,
            }),
            None => step.toast is Some == deepened && (deepened ==> step.toast->0@ == (ToastView {
                severity: Severity::Info,
                message: "Your afflictions deepen"@,
            })),
        },
{
    let mut out = "death debuffs: death #".to_owned();
    out.append(text::dec_text(deaths).as_str());
    out.append(" -> ");
    out.append(text::dec_text(tiers).as_str());
    out.append(" tier(s) active, intensity ");
    out.append(intensity);
    let toast = match new_tier {
        Some(label) => {
            let mut message = "Afflicted by ".to_owned();
            message.append(label);
            Some(Toast { severity: Severity::Info, message })
        },
        None => if deepened {
            Some(
                Toast { severity: Severity::Info, message: "Your afflictions deepen".to_owned() },
            )
        } else {
            None
        },
    };
    DeathStep { line: LogLine { level: Level::Debug, text: out }, toast }
}

/// What a rest at a grace comes to; the owned rows are removed in any case.
#[derive(Debug)]
pub struct GraceStep {
    pub line: Option<LogLine>,
    pub toast: Option<Toast>,
}

/// Follows up on a rest: only a stack that held something is worth a word.
pub fn on_grace(had: bool) -> (step: GraceStep)
    ensures
        step.line is Some == had,
        step.toast is Some == had,
        had ==> step.line->0@ == (LogLineView {
            level: Level::Debug,
            text: "death debuffs: cured at grace"@,
        }),
        had ==> step.toast->0@ == (ToastView {
            severity: Severity::Info,
            message: "Afflictions cleansed"@,
        }),
{
    if had {
        GraceStep {
            line: Some(
                LogLine { level: Level::Debug, text: "death debuffs: cured at grace".to_owned() },
            ),
            toast: Some(
                Toast { severity: Severity::Info, message: "Afflictions cleansed".to_owned() },
            ),
        }
    } else {
        GraceStep { line: None, toast: None }
    }
}

/// Whether rows are still to be removed after attempts with these outcomes.
pub open spec fn still_pending(pending: bool, outcomes: Seq<bool>) -> bool
    decreases outcomes.len(),
{
    if outcomes.len() == 0 {
        pending
    } else {
        still_pending(pending, outcomes.drop_last()) && !outcomes.last()
    }
}

/// A removal that did not reach a player is tried again, and again, until one did: the wish stands exactly
/// as long as every attempt failed.
pub proof fn cleanup_is_retried_until_settled(pending: bool, outcomes: Seq<bool>)
    ensures
        still_pending(pending, outcomes) == (pending && forall|i: int|
            0 <= i < outcomes.len() ==> !#[trigger] outcomes[i]),
    decreases outcomes.len(),
{
    if outcomes.len() > 0 {
        let rest = outcomes.drop_last();
        cleanup_is_retried_until_settled(pending, rest);
        if pending && (forall|i: int| 0 <= i < rest.len() ==> !#[trigger] rest[i])
            && !outcomes.last() {
            assert forall|i: int| 0 <= i < outcomes.len() implies !#[trigger] outcomes[i] by {
                if i < rest.len() {
                    assert(!rest[i]);
                }
            }
        }
        if forall|i: int| 0 <= i < outcomes.len() ==> !#[trigger] outcomes[i] {
            assert forall|i: int| 0 <= i < rest.len() implies !#[trigger] rest[i] by {
                assert(!outcomes[i]);
            }
        }
    }
}

/// A tier as the probe tells it.
#[derive(Debug)]
pub struct ProbeTier {
    pub level: u8,
    pub label: String,
    pub rates: String,
    pub affects_item_drop: bool,
}

/// The line on a tier.
pub open spec fn probe_tier_line(t: ProbeTier, endurance: Seq<char>) -> LogLineView {
    LogLineView {
        level: Level::Info,
        text: "death-debuffs probe:   "@ + t.label@ + " -> row "@ + signed_dec(
            tier_row_id(t.level as int) as int,
        ) + ": effect_endurance="@ + endurance + " state_info="@ + dec(
            if t.affects_item_drop {
                ITEM_DROP_STATE_INFO as nat
            } else {
                0
            },
        ) + " "@ + t.rates@,
    }
}

pub const GRACE_HELP: &'static str = " (0 = UNSET — prime candidate is flag 9000, the public ER event-flag reference's \"resting at a Site of Grace\" flag [9001/9002 are its menu/clock-suppression siblings]; confirm with a NARROW `[debug.probes] event_flag_scan` window over ~8990..9020 while resting at a grace)";

/// The dump of what would be written: a head, the first `n` tiers.
pub open spec fn probe_head(
    reason: Seq<char>,
    deaths: u64,
    active: u64,
    intensity: Seq<char>,
    tiers: Seq<ProbeTier>,
    endurance: Seq<char>,
    n: nat,
) -> Seq<LogLineView>
    decreases n,
{
    if n == 0 {
        seq![
            LogLineView {
                level: Level::Info,
                text: "death-debuffs probe ("@ + reason + "): deaths="@ + dec(deaths as nat)
                    + " active_tiers="@ + dec(active as nat) + " intensity="@ + intensity
                    + " rows_defined="@ + bool_chars(true),
            },
        ]
    } else {
        probe_head(reason, deaths, active, intensity, tiers, endurance, (n - 1) as nat).push(
            probe_tier_line(tiers[n - 1], endurance),
        )
    }
}

/// The line on the flag of a rest.
pub open spec fn grace_line() -> LogLineView {
    LogLineView {
        level: Level::Info,
        text: "death-debuffs probe: grace cure flag = "@ + dec(GRACE_REST_FLAG as nat)
            + GRACE_HELP@,
    }
}

/// The dump of what would be written. `endurance` is the lasting of a row in words.
pub fn probe_log_intended_writes(
    reason: &str,
    deaths: u64,
    active: u64,
    intensity: &str,
    tiers: &Vec<ProbeTier>,
    endurance: &str,
) -> (lines: Vec<LogLine>)
    requires
        forall|i: int| 0 <= i < tiers@.len() ==> 1 <= (#[trigger] tiers@[i]).level <= TIERS,
    ensures
        lines_view(lines@) == probe_head(
            reason@,
            deaths,
            active,
            intensity@,
            tiers@,
            endurance@,
            tiers@.len(),
        ).push(grace_line()),
{
    let mut lines: Vec<LogLine> = Vec::new();
    let mut head = "death-debuffs probe (".to_owned();
    head.append(reason);
    head.append("): deaths=");
    head.append(text::dec_text(deaths).as_str());
    head.append(" active_tiers=");
    head.append(text::dec_text(active).as_str());
    head.append(" intensity=");
    head.append(intensity);
    head.append(" rows_defined=");
    let defined = rows_defined();
    assert(tier_rows()[0] != 0);
    head.append(text::bool_text(defined).as_str());
    levels::push_line(&mut lines, Level::Info, head);
    assert(lines_view(lines@) =~= probe_head(
        reason@,
        deaths,
        active,
        intensity@,
        tiers@,
        endurance@,
        0,
    ));
    let mut i: usize = 0;
    while i < tiers.len()
        invariant
            i <= tiers@.len(),
            forall|j: int| 0 <= j < tiers@.len() ==> 1 <= (#[trigger] tiers@[j]).level <= TIERS,
            lines_view(lines@) == probe_head(
                reason@,
                deaths,
                active,
                intensity@,
                tiers@,
                endurance@,
                i as nat,
            ),
        decreases tiers@.len() - i,
    {
        let t = &tiers[i];
        assert(1 <= tiers@[i as int].level <= TIERS);
        let mut out = "death-debuffs probe:   ".to_owned();
        out.append(t.label.as_str());
        out.append(" -> row ");
        out.append(text::signed_text(row_of_tier(t.level) as i64).as_str());
        out.append(": effect_endurance=");
        out.append(endurance);
        out.append(" state_info=");
        let state: u64 = if t.affects_item_drop {
            ITEM_DROP_STATE_INFO as u64
        } else {
            0
        };
        out.append(text::dec_text(state).as_str());
        out.append(" ");
        out.append(t.rates.as_str());
        levels::push_line(&mut lines, Level::Info, out);
        i = i + 1;
    }
    let mut tail = "death-debuffs probe: grace cure flag = ".to_owned();
    tail.append(text::dec_text(GRACE_REST_FLAG as u64).as_str());
    tail.append(GRACE_HELP);
    levels::push_line(&mut lines, Level::Info, tail);
    lines
}

/// How many of the highest row numbers are told.
pub const TOP_IDS: usize = 12;

/// The last few of ascending numbers, highest first.
pub open spec fn top_ids(ids: Seq<u32>) -> Seq<u32> {
    Seq::new(
        if ids.len() < TOP_IDS {
            ids.len()
        } else {
            TOP_IDS as nat
        },
        |i: int| ids[ids.len() - 1 - i],
    )
}

/// Numbers as they are told.
pub open spec fn id_list(ids: Seq<u32>) -> Seq<char> {
    "["@ + joined(Seq::new(ids.len(), |i: int| dec(ids[i] as nat)), ", "@) + "]"@
}

/// The line on the table: how many rows it has, the lowest and the highest number, and the highest few.
pub open spec fn census_line(ids: Seq<u32>) -> LogLineView {
    LogLineView {
        level: Level::Info,
        text: "death-debuffs probe: SpEffectParam = "@ + dec(ids.len()) + " rows, id range "@ + dec(
            ids[0] as nat,
        ) + "..="@ + dec(ids.last() as nat) + "; highest ids "@ + id_list(top_ids(ids))
            + " (pick a verified-unused one to repurpose)"@,
    }
}

/// The line on the table; none while it is empty. The numbers are in ascending order.
pub fn census(ids: &Vec<u32>) -> (line: Option<LogLine>)
    ensures
        line is Some == (ids@.len() != 0),
        line is Some ==> line->0@ == census_line(ids@),
{
    if ids.len() == 0 {
        return None;
    }
    let mut parts: Vec<String> = Vec::new();
    let ghost top = top_ids(ids@);
    let ghost all = Seq::new(top.len(), |i: int| dec(top[i] as nat));
    let n: usize = if ids.len() < TOP_IDS {
        ids.len()
    } else {
        TOP_IDS
    };
    let mut i: usize = 0;
    assert(texts(parts@) =~= all.take(0));
    while i < n
        invariant
            i <= n <= ids@.len(),
            n == top.len(),
            top == top_ids(ids@),
            all == Seq::new(top.len(), |i: int| dec(top[i] as nat)),
            texts(parts@) == all.take(i as int),
        decreases n - i,
    {
        let ghost before = texts(parts@);
        let part = text::dec_text(ids[ids.len() - 1 - i] as u64);
        let ghost chars = part@;
        parts.push(part);
        assert(texts(parts@) =~= before.push(chars));
        i = i + 1;
        assert(all.take(i as int) =~= before.push(all[i - 1]));
    }
    assert(all.take(i as int) =~= all);
    let mut list = "[".to_owned();
    list.append(text::join(&parts, ", ").as_str());
    list.append("]");
    let mut out = "death-debuffs probe: SpEffectParam = ".to_owned();
    out.append(text::dec_text(ids.len() as u64).as_str());
    out.append(" rows, id range ");
    out.append(text::dec_text(ids[0] as u64).as_str());
    out.append("..=");
    out.append(text::dec_text(ids[ids.len() - 1] as u64).as_str());
    out.append("; highest ids ");
    out.append(list.as_str());
    out.append(" (pick a verified-unused one to repurpose)");
    Some(LogLine { level: Level::Info, text: out })
}

/// The line on the icon that the penalty shows; nothing where the row it is copied from is gone.
pub fn icon_line(icon: Option<i32>) -> (line: LogLine)
    ensures
        line@ == (LogLineView {
            level: Level::Info,
            text: "death-debuffs probe: debuff icon_id = "@ + signed_dec(
                match icon {
                    Some(i) => i as int,
                    None => NONE_ID as int,
                },
            ) + " (from source row "@ + dec(DEBUFF_ICON_SOURCE_ID as nat) + ")"@,
        }),
{
    let shown: i32 = match icon {
        Some(i) => i,
        None => NONE_ID,
    };
    let mut out = "death-debuffs probe: debuff icon_id = ".to_owned();
    out.append(text::signed_text(shown as i64).as_str());
    out.append(" (from source row ");
    out.append(text::dec_text(DEBUFF_ICON_SOURCE_ID as u64).as_str());
    out.append(")");
    LogLine { level: Level::Info, text: out }
}

/// The line on a write to a row that is there, which was read back and undone.
pub fn write_back_line(id: u32, stuck: bool) -> (line: LogLine)
    ensures
        line@ == (LogLineView {
            level: Level::Info,
            text: "death-debuffs probe: mutate existing row "@ + dec(id as nat)
                + ": write-back stuck = "@ + bool_chars(stuck) + " (restored)"@,
        }),
{
    let mut out = "death-debuffs probe: mutate existing row ".to_owned();
    out.append(text::dec_text(id as u64).as_str());
    out.append(": write-back stuck = ");
    out.append(text::bool_text(stuck).as_str());
    out.append(" (restored)");
    LogLine { level: Level::Info, text: out }
}

/// Row numbers that should be free.
pub fn mint_candidates() -> (ids: Vec<u32>)
    ensures
        ids@ == seq![7_400_000u32, 9_000_000u32, 9_999_999u32],
{
    let ids: Vec<u32> = vec![7_400_000, 9_000_000, 9_999_999];
    assert(ids@ =~= seq![7_400_000u32, 9_000_000u32, 9_999_999u32]);
    ids
}

/// The line on whether a row with a number that should be free is there.
pub fn mint_line(id: u32, exists: bool) -> (line: LogLine)
    ensures
        line@ == (LogLineView {
            level: Level::Info,
            text: "death-debuffs probe: mint candidate id "@ + dec(id as nat) + ": get_mut -> "@ + (
            if exists {
                "Some (id already EXISTS — collision, don't repurpose)"@
            } else {
                "None (absent — get_mut can't mint it; repurpose an existing row instead)"@
            }),
        }),
{
    let mut out = "death-debuffs probe: mint candidate id ".to_owned();
    out.append(text::dec_text(id as u64).as_str());
    out.append(": get_mut -> ");
    out.append(
        if exists {
            "Some (id already EXISTS — collision, don't repurpose)"
        } else {
            "None (absent — get_mut can't mint it; repurpose an existing row instead)"
        },
    );
    LogLine { level: Level::Info, text: out }
}

/// The `k`-th word of a row's bytes.
pub open spec fn word(bytes: Seq<u8>, k: int) -> Seq<u8> {
    bytes.subrange(4 * k, 4 * k + 4)
}

/// The words among the first `n` in which two rows differ.
pub open spec fn differing(a: Seq<u8>, b: Seq<u8>, n: nat) -> Seq<usize>
    decreases n,
{
    if n == 0 {
        Seq::empty()
    } else {
        let before = differing(a, b, (n - 1) as nat);
        if word(a, n - 1) == word(b, n - 1) {
            before
        } else {
            before.push((n - 1) as usize)
        }
    }
}

/// The words in which two rows differ; what is left over at the end of a row is not a word.
pub fn differing_words(a: &Vec<u8>, b: &Vec<u8>) -> (words: Vec<usize>)
    requires
        a@.len() == b@.len(),
    ensures
        words@ == differing(a@, b@, a@.len() / 4),
{
    let len: usize = a.len();
    let n: usize = len / 4;
    let mut words: Vec<usize> = Vec::new();
    let mut k: usize = 0;
    while k < n
        invariant
            k <= n,
            n == len / 4,
            len == a@.len(),
            a@.len() == b@.len(),
            words@ == differing(a@, b@, k as nat),
        decreases n - k,
    {
        let o: usize = 4 * k;
        let same = a[o] == b[o] && a[o + 1] == b[o + 1] && a[o + 2] == b[o + 2] && a[o + 3] == b[o
            + 3];
        proof {
            let (x, y) = (word(a@, k as int), word(b@, k as int));
            if same {
                assert(x =~= y);
            } else if x == y {
                assert(x[0] == a@[o as int] && y[0] == b@[o as int]);
                assert(x[1] == a@[o + 1] && y[1] == b@[o + 1]);
                assert(x[2] == a@[o + 2] && y[2] == b@[o + 2]);
                assert(x[3] == a@[o + 3] && y[3] == b@[o + 3]);
            }
        }
        if !same {
            words.push(k);
        }
        k = k + 1;
    }
    words
}

/// A word that differs: its numbers whole, and its numbers with a point in words.
#[derive(Debug)]
pub struct WordTexts {
    pub clean: i32,
    pub clean_point: String,
    pub dirty: i32,
    pub dirty_point: String,
}

/// The line on a word that differs.
pub fn word_line(k: u32, w: &WordTexts) -> (line: LogLine)
    requires
        4 * k <= u32::MAX,
    ensures
        line@ == (LogLineView {
            level: Level::Info,
            text: "  @0x"@ + zero_pad(hex_digits((4 * k) as nat), 3) + " ("@ + dec((4 * k) as nat)
                + "): template i32="@ + signed_dec(w.clean as int) + " f32="@ + w.clean_point@
                + " | dirty i32="@ + signed_dec(w.dirty as int) + " f32="@ + w.dirty_point@,
        }),
{
    let off: u64 = 4 * k as u64;
    let mut out = "  @0x".to_owned();
    out.append(text::hex_padded(off, 3).as_str());
    out.append(" (");
    out.append(text::dec_text(off).as_str());
    out.append("): template i32=");
    out.append(text::signed_text(w.clean as i64).as_str());
    out.append(" f32=");
    out.append(w.clean_point.as_str());
    out.append(" | dirty i32=");
    out.append(text::signed_text(w.dirty as i64).as_str());
    out.append(" f32=");
    out.append(w.dirty_point.as_str());
    LogLine { level: Level::Info, text: out }
}

/// Every tier in force whose row was written is put on the player, and nothing else is: a row that is put on
/// them, or taken off them, is the row of such a tier.
pub proof fn every_written_tier_is_applied(
    tiers: Seq<ActiveTier>,
    written: Seq<bool>,
    n: nat,
)
    requires
        n <= tiers.len() == written.len(),
    ensures
        forall|k: int|
            0 <= k < n && #[trigger] written[k] ==> exists|j: int|
                0 <= j < apply_actions(tiers, written, n).len() && #[trigger] apply_actions(
                    tiers,
                    written,
                    n,
                )[j] == RowAction::Apply(tier_row_id(tiers[k].level as int)),
        forall|j: int|
            0 <= j < apply_actions(tiers, written, n).len() ==> exists|k: int|
                0 <= k < n && #[trigger] written[k] && (#[trigger] apply_actions(
                    tiers,
                    written,
                    n,
                )[j] == RowAction::Apply(tier_row_id(tiers[k].level as int)) || apply_actions(
                    tiers,
                    written,
                    n,
                )[j] == RowAction::Remove(tier_row_id(tiers[k].level as int))),
    decreases n,
{
    if n > 0 {
        every_written_tier_is_applied(tiers, written, (n - 1) as nat);
        let before = apply_actions(tiers, written, (n - 1) as nat);
        let now = apply_actions(tiers, written, n);
        assert forall|k: int| 0 <= k < n && #[trigger] written[k] implies exists|j: int|
            0 <= j < now.len() && #[trigger] now[j] == RowAction::Apply(
                tier_row_id(tiers[k].level as int),
            ) by {
            if k < n - 1 {
                let j = choose|j: int|
                    0 <= j < before.len() && #[trigger] before[j] == RowAction::Apply(
                        tier_row_id(tiers[k].level as int),
                    );
                assert(now[j] == before[j]);
            } else {
                assert(now[(before.len() + 1) as int] == RowAction::Apply(
                    tier_row_id(tiers[k].level as int),
                ));
            }
        }
        assert forall|j: int| 0 <= j < now.len() implies exists|k: int|
            0 <= k < n && #[trigger] written[k] && (#[trigger] now[j] == RowAction::Apply(
                tier_row_id(tiers[k].level as int),
            ) || now[j] == RowAction::Remove(tier_row_id(tiers[k].level as int))) by {
            if j < before.len() {
                assert(before[j] == now[j]);
                let k = choose|k: int|
                    0 <= k < n - 1 && #[trigger] written[k] && (before[j] == RowAction::Apply(
                        tier_row_id(tiers[k].level as int),
                    ) || before[j] == RowAction::Remove(tier_row_id(tiers[k].level as int)));
                assert(written[k]);
            } else {
                assert(written[n - 1]);
            }
        }
    }
}

/// A tier in force whose row the game dropped is put back.
pub proof fn every_dropped_tier_is_healed(
    tiers: Seq<ActiveTier>,
    present: Seq<i32>,
    n: nat,
    t: int,
)
    requires
        0 <= t < n <= tiers.len() <= usize::MAX,
        forall|i: int|
            0 <= i < present.len() ==> #[trigger] present[i] != tier_row_id(tiers[t].level as int),
    ensures
        exists|k: int|
            0 <= k < missing_tiers(tiers, present, n).len() && #[trigger] missing_tiers(
                tiers,
                present,
                n,
            )[k] == t,
    decreases n,
{
    let before = missing_tiers(tiers, present, (n - 1) as nat);
    let now = missing_tiers(tiers, present, n);
    if t < n - 1 {
        every_dropped_tier_is_healed(tiers, present, (n - 1) as nat, t);
        let k = choose|k: int| 0 <= k < before.len() && #[trigger] before[k] == t;
        assert(now[k] == t);
    } else {
        assert(now[before.len() as int] == t);
    }
}

/// Healing puts a row on the player exactly if it was written, and takes it off them first.
pub proof fn a_written_row_is_put_on_once(id: i32)
    ensures
        row_actions(id, false).len() == 0,
        row_actions(id, true).len() == 2,
        row_actions(id, true)[0] == RowAction::Remove(id),
        row_actions(id, true)[1] == RowAction::Apply(id),
{
}

/// The rows that are removed at a grace are exactly the rows that a tier can be put on with.
pub proof fn every_tier_can_be_removed(level: int)
    requires
        1 <= level <= TIERS,
    ensures
        tier_rows().len() == TIERS,
        tier_rows()[level - 1] == tier_row_id(level),
        0 < tier_row_id(level),
        level < TIERS ==> tier_row_id(level + 1) - tier_row_id(level) == 10,
        tier_row_id(1) == 7210,
{
}

/// Switching off asks for the rows to be removed exactly when it was on before.
pub proof fn only_switching_off_cleans_up(feature: DeathDebuffsFeature)
    ensures
        !feature.switched_off(true),
        feature.switched_off(false) == (feature.enabled is Some && feature.enabled->0),
{
}

/// A tier that is written makes the row last, weakens as it says and leaves nothing else on it.
pub proof fn a_tiers_row_holds_its_rates(row: EffectRow, rates: TierRates, icon: i32, i: int)
    requires
        row.carries(rates, icon),
        0 <= i < 5,
    ensures
        row.max_hp_rate == rates.max_hp_rate,
        row.max_mp_rate == rates.max_fp_rate,
        row.max_stamina_rate == rates.max_stamina_rate,
        row.have_soul_rate == rates.have_soul_rate,
        row.item_drop_rate == rates.item_drop_rate,
        row.stamina_recover_change_speed == rates.stamina_recover_change_speed,
        row.diffence_rate@[i] == rates.defence_rate,
        row.attack_rate@[i] == rates.attack_rate,
        row.effect_endurance == 0xbf80_0000,
        row.icon_id == icon,
        row.state_info == (if rates.affects_item_drop {
            66u16
        } else {
            0u16
        }),
        row.regist_change_rate@[i] == 0x3f80_0000,
        row.attack_power_rate@[2 * i] == 0x3f80_0000,
        row.attack_power_rate@[2 * i + 1] == 0x3f80_0000,
        row.attack_power_rate@[10] == 0x3f80_0000,
        row.status_attack_power@[i] == 0,
        row.chained_id@[i] == -1,
        row.vfx_id@[i] == -1,
        row.add_foot_effect_sfx_id == -1,
{
}

/// The words in which two rows are said to differ are exactly those in which they do, in order.
pub proof fn differing_words_differ(a: Seq<u8>, b: Seq<u8>, n: nat)
    requires
        a.len() == b.len() <= usize::MAX,
        4 * n <= a.len(),
    ensures
        forall|k: int|
            0 <= k < differing(a, b, n).len() ==> (#[trigger] differing(a, b, n)[k]) < n
                && a.subrange(4 * differing(a, b, n)[k], 4 * differing(a, b, n)[k] + 4)
                != b.subrange(4 * differing(a, b, n)[k], 4 * differing(a, b, n)[k] + 4),
        forall|w: int|
            0 <= w < n && #[trigger] a.subrange(4 * w, 4 * w + 4) != b.subrange(4 * w, 4 * w + 4)
                ==> differing(a, b, n).contains(w as usize),
    decreases n,
{
    if n > 0 {
        differing_words_differ(a, b, (n - 1) as nat);
        let before = differing(a, b, (n - 1) as nat);
        let now = differing(a, b, n);
        assert forall|w: int|
            0 <= w < n && #[trigger] a.subrange(4 * w, 4 * w + 4) != b.subrange(4 * w, 4 * w
                + 4) implies now.contains(w as usize) by {
            if w < n - 1 {
                assert(before.contains(w as usize));
                let j = choose|j: int| 0 <= j < before.len() && before[j] == w as usize;
                assert(now[j] == w as usize);
            } else {
                assert(now[before.len() as int] == w as usize);
            }
        }
    }
}

/// The highest numbers are told from the highest down, at most twelve of them.
pub proof fn the_highest_ids_come_first(ids: Seq<u32>)
    requires
        forall|i: int, j: int| 0 <= i < j < ids.len() ==> #[trigger] ids[i] < #[trigger] ids[j],
    ensures
        top_ids(ids).len() <= 12,
        ids.len() <= 12 ==> top_ids(ids).len() == ids.len(),
        ids.len() > 12 ==> top_ids(ids).len() == 12,
        ids.len() > 0 ==> top_ids(ids)[0] == ids.last(),
        forall|i: int, j: int|
            0 <= i < j < top_ids(ids).len() ==> #[trigger] top_ids(ids)[i] > #[trigger] top_ids(
                ids,
            )[j],
{
}

/// Every active tier has its line; one whose row could not be written is told to be skipped, right after it.
pub proof fn every_active_tier_has_its_line(
    tiers: Seq<ActiveTier>,
    written: Seq<bool>,
    intensity: Seq<char>,
    n: nat,
)
    requires
        n <= tiers.len() == written.len(),
    ensures
        n <= apply_lines(tiers, written, intensity, n).len() <= 2 * n,
        forall|k: int|
            0 <= k < n ==> apply_lines(tiers, written, intensity, n).contains(
                tier_line(#[trigger] tiers[k], intensity),
            ),
        forall|k: int|
            0 <= k < n && !#[trigger] written[k] ==> apply_lines(
                tiers,
                written,
                intensity,
                n,
            ).contains(skipped_line(tier_row_id(tiers[k].level as int))),
        (forall|k: int| 0 <= k < n ==> #[trigger] written[k]) ==> apply_lines(
            tiers,
            written,
            intensity,
            n,
        ).len() == n,
    decreases n,
{
    if n > 0 {
        every_active_tier_has_its_line(tiers, written, intensity, (n - 1) as nat);
        let before = apply_lines(tiers, written, intensity, (n - 1) as nat);
        let now = apply_lines(tiers, written, intensity, n);
        assert(now[before.len() as int] == tier_line(tiers[n - 1], intensity));
        assert forall|k: int| 0 <= k < n implies now.contains(
            tier_line(#[trigger] tiers[k], intensity),
        ) by {
            if k < n - 1 {
                let line = tier_line(tiers[k], intensity);
                assert(before.contains(line));
                let j = choose|j: int| 0 <= j < before.len() && before[j] == line;
                assert(now[j] == line);
            }
        }
        assert forall|k: int| 0 <= k < n && !#[trigger] written[k] implies now.contains(
            skipped_line(tier_row_id(tiers[k].level as int)),
        ) by {
            let line = skipped_line(tier_row_id(tiers[k].level as int));
            if k < n - 1 {
                assert(before.contains(line));
                let j = choose|j: int| 0 <= j < before.len() && before[j] == line;
                assert(now[j] == line);
            } else {
                assert(now[(before.len() + 1) as int] == line);
            }
        }
    }
}

/// Every healed tier has its line, in order.
pub proof fn every_healed_tier_has_its_line(
    tiers: Seq<ActiveTier>,
    missing: Seq<usize>,
    i: int,
)
    requires
        0 <= i < missing.len(),
    ensures
        heal_lines(tiers, missing).len() == missing.len(),
        heal_lines(tiers, missing)[i] == heal_line(tiers[missing[i] as int]),
{
}

/// The lines about a tier tell its name and its row.
pub proof fn a_tiers_lines_tell_its_row(tier: ActiveTier, intensity: Seq<char>, id: i32)
    ensures
        tier_line(tier, intensity).text == "death debuffs: tier "@ + tier.label@ + " @intensity "@
            + intensity + " -> "@ + tier.rates@ + " (row "@ + signed_dec(
            tier_row_id(tier.level as int) as int,
        ) + ")"@,
        heal_line(tier).text == "death debuffs: self-heal re-applying "@ + tier.label@ + " (row "@
            + signed_dec(tier_row_id(tier.level as int) as int)
            + ") — game dropped it across a load"@,
        skipped_line(id).text == "death debuffs: SpEffectParam row "@ + signed_dec(id as int)
            + " not writable (param repo not live?); skipped apply"@,
{
}

/// The probe tells of every tier what would be written: its row, and the kind of state that makes items drop exactly
/// if it affects them.
pub proof fn the_probe_tells_every_tier(
    reason: Seq<char>,
    deaths: u64,
    active: u64,
    intensity: Seq<char>,
    tiers: Seq<ProbeTier>,
    endurance: Seq<char>,
    n: nat,
    i: int,
)
    requires
        n <= tiers.len(),
        0 <= i < n,
    ensures
        probe_head(reason, deaths, active, intensity, tiers, endurance, n).len() == n + 1,
        probe_head(reason, deaths, active, intensity, tiers, endurance, n)[0].text
            == "death-debuffs probe ("@ + reason + "): deaths="@ + dec(deaths as nat)
            + " active_tiers="@ + dec(active as nat) + " intensity="@ + intensity
            + " rows_defined="@ + "true"@,
        probe_head(reason, deaths, active, intensity, tiers, endurance, n)[i + 1]
            == probe_tier_line(tiers[i], endurance),
        tiers[i].affects_item_drop ==> probe_tier_line(tiers[i], endurance).text
            == "death-debuffs probe:   "@ + tiers[i].label@ + " -> row "@ + signed_dec(
            tier_row_id(tiers[i].level as int) as int,
        ) + ": effect_endurance="@ + endurance + " state_info="@ + dec(66) + " "@ + tiers[i].rates@,
        !tiers[i].affects_item_drop ==> probe_tier_line(tiers[i], endurance).text
            == "death-debuffs probe:   "@ + tiers[i].label@ + " -> row "@ + signed_dec(
            tier_row_id(tiers[i].level as int) as int,
        ) + ": effect_endurance="@ + endurance + " state_info="@ + dec(0) + " "@ + tiers[i].rates@,
    decreases n,
{
    if n > 1 {
        if i < n - 1 {
            the_probe_tells_every_tier(
                reason,
                deaths,
                active,
                intensity,
                tiers,
                endurance,
                (n - 1) as nat,
                i,
            );
        } else {
            the_probe_tells_every_tier(
                reason,
                deaths,
                active,
                intensity,
                tiers,
                endurance,
                (n - 1) as nat,
                0,
            );
        }
    } else {
        reveal_with_fuel(probe_head, 2);
    }
}

/// A row is on exactly if it is among those that are present.
pub proof fn a_row_that_is_present_is_on(present: Seq<i32>, id: i32)
    ensures
        is_on(present, id) == present.contains(id),
{
    if present.contains(id) {
        let i = choose|i: int| 0 <= i < present.len() && present[i] == id;
        assert(present[i] == id);
    }
}

/// Making a row neutral leaves what the tier shows and costs as it was.
pub proof fn the_overlay_is_what_a_tier_costs(a: EffectRow, b: EffectRow)
    requires
        a.same_overlay(b),
    ensures
        a.icon_id == b.icon_id,
        a.effect_endurance == b.effect_endurance,
        a.max_hp_rate == b.max_hp_rate,
        a.max_mp_rate == b.max_mp_rate,
        a.max_stamina_rate == b.max_stamina_rate,
        a.stamina_recover_change_speed == b.stamina_recover_change_speed,
        a.have_soul_rate == b.have_soul_rate,
        a.item_drop_rate == b.item_drop_rate,
        a.state_info == b.state_info,
        a.diffence_rate@ == b.diffence_rate@,
        a.attack_rate@ == b.attack_rate@,
{
}

/// A neutral row multiplies by one, adds nothing and leads to nothing.
pub proof fn a_neutral_row_does_nothing(row: EffectRow, i: int)
    requires
        row.is_neutral(),
    ensures
        0 <= i < 7 ==> row.regist_change_rate@[i] == 0x3f80_0000 && row.status_attack_power@[i] == 0,
        0 <= i < 11 ==> row.attack_power_rate@[i] == 0x3f80_0000,
        0 <= i < 8 ==> row.vfx_id@[i] == -1,
        0 <= i < 5 ==> row.chained_id@[i] == -1,
        row.add_foot_effect_sfx_id == -1,
{
}

/// The census tells how many rows there are, from which to which, and the highest of them.
pub proof fn the_census_tells_the_range(ids: Seq<u32>)
    requires
        ids.len() > 0,
    ensures
        census_line(ids).text == "death-debuffs probe: SpEffectParam = "@ + dec(ids.len())
            + " rows, id range "@ + dec(ids[0] as nat) + "..="@ + dec(ids[ids.len() - 1] as nat)
            + "; highest ids "@ + id_list(top_ids(ids))
            + " (pick a verified-unused one to repurpose)"@,
        id_list(seq![ids[0]]) == "["@ + dec(ids[0] as nat) + "]"@,
        grace_line().text == "death-debuffs probe: grace cure flag = "@ + dec(9000) + GRACE_HELP@,
{
    let one = Seq::new(seq![ids[0]].len(), |i: int| dec(seq![ids[0]][i] as nat));
    assert(one =~= seq![dec(ids[0] as nat)]);
}

/// What happens to the player's rows is told to who debugs it, and what a probe finds to everyone.
pub proof fn how_loud_the_penalty_is_told(
    tier: ActiveTier,
    t: ProbeTier,
    id: i32,
    s: Seq<char>,
    deaths: u64,
    tiers: Seq<ProbeTier>,
    ids: Seq<u32>,
)
    ensures
        tier_line(tier, s).level == Level::Debug,
        heal_line(tier).level == Level::Debug,
        skipped_line(id).level == Level::Debug,
        probe_tier_line(t, s).level == Level::Info,
        probe_head(s, deaths, deaths, s, tiers, s, 0)[0].level == Level::Info,
        grace_line().level == Level::Info,
        census_line(ids).level == Level::Info,
{
}

} // verus!
