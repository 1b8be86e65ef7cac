//! Hands the camera of a dead player to a living partner, and back when they revive.

use vstd::prelude::*;

use crate::levels::{Level, LogLine, LogLineView};
use crate::text;
use crate::text::{bool_chars, dec, hex_digits};

verus! {

/// The kind of camera, as far as it matters here.
#[derive(Clone, Copy, Debug, PartialEq, Eq, Structural)]
pub enum CamType {
    /// The one that follows the player.
    Follow,
    Death,
    Other(u32),
}

/// The fields of the game's camera that are written. A character is known by its address.
#[derive(Clone, Copy, Debug, PartialEq, Eq, Structural)]
pub struct ChrCam {
    pub death_cam_target: Option<u64>,
    pub camera_type: CamType,
    pub request_camera_reset: bool,
}

impl ChrCam {
    /// The camera handed back to the game.
    pub open spec fn given_back(self) -> ChrCam {
        ChrCam {
            death_cam_target: None,
            camera_type: CamType::Follow,
            request_camera_reset: true,
        }
    }

    /// The camera without a target.
    pub open spec fn untargeted(self) -> ChrCam {
        ChrCam { death_cam_target: None, ..self }
    }

    /// The camera aimed at a target, or without one.
    pub open spec fn aimed(self, target: Option<u64>) -> ChrCam {
        ChrCam {
            death_cam_target: target,
            camera_type: if target is Some {
                CamType::Death
            } else {
                self.camera_type
            },
            ..self
        }
    }
}

/// Hands the camera back to the game: no target, the following kind, and a reset.
pub fn reset_chr_cam(cam: &mut ChrCam)
    ensures
        *final(cam) == old(cam).given_back(),
{
    cam.death_cam_target = None;
    cam.camera_type = CamType::Follow;
    cam.request_camera_reset = true;
}

/// Drops the target alone, so that nobody who may be gone stays in it.
pub fn clear_death_cam_target(cam: &mut ChrCam)
    ensures
        *final(cam) == old(cam).untargeted(),
{
    cam.death_cam_target = None;
}

/// Aims the camera at a target; with none it is left without one.
pub fn aim_death_cam(cam: &mut ChrCam, target: Option<u64>)
    ensures
        *final(cam) == old(cam).aimed(target),
{
    cam.death_cam_target = target;
    match target {
        Some(_) => {
            cam.camera_type = CamType::Death;
        },
        None => {},
    }
}

/// The local player, settled in the world.
#[derive(Clone, Copy, Debug, PartialEq, Eq, Structural)]
pub struct MainState {
    pub address: u64,
    pub dead: bool,
}

/// A character of a player that is in the world.
#[derive(Clone, Copy, Debug, PartialEq, Eq, Structural)]
pub struct PlayerChr {
    pub address: u64,
    pub dead: bool,
}

/// A partner who could be followed.
#[derive(Clone, Copy, Debug, PartialEq, Eq, Structural)]
pub struct Candidate {
    pub id: u64,
    pub alive: bool,
}

/// The feature.
#[derive(Clone, Copy, Debug, PartialEq, Eq, Structural)]
pub struct SpectateFeature {
    /// Whether the camera is being driven.
    pub active: bool,
    /// The partner who was followed last.
    pub current_target: Option<u64>,
    /// The switch as it was seen last.
    pub enabled: Option<bool>,
    /// Whether the camera was looked at on a death.
    pub probed: bool,
}

/// How the frame goes on.
#[derive(Clone, Copy, Debug, PartialEq, Eq, Structural)]
pub enum SpectatePhase {
    /// There is no settled player: nothing is decided, only the target is dropped.
    Hold,
    /// The player lives, or their death is not confirmed.
    Idle,
    /// The player revived: the camera was handed back, and the death detector starts afresh.
    Released,
    /// The player is dead: choose a partner.
    Spectating,
}

/// What the start of a frame comes to.
#[derive(Debug)]
pub struct SpectateStart {
    pub phase: SpectatePhase,
    pub line: Option<LogLine>,
    /// Look at the camera now, for the log.
    pub probe: bool,
}

pub const ENTERING: &'static str = "spectate: local death confirmed — entering spectator camera";

pub const NO_PARTNER: &'static str = "spectate: no living partner — clearing the death-cam target";

/// The line on the camera having been handed back.
pub open spec fn released_line(reason: Seq<char>) -> LogLineView {
    LogLineView {
        level: Level::Debug,
        text: "spectate: released camera ("@ + reason + ")"@,
    }
}

fn released(reason: &str) -> (line: LogLine)
    ensures
        line@ == released_line(reason@),
{
    let mut out = "spectate: released camera (".to_owned();
    out.append(reason);
    out.append(")");
    LogLine { level: Level::Debug, text: out }
}

impl SpectateFeature {
    /// Nothing driven.
    pub fn new() -> (feature: SpectateFeature)
        ensures
            feature == (SpectateFeature {
                active: false,
                current_target: None,
                enabled: None,
                probed: false,
            }),
    {
        SpectateFeature { active: false, current_target: None, enabled: None, probed: false }
    }

    /// The feature with its own state reset.
    pub open spec fn at_rest(self) -> SpectateFeature {
        SpectateFeature { active: false, current_target: None, ..self }
    }

    /// Whether switching to `enabled` hands the camera back.
    pub open spec fn switched_off(self, enabled: bool) -> bool {
        self.enabled == Some(true) && !enabled && self.active
    }

    /// Follows the switch. Switched off while it drives the camera, the feature comes to rest and the
    /// camera, where there is one, is handed back; the death detector starts afresh then.
    pub fn on_switch(&mut self, enabled: bool, cam: Option<&mut ChrCam>) -> (line: Option<LogLine>)
        ensures
            *final(self) == (SpectateFeature {
                enabled: Some(enabled),
                ..if old(self).switched_off(enabled) {
                    old(self).at_rest()
                } else {
                    *old(self)
                }
            }),
            line is Some == old(self).switched_off(enabled),
            line is Some ==> line->0@ == released_line("disabled"@),
            cam matches Some(c) ==> *final(c) == (if old(self).switched_off(enabled) {
                (*c).given_back()
            } else {
                *c
            }),
            old(self).enabled == Some(true) && !enabled ==> !final(self).active,
            enabled ==> final(self).active == old(self).active && line is None,
    {
        let was_on = match self.enabled {
            Some(e) => e,
            None => false,
        };
        self.enabled = Some(enabled);
        if was_on && !enabled && self.active {
            self.active = false;
            self.current_target = None;
            match cam {
                Some(c) => reset_chr_cam(c),
                None => {},
            }
            Some(released("disabled"))
        } else {
            None
        }
    }

    /// The feature after the death was or was not confirmed.
    pub open spec fn after_death(self, confirmed: bool) -> SpectateFeature {
        if confirmed && !self.active {
            SpectateFeature { active: true, probed: true, ..self }
        } else {
            self
        }
    }

    /// How the frame goes on.
    pub open spec fn phase(self, main: Option<MainState>, confirmed: bool) -> SpectatePhase {
        match main {
            None => SpectatePhase::Hold,
            Some(m) => if !self.after_death(confirmed).active {
                SpectatePhase::Idle
            } else if !m.dead {
                SpectatePhase::Released
            } else {
                SpectatePhase::Spectating
            },
        }
    }

    /// Starts a frame. `confirmed` says whether the death detector has just confirmed the player's death.
    pub fn start(&mut self, main: Option<MainState>, confirmed: bool, cam: Option<&mut ChrCam>) -> (
    out: SpectateStart)
        ensures
            out.phase == old(self).phase(main, confirmed),
            *final(self) == (match out.phase {
                SpectatePhase::Hold => *old(self),
                SpectatePhase::Released => old(self).after_death(confirmed).at_rest(),
                _ => old(self).after_death(confirmed),
            }),
            cam matches Some(c) ==> *final(c) == (match out.phase {
                SpectatePhase::Hold => if old(self).active {
                    (*c).untargeted()
                } else {
                    *c
                },
                SpectatePhase::Released => (*c).given_back(),
                _ => *c,
            }),
            ({
                let enters = main is Some && confirmed && !old(self).active;
                &&& out.probe == (enters && !old(self).probed)
                &&& out.phase == SpectatePhase::Released ==> out.line is Some && out.line->0@
                    == released_line("revived"@)
                &&& out.phase != SpectatePhase::Released ==> out.line is Some == enters
                &&& out.phase != SpectatePhase::Released && enters ==> out.line->0@ == (
                LogLineView { level: Level::Debug, text: ENTERING@ })
            }),
            confirmed && (main matches Some(m) && m.dead) ==> out.phase == SpectatePhase::Spectating
                && final(self).active,
            main matches Some(m) && !m.dead ==> !final(self).active,
            main is None ==> *final(self) == *old(self),
    {
        let m = match main {
            None => {
                if self.active {
                    match cam {
                        Some(c) => clear_death_cam_target(c),
                        None => {},
                    }
                }
                return SpectateStart { phase: SpectatePhase::Hold, line: None, probe: false };
            },
            Some(m) => m,
        };
        let mut line: Option<LogLine> = None;
        let mut probe = false;
        if confirmed && !self.active {
            self.active = true;
            line = Some(LogLine { level: Level::Debug, text: ENTERING.to_owned() });
            if !self.probed {
                self.probed = true;
                probe = true;
            }
        }
        if self.active && !m.dead {
            self.active = false;
            self.current_target = None;
            match cam {
                Some(c) => reset_chr_cam(c),
                None => {},
            }
            return SpectateStart {
                phase: SpectatePhase::Released,
                line: Some(released("revived")),
                probe,
            };
        }
        if !self.active {
            return SpectateStart { phase: SpectatePhase::Idle, line, probe };
        }
        SpectateStart { phase: SpectatePhase::Spectating, line, probe }
    }
}

/// The partners among the first `n` characters: everyone but the local player.
pub open spec fn partners(chars: Seq<PlayerChr>, own: u64, n: nat) -> Seq<Candidate>
    decreases n,
{
    if n == 0 {
        Seq::empty()
    } else {
        let before = partners(chars, own, (n - 1) as nat);
        if chars[n - 1].address == own {
            before
        } else {
            before.push(
                Candidate { id: chars[n - 1].address, alive: !chars[n - 1].dead },
            )
        }
    }
}

/// The partners who could be followed, in order.
pub fn candidates(chars: &Vec<PlayerChr>, own: u64) -> (list: Vec<Candidate>)
    ensures
        list@ == partners(chars@, own, chars@.len()),
{
    let mut list: Vec<Candidate> = Vec::new();
    let mut i: usize = 0;
    while i < chars.len()
        invariant
            i <= chars@.len(),
            list@ == partners(chars@, own, i as nat),
        decreases chars@.len() - i,
    {
        let c = chars[i];
        if c.address != own {
            list.push(Candidate { id: c.address, alive: !c.dead });
        }
        i = i + 1;
    }
    list
}

/// How many of the first `n` candidates live.
pub open spec fn living(list: Seq<Candidate>, n: nat) -> nat
    decreases n,
{
    if n == 0 {
        0
    } else {
        living(list, (n - 1) as nat) + (if list[n - 1].alive {
            1nat
        } else {
            0
        })
    }
}

/// Whether somebody is among the candidates.
pub open spec fn is_candidate(list: Seq<Candidate>, id: u64) -> bool {
    exists|i: int| 0 <= i < list.len() && (#[trigger] list[i]).id == id
}

/// What the camera is aimed at: whoever was chosen, if they are there this very frame.
pub open spec fn present_target(list: Seq<Candidate>, chosen: Option<u64>) -> Option<u64> {
    match chosen {
        Some(id) => if is_candidate(list, id) {
            Some(id)
        } else {
            None
        },
        None => None,
    }
}

/// The line on a change of the partner who is followed.
pub open spec fn followed_line(list: Seq<Candidate>, chosen: Option<u64>) -> LogLineView {
    LogLineView {
        level: Level::Debug,
        text: match chosen {
            Some(id) => "spectate: following partner 0x"@ + hex_digits(id as nat) + " ("@ + dec(
                living(list, list.len()),
            ) + " living of "@ + dec(list.len()) + ")"@,
            None => NO_PARTNER@,
        },
    }
}

fn count_living(list: &Vec<Candidate>) -> (n: usize)
    ensures
        n as nat == living(list@, list@.len()),
{
    let mut n: usize = 0;
    let mut i: usize = 0;
    while i < list.len()
        invariant
            i <= list@.len(),
            n <= i,
            n as nat == living(list@, i as nat),
        decreases list@.len() - i,
    {
        if list[i].alive {
            n = n + 1;
        }
        i = i + 1;
    }
    n
}

fn contains_id(list: &Vec<Candidate>, id: u64) -> (yes: bool)
    ensures
        yes == is_candidate(list@, id),
{
    let mut i: usize = 0;
    while i < list.len()
        invariant
            i <= list@.len(),
            forall|j: int| 0 <= j < i ==> (#[trigger] list@[j]).id != id,
        decreases list@.len() - i,
    {
        if list[i].id == id {
            return true;
        }
        i = i + 1;
    }
    false
}

impl SpectateFeature {
    /// Follows whoever was chosen among the candidates, and says so when it is someone else than before.
    /// With nobody to follow the camera is left without a target, and the feature goes on looking.
    pub fn follow(&mut self, list: &Vec<Candidate>, chosen: Option<u64>, cam: Option<&mut ChrCam>) -> (
    line: Option<LogLine>)
        ensures
            *final(self) == (SpectateFeature { current_target: chosen, ..*old(self) }),
            cam matches Some(c) ==> *final(c) == (*c).aimed(present_target(list@, chosen)),
            line is Some == (old(self).current_target != chosen),
            line is Some ==> line->0@ == followed_line(list@, chosen),
            cam matches Some(c) ==> (chosen is None ==> final(c).death_cam_target is None),
    {
        let prev = self.current_target;
        self.current_target = chosen;
        let target = match chosen {
            Some(id) => if contains_id(list, id) {
                Some(id)
            } else {
                None
            },
            None => None,
        };
        let changed = match (prev, chosen) {
            (Some(a), Some(b)) => a != b,
            (None, None) => false,
            _ => true,
        };
        let line = if changed {
            match chosen {
                Some(id) => {
                    let mut out = "spectate: following partner 0x".to_owned();
                    out.append(text::hex_text(id).as_str());
                    out.append(" (");
                    out.append(text::dec_text(count_living(list) as u64).as_str());
                    out.append(" living of ");
                    out.append(text::dec_text(list.len() as u64).as_str());
                    out.append(")");
                    Some(LogLine { level: Level::Debug, text: out })
                },
                None => Some(LogLine { level: Level::Debug, text: NO_PARTNER.to_owned() }),
            }
        } else {
            None
        };
        match cam {
            Some(c) => aim_death_cam(c, target),
            None => {},
        }
        line
    }
}

/// The line on the camera at the first death.
pub fn probe_line(cam_present: bool, entries: u64) -> (line: LogLine)
    ensures
        line@ == (LogLineView {
            level: Level::Info,
            text: "spectate probe (first death): chr_cam present="@ + bool_chars(cam_present)
                + ", player_chr_set Active entries="@ + dec(entries as nat) + PROBE_TAIL@,
        }),
{
    let mut out = "spectate probe (first death): chr_cam present=".to_owned();
    out.append(text::bool_text(cam_present).as_str());
    out.append(", player_chr_set Active entries=");
    out.append(text::dec_text(entries).as_str());
    out.append(PROBE_TAIL);
    LogLine { level: Level::Info, text: out }
}

pub const PROBE_TAIL: &'static str = " (incl. self). Watching whether setting death_cam_target + camera_type=DeathCam pans the view to a partner — see docs/SPECTATE.md.";

/// The camera is never aimed at the local player, only at someone who is in the world this frame.
pub proof fn never_follows_oneself(chars: Seq<PlayerChr>, own: u64, n: nat, chosen: Option<u64>)
    requires
        n <= chars.len(),
    ensures
        present_target(partners(chars, own, n), chosen) matches Some(id) ==> id != own && exists|
            i: int,
        |
            0 <= i < n && (#[trigger] chars[i]).address == id,
    decreases n,
{
    if n > 0 {
        never_follows_oneself(chars, own, (n - 1) as nat, chosen);
        let before = partners(chars, own, (n - 1) as nat);
        let now = partners(chars, own, n);
        if let Some(id) = present_target(now, chosen) {
            let i = choose|i: int| 0 <= i < now.len() && (#[trigger] now[i]).id == id;
            if i < before.len() {
                assert(before[i].id == id);
            } else {
                assert(chars[n - 1].address == id);
            }
        }
    }
}

/// While nobody can be checked on, nobody stays in the camera's target; and handing the camera back
/// leaves nobody in it either.
pub proof fn no_stale_target(cam: ChrCam)
    ensures
        cam.untargeted().death_cam_target is None,
        cam.given_back().death_cam_target is None,
        cam.aimed(None).death_cam_target is None,
{
}

/// A revived player gets the camera back at once, and one revival hands it back once.
pub proof fn revival_releases_once(feature: SpectateFeature, main: MainState)
    requires
        feature.active,
        !main.dead,
    ensures
        feature.phase(Some(main), false) == SpectatePhase::Released,
        feature.after_death(false).at_rest().phase(Some(main), false) == SpectatePhase::Idle,
{
}

/// Whoever is dead when their death is confirmed spectates, whatever the feature did before: on the first death
/// of a session and on every later one.
pub proof fn a_confirmed_death_is_spectated(feature: SpectateFeature, main: MainState)
    requires
        main.dead,
    ensures
        feature.phase(Some(main), true) == SpectatePhase::Spectating,
        feature.after_death(true).active,
        feature.after_death(true).current_target == feature.current_target,
        feature.after_death(true).enabled == feature.enabled,
{
}

/// Without a confirmed death the camera is left to the game, and a dead player goes on spectating once they do.
pub proof fn only_a_confirmed_death_starts(feature: SpectateFeature, main: MainState)
    ensures
        feature.after_death(false) == feature,
        !feature.active ==> feature.phase(Some(main), false) == SpectatePhase::Idle,
        feature.active && main.dead ==> feature.phase(Some(main), false)
            == SpectatePhase::Spectating,
        feature.phase(None, false) == SpectatePhase::Hold,
        feature.phase(None, true) == SpectatePhase::Hold,
{
}

/// A player who was revived and dies again spectates again.
pub proof fn the_next_death_is_spectated_too(
    feature: SpectateFeature,
    revived: MainState,
    dead: MainState,
)
    requires
        feature.active,
        !revived.dead,
        dead.dead,
    ensures
        ({
            let rested = feature.after_death(false).at_rest();
            &&& feature.phase(Some(revived), false) == SpectatePhase::Released
            &&& !rested.active
            &&& rested.current_target is None
            &&& rested.phase(Some(dead), true) == SpectatePhase::Spectating
            &&& rested.after_death(true).active
        }),
{
}

/// Switching off hands the camera back exactly when the feature was on and drove it.
pub proof fn switching_off_releases(feature: SpectateFeature)
    ensures
        !feature.switched_off(true),
        feature.switched_off(false) == (feature.active && feature.enabled is Some
            && feature.enabled->0),
        !feature.at_rest().active,
        feature.at_rest().current_target is None,
        feature.at_rest().enabled == feature.enabled,
{
}

/// The camera is aimed at whoever it is given, by the kind of camera that follows them; without anyone it keeps
/// its kind. Handed back, it follows the player and starts afresh.
pub proof fn the_camera_is_aimed_or_handed_back(cam: ChrCam, id: u64)
    ensures
        cam.aimed(Some(id)).death_cam_target == Some(id),
        cam.aimed(Some(id)).camera_type == CamType::Death,
        cam.aimed(Some(id)).request_camera_reset == cam.request_camera_reset,
        cam.aimed(None).camera_type == cam.camera_type,
        cam.untargeted().camera_type == cam.camera_type,
        cam.untargeted().request_camera_reset == cam.request_camera_reset,
        cam.given_back().camera_type == CamType::Follow,
        cam.given_back().request_camera_reset,
{
}

/// Everyone but the local player can be followed, and counts as living exactly if they are not dead.
pub proof fn every_partner_is_a_candidate(chars: Seq<PlayerChr>, own: u64, n: nat)
    requires
        n <= chars.len(),
    ensures
        forall|i: int|
            0 <= i < n && (#[trigger] chars[i]).address != own ==> partners(
                chars,
                own,
                n,
            ).contains(Candidate { id: chars[i].address, alive: !chars[i].dead }),
        forall|k: int|
            0 <= k < partners(chars, own, n).len() ==> exists|i: int|
                0 <= i < n && (#[trigger] chars[i]).address != own && (#[trigger] partners(
                    chars,
                    own,
                    n,
                )[k]).id == chars[i].address && partners(chars, own, n)[k].alive
                    == !chars[i].dead,
        partners(chars, own, n).len() <= n,
        (forall|i: int| 0 <= i < n ==> (#[trigger] chars[i]).address != own) ==> partners(
            chars,
            own,
            n,
        ).len() == n,
    decreases n,
{
    if n > 0 {
        every_partner_is_a_candidate(chars, own, (n - 1) as nat);
        let before = partners(chars, own, (n - 1) as nat);
        let now = partners(chars, own, n);
        assert forall|i: int| 0 <= i < n && (#[trigger] chars[i]).address != own implies now.contains(
            Candidate { id: chars[i].address, alive: !chars[i].dead },
        ) by {
            let c = Candidate { id: chars[i].address, alive: !chars[i].dead };
            if i < n - 1 {
                assert(before.contains(c));
                let j = choose|j: int| 0 <= j < before.len() && before[j] == c;
                assert(now[j] == c);
            } else {
                assert(now[before.len() as int] == c);
            }
        }
        assert forall|k: int| 0 <= k < now.len() implies exists|i: int|
            0 <= i < n && (#[trigger] chars[i]).address != own && (#[trigger] now[k]).id
                == chars[i].address && now[k].alive == !chars[i].dead by {
            if k < before.len() {
                assert(before[k] == now[k]);
                let i = choose|i: int|
                    0 <= i < n - 1 && (#[trigger] chars[i]).address != own && before[k].id
                        == chars[i].address && before[k].alive == !chars[i].dead;
                assert(chars[i].address != own);
            } else {
                assert(chars[n - 1].address != own);
            }
        }
    }
}

/// A partner who was chosen and is in the world is the one who is followed.
pub proof fn the_chosen_partner_is_followed(list: Seq<Candidate>, k: int)
    requires
        0 <= k < list.len(),
    ensures
        present_target(list, Some(list[k].id)) == Some(list[k].id),
        present_target(list, None) is None,
{
}

/// The living are counted one by one: none where nobody lives, all where everybody does.
pub proof fn the_living_are_counted(list: Seq<Candidate>, n: nat)
    requires
        n <= list.len(),
    ensures
        living(list, n) <= n,
        (living(list, n) == 0) == (forall|i: int| 0 <= i < n ==> !(#[trigger] list[i]).alive),
        (living(list, n) == n) == (forall|i: int| 0 <= i < n ==> (#[trigger] list[i]).alive),
    decreases n,
{
    if n > 0 {
        the_living_are_counted(list, (n - 1) as nat);
        if living(list, n) == n {
            assert(list[n - 1].alive);
        }
    }
}

/// Who is followed is told with how many live of how many; that nobody is, is told too.
pub proof fn who_is_followed_is_told(list: Seq<Candidate>, id: u64, reason: Seq<char>)
    ensures
        followed_line(list, Some(id)).text == "spectate: following partner 0x"@ + hex_digits(
            id as nat,
        ) + " ("@ + dec(living(list, list.len())) + " living of "@ + dec(list.len()) + ")"@,
        followed_line(list, None).text == NO_PARTNER@,
        released_line(reason).text == "spectate: released camera ("@ + reason + ")"@,
        released_line(reason).level == Level::Debug,
        followed_line(list, None).level == Level::Debug,
{
}

/// Each living partner counts once.
pub proof fn each_living_partner_counts_once(list: Seq<Candidate>, n: nat)
    requires
        n < list.len(),
    ensures
        living(list, n + 1) - living(list, n) == (if list[n as int].alive {
            1int
        } else {
            0
        }),
{
}

} // verus!
