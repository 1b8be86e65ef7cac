//! The wiring of the mod: its start-up guards, the features in the order they run, the registry that
//! keeps a feature that failed from running again, and what the steps of the installation come to.

use vstd::prelude::*;

use crate::diag;
use crate::diag::{probes_asked_for, ProbeKind};
use crate::features::auto_session::AutoSession;
use crate::features::rig_guide::RigView;
use crate::hook::HookError;
use crate::levels;
use crate::levels::{lines_view, Level, LogLine, LogLineView};
use crate::nameplates;
use crate::nameplates::{Labels, NameplateLabel};
use crate::notify;
use crate::notify::{
    banner_set, BannerView, Notifications, NotificationsView, Severity, Toast, ToastView,
};
use crate::text;
use crate::text::dec;

verus! {

/// The phase of the game's frame that a feature runs in.
#[derive(Clone, Copy, Debug, PartialEq, Eq, Structural)]
pub enum TaskPhase {
    FrameBegin,
    WorldChrManPostPhysics,
    ChrInsPostPhysics,
}

impl TaskPhase {
    /// The phase's name in the log.
    pub open spec fn name_chars(self) -> Seq<char> {
        match self {
            TaskPhase::FrameBegin => "FrameBegin"@,
            TaskPhase::WorldChrManPostPhysics => "WorldChrMan_PostPhysics"@,
            TaskPhase::ChrInsPostPhysics => "ChrIns_PostPhysics"@,
        }
    }

    /// The phase's name in the log.
    pub fn name(self) -> (name: &'static str)
        ensures
            name@ == self.name_chars(),
    {
        match self {
            TaskPhase::FrameBegin => "FrameBegin",
            TaskPhase::WorldChrManPostPhysics => "WorldChrMan_PostPhysics",
            TaskPhase::ChrInsPostPhysics => "ChrIns_PostPhysics",
        }
    }
}

/// A feature: its name, and when it runs.
#[derive(Debug)]
pub struct FeatureId {
    pub name: String,
    pub phase: TaskPhase,
}

/// A feature with the characters of its name.
pub struct FeatureIdView {
    pub name: Seq<char>,
    pub phase: TaskPhase,
}

impl View for FeatureId {
    type V = FeatureIdView;

    open spec fn view(&self) -> FeatureIdView {
        FeatureIdView { name: self.name@, phase: self.phase }
    }
}

/// The features of a list.
pub open spec fn ids_view(ids: Seq<FeatureId>) -> Seq<FeatureIdView> {
    Seq::new(ids.len(), |i: int| ids[i]@)
}

/// A feature.
pub open spec fn id(name: Seq<char>, phase: TaskPhase) -> FeatureIdView {
    FeatureIdView { name, phase }
}

/// The features that always run, in the order they run. The one that ages notices leads, so that it runs
/// before anything pushes one; the player limit comes before the observer, so that the observer sees it
/// in the same frame.
pub open spec fn standing_features() -> Seq<FeatureIdView> {
    Seq::empty().push(id("notifications"@, TaskPhase::FrameBegin)).push(
        id("session-limit"@, TaskPhase::FrameBegin),
    ).push(id("seamless-roam"@, TaskPhase::FrameBegin)).push(
        id("session-observer"@, TaskPhase::FrameBegin),
    ).push(id("session-actions"@, TaskPhase::FrameBegin)).push(
        id("playstate-probe"@, TaskPhase::FrameBegin),
    ).push(id("death-debuffs"@, TaskPhase::WorldChrManPostPhysics)).push(
        id("crit-coop"@, TaskPhase::WorldChrManPostPhysics),
    ).push(id("nameplates"@, TaskPhase::WorldChrManPostPhysics)).push(
        id("native_nameplates"@, TaskPhase::ChrInsPostPhysics),
    ).push(id("native_toasts"@, TaskPhase::ChrInsPostPhysics)).push(
        id("world-time-lock"@, TaskPhase::FrameBegin),
    ).push(id("scaling"@, TaskPhase::FrameBegin)).push(
        id("boot-volume"@, TaskPhase::FrameBegin),
    ).push(id("debug-panel"@, TaskPhase::FrameBegin))
}

/// What the configuration adds to the standing features.
#[derive(Debug)]
pub struct FeaturePlan {
    pub snapshot_secs: u32,
    pub scan_start: u32,
    pub scan_count: u32,
    /// Probes of the session, if any were asked for.
    pub session_probes: Vec<FeatureId>,
    /// Whether a guide is followed.
    pub guide: bool,
    pub auto_session: AutoSession,
}

/// The features of probes.
pub open spec fn probe_id(probe: ProbeKind) -> FeatureIdView {
    match probe {
        ProbeKind::Snapshot { .. } => id("diag-snapshot"@, TaskPhase::FrameBegin),
        ProbeKind::FlagScan { .. } => id("diag-flag-scan"@, TaskPhase::FrameBegin),
    }
}

/// The features of probes.
pub open spec fn probe_ids(probes: Seq<ProbeKind>) -> Seq<FeatureIdView> {
    Seq::new(probes.len(), |i: int| probe_id(probes[i]))
}

/// One feature, or none.
pub open spec fn id_if(on: bool, feature: FeatureIdView) -> Seq<FeatureIdView> {
    if on {
        seq![feature]
    } else {
        Seq::empty()
    }
}

impl FeaturePlan {
    /// Every feature, in the order it runs.
    pub open spec fn features(self) -> Seq<FeatureIdView> {
        standing_features() + probe_ids(
            probes_asked_for(self.snapshot_secs, self.scan_start, self.scan_count),
        ) + ids_view(self.session_probes@) + id_if(
            self.guide,
            id("rig-guide"@, TaskPhase::FrameBegin),
        ) + id_if(
            self.auto_session != AutoSession::Off,
            id("auto-session"@, TaskPhase::FrameBegin),
        )
    }
}

fn add_feature(list: &mut Vec<FeatureId>, name: &str, phase: TaskPhase)
    ensures
        ids_view(final(list)@) == ids_view(old(list)@).push(id(name@, phase)),
{
    list.push(FeatureId { name: name.to_owned(), phase });
    assert(ids_view(list@) =~= ids_view(old(list)@).push(id(name@, phase)));
}

/// Every feature, in the order it runs.
pub fn build_features(plan: FeaturePlan) -> (features: Vec<FeatureId>)
    ensures
        ids_view(features@) == plan.features(),
{
    let mut features: Vec<FeatureId> = Vec::new();
    assert(ids_view(features@) =~= Seq::empty());
    add_feature(&mut features, "notifications", TaskPhase::FrameBegin);
    add_feature(&mut features, "session-limit", TaskPhase::FrameBegin);
    add_feature(&mut features, "seamless-roam", TaskPhase::FrameBegin);
    add_feature(&mut features, "session-observer", TaskPhase::FrameBegin);
    add_feature(&mut features, "session-actions", TaskPhase::FrameBegin);
    add_feature(&mut features, "playstate-probe", TaskPhase::FrameBegin);
    add_feature(&mut features, "death-debuffs", TaskPhase::WorldChrManPostPhysics);
    add_feature(&mut features, "crit-coop", TaskPhase::WorldChrManPostPhysics);
    add_feature(&mut features, "nameplates", TaskPhase::WorldChrManPostPhysics);
    add_feature(&mut features, "native_nameplates", TaskPhase::ChrInsPostPhysics);
    add_feature(&mut features, "native_toasts", TaskPhase::ChrInsPostPhysics);
    add_feature(&mut features, "world-time-lock", TaskPhase::FrameBegin);
    add_feature(&mut features, "scaling", TaskPhase::FrameBegin);
    add_feature(&mut features, "boot-volume", TaskPhase::FrameBegin);
    add_feature(&mut features, "debug-panel", TaskPhase::FrameBegin);
    let ghost standing = ids_view(features@);
    assert(standing == standing_features());
    let probes = diag::probe_features(plan.snapshot_secs, plan.scan_start, plan.scan_count);
    let mut i: usize = 0;
    assert(standing + probe_ids(probes@.take(0)) =~= standing);
    while i < probes.len()
        invariant
            i <= probes@.len(),
            ids_view(features@) == standing + probe_ids(probes@.take(i as int)),
        decreases probes@.len() - i,
    {
        let ghost before = probe_ids(probes@.take(i as int));
        match probes[i] {
            ProbeKind::Snapshot { .. } => add_feature(
                &mut features,
                "diag-snapshot",
                TaskPhase::FrameBegin,
            ),
            ProbeKind::FlagScan { .. } => add_feature(
                &mut features,
                "diag-flag-scan",
                TaskPhase::FrameBegin,
            ),
        }
        assert(probe_ids(probes@.take(i + 1)) =~= before.push(probe_id(probes@[i as int])));
        assert((standing + before).push(probe_id(probes@[i as int])) =~= standing + before.push(
            probe_id(probes@[i as int]),
        ));
        i = i + 1;
    }
    assert(probes@.take(i as int) =~= probes@);
    let ghost probed = ids_view(features@);
    let mut extra = plan.session_probes;
    let ghost asked = extra@;
    features.append(&mut extra);
    assert(ids_view(features@) =~= probed + ids_view(asked));
    let ghost with_session = ids_view(features@);
    if plan.guide {
        add_feature(&mut features, "rig-guide", TaskPhase::FrameBegin);
    }
    let ghost with_guide = ids_view(features@);
    assert(with_guide =~= with_session + id_if(
        plan.guide,
        id("rig-guide"@, TaskPhase::FrameBegin),
    ));
    let automatic = match plan.auto_session {
        AutoSession::Off => false,
        _ => true,
    };
    if automatic {
        add_feature(&mut features, "auto-session", TaskPhase::FrameBegin);
    }
    assert(ids_view(features@) =~= with_guide + id_if(
        automatic,
        id("auto-session"@, TaskPhase::FrameBegin),
    ));
    features
}

/// Whatever is configured, the features that always run keep their places: notices age before anything
/// pushes one, and the player limit is held before the observer looks.
pub proof fn standing_features_come_first(plan: FeaturePlan, i: int)
    requires
        0 <= i < standing_features().len(),
    ensures
        plan.features()[i] == standing_features()[i],
        plan.features()[0] == id("notifications"@, TaskPhase::FrameBegin),
        plan.features()[1] == id("session-limit"@, TaskPhase::FrameBegin),
        plan.features()[3] == id("session-observer"@, TaskPhase::FrameBegin),
{
}

/// The features that were registered, with their health and how often each ran.
#[derive(Debug)]
pub struct Registry {
    registered: bool,
    names: Vec<String>,
    disabled: Vec<bool>,
    frames: Vec<u64>,
}

/// One registered feature.
pub struct SlotView {
    pub name: Seq<char>,
    /// Whether it failed.
    pub disabled: bool,
    /// How often it ran.
    pub frame: u64,
}

impl View for Registry {
    type V = Option<Seq<SlotView>>;

    closed spec fn view(&self) -> Option<Seq<SlotView>> {
        if self.registered {
            Some(
                Seq::new(
                    self.names@.len(),
                    |i: int|
                        SlotView {
                            name: self.names@[i]@,
                            disabled: self.disabled@[i],
                            frame: self.frames@[i],
                        },
                ),
            )
        } else {
            None
        }
    }
}

/// The feature at `index` runs: it was registered and did not fail.
pub open spec fn runs(slots: Option<Seq<SlotView>>, index: int) -> bool {
    slots matches Some(s) && 0 <= index < s.len() && !s[index].disabled
}

/// The features as they are registered: none failed, none ran.
pub open spec fn fresh_slots(features: Seq<FeatureIdView>) -> Seq<SlotView> {
    Seq::new(
        features.len(),
        |i: int| SlotView { name: features[i].name, disabled: false, frame: 0 },
    )
}

/// The line on a registered feature.
pub open spec fn registered_line(feature: FeatureIdView) -> LogLineView {
    LogLineView {
        level: Level::Info,
        text: "registered feature '"@ + feature.name + "' in "@ + feature.phase.name_chars(),
    }
}

/// The lines on the registered features.
pub open spec fn registered_lines(features: Seq<FeatureIdView>) -> Seq<LogLineView> {
    Seq::new(features.len(), |i: int| registered_line(features[i]))
}

pub const TWICE: &'static str = "install() called twice; ignoring";

impl Registry {
    /// The three lists belong together.
    pub closed spec fn wf(&self) -> bool {
        &&& self.disabled@.len() == self.names@.len()
        &&& self.frames@.len() == self.names@.len()
    }

    /// Nothing registered yet.
    pub fn new() -> (registry: Registry)
        ensures
            registry.wf(),
            registry@ is None,
    {
        Registry {
            registered: false,
            names: Vec::new(),
            disabled: Vec::new(),
            frames: Vec::new(),
        }
    }
}

/// Registers the features, once; a second time nothing changes.
pub fn register_features(registry: &mut Registry, features: &Vec<FeatureId>) -> (out: Result<
    Vec<LogLine>,
    LogLine,
>)
    requires
        old(registry).wf(),
    ensures
        final(registry).wf(),
        out is Ok == (old(registry)@ is None),
        out is Ok ==> final(registry)@ == Some(fresh_slots(ids_view(features@))),
        out is Ok ==> lines_view(out->Ok_0@) == registered_lines(ids_view(features@)),
        out is Err ==> *final(registry) == *old(registry),
        out is Err ==> out->Err_0@ == (LogLineView { level: Level::Error, text: TWICE@ }),
{
    if registry.registered {
        return Err(LogLine { level: Level::Error, text: TWICE.to_owned() });
    }
    let mut names: Vec<String> = Vec::new();
    let mut disabled: Vec<bool> = Vec::new();
    let mut frames: Vec<u64> = Vec::new();
    let mut lines: Vec<LogLine> = Vec::new();
    let ghost all = ids_view(features@);
    let mut i: usize = 0;
    assert(lines_view(lines@) =~= registered_lines(all).take(0));
    while i < features.len()
        invariant
            i <= features@.len(),
            all == ids_view(features@),
            names@.len() == i,
            disabled@.len() == i,
            frames@.len() == i,
            forall|j: int| 0 <= j < i ==> (#[trigger] names@[j])@ == all[j].name,
            forall|j: int| 0 <= j < i ==> !#[trigger] disabled@[j],
            forall|j: int| 0 <= j < i ==> #[trigger] frames@[j] == 0,
            lines_view(lines@) == registered_lines(all).take(i as int),
        decreases features@.len() - i,
    {
        let ghost before = lines_view(lines@);
        let feature = &features[i];
        names.push(feature.name.clone());
        disabled.push(false);
        frames.push(0);
        let mut out = "registered feature '".to_owned();
        out.append(feature.name.as_str());
        out.append("' in ");
        out.append(feature.phase.name());
        levels::push_line(&mut lines, Level::Info, out);
        i = i + 1;
        assert(registered_lines(all).take(i as int) =~= before.push(registered_lines(all)[i - 1]));
    }
    assert(registered_lines(all).take(i as int) =~= registered_lines(all));
    registry.registered = true;
    registry.names = names;
    registry.disabled = disabled;
    registry.frames = frames;
    assert(registry@->0 =~= fresh_slots(all));
    Ok(lines)
}

/// Whether the feature at `index` may not run: it failed, or there is no such feature (yet).
pub fn feature_disabled(registry: &Registry, index: usize) -> (disabled: bool)
    requires
        registry.wf(),
    ensures
        disabled == !runs(registry@, index as int),
{
    if registry.registered && index < registry.disabled.len() {
        registry.disabled[index]
    } else {
        true
    }
}

/// How many frames the feature at `index` had, if it runs.
pub fn frames_so_far(registry: &Registry, index: usize) -> (count: Option<u64>)
    requires
        registry.wf(),
    ensures
        count is Some == runs(registry@, index as int),
        count is Some ==> count->0 == registry@->0[index as int].frame,
{
    if feature_disabled(registry, index) {
        return None;
    }
    Some(registry.frames[index])
}

/// The slots after the feature at `index` had its turn.
pub open spec fn ticked(slots: Seq<SlotView>, index: int) -> Seq<SlotView> {
    slots.update(index, SlotView { frame: (slots[index].frame + 1) as u64, ..slots[index] })
}

/// One turn of the feature at `index`: the number of its frame if it runs, nothing if it does not.
pub fn tick(registry: &mut Registry, index: usize) -> (frame: Option<u64>)
    requires
        old(registry).wf(),
        runs(old(registry)@, index as int) ==> old(registry)@->0[index as int].frame < u64::MAX,
    ensures
        final(registry).wf(),
        frame is Some == runs(old(registry)@, index as int),
        frame is Some ==> frame->0 == old(registry)@->0[index as int].frame + 1,
        final(registry)@ == (if frame is Some {
            Some(ticked(old(registry)@->0, index as int))
        } else {
            old(registry)@
        }),
{
    if feature_disabled(registry, index) {
        return None;
    }
    let frame: u64 = registry.frames[index] + 1;
    registry.frames.set(index, frame);
    assert(registry@->0 =~= ticked(old(registry)@->0, index as int));
    Some(frame)
}

/// The name and the health of each feature.
pub open spec fn status_view(list: Seq<(String, bool)>) -> Seq<(Seq<char>, bool)> {
    Seq::new(list.len(), |i: int| (list[i].0@, list[i].1))
}

/// The name of each feature and whether it failed; nothing before they are registered.
pub fn feature_status(registry: &Registry) -> (status: Option<Vec<(String, bool)>>)
    requires
        registry.wf(),
    ensures
        status is Some == (registry@ is Some),
        status is Some ==> status_view(status->0@) == Seq::new(
            registry@->0.len(),
            |i: int| (registry@->0[i].name, registry@->0[i].disabled),
        ),
{
    if !registry.registered {
        return None;
    }
    let mut list: Vec<(String, bool)> = Vec::new();
    let ghost all = Seq::new(
        registry@->0.len(),
        |i: int| (registry@->0[i].name, registry@->0[i].disabled),
    );
    let mut i: usize = 0;
    assert(status_view(list@) =~= all.take(0));
    while i < registry.names.len()
        invariant
            i <= registry.names@.len(),
            registry.wf(),
            registry.registered,
            all == Seq::new(
                registry@->0.len(),
                |i: int| (registry@->0[i].name, registry@->0[i].disabled),
            ),
            all.len() == registry.names@.len(),
            status_view(list@) == all.take(i as int),
        decreases registry.names@.len() - i,
    {
        let ghost before = status_view(list@);
        let ghost entry = all[i as int];
        list.push((registry.names[i].clone(), registry.disabled[i]));
        assert(status_view(list@) =~= before.push(entry));
        i = i + 1;
        assert(all.take(i as int) =~= before.push(entry));
    }
    assert(all.take(i as int) =~= all);
    Some(list)
}

/// What is said of a feature that failed.
#[derive(Debug)]
pub struct Disablement {
    pub line: LogLine,
    pub toast: Toast,
}

/// The slots after the feature at `index` failed.
pub open spec fn failed(slots: Seq<SlotView>, index: int) -> Seq<SlotView> {
    slots.update(index, SlotView { disabled: true, ..slots[index] })
}

/// Keeps a feature that failed from ever running again, and takes down what it may have left on the
/// screen: the nameplates, and the guide's view, which could otherwise hold on to the player's input.
pub fn disable_feature(
    registry: &mut Registry,
    labels: &mut Labels,
    guide: &mut Option<RigView>,
    index: usize,
) -> (out: Option<Disablement>)
    requires
        old(registry).wf(),
    ensures
        final(registry).wf(),
        ({
            let there = old(registry)@ is Some && index < old(registry)@->0.len();
            &&& out is Some == there
            &&& there ==> ({
                let name = old(registry)@->0[index as int].name;
                &&& final(registry)@ == Some(failed(old(registry)@->0, index as int))
                &&& final(labels)@ == Seq::<NameplateLabel>::empty()
                &&& *final(guide) is None
                &&& out->0.line@ == (LogLineView {
                    level: Level::Error,
                    text: "feature '"@ + name + "' (index "@ + dec(index as nat)
                        + ") panicked; disabled for the rest of the session"@,
                })
                &&& out->0.toast@ == (ToastView {
                    severity: Severity::Warning,
                    message: "A feature was disabled after an error; the game will continue. ("@
                        + name + ")"@,
                })
            })
            &&& !there ==> final(registry)@ == old(registry)@ && final(labels)@ == old(labels)@
                && *final(guide) == *old(guide)
        }),
{
    if !registry.registered || index >= registry.names.len() {
        return None;
    }
    registry.disabled.set(index, true);
    assert(registry@->0 =~= failed(old(registry)@->0, index as int));
    let name = &registry.names[index];
    let mut line = "feature '".to_owned();
    line.append(name.as_str());
    line.append("' (index ");
    line.append(text::dec_text(index as u64).as_str());
    line.append(") panicked; disabled for the rest of the session");
    let mut message = "A feature was disabled after an error; the game will continue. (".to_owned();
    message.append(name.as_str());
    message.append(")");
    nameplates::publish(Some(labels), Vec::new());
    *guide = None;
    Some(
        Disablement {
            line: LogLine { level: Level::Error, text: line },
            toast: Toast { severity: Severity::Warning, message },
        },
    )
}

/// A feature that failed never runs again, whatever else has its turn or fails after it.
pub proof fn a_failed_feature_stays_down(slots: Seq<SlotView>, index: int, other: int)
    requires
        0 <= index < slots.len(),
        slots[index].disabled,
        0 <= other < slots.len(),
    ensures
        !runs(Some(ticked(slots, other)), index),
        !runs(Some(failed(slots, other)), index),
        !runs(Some(failed(slots, index)), index),
{
}

/// One feature's failure takes no other feature down.
pub proof fn the_others_keep_running(slots: Seq<SlotView>, index: int, other: int)
    requires
        0 <= index < slots.len(),
        0 <= other < slots.len(),
        index != other,
        runs(Some(slots), other),
    ensures
        runs(Some(failed(slots, index)), other),
{
}

pub const NO_TASK_SYSTEM: &'static str = "unseamless-coop couldn't initialize: the game's task system never came up, so the mod can't run.\n\nThis is unexpected — try launching again. Closing the game now.";

/// What the installation came to.
#[derive(Debug)]
pub enum Installed {
    /// Say this and close the game.
    Fatal(String),
    /// It had been done before.
    Twice(LogLine),
    /// The features are in; log these lines and a first report, and then bring up the overlay if it is
    /// wanted.
    Up { lines: Vec<LogLine>, overlay: bool },
}

/// Installs the features once the game's task system is there; without it there is nothing to fall back
/// to.
pub fn install(
    registry: &mut Registry,
    task_system: bool,
    features: &Vec<FeatureId>,
    overlay_enabled: bool,
) -> (out: Installed)
    requires
        old(registry).wf(),
    ensures
        final(registry).wf(),
        if !task_system {
            out matches Installed::Fatal(m) && m@ == NO_TASK_SYSTEM@ && *final(registry) == *old(
                registry,
            )
        } else if old(registry)@ is Some {
            out matches Installed::Twice(line) && line@ == (LogLineView {
                level: Level::Error,
                text: TWICE@,
            }) && *final(registry) == *old(registry)
        } else {
            out matches Installed::Up { lines, overlay } && lines_view(lines@) == registered_lines(
                ids_view(features@),
            ) && overlay == overlay_enabled && final(registry)@ == Some(
                fresh_slots(ids_view(features@)),
            )
        },
{
    if !task_system {
        return Installed::Fatal(NO_TASK_SYSTEM.to_owned());
    }
    match register_features(registry, features) {
        Ok(lines) => Installed::Up { lines, overlay: overlay_enabled },
        Err(line) => Installed::Twice(line),
    }
}

/// A reason to close the game at start-up: a line for the log and the words for the player.
#[derive(Debug)]
pub struct Fatal {
    pub line: LogLine,
    pub message: String,
}

/// The start-up guards, in order: the player's save has to be protected, and the password long enough.
/// `saves` is why the save could not be protected, if it could not.
pub fn startup_guard(saves: Option<&str>, password_ok: bool, min_password: u64) -> (fatal: Option<
    Fatal,
>)
    ensures
        fatal is None == (saves is None && password_ok),
        saves matches Some(e) ==> fatal->0.line@ == (LogLineView {
            level: Level::Error,
            text: "co-op saves: "@ + e@,
        }) && fatal->0.message@ == "unseamless-coop couldn't protect your save file ("@ + e@
            + ").\n\nTo keep co-op from overwriting your single-player save, the game will now close. Please try launching again."@,
        saves is None && !password_ok ==> fatal->0.line@ == (LogLineView {
            level: Level::Error,
            text: "co-op password too short; aborting"@,
        }) && fatal->0.message@
            == "Your co-op password is too short — it must be at least "@ + dec(min_password as nat)
            + " characters.\n\nSet it in unseamless-coop/unseamless_coop.toml, then relaunch."@,
{
    match saves {
        Some(e) => {
            let mut line = "co-op saves: ".to_owned();
            line.append(e);
            let mut message = "unseamless-coop couldn't protect your save file (".to_owned();
            message.append(e);
            message.append(
                ").\n\nTo keep co-op from overwriting your single-player save, the game will now close. Please try launching again.",
            );
            Some(Fatal { line: LogLine { level: Level::Error, text: line }, message })
        },
        None => {
            if password_ok {
                return None;
            }
            let mut message = "Your co-op password is too short — it must be at least ".to_owned();
            message.append(text::dec_text(min_password).as_str());
            message.append(
                " characters.\n\nSet it in unseamless-coop/unseamless_coop.toml, then relaunch.",
            );
            Some(
                Fatal {
                    line: LogLine {
                        level: Level::Error,
                        text: "co-op password too short; aborting".to_owned(),
                    },
                    message,
                },
            )
        },
    }
}

/// The notice for a note on the configuration; only notes the player can act on have one.
pub fn note_toast(level: Level, message: &str) -> (toast: Option<Toast>)
    ensures
        toast is Some == (level == Level::Error || level == Level::Warn),
        toast is Some ==> toast->0@ == (ToastView {
            severity: if level == Level::Error {
                Severity::Error
            } else {
                Severity::Warning
            },
            message: message@,
        }),
{
    match level {
        Level::Error => Some(Toast { severity: Severity::Error, message: message.to_owned() }),
        Level::Warn => Some(Toast { severity: Severity::Warning, message: message.to_owned() }),
        _ => None,
    }
}

pub const NO_OWN_DIR: &'static str = "could not locate our own module dir; using the process cwd for config/logs/mods";

/// The line on files being looked for in the working directory, if they are.
pub fn own_dir_line(found: bool) -> (line: Option<LogLine>)
    ensures
        line is None == found,
        !found ==> line->0@ == (LogLineView { level: Level::Warn, text: NO_OWN_DIR@ }),
{
    if found {
        None
    } else {
        Some(LogLine { level: Level::Warn, text: NO_OWN_DIR.to_owned() })
    }
}

/// Seconds the game's task system is waited for.
pub const INIT_TIMEOUT_SECS: u64 = 120;

/// Milliseconds between two looks at it.
pub const TASK_RETRY_DELAY: u64 = 250;

/// What one look at the task system comes to.
#[derive(Debug)]
pub enum TaskWait {
    Ready,
    GiveUp(LogLine),
    /// Look again after a while; the first time there is a line about it.
    Again(Option<LogLine>),
}

/// One look at the task system. `error` is why it is not there, if it is not, `now` and `deadline` are
/// moments on one clock.
pub fn wait_for_task_system(error: Option<&str>, announced: &mut bool, now: u64, deadline: u64) -> (out:
    TaskWait)
    ensures
        match error {
            None => out is Ready && *final(announced) == *old(announced),
            Some(e) => if now >= deadline {
                out matches TaskWait::GiveUp(line) && line@ == (LogLineView {
                    level: Level::Error,
                    text: "CSTaskImp unavailable after "@ + dec(INIT_TIMEOUT_SECS as nat) + "s: "@
                        + e@,
                }) && *final(announced) == *old(announced)
            } else {
                out matches TaskWait::Again(line) && line is None == *old(announced) && (
                line matches Some(l) ==> l@ == (LogLineView {
                    level: Level::Debug,
                    text: "task system not ready yet ("@ + e@
                        + "); retrying until the game finishes init"@,
                })) && *final(announced)
            },
        },
{
    match error {
        None => TaskWait::Ready,
        Some(e) => {
            if now >= deadline {
                let mut out = "CSTaskImp unavailable after ".to_owned();
                out.append(text::dec_text(INIT_TIMEOUT_SECS).as_str());
                out.append("s: ");
                out.append(e);
                return TaskWait::GiveUp(LogLine { level: Level::Error, text: out });
            }
            if *announced {
                return TaskWait::Again(None);
            }
            *announced = true;
            let mut out = "task system not ready yet (".to_owned();
            out.append(e);
            out.append("); retrying until the game finishes init");
            TaskWait::Again(Some(LogLine { level: Level::Debug, text: out }))
        },
    }
}

pub const INPUT_HOOKED: &'static str = "input: hooked DirectInput GetDeviceState for overlay capture";

pub const INPUT_BANNER: &'static str = "input-degraded";

pub const INPUT_DEGRADED: &'static str = "Heads up: the game still reacts to input while the menu is open (input hook failed)";

/// After the overlay's input hook was tried: a failure is told to the player, and the overlay goes on
/// without it.
pub fn input_hooked(result: &Result<(), HookError>, board: &mut Notifications) -> (line: LogLine)
    ensures
        match result {
            Ok(_) => line@ == (LogLineView { level: Level::Info, text: INPUT_HOOKED@ })
                && final(board)@ == old(board)@,
            Err(e) => line@ == (LogLineView {
                level: Level::Error,
                text: "input: hook install failed ("@ + e.words()
                    + "); game input won't be suppressed while the overlay is open"@,
            }) && final(board)@ == (NotificationsView {
                banners: banner_set(
                    old(board)@.banners,
                    BannerView {
                        id: INPUT_BANNER@,
                        severity: Severity::Warning,
                        message: INPUT_DEGRADED@,
                    },
                ),
                ..old(board)@
            }),
        },
{
    match result {
        Ok(_) => LogLine { level: Level::Info, text: INPUT_HOOKED.to_owned() },
        Err(e) => {
            notify::set_banner(Some(board), INPUT_BANNER, Severity::Warning, INPUT_DEGRADED);
            let mut out = "input: hook install failed (".to_owned();
            out.append(e.message().as_str());
            out.append("); game input won't be suppressed while the overlay is open");
            LogLine { level: Level::Error, text: out }
        },
    }
}

/// Every feature that always runs, at its place and in its phase.
pub proof fn the_standing_features()
    ensures
        standing_features().len() == 15,
        standing_features()[0] == (FeatureIdView {
            name: "notifications"@,
            phase: TaskPhase::FrameBegin,
        }),
        standing_features()[1].name == "session-limit"@,
        standing_features()[2].name == "seamless-roam"@,
        standing_features()[3].name == "session-observer"@,
        standing_features()[4].name == "session-actions"@,
        standing_features()[5].name == "playstate-probe"@,
        standing_features()[6].name == "death-debuffs"@,
        standing_features()[7].name == "crit-coop"@,
        standing_features()[8].name == "nameplates"@,
        standing_features()[9].name == "native_nameplates"@,
        standing_features()[10].name == "native_toasts"@,
        standing_features()[11].name == "world-time-lock"@,
        standing_features()[12].name == "scaling"@,
        standing_features()[13].name == "boot-volume"@,
        standing_features()[14].name == "debug-panel"@,
        forall|i: int|
            0 <= i < 15 ==> (#[trigger] standing_features()[i]).phase == (if 6 <= i <= 8 {
                TaskPhase::WorldChrManPostPhysics
            } else if 9 <= i <= 10 {
                TaskPhase::ChrInsPostPhysics
            } else {
                TaskPhase::FrameBegin
            }),
{
}

/// What the configuration asks for is added behind the standing features: each probe of the session at its place,
/// the guide exactly if one is followed, and the automatic session exactly if one is wanted.
pub proof fn what_is_asked_for_is_added(plan: FeaturePlan)
    ensures
        ({
            let probes = probes_asked_for(plan.snapshot_secs, plan.scan_start, plan.scan_count);
            let before = standing_features().len() + probes.len();
            let all = plan.features();
            &&& all.len() == before + plan.session_probes@.len() + (plan.guide as int) + ((
            plan.auto_session != AutoSession::Off) as int)
            &&& forall|i: int|
                0 <= i < plan.session_probes@.len() ==> all[before + i]
                    == (#[trigger] plan.session_probes@[i])@
            &&& plan.guide ==> all[(before + plan.session_probes@.len()) as int].name
                == "rig-guide"@
            &&& plan.auto_session != AutoSession::Off ==> all.last().name == "auto-session"@
            &&& forall|i: int|
                0 <= i < probes.len() ==> all[standing_features().len() + i].name == (
                match #[trigger] probes[i] {
                    ProbeKind::Snapshot { .. } => "diag-snapshot"@,
                    ProbeKind::FlagScan { .. } => "diag-flag-scan"@,
                })
        }),
{
}

/// A feature that is registered runs, under its own name, and did not have a frame yet.
pub proof fn registered_features_run(features: Seq<FeatureIdView>, i: int)
    requires
        0 <= i < features.len(),
    ensures
        fresh_slots(features).len() == features.len(),
        runs(Some(fresh_slots(features)), i),
        fresh_slots(features)[i].name == features[i].name,
        fresh_slots(features)[i].frame == 0,
        !runs(None, i),
{
}

/// A turn counts one frame more for the feature that had it, and changes nothing else; a failure changes nothing
/// but that the feature is down.
pub proof fn a_turn_counts_one_frame(slots: Seq<SlotView>, index: int, other: int)
    requires
        0 <= index < slots.len(),
        0 <= other < slots.len(),
        slots[index].frame < u64::MAX,
    ensures
        ticked(slots, index).len() == slots.len(),
        ticked(slots, index)[index].frame == slots[index].frame + 1,
        ticked(slots, index)[index].name == slots[index].name,
        ticked(slots, index)[index].disabled == slots[index].disabled,
        other != index ==> ticked(slots, index)[other] == slots[other],
        failed(slots, index).len() == slots.len(),
        failed(slots, index)[index].disabled,
        failed(slots, index)[index].name == slots[index].name,
        failed(slots, index)[index].frame == slots[index].frame,
        other != index ==> failed(slots, index)[other] == slots[other],
{
}

/// Nothing runs outside the list, and in it exactly what is not down.
pub proof fn only_what_is_up_runs(slots: Seq<SlotView>, index: int)
    ensures
        runs(Some(slots), index) == (0 <= index < slots.len() && !slots[index].disabled),
        !runs(Some(slots), slots.len() as int),
        !runs(Some(slots), -1),
{
}

/// Every feature that is registered is told, at its place, with its name and its phase.
pub proof fn every_registered_feature_is_told(features: Seq<FeatureIdView>, i: int)
    requires
        0 <= i < features.len(),
    ensures
        registered_lines(features).len() == features.len(),
        registered_lines(features)[i].level == Level::Info,
        registered_lines(features)[i].text == "registered feature '"@ + features[i].name + "' in "@
            + features[i].phase.name_chars(),
{
}

} // verus!
