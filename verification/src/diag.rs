//! The diagnostic report of the running mod, assembled from facts that were gathered beforehand, and
//! the recurring probes that can be asked for.

use vstd::prelude::*;

use crate::debug_panel;
use crate::debug_panel::{next_version, DebugPanel, PanelView};
use crate::levels;
use crate::levels::{lines_view, Level, LogLine, LogLineView};
use crate::report::{DiagnosticReport, ReportView, Row, RowView, Section, SectionView};
use crate::report::rows_view;
use crate::session::SessionView;
use crate::text;
use crate::text::{bool_chars, dec, joined, zero_pad};

verus! {

/// One status ailment of the local player.
#[derive(Debug)]
pub struct Gauge {
    /// The resistance left: full at rest, falling toward zero as the ailment builds up.
    pub remaining: u32,
    /// Full resistance, which is also the build-up at which the ailment procs.
    pub max: u32,
    /// The running proc timer in seconds with one decimal, while the ailment is procced.
    pub proc_timer: Option<String>,
}

/// The local player's vitals: current and maximum of each, and the seven ailment gauges.
#[derive(Debug)]
pub struct Vitals {
    pub hp: (u32, u32),
    pub fp: (u32, u32),
    pub stamina: (u32, u32),
    pub gauges: [Gauge; 7],
}

/// What is known of the player's data when a report is built.
#[derive(Debug)]
pub enum VitalsRead {
    /// The game-data singleton is not up.
    NoManager,
    /// The singleton is up but does not point at player data yet.
    NotWired,
    /// The player's data was read.
    Live(Vitals),
}

/// One set of scaling multipliers, each rendered with two decimals.
#[derive(Debug)]
pub struct MultiplierText {
    pub health: String,
    pub damage: String,
    pub posture: String,
}

/// The clock of the world, and the time of day that the engine is heading for.
#[derive(Clone, Copy, Debug)]
pub struct AreaTime {
    pub hour: u8,
    pub minute: u8,
    pub target_hour: u32,
    pub target_minute: u32,
}

/// The health of one registered feature.
#[derive(Debug)]
pub struct FeatureHealth {
    pub name: String,
    pub disabled: bool,
}

/// Everything a report is built from.
#[derive(Debug)]
pub struct Facts {
    pub version: String,
    pub build_id: String,
    /// Our own Steam id once it has been resolved.
    pub own_id: Option<u64>,
    /// The one-line state of the co-op link.
    pub coop_status: String,
    /// The stages of the connection attempt, once one has begun.
    pub connect: Option<Vec<Row>>,
    pub session: Option<SessionView>,
    pub in_gameplay: bool,
    /// The registered features in order; absent before registration.
    pub features: Option<Vec<FeatureHealth>>,
    pub party_size: u32,
    pub enemy: MultiplierText,
    pub boss: MultiplierText,
    pub time_lock: bool,
    pub area_time: Option<AreaTime>,
    pub vitals: VitalsRead,
}

/// The roster size that scaling is computed for: the session's, or none without a session.
pub open spec fn party_of(session: Option<SessionView>) -> nat {
    match session {
        Some(v) => v.players as nat,
        None => 0,
    }
}

/// The name of the ailment behind a gauge.
pub open spec fn ailment(i: int) -> Seq<char> {
    if i == 0 {
        "poison"@
    } else if i == 1 {
        "scarlet_rot"@
    } else if i == 2 {
        "hemorrhage"@
    } else if i == 3 {
        "death_blight"@
    } else if i == 4 {
        "frostbite"@
    } else if i == 5 {
        "sleep"@
    } else {
        "madness"@
    }
}

impl Gauge {
    /// The build-up accrued so far.
    pub open spec fn buildup(self) -> nat {
        if self.max >= self.remaining {
            (self.max - self.remaining) as nat
        } else {
            0
        }
    }

    /// Whether the ailment is building up or procced.
    pub open spec fn in_play(self) -> bool {
        self.buildup() > 0 || self.proc_timer is Some
    }

    /// How the ailment is shown: build-up over threshold, with the timer while it is procced.
    pub open spec fn shown(self) -> Seq<char> {
        let amount = dec(self.buildup()) + "/"@ + dec(self.max as nat);
        match self.proc_timer {
            Some(t) => amount + " (proc "@ + t@ + "s)"@,
            None => amount,
        }
    }
}

/// The ailments in play among the first `n` gauges, in order.
pub open spec fn active_ailments(gauges: Seq<Gauge>, n: nat) -> Seq<Seq<char>>
    decreases n,
{
    if n == 0 {
        Seq::empty()
    } else {
        let before = active_ailments(gauges, (n - 1) as nat);
        if gauges[n - 1].in_play() {
            before.push(ailment(n - 1))
        } else {
            before
        }
    }
}

/// The status section with a row for each ailment in play among the first `n` gauges.
pub open spec fn status_rows(gauges: Seq<Gauge>, n: nat) -> SectionView
    decreases n,
{
    if n == 0 {
        SectionView::titled("status"@)
    } else {
        let before = status_rows(gauges, (n - 1) as nat);
        if gauges[n - 1].in_play() {
            before.field(ailment(n - 1), gauges[n - 1].shown())
        } else {
            before
        }
    }
}

/// The status section: the ailments in play, or one row that says there are none.
pub open spec fn status_section(gauges: Seq<Gauge>) -> SectionView {
    let active = active_ailments(gauges, 7);
    if active.len() == 0 {
        status_rows(gauges, 7).field("ailments"@, "none building or active"@).summary_line(
            "ailments"@,
            "none building or active"@,
        )
    } else {
        status_rows(gauges, 7).summary_line("ailments"@, joined(active, ", "@))
    }
}

/// A current/maximum pair.
pub open spec fn pair_chars(p: (u32, u32)) -> Seq<char> {
    dec(p.0 as nat) + "/"@ + dec(p.1 as nat)
}

/// The vitals section of a live player.
pub open spec fn vitals_section(v: Vitals) -> SectionView {
    SectionView::titled("vitals"@).field("hp"@, pair_chars(v.hp)).field(
        "fp"@,
        pair_chars(v.fp),
    ).field("stamina"@, pair_chars(v.stamina))
}

/// The value of the first row with the label, looking from position `from` on.
pub open spec fn first_value(rows: Seq<RowView>, label: Seq<char>, from: int) -> Option<Seq<char>>
    decreases rows.len() - from,
{
    if from >= rows.len() {
        None
    } else if rows[from].label == label {
        Some(rows[from].value)
    } else {
        first_value(rows, label, from + 1)
    }
}

/// How a connection attempt is going in one line: its failure, else its handshake, else that it is
/// still connecting.
pub open spec fn connect_headline(rows: Seq<RowView>) -> Seq<char> {
    match first_value(rows, "failure"@, 0) {
        Some(why) => "failed: "@ + why,
        None => match first_value(rows, "handshake"@, 0) {
            Some(state) => "handshake "@ + state,
            None => "connecting"@,
        },
    }
}

/// The connection section: every stage, summed up in the headline.
pub open spec fn connect_section(rows: Seq<RowView>) -> SectionView {
    SectionView {
        title: "coop_connect"@,
        fields: rows,
        summary: Seq::empty().push(
            RowView { label: "connect"@, value: connect_headline(rows) },
        ),
    }
}

/// The session section.
pub open spec fn session_section(session: Option<SessionView>) -> SectionView {
    match session {
        Some(v) => SectionView::titled("session"@).field("lobby_state"@, v.lobby_state.name@).field(
            "protocol_state"@,
            v.protocol_state.name@,
        ).field("players"@, dec(v.players as nat)).field(
            "player_limit"@,
            dec(v.player_limit as nat),
        ).field("limit_override"@, dec(v.limit_override as nat)).field(
            "roam_unrestricted"@,
            match v.tether {
                Some(t) => bool_chars(t.restriction_disabled),
                None => "(warp data not initialized)"@,
            },
        ).summary_line(
            "session"@,
            v.lobby_state.name@ + ", "@ + dec(v.players as nat) + "/"@ + dec(v.player_limit as nat)
                + " players"@,
        ),
        None => SectionView::titled("session"@).field(
            "status"@,
            "no CSSessionManager yet (pre-init / title screen)"@,
        ).summary_line("session"@, "no session (pre-init / title screen)"@),
    }
}

/// The names of the disabled features among the first `n`, in order.
pub open spec fn disabled_names(list: Seq<FeatureHealth>, n: nat) -> Seq<Seq<char>>
    decreases n,
{
    if n == 0 {
        Seq::empty()
    } else {
        let before = disabled_names(list, (n - 1) as nat);
        if list[n - 1].disabled {
            before.push(list[n - 1].name@)
        } else {
            before
        }
    }
}

/// The features section before any feature row.
pub open spec fn features_head(in_gameplay: bool) -> SectionView {
    SectionView::titled("features"@).field("in_gameplay"@, bool_chars(in_gameplay)).summary_line(
        "in_gameplay"@,
        bool_chars(in_gameplay),
    )
}

/// The features section with one row for each of the first `n` features.
pub open spec fn feature_rows(list: Seq<FeatureHealth>, in_gameplay: bool, n: nat) -> SectionView
    decreases n,
{
    if n == 0 {
        features_head(in_gameplay)
    } else {
        feature_rows(list, in_gameplay, (n - 1) as nat).field(
            list[n - 1].name@,
            if list[n - 1].disabled {
                "DISABLED (panicked)"@
            } else {
                "ok"@
            },
        )
    }
}

/// The one-line roll-up: how many features are healthy, naming only those that are not.
pub open spec fn features_rollup(list: Seq<FeatureHealth>) -> Seq<char> {
    let disabled = disabled_names(list, list.len());
    let counts = dec((list.len() - disabled.len()) as nat) + "/"@ + dec(list.len()) + " ok"@;
    if disabled.len() == 0 {
        counts
    } else {
        counts + ", DISABLED: "@ + joined(disabled, ", "@)
    }
}

/// The features section.
pub open spec fn features_section(
    features: Option<Vec<FeatureHealth>>,
    in_gameplay: bool,
) -> SectionView {
    match features {
        None => features_head(in_gameplay).field(
            "status"@,
            "not registered yet (pre-init)"@,
        ).summary_line("features"@, "not registered yet (pre-init)"@),
        Some(list) => if list@.len() == 0 {
            features_head(in_gameplay).field("status"@, "not registered yet"@).summary_line(
                "features"@,
                "not registered yet"@,
            )
        } else {
            feature_rows(list@, in_gameplay, list@.len()).summary_line(
                "features"@,
                features_rollup(list@),
            )
        },
    }
}

impl MultiplierText {
    /// The three multipliers in one line.
    pub open spec fn shown(self) -> Seq<char> {
        "hp x"@ + self.health@ + " dmg x"@ + self.damage@ + " pos x"@ + self.posture@
    }
}

/// An hour and minute, two digits each.
pub open spec fn clock_chars(hour: u32, minute: u32) -> Seq<char> {
    zero_pad(dec(hour as nat), 2) + ":"@ + zero_pad(dec(minute as nat), 2)
}

/// The time-of-day section.
pub open spec fn time_section(lock: bool, at: Option<AreaTime>) -> SectionView {
    let head = SectionView::titled("world_time"@).field("lock"@, bool_chars(lock));
    match at {
        Some(t) => head.field("clock"@, clock_chars(t.hour as u32, t.minute as u32)).field(
            "engine_target"@,
            clock_chars(t.target_hour, t.target_minute),
        ),
        None => head.field("status"@, "no WorldAreaTime yet (menu / loading)"@),
    }
}

/// The build section.
pub open spec fn build_section(version: Seq<char>, build_id: Seq<char>) -> SectionView {
    SectionView::titled("build"@).field("version"@, version).field("build_id"@, build_id)
}

/// The Steam section.
pub open spec fn steam_section(own_id: Option<u64>, coop_status: Seq<char>) -> SectionView {
    SectionView::titled("steam"@).field(
        "own_id"@,
        match own_id {
            Some(id) => dec(id as nat),
            None => "(resolving)"@,
        },
    ).field("coop"@, coop_status)
}

/// The scaling section.
pub open spec fn scaling_section(
    party_size: u32,
    enemy: MultiplierText,
    boss: MultiplierText,
) -> SectionView {
    SectionView::titled("scaling"@).field("party_size"@, dec(party_size as nat)).field(
        "enemy"@,
        enemy.shown(),
    ).field("boss"@, boss.shown())
}

/// The sections on the player's state: vitals, and the ailments once the player's data is there.
pub open spec fn vitals_sections(read: VitalsRead) -> Seq<SectionView> {
    match read {
        VitalsRead::Live(v) => Seq::empty().push(vitals_section(v)).push(
            status_section(v.gauges@),
        ),
        VitalsRead::NotWired => Seq::empty().push(
            SectionView::titled("vitals"@).field(
                "status"@,
                "GameDataMan up, player data not wired yet"@,
            ),
        ),
        VitalsRead::NoManager => Seq::empty().push(
            SectionView::titled("vitals"@).field(
                "status"@,
                "no GameDataMan yet (pre-init / title screen)"@,
            ),
        ),
    }
}

impl Facts {
    /// The sections before the one on the connection attempt.
    pub open spec fn opening(self) -> Seq<SectionView> {
        Seq::empty().push(build_section(self.version@, self.build_id@)).push(
            steam_section(self.own_id, self.coop_status@),
        )
    }

    /// Every section of the report, in order.
    pub open spec fn sections(self) -> Seq<SectionView> {
        let linked = match self.connect {
            Some(rows) => self.opening().push(connect_section(rows_view(rows@))),
            None => self.opening(),
        };
        linked.push(session_section(self.session)).push(
            features_section(self.features, self.in_gameplay),
        ).push(scaling_section(self.party_size, self.enemy, self.boss)).push(
            time_section(self.time_lock, self.area_time),
        ) + vitals_sections(self.vitals)
    }
}

/// The roster size that scaling is computed for.
pub fn party(session: &Option<SessionView>) -> (players: usize)
    ensures
        players as nat == party_of(*session),
{
    match session {
        Some(v) => v.players,
        None => 0,
    }
}

fn ailment_name(i: usize) -> (name: &'static str)
    ensures
        name@ == ailment(i as int),
{
    if i == 0 {
        "poison"
    } else if i == 1 {
        "scarlet_rot"
    } else if i == 2 {
        "hemorrhage"
    } else if i == 3 {
        "death_blight"
    } else if i == 4 {
        "frostbite"
    } else if i == 5 {
        "sleep"
    } else {
        "madness"
    }
}

fn pair_text(p: (u32, u32)) -> (out: String)
    ensures
        out@ == pair_chars(p),
{
    let mut out = text::dec_text(p.0 as u64);
    out.append("/");
    out.append(text::dec_text(p.1 as u64).as_str());
    out
}

fn clock_text(hour: u32, minute: u32) -> (out: String)
    ensures
        out@ == clock_chars(hour, minute),
{
    let mut out = text::two_digits(hour as u64);
    out.append(":");
    out.append(text::two_digits(minute as u64).as_str());
    out
}

impl Gauge {
    fn buildup_now(&self) -> (amount: u32)
        ensures
            amount as nat == self.buildup(),
    {
        self.max.saturating_sub(self.remaining)
    }

    fn is_in_play(&self) -> (yes: bool)
        ensures
            yes == self.in_play(),
    {
        self.buildup_now() > 0 || self.proc_timer.is_some()
    }

    fn text(&self) -> (out: String)
        ensures
            out@ == self.shown(),
    {
        let mut out = text::dec_text(self.buildup_now() as u64);
        out.append("/");
        out.append(text::dec_text(self.max as u64).as_str());
        match &self.proc_timer {
            Some(t) => {
                out.append(" (proc ");
                out.append(t.as_str());
                out.append("s)");
            },
            None => {},
        }
        out
    }
}

impl MultiplierText {
    fn text(&self) -> (out: String)
        ensures
            out@ == self.shown(),
    {
        let mut out = "hp x".to_owned();
        out.append(self.health.as_str());
        out.append(" dmg x");
        out.append(self.damage.as_str());
        out.append(" pos x");
        out.append(self.posture.as_str());
        out
    }
}

fn build_status(gauges: &[Gauge; 7]) -> (section: Section)
    ensures
        section@ == status_section(gauges@),
{
    let mut section = Section::titled("status");
    let mut active: Vec<String> = Vec::new();
    let mut i: usize = 0;
    assert(text::texts(active@) =~= active_ailments(gauges@, 0));
    while i < 7
        invariant
            i <= 7,
            section@ == status_rows(gauges@, i as nat),
            text::texts(active@) == active_ailments(gauges@, i as nat),
        decreases 7 - i,
    {
        if gauges[i].is_in_play() {
            let name = ailment_name(i);
            section.field(name, gauges[i].text().as_str());
            active.push(name.to_owned());
            assert(text::texts(active@) =~= active_ailments(gauges@, i as nat).push(
                ailment(i as int),
            ));
        }
        i = i + 1;
    }
    assert(active@.len() == active_ailments(gauges@, 7).len());
    if active.len() == 0 {
        section.field("ailments", "none building or active");
        section.summary_line("ailments", "none building or active");
    } else {
        section.summary_line("ailments", text::join(&active, ", ").as_str());
    }
    section
}

fn find_value(rows: &Vec<Row>, label: &str) -> (at: Option<usize>)
    ensures
        match at {
            Some(i) => i < rows@.len() && first_value(rows_view(rows@), label@, 0) == Some(
                rows@[i as int].value@,
            ),
            None => first_value(rows_view(rows@), label@, 0) is None,
        },
{
    let mut i: usize = 0;
    while i < rows.len()
        invariant
            i <= rows@.len(),
            first_value(rows_view(rows@), label@, 0) == first_value(
                rows_view(rows@),
                label@,
                i as int,
            ),
        decreases rows@.len() - i,
    {
        assert(rows_view(rows@)[i as int] == rows@[i as int]@);
        if text::same_text(rows[i].label.as_str(), label) {
            return Some(i);
        }
        i = i + 1;
    }
    None
}

fn headline(rows: &Vec<Row>) -> (out: String)
    ensures
        out@ == connect_headline(rows_view(rows@)),
{
    match find_value(rows, "failure") {
        Some(i) => {
            let mut out = "failed: ".to_owned();
            out.append(rows[i].value.as_str());
            out
        },
        None => match find_value(rows, "handshake") {
            Some(i) => {
                let mut out = "handshake ".to_owned();
                out.append(rows[i].value.as_str());
                out
            },
            None => "connecting".to_owned(),
        },
    }
}

fn build_connect(rows: &Vec<Row>) -> (section: Section)
    ensures
        section@ == connect_section(rows_view(rows@)),
{
    let mut section = Section::titled("coop_connect");
    let mut i: usize = 0;
    let ghost all = rows_view(rows@);
    assert(section@.fields =~= all.take(0));
    while i < rows.len()
        invariant
            i <= rows@.len(),
            all == rows_view(rows@),
            section@.title == "coop_connect"@,
            section@.fields == all.take(i as int),
            section@.summary == Seq::<RowView>::empty(),
        decreases rows@.len() - i,
    {
        section.field(rows[i].label.as_str(), rows[i].value.as_str());
        i = i + 1;
        assert(section@.fields =~= all.take(i as int));
    }
    assert(all.take(i as int) =~= all);
    section.summary_line("connect", headline(rows).as_str());
    assert(section@ =~= connect_section(all));
    section
}

fn build_session(session: &Option<SessionView>) -> (section: Section)
    ensures
        section@ == session_section(*session),
{
    let mut section = Section::titled("session");
    match session {
        Some(v) => {
            section.field("lobby_state", v.lobby_state.name.as_str());
            section.field("protocol_state", v.protocol_state.name.as_str());
            section.field("players", text::dec_text(v.players as u64).as_str());
            section.field("player_limit", text::dec_text(v.player_limit as u64).as_str());
            section.field("limit_override", text::dec_text(v.limit_override as u64).as_str());
            match &v.tether {
                Some(t) => section.field(
                    "roam_unrestricted",
                    text::bool_text(t.restriction_disabled).as_str(),
                ),
                None => section.field("roam_unrestricted", "(warp data not initialized)"),
            }
            let mut line = v.lobby_state.name.clone();
            line.append(", ");
            line.append(text::dec_text(v.players as u64).as_str());
            line.append("/");
            line.append(text::dec_text(v.player_limit as u64).as_str());
            line.append(" players");
            section.summary_line("session", line.as_str());
        },
        None => {
            section.field("status", "no CSSessionManager yet (pre-init / title screen)");
            section.summary_line("session", "no session (pre-init / title screen)");
        },
    }
    section
}

fn rollup(list: &Vec<FeatureHealth>) -> (out: String)
    ensures
        out@ == features_rollup(list@),
{
    let mut disabled: Vec<String> = Vec::new();
    let mut i: usize = 0;
    assert(text::texts(disabled@) =~= disabled_names(list@, 0));
    while i < list.len()
        invariant
            i <= list@.len(),
            disabled@.len() <= i,
            text::texts(disabled@) == disabled_names(list@, i as nat),
        decreases list@.len() - i,
    {
        if list[i].disabled {
            disabled.push(list[i].name.clone());
            assert(text::texts(disabled@) =~= disabled_names(list@, i as nat).push(
                list@[i as int].name@,
            ));
        }
        i = i + 1;
    }
    let total: usize = list.len();
    let ok: usize = total - disabled.len();
    assert(disabled@.len() == disabled_names(list@, list@.len()).len());
    let mut out = text::dec_text(ok as u64);
    out.append("/");
    out.append(text::dec_text(total as u64).as_str());
    out.append(" ok");
    if disabled.len() > 0 {
        out.append(", DISABLED: ");
        out.append(text::join(&disabled, ", ").as_str());
    }
    out
}

fn build_features_section(
    features: &Option<Vec<FeatureHealth>>,
    in_gameplay: bool,
) -> (section: Section)
    ensures
        section@ == features_section(*features, in_gameplay),
{
    let mut section = Section::titled("features");
    let shown = text::bool_text(in_gameplay);
    section.field("in_gameplay", shown.as_str());
    section.summary_line("in_gameplay", shown.as_str());
    match features {
        None => {
            section.field("status", "not registered yet (pre-init)");
            section.summary_line("features", "not registered yet (pre-init)");
        },
        Some(list) => {
            if list.len() == 0 {
                section.field("status", "not registered yet");
                section.summary_line("features", "not registered yet");
            } else {
                let mut i: usize = 0;
                while i < list.len()
                    invariant
                        i <= list@.len(),
                        section@ == feature_rows(list@, in_gameplay, i as nat),
                    decreases list@.len() - i,
                {
                    if list[i].disabled {
                        section.field(list[i].name.as_str(), "DISABLED (panicked)");
                    } else {
                        section.field(list[i].name.as_str(), "ok");
                    }
                    i = i + 1;
                }
                section.summary_line("features", rollup(list).as_str());
            }
        },
    }
    section
}

fn build_time(lock: bool, at: Option<AreaTime>) -> (section: Section)
    ensures
        section@ == time_section(lock, at),
{
    let mut section = Section::titled("world_time");
    section.field("lock", text::bool_text(lock).as_str());
    match at {
        Some(t) => {
            section.field("clock", clock_text(t.hour as u32, t.minute as u32).as_str());
            section.field("engine_target", clock_text(t.target_hour, t.target_minute).as_str());
        },
        None => section.field("status", "no WorldAreaTime yet (menu / loading)"),
    }
    section
}

/// The report under `title`: a section each for the build, our Steam identity, the connection attempt
/// (once one has begun), the session, the features, the scaling, the time of day and the player. A
/// reading that is not there yet becomes a row that says so.
pub fn build_report(title: &str, facts: &Facts) -> (report: DiagnosticReport)
    ensures
        report@ == (ReportView { title: title@, sections: facts.sections() }),
{
    let mut report = DiagnosticReport::new(title);
    let mut build = Section::titled("build");
    build.field("version", facts.version.as_str());
    build.field("build_id", facts.build_id.as_str());
    report.push_section(build);

    let mut steam = Section::titled("steam");
    match facts.own_id {
        Some(id) => steam.field("own_id", text::dec_text(id).as_str()),
        None => steam.field("own_id", "(resolving)"),
    }
    steam.field("coop", facts.coop_status.as_str());
    report.push_section(steam);

    match &facts.connect {
        Some(rows) => report.push_section(build_connect(rows)),
        None => {},
    }
    report.push_section(build_session(&facts.session));
    report.push_section(build_features_section(&facts.features, facts.in_gameplay));

    let mut scaling = Section::titled("scaling");
    scaling.field("party_size", text::dec_text(facts.party_size as u64).as_str());
    scaling.field("enemy", facts.enemy.text().as_str());
    scaling.field("boss", facts.boss.text().as_str());
    report.push_section(scaling);

    report.push_section(build_time(facts.time_lock, facts.area_time));

    match &facts.vitals {
        VitalsRead::Live(v) => {
            let mut vitals = Section::titled("vitals");
            vitals.field("hp", pair_text(v.hp).as_str());
            vitals.field("fp", pair_text(v.fp).as_str());
            vitals.field("stamina", pair_text(v.stamina).as_str());
            report.push_section(vitals);
            report.push_section(build_status(&v.gauges));
        },
        VitalsRead::NotWired => {
            let mut vitals = Section::titled("vitals");
            vitals.field("status", "GameDataMan up, player data not wired yet");
            report.push_section(vitals);
        },
        VitalsRead::NoManager => {
            let mut vitals = Section::titled("vitals");
            vitals.field("status", "no GameDataMan yet (pre-init / title screen)");
            report.push_section(vitals);
        },
    }
    assert(report@.sections =~= facts.sections());
    report
}

/// The line that puts a rendered report into the log: it starts on a line of its own.
pub fn dump(rendered: &str) -> (line: LogLine)
    ensures
        line@ == (LogLineView { level: Level::Info, text: "\n"@ + rendered@ }),
{
    let mut out = "\n".to_owned();
    out.append(rendered);
    LogLine { level: Level::Info, text: out }
}

/// A recurring probe that was asked for.
#[derive(Clone, Copy, Debug, PartialEq, Eq, Structural)]
pub enum ProbeKind {
    /// Log a full report every so many seconds.
    Snapshot { secs: u32 },
    /// Watch a window of event flags.
    FlagScan { start: u32, count: u32 },
}

/// The probes that a configuration asks for: a period or a window of zero asks for none.
pub open spec fn probes_asked_for(snapshot_secs: u32, start: u32, count: u32) -> Seq<ProbeKind> {
    let snapshot = if snapshot_secs > 0 {
        seq![ProbeKind::Snapshot { secs: snapshot_secs }]
    } else {
        Seq::empty()
    };
    if count > 0 {
        snapshot.push(ProbeKind::FlagScan { start, count })
    } else {
        snapshot
    }
}

/// The probes that a configuration asks for.
pub fn probe_features(snapshot_secs: u32, scan_start: u32, scan_count: u32) -> (probes: Vec<
    ProbeKind,
>)
    ensures
        probes@ == probes_asked_for(snapshot_secs, scan_start, scan_count),
{
    let mut probes: Vec<ProbeKind> = Vec::new();
    if snapshot_secs > 0 {
        probes.push(ProbeKind::Snapshot { secs: snapshot_secs });
        assert(probes@ =~= seq![ProbeKind::Snapshot { secs: snapshot_secs }]);
    }
    if scan_count > 0 {
        probes.push(ProbeKind::FlagScan { start: scan_start, count: scan_count });
    }
    probes
}

/// The section on the frame that a live report was made in.
pub open spec fn runtime_section(frame: u64, fps: Seq<char>) -> SectionView {
    SectionView::titled("runtime"@).field("frame"@, dec(frame as nat)).field("fps"@, fps)
}

/// Publishes a live report to the overlay, but only while one is wanted and the publisher's period is
/// over (`due`). `fps` is the frame rate in words.
pub fn publish_live(panel: &mut DebugPanel, due: bool, facts: &Facts, frame: u64, fps: &str)
    ensures
        final(panel)@ == (if old(panel)@.wanted && due {
            PanelView {
                report: Some(
                    (ReportView { title: "debug"@, sections: facts.sections() }).section(
                        runtime_section(frame, fps@),
                    ),
                ),
                version: next_version(old(panel)@.version),
                ..old(panel)@
            }
        } else {
            old(panel)@
        }),
{
    if !debug_panel::report_wanted(panel) || !due {
        return;
    }
    let mut report = build_report("debug", facts);
    let mut runtime = Section::titled("runtime");
    runtime.field("frame", text::dec_text(frame).as_str());
    runtime.field("fps", fps);
    report.push_section(runtime);
    debug_panel::publish(Some(panel), report);
}

/// Watches a window of event flags and tells which of them flip.
#[derive(Debug)]
pub struct FlagScanProbe {
    start: u32,
    count: usize,
    seen: Option<Vec<bool>>,
}

/// What the probe knows: the window, and its flags as they were seen last.
pub struct FlagScanView {
    pub start: u32,
    pub count: nat,
    pub seen: Option<Seq<bool>>,
}

impl View for FlagScanProbe {
    type V = FlagScanView;

    closed spec fn view(&self) -> FlagScanView {
        FlagScanView {
            start: self.start,
            count: self.count as nat,
            seen: match self.seen {
                Some(s) => Some(s@),
                None => None,
            },
        }
    }
}

impl FlagScanView {
    /// What is seen is the whole window.
    pub open spec fn wf(self) -> bool {
        &&& self.count <= u32::MAX
        &&& self.seen matches Some(s) ==> s.len() == self.count
    }
}

/// The flag at a position of a window; one past the last number stays at the last.
pub open spec fn flag_id(start: u32, i: int) -> int {
    if start + i <= u32::MAX {
        start + i
    } else {
        u32::MAX as int
    }
}

/// How many of the first `n` flags are on.
pub open spec fn flags_on(flags: Seq<bool>, n: nat) -> nat
    decreases n,
{
    if n == 0 {
        0
    } else if flags[n - 1] {
        flags_on(flags, (n - 1) as nat) + 1
    } else {
        flags_on(flags, (n - 1) as nat)
    }
}

/// The line on one flip.
pub open spec fn flip_line(start: u32, i: int, now: bool) -> LogLineView {
    LogLineView {
        level: Level::Info,
        text: "diag-flag-scan: flag "@ + dec(flag_id(start, i) as nat) + " -> "@ + (if now {
            "ON"@
        } else {
            "off"@
        }),
    }
}

/// The lines on the flips among the first `n` flags.
pub open spec fn flip_lines(start: u32, before: Seq<bool>, flags: Seq<bool>, n: nat) -> Seq<
    LogLineView,
>
    decreases n,
{
    if n == 0 {
        Seq::empty()
    } else {
        let rest = flip_lines(start, before, flags, (n - 1) as nat);
        if before[n - 1] != flags[n - 1] {
            rest.push(flip_line(start, n - 1, flags[n - 1]))
        } else {
            rest
        }
    }
}

/// The line on the first look.
pub open spec fn baseline_line(start: u32, flags: Seq<bool>) -> LogLineView {
    LogLineView {
        level: Level::Info,
        text: "diag-flag-scan: watching "@ + dec(flags.len()) + " flags from "@ + dec(start as nat)
            + " ("@ + dec(flags_on(flags, flags.len())) + " on at baseline)"@,
    }
}

fn count_on(flags: &Vec<bool>) -> (on: usize)
    ensures
        on as nat == flags_on(flags@, flags@.len()),
{
    let mut on: usize = 0;
    let mut i: usize = 0;
    while i < flags.len()
        invariant
            i <= flags@.len(),
            on <= i,
            on as nat == flags_on(flags@, i as nat),
        decreases flags@.len() - i,
    {
        if flags[i] {
            on = on + 1;
        }
        i = i + 1;
    }
    on
}

impl FlagScanProbe {
    /// Nothing seen yet.
    pub fn new(start: u32, count: u32) -> (probe: FlagScanProbe)
        ensures
            probe@ == (FlagScanView { start, count: count as nat, seen: None }),
            probe@.wf(),
    {
        FlagScanProbe { start, count: count as usize, seen: None }
    }

    /// The numbers of the flags to read.
    pub fn flag_at(&self, i: u32) -> (id: u32)
        ensures
            id as int == flag_id(self@.start, i as int),
    {
        self.start.saturating_add(i)
    }

    /// One look at the window; none while the flags are not there. The first look only sets the baseline,
    /// every later one tells the flags that flipped since the look before it.
    pub fn on_scan(&mut self, flags: Option<Vec<bool>>) -> (lines: Vec<LogLine>)
        requires
            old(self)@.wf(),
            flags matches Some(f) ==> f@.len() == old(self)@.count,
        ensures
            final(self)@.wf(),
            match flags {
                None => final(self)@ == old(self)@ && lines@.len() == 0,
                Some(f) => final(self)@ == (FlagScanView { seen: Some(f@), ..old(self)@ })
                    && lines_view(lines@) == (match old(self)@.seen {
                    None => seq![baseline_line(old(self)@.start, f@)],
                    Some(before) => flip_lines(old(self)@.start, before, f@, f@.len()),
                }),
            },
    {
        let mut lines: Vec<LogLine> = Vec::new();
        assert(lines_view(lines@) =~= Seq::empty());
        match flags {
            None => {},
            Some(f) => {
                match &self.seen {
                    None => {
                        let mut out = "diag-flag-scan: watching ".to_owned();
                        out.append(text::dec_text(f.len() as u64).as_str());
                        out.append(" flags from ");
                        out.append(text::dec_text(self.start as u64).as_str());
                        out.append(" (");
                        out.append(text::dec_text(count_on(&f) as u64).as_str());
                        out.append(" on at baseline)");
                        levels::push_line(&mut lines, Level::Info, out);
                        assert(lines_view(lines@) =~= seq![baseline_line(self.start, f@)]);
                    },
                    Some(before) => {
                        let mut i: usize = 0;
                        while i < f.len()
                            invariant
                                i <= f@.len(),
                                f@.len() == before@.len(),
                                f@.len() <= u32::MAX,
                                lines_view(lines@) == flip_lines(
                                    self.start,
                                    before@,
                                    f@,
                                    i as nat,
                                ),
                            decreases f@.len() - i,
                        {
                            let ghost said = lines_view(lines@);
                            if before[i] != f[i] {
                                let id: u32 = self.flag_at(i as u32);
                                let mut out = "diag-flag-scan: flag ".to_owned();
                                out.append(text::dec_text(id as u64).as_str());
                                out.append(" -> ");
                                out.append(
                                    if f[i] {
                                        "ON"
                                    } else {
                                        "off"
                                    },
                                );
                                levels::push_line(&mut lines, Level::Info, out);
                                assert(lines_view(lines@) =~= said.push(
                                    flip_line(self.start, i as int, f@[i as int]),
                                ));
                            }
                            i = i + 1;
                        }
                    },
                }
                self.seen = Some(f);
            },
        }
        lines
    }
}

/// A window in which nothing flipped says nothing.
pub proof fn quiet_window_says_nothing(start: u32, flags: Seq<bool>, n: nat)
    requires
        n <= flags.len(),
    ensures
        flip_lines(start, flags, flags, n) == Seq::<LogLineView>::empty(),
    decreases n,
{
    if n > 0 {
        quiet_window_says_nothing(start, flags, (n - 1) as nat);
    }
}

/// What has built up and what remains make up the whole gauge.
pub proof fn a_gauge_builds_up_as_it_empties(g: Gauge)
    ensures
        g.remaining <= g.max ==> g.buildup() + g.remaining == g.max,
        g.remaining > g.max ==> g.buildup() == 0,
        g.in_play() == (g.remaining < g.max || g.proc_timer is Some),
{
}

/// The party is as large as the session says, and empty without one.
pub proof fn the_party_is_the_sessions(v: SessionView)
    ensures
        party_of(Some(v)) == v.players,
        party_of(None) == 0,
{
}

/// Every ailment that builds up or is active is listed, under its own name, and no other is.
pub proof fn every_ailment_in_play_is_listed(gauges: Seq<Gauge>, n: nat)
    requires
        n <= gauges.len(),
    ensures
        active_ailments(gauges, n).len() <= n,
        forall|i: int|
            0 <= i < n && (#[trigger] gauges[i]).in_play() ==> active_ailments(gauges, n).contains(
                ailment(i),
            ),
        (forall|i: int| 0 <= i < n ==> !(#[trigger] gauges[i]).in_play()) ==> active_ailments(
            gauges,
            n,
        ).len() == 0,
        status_rows(gauges, n).fields.len() == active_ailments(gauges, n).len(),
        forall|k: int|
            0 <= k < active_ailments(gauges, n).len() ==> (#[trigger] status_rows(
                gauges,
                n,
            ).fields[k]).label == active_ailments(gauges, n)[k],
    decreases n,
{
    if n > 0 {
        every_ailment_in_play_is_listed(gauges, (n - 1) as nat);
        let before = active_ailments(gauges, (n - 1) as nat);
        let now = active_ailments(gauges, n);
        assert forall|i: int| 0 <= i < n && (#[trigger] gauges[i]).in_play() implies now.contains(
            ailment(i),
        ) by {
            if i < n - 1 {
                assert(before.contains(ailment(i)));
                let j = choose|j: int| 0 <= j < before.len() && before[j] == ailment(i);
                assert(now[j] == ailment(i));
            } else {
                assert(now[before.len() as int] == ailment(i));
            }
        }
        let rows = status_rows(gauges, (n - 1) as nat);
        assert forall|k: int| 0 <= k < now.len() implies (#[trigger] status_rows(
            gauges,
            n,
        ).fields[k]).label == now[k] by {
            if k < before.len() {
                assert(rows.fields[k].label == before[k]);
            }
        }
    }
}

/// Where nothing builds up, that is said in so many words; otherwise the summary names what does.
pub proof fn the_status_is_summed_up(gauges: Seq<Gauge>)
    requires
        gauges.len() == 7,
    ensures
        status_section(gauges).title == "status"@,
        active_ailments(gauges, 7).len() == 0 ==> status_section(gauges).fields.len() == 1
            && status_section(gauges).summary.last().value == "none building or active"@,
        active_ailments(gauges, 7).len() > 0 ==> status_section(gauges).fields.len()
            == active_ailments(gauges, 7).len() && status_section(gauges).summary.last().value
            == joined(active_ailments(gauges, 7), ", "@),
{
    every_ailment_in_play_is_listed(gauges, 7);
    status_has_its_title(gauges, 7);
}

proof fn status_has_its_title(gauges: Seq<Gauge>, n: nat)
    ensures
        status_rows(gauges, n).title == "status"@,
    decreases n,
{
    if n > 0 {
        status_has_its_title(gauges, (n - 1) as nat);
    }
}

/// A label's value is that of the first row that has it; without such a row there is none.
pub proof fn the_first_row_with_the_label_counts(
    rows: Seq<RowView>,
    label: Seq<char>,
    from: int,
    i: int,
)
    requires
        0 <= from <= rows.len(),
    ensures
        from <= i < rows.len() && rows[i].label == label && (forall|j: int|
            from <= j < i ==> (#[trigger] rows[j]).label != label) ==> first_value(rows, label, from)
            == Some(rows[i].value),
        (forall|j: int| from <= j < rows.len() ==> (#[trigger] rows[j]).label != label)
            ==> first_value(rows, label, from) is None,
    decreases rows.len() - from,
{
    if from < rows.len() {
        the_first_row_with_the_label_counts(rows, label, from + 1, i);
    }
}

/// A connection that failed is headed by why; one that did not by how far it came.
pub proof fn a_failure_heads_the_connection(rows: Seq<RowView>)
    ensures
        first_value(rows, "failure"@, 0) matches Some(why) ==> connect_headline(rows) == "failed: "@
            + why,
        first_value(rows, "failure"@, 0) is None ==> (first_value(rows, "handshake"@, 0) matches Some(
            state,
        ) ==> connect_headline(rows) == "handshake "@ + state),
        first_value(rows, "failure"@, 0) is None && first_value(rows, "handshake"@, 0) is None
            ==> connect_headline(rows) == "connecting"@,
        connect_section(rows).fields == rows,
        connect_section(rows).title == "coop_connect"@,
        connect_section(rows).summary.len() == 1,
{
}

/// Every feature has its row, at its place, with whether it is down; those that are down are named in the summary,
/// and no other is.
pub proof fn every_feature_has_its_row(list: Seq<FeatureHealth>, in_gameplay: bool, n: nat)
    requires
        n <= list.len(),
    ensures
        feature_rows(list, in_gameplay, n).title == "features"@,
        feature_rows(list, in_gameplay, n).fields.len() == n + 1,
        feature_rows(list, in_gameplay, n).summary == features_head(in_gameplay).summary,
        forall|i: int|
            0 <= i < n ==> (#[trigger] feature_rows(list, in_gameplay, n).fields[i + 1]).label
                == list[i].name@ && feature_rows(list, in_gameplay, n).fields[i + 1].value == (
            if list[i].disabled {
                "DISABLED (panicked)"@
            } else {
                "ok"@
            }),
        disabled_names(list, n).len() <= n,
        forall|i: int|
            0 <= i < n && (#[trigger] list[i]).disabled ==> disabled_names(list, n).contains(
                list[i].name@,
            ),
        (forall|i: int| 0 <= i < n ==> !(#[trigger] list[i]).disabled) ==> disabled_names(
            list,
            n,
        ).len() == 0,
        (forall|i: int| 0 <= i < n ==> (#[trigger] list[i]).disabled) ==> disabled_names(
            list,
            n,
        ).len() == n,
    decreases n,
{
    if n > 0 {
        every_feature_has_its_row(list, in_gameplay, (n - 1) as nat);
        let rows = feature_rows(list, in_gameplay, (n - 1) as nat);
        let before = disabled_names(list, (n - 1) as nat);
        let now = disabled_names(list, n);
        assert forall|i: int| 0 <= i < n implies (#[trigger] feature_rows(
            list,
            in_gameplay,
            n,
        ).fields[i + 1]).label == list[i].name@ && feature_rows(
            list,
            in_gameplay,
            n,
        ).fields[i + 1].value == (if list[i].disabled {
            "DISABLED (panicked)"@
        } else {
            "ok"@
        }) by {
            if i < n - 1 {
                assert(rows.fields[i + 1].label == list[i].name@);
            }
        }
        assert forall|i: int| 0 <= i < n && (#[trigger] list[i]).disabled implies now.contains(
            list[i].name@,
        ) by {
            if i < n - 1 {
                assert(before.contains(list[i].name@));
                let j = choose|j: int| 0 <= j < before.len() && before[j] == list[i].name@;
                assert(now[j] == list[i].name@);
            } else {
                assert(now[before.len() as int] == list[i].name@);
            }
        }
    }
}

/// The summary of the features counts those that are up out of all, and names those that are down.
pub proof fn features_are_summed_up(list: Seq<FeatureHealth>)
    ensures
        disabled_names(list, list.len()).len() == 0 ==> features_rollup(list) == dec(list.len())
            + "/"@ + dec(list.len()) + " ok"@,
        disabled_names(list, list.len()).len() > 0 ==> features_rollup(list) == dec(
            (list.len() - disabled_names(list, list.len()).len()) as nat,
        ) + "/"@ + dec(list.len()) + " ok"@ + ", DISABLED: "@ + joined(
            disabled_names(list, list.len()),
            ", "@,
        ),
{
}

/// The sections of the report, in their order; the connection has one exactly if there was an attempt, and the
/// status one exactly if the player's vitals could be read.
pub proof fn the_sections_of_the_report(facts: Facts)
    ensures
        ({
            let all = facts.sections();
            let linked: int = if facts.connect is Some {
                1
            } else {
                0
            };
            &&& all[0].title == "build"@
            &&& all[1].title == "steam"@
            &&& linked == 1 ==> all[2].title == "coop_connect"@
            &&& all[2 + linked].title == "session"@
            &&& all[3 + linked].title == "features"@
            &&& all[4 + linked].title == "scaling"@
            &&& all[5 + linked].title == "world_time"@
            &&& all[6 + linked].title == "vitals"@
            &&& all.len() == 7 + linked + (if facts.vitals is Live {
                1int
            } else {
                0
            })
            &&& facts.vitals is Live ==> all.last().title == "status"@
        }),
{
    if let VitalsRead::Live(v) = facts.vitals {
        status_has_its_title(v.gauges@, 7);
    }
    if let Some(list) = facts.features {
        every_feature_has_its_row(list@, facts.in_gameplay, list@.len());
    }
}

/// What the sections say: the build, one's own account where it is known, the session's numbers, the vitals and the
/// clock.
pub proof fn the_sections_say_what_was_read(
    version: Seq<char>,
    build: Seq<char>,
    id: u64,
    status: Seq<char>,
    v: SessionView,
    vitals: Vitals,
    lock: bool,
    at: AreaTime,
)
    ensures
        build_section(version, build).fields[0].value == version,
        build_section(version, build).fields[1].value == build,
        steam_section(Some(id), status).fields[0].value == dec(id as nat),
        steam_section(None, status).fields[0].value == "(resolving)"@,
        steam_section(Some(id), status).fields[1].value == status,
        session_section(Some(v)).fields.len() == 6,
        session_section(Some(v)).fields[0].value == v.lobby_state.name@,
        session_section(Some(v)).fields[1].value == v.protocol_state.name@,
        session_section(Some(v)).fields[2].value == dec(v.players as nat),
        session_section(Some(v)).fields[3].value == dec(v.player_limit as nat),
        session_section(Some(v)).fields[4].value == dec(v.limit_override as nat),
        session_section(None).fields.len() == 1,
        vitals_section(vitals).fields[0].value == pair_chars(vitals.hp),
        vitals_section(vitals).fields[1].value == pair_chars(vitals.fp),
        vitals_section(vitals).fields[2].value == pair_chars(vitals.stamina),
        time_section(lock, Some(at)).fields[0].value == bool_chars(lock),
        time_section(lock, Some(at)).fields[1].value == clock_chars(at.hour as u32, at.minute as u32),
        time_section(lock, Some(at)).fields[2].value == clock_chars(
            at.target_hour,
            at.target_minute,
        ),
        time_section(lock, None).fields.len() == 2,
{
}

/// Each probe runs exactly if it was asked for: the snapshot with its interval, the scan with its window.
pub proof fn each_probe_runs_if_asked_for(secs: u32, start: u32, count: u32)
    ensures
        probes_asked_for(secs, start, count).contains(ProbeKind::Snapshot { secs }) == (secs > 0),
        probes_asked_for(secs, start, count).contains(ProbeKind::FlagScan { start, count }) == (
        count > 0),
        probes_asked_for(secs, start, count).len() == (if secs > 0 {
            1int
        } else {
            0
        }) + (if count > 0 {
            1int
        } else {
            0
        }),
{
    let probes = probes_asked_for(secs, start, count);
    if secs > 0 {
        assert(probes[0] == ProbeKind::Snapshot { secs });
    }
    if count > 0 {
        assert(probes[probes.len() - 1] == ProbeKind::FlagScan { start, count });
    }
}

/// The flags of the window are numbered from its start, one after the other, as far as numbers go.
pub proof fn flags_are_numbered_from_the_start(start: u32, i: int)
    requires
        i >= 0,
    ensures
        flag_id(start, 0) == start,
        start + i + 1 <= u32::MAX ==> flag_id(start, i + 1) == flag_id(start, i) + 1,
        start + i >= u32::MAX ==> flag_id(start, i) == u32::MAX,
{
}

/// A flag counts exactly if it is on.
pub proof fn each_flag_that_is_on_counts(flags: Seq<bool>, n: nat)
    requires
        n < flags.len(),
    ensures
        flags_on(flags, 0) == 0,
        flags_on(flags, n + 1) - flags_on(flags, n) == (if flags[n as int] {
            1int
        } else {
            0
        }),
{
}

/// Every flag that flipped is told, with its number and what it is now, and no other is.
pub proof fn every_flip_is_told(start: u32, before: Seq<bool>, flags: Seq<bool>, n: nat)
    requires
        n <= flags.len(),
        before.len() == flags.len(),
    ensures
        forall|i: int|
            0 <= i < n && before[i] != #[trigger] flags[i] ==> flip_lines(
                start,
                before,
                flags,
                n,
            ).contains(flip_line(start, i, flags[i])),
        forall|k: int|
            0 <= k < flip_lines(start, before, flags, n).len() ==> exists|i: int|
                0 <= i < n && before[i] != #[trigger] flags[i] && #[trigger] flip_lines(
                    start,
                    before,
                    flags,
                    n,
                )[k] == flip_line(start, i, flags[i]),
        flip_lines(start, before, flags, n).len() <= n,
    decreases n,
{
    if n > 0 {
        every_flip_is_told(start, before, flags, (n - 1) as nat);
        let rest = flip_lines(start, before, flags, (n - 1) as nat);
        let now = flip_lines(start, before, flags, n);
        assert forall|i: int| 0 <= i < n && before[i] != #[trigger] flags[i] implies now.contains(
            flip_line(start, i, flags[i]),
        ) by {
            if i < n - 1 {
                assert(rest.contains(flip_line(start, i, flags[i])));
                let j = choose|j: int|
                    0 <= j < rest.len() && rest[j] == flip_line(start, i, flags[i]);
                assert(now[j] == flip_line(start, i, flags[i]));
            } else {
                assert(now[rest.len() as int] == flip_line(start, i, flags[i]));
            }
        }
        assert forall|k: int| 0 <= k < now.len() implies exists|i: int|
            0 <= i < n && before[i] != #[trigger] flags[i] && #[trigger] now[k] == flip_line(
                start,
                i,
                flags[i],
            ) by {
            if k < rest.len() {
                assert(rest[k] == now[k]);
                let i = choose|i: int|
                    0 <= i < n - 1 && before[i] != #[trigger] flags[i] && rest[k] == flip_line(
                        start,
                        i,
                        flags[i],
                    );
                assert(before[i] != flags[i]);
            } else {
                assert(before[n - 1] != flags[n - 1]);
            }
        }
    }
}

/// The seven ailments, by their names.
pub proof fn the_ailments()
    ensures
        ailment(0) == "poison"@,
        ailment(1) == "scarlet_rot"@,
        ailment(2) == "hemorrhage"@,
        ailment(3) == "death_blight"@,
        ailment(4) == "frostbite"@,
        ailment(5) == "sleep"@,
        ailment(6) == "madness"@,
{
}

/// A flip is told with the flag's number and what it is now.
pub proof fn a_flip_tells_its_flag(start: u32, i: int, flags: Seq<bool>)
    ensures
        flip_line(start, i, true).text == "diag-flag-scan: flag "@ + dec(flag_id(start, i) as nat)
            + " -> "@ + "ON"@,
        flip_line(start, i, false).text == "diag-flag-scan: flag "@ + dec(flag_id(start, i) as nat)
            + " -> "@ + "off"@,
        flip_line(start, i, true).level == Level::Info,
        baseline_line(start, flags).text == "diag-flag-scan: watching "@ + dec(flags.len())
            + " flags from "@ + dec(start as nat) + " ("@ + dec(flags_on(flags, flags.len()))
            + " on at baseline)"@,
{
}

/// The features are told of as soon as they are registered; until then it is said that they are not.
pub proof fn features_are_told_once_registered(list: Vec<FeatureHealth>, in_gameplay: bool)
    ensures
        features_section(None, in_gameplay).fields.last().value == "not registered yet (pre-init)"@,
        list@.len() == 0 ==> features_section(Some(list), in_gameplay).fields.last().value
            == "not registered yet"@,
        list@.len() > 0 ==> features_section(Some(list), in_gameplay).fields.len() == list@.len() + 1,
        list@.len() > 0 ==> features_section(Some(list), in_gameplay).summary.last().value
            == features_rollup(list@),
        features_head(in_gameplay).fields[0].value == bool_chars(in_gameplay),
        features_head(in_gameplay).summary[0].value == bool_chars(in_gameplay),
{
    every_feature_has_its_row(list@, in_gameplay, list@.len());
}

/// Amounts and times are written out of their parts.
pub proof fn amounts_and_times_are_written_out(
    p: (u32, u32),
    hour: u32,
    minute: u32,
    g: Gauge,
    m: MultiplierText,
    party: u32,
    frame: u64,
    fps: Seq<char>,
)
    ensures
        pair_chars(p) == dec(p.0 as nat) + "/"@ + dec(p.1 as nat),
        clock_chars(hour, minute) == zero_pad(dec(hour as nat), 2) + ":"@ + zero_pad(
            dec(minute as nat),
            2,
        ),
        g.proc_timer is None ==> g.shown() == dec(g.buildup()) + "/"@ + dec(g.max as nat),
        g.proc_timer matches Some(t) ==> g.shown() == dec(g.buildup()) + "/"@ + dec(g.max as nat)
            + " (proc "@ + t@ + "s)"@,
        m.shown() == "hp x"@ + m.health@ + " dmg x"@ + m.damage@ + " pos x"@ + m.posture@,
        scaling_section(party, m, m).fields[0].value == dec(party as nat),
        runtime_section(frame, fps).fields[0].value == dec(frame as nat),
        runtime_section(frame, fps).fields[1].value == fps,
{
}

/// Enemies and bosses are told apart in the scaling.
pub proof fn the_scaling_tells_enemies_from_bosses(
    party: u32,
    enemy: MultiplierText,
    boss: MultiplierText,
)
    ensures
        scaling_section(party, enemy, boss).fields.len() == 3,
        scaling_section(party, enemy, boss).fields[1] == (RowView {
            label: "enemy"@,
            value: enemy.shown(),
        }),
        scaling_section(party, enemy, boss).fields[2] == (RowView {
            label: "boss"@,
            value: boss.shown(),
        }),
{
}

/// What is watched is told to everyone.
pub proof fn the_watch_is_told_to_everyone(start: u32, i: int, on: bool, flags: Seq<bool>)
    ensures
        baseline_line(start, flags).level == Level::Info,
        flip_line(start, i, on).level == Level::Info,
{
}

} // verus!
