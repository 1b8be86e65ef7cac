//! The overlay drawn over the game: what each frame shows and who gets the player's input, the tabs of
//! the menu and their cursors, the actions handed to the game thread, secrets that stay masked, and the
//! order in which nameplates are painted.

use vstd::prelude::*;

use crate::actionq;
use crate::actionq::{ActionQueue, SessionAction, CAP};
use crate::debug_layout;
use crate::debug_layout::{category, CATEGORIES};
use crate::debug_panel;
use crate::debug_panel::{DebugPanel, PanelView};
use crate::features::rig_guide::{ChoiceView, RigView};
use crate::input;
use crate::input::InputBlock;
use crate::levels::{Level, LogLine, LogLineView};
use crate::notify::{Severity, Toast, ToastView};
use crate::report::{DiagnosticReport, ReportView};
use crate::text;
use crate::text::{dec, texts};
use crate::util::pushed_all;

verus! {

/// The number of tabs: actions, settings, debug and log.
pub const TABS: usize = 4;

pub const CLOSE_HINT: &'static str = "` or B to close";

/// The menu's own state.
#[derive(Clone, Copy, Debug)]
pub struct Menu {
    /// Whether the window is open.
    pub open: bool,
    /// Whether the overlay failed and is left alone.
    pub disabled: bool,
    pub tab: usize,
    pub password_revealed: bool,
    /// Whether the summary of the report is shown.
    pub show_debug: bool,
    /// Which categories of detail are shown.
    pub details: [bool; 3],
    pub debug_sel: usize,
    pub actions_sel: usize,
    /// Whether a question of the guide holds the player's input.
    pub choice_active: bool,
}

/// What the player did and what is going on this frame.
#[derive(Clone, Copy, Debug, PartialEq, Eq, Structural)]
pub struct FrameInput {
    /// The toggle key or its chord was pressed.
    pub toggle: bool,
    /// The cancel key or button was pressed.
    pub cancel: bool,
    /// A question of the guide is up.
    pub choice_active: bool,
    pub in_gameplay: bool,
}

/// What is drawn this frame.
#[derive(Clone, Copy, Debug, PartialEq, Eq, Structural)]
pub struct FramePlan {
    /// The stamp in the corner.
    pub watermark: bool,
    /// The summary of the report.
    pub summary: bool,
    /// The details of the report.
    pub detail: bool,
    /// The menu's window and the cursor.
    pub window: bool,
}

impl Menu {
    /// Whether any category of detail is shown.
    pub open spec fn any_detail(self) -> bool {
        self.details@[0] || self.details@[1] || self.details@[2]
    }

    /// Whether a report is needed.
    pub open spec fn wants_report(self) -> bool {
        self.show_debug || self.any_detail()
    }

    /// A closed menu; the summary is shown from the start where `debug` says so.
    pub fn new(debug: bool) -> (menu: Menu)
        ensures
            menu == (Menu {
                open: false,
                disabled: false,
                tab: 0,
                password_revealed: false,
                show_debug: debug,
                details: menu.details,
                debug_sel: 0,
                actions_sel: 0,
                choice_active: false,
            }),
            !menu.any_detail(),
    {
        Menu {
            open: false,
            disabled: false,
            tab: 0,
            password_revealed: false,
            show_debug: debug,
            details: [false, false, false],
            debug_sel: 0,
            actions_sel: 0,
            choice_active: false,
        }
    }

    /// Whether the menu is open after the keys of a frame: the toggle flips it, and cancelling closes it
    /// if it is open.
    pub open spec fn opened(self, input: FrameInput) -> bool {
        (self.open != input.toggle) && !input.cancel
    }

    /// The menu after the keys of a frame; opening it puts the cursor of the actions at the top.
    pub open spec fn after_keys(self, input: FrameInput) -> Menu {
        Menu {
            open: self.opened(input),
            actions_sel: if input.toggle && !self.open {
                0
            } else {
                self.actions_sel
            },
            choice_active: input.choice_active,
            ..self
        }
    }

    /// What a frame shows.
    pub open spec fn plan(self, input: FrameInput) -> FramePlan {
        FramePlan {
            watermark: !input.in_gameplay && !self.show_debug,
            summary: self.show_debug,
            detail: self.any_detail(),
            window: self.opened(input) && !input.choice_active,
        }
    }

    /// Begins a frame: the keys are looked at, the player's input is kept from the game exactly while the
    /// window or a question of the guide is up, and a report is asked for exactly while one is shown. A
    /// question takes the place of the window. The stamp is shown only off the field of play, and not
    /// over the summary.
    pub fn begin_frame(
        &mut self,
        input: FrameInput,
        block: &mut InputBlock,
        panel: &mut DebugPanel,
    ) -> (plan: FramePlan)
        ensures
            *final(self) == old(self).after_keys(input),
            final(block).blocked == (old(self).opened(input) || input.choice_active),
            final(panel)@ == (PanelView { wanted: old(self).wants_report(), ..old(panel)@ }),
            plan == old(self).plan(input),
            plan.window ==> final(block).blocked,
            input.choice_active ==> final(block).blocked && !plan.window,
            input.cancel ==> !final(self).open,
    {
        if input.toggle {
            self.open = !self.open;
            if self.open {
                self.actions_sel = 0;
            }
        }
        if self.open && input.cancel {
            self.open = false;
        }
        self.choice_active = input.choice_active;
        input::set_blocked(block, self.open || input.choice_active);
        let any_detail = self.details[0] || self.details[1] || self.details[2];
        debug_panel::set_report_wanted(panel, self.show_debug || any_detail);
        FramePlan {
            watermark: !input.in_gameplay && !self.show_debug,
            summary: self.show_debug,
            detail: any_detail,
            window: self.open && !input.choice_active,
        }
    }

    /// Whether the window's messages are kept from the game.
    pub open spec fn swallows(self) -> bool {
        !self.disabled && (self.open || self.choice_active)
    }

    /// Whether the window's messages are kept from the game.
    pub fn message_filter(&self) -> (swallow: bool)
        ensures
            swallow == self.swallows(),
    {
        !self.disabled && (self.open || self.choice_active)
    }

    /// The menu after drawing failed.
    pub open spec fn given_up(self) -> Menu {
        Menu { disabled: true, open: false, ..self }
    }

    /// Gives the overlay up for the rest of the session after drawing failed, and the player's input back
    /// to the game. `stage` names what failed.
    pub fn give_up(&mut self, block: &mut InputBlock, stage: &str) -> (line: LogLine)
        ensures
            *final(self) == old(self).given_up(),
            !final(block).blocked,
            line@ == (LogLineView {
                level: Level::Error,
                text: "overlay: "@ + stage@
                    + " panicked; overlay disabled for the rest of the session"@,
            }),
    {
        self.disabled = true;
        self.open = false;
        input::set_blocked(block, false);
        let mut out = "overlay: ".to_owned();
        out.append(stage);
        out.append(" panicked; overlay disabled for the rest of the session");
        LogLine { level: Level::Error, text: out }
    }

    /// The tab after the keys of a frame: right, then left, each going round.
    pub open spec fn tab_after(self, right: bool, left: bool) -> int {
        let first = if right {
            (self.tab + 1) % (TABS as int)
        } else {
            self.tab as int
        };
        if left {
            (first + TABS - 1) % (TABS as int)
        } else {
            first
        }
    }

    /// Moves to the next or the previous tab; the tab to bring up, if there was a key.
    pub fn cycle_tabs(&mut self, right: bool, left: bool) -> (forced: Option<usize>)
        requires
            old(self).tab < TABS,
        ensures
            *final(self) == (Menu { tab: final(self).tab, ..*old(self) }),
            final(self).tab as int == old(self).tab_after(right, left),
            final(self).tab < TABS,
            forced == (if right || left {
                Some(final(self).tab)
            } else {
                None
            }),
    {
        let mut forced: Option<usize> = None;
        if right {
            self.tab = (self.tab + 1) % TABS;
            forced = Some(self.tab);
        }
        if left {
            self.tab = (self.tab + TABS - 1) % TABS;
            forced = Some(self.tab);
        }
        forced
    }
}

/// A frame keeps the player's input from the game exactly while something is up that needs it, and what
/// filters the window's messages agrees with that.
pub proof fn input_follows_what_is_up(menu: Menu, input: FrameInput)
    requires
        !menu.disabled,
    ensures
        menu.after_keys(input).swallows() == (menu.opened(input) || input.choice_active),
        menu.plan(input).window ==> menu.after_keys(input).swallows(),
{
}

/// An overlay that was given up never keeps input from the game again.
pub proof fn given_up_overlay_is_inert(menu: Menu)
    ensures
        !menu.given_up().swallows(),
{
}

/// Going one tab to the right and then one to the left ends at the same tab.
pub proof fn left_undoes_right(menu: Menu)
    requires
        menu.tab < TABS,
    ensures
        menu.tab_after(true, true) == menu.tab,
        (Menu { tab: menu.tab_after(true, false) as usize, ..menu }).tab_after(false, true)
            == menu.tab,
{
}

/// The report that is drawn from, kept until a newer one is published.
#[derive(Debug)]
pub struct ReportCache {
    pub report: Option<DiagnosticReport>,
    pub version: u64,
}

impl ReportCache {
    /// What is kept.
    pub open spec fn shown(self) -> Option<ReportView> {
        match self.report {
            Some(r) => Some(r@),
            None => None,
        }
    }

    /// Takes over a report that was published since. `held` says whether a non-blocking attempt got hold
    /// of it; if not, what is kept stays.
    pub fn refresh(&mut self, panel: &DebugPanel, held: bool)
        ensures
            ({
                let newer = panel@.version != old(self).version && held && panel@.report is Some;
                &&& final(self).version == (if newer {
                    panel@.version
                } else {
                    old(self).version
                })
                &&& final(self).shown() == (if newer {
                    panel@.report
                } else {
                    old(self).shown()
                })
            }),
            panel@.version == old(self).version || !held ==> final(self).shown() == old(self).shown(),
            panel@.version != old(self).version && held && panel@.report is Some ==> final(self).shown()
                == panel@.report && final(self).version == panel@.version,
    {
        let version: u64 = debug_panel::version(panel);
        if version != self.version {
            let report = if held {
                debug_panel::snapshot(Some(panel))
            } else {
                None
            };
            match report {
                Some(r) => {
                    self.report = Some(r);
                    self.version = version;
                },
                None => {},
            }
        }
    }
}

/// The number of rows of the debug tab: the summary, a category each, and the export.
pub const DEBUG_ROWS: usize = 5;

/// The row that exports the diagnostics.
pub const EXPORT_ROW: usize = 4;

/// What activating a row of the debug tab does.
#[derive(Clone, Copy, Debug, PartialEq, Eq, Structural)]
pub enum DebugAct {
    Nothing,
    /// A switch was flipped.
    Flipped,
    /// Export the diagnostics.
    Export,
}

/// The word for a switch.
pub open spec fn on_off(on: bool) -> Seq<char> {
    if on {
        "on"@
    } else {
        "off"@
    }
}

fn on_off_word(on: bool) -> (word: &'static str)
    ensures
        word@ == on_off(on),
{
    if on {
        "on"
    } else {
        "off"
    }
}

/// The rows of the debug tab. What follows the hashes is the row's identity and is not shown.
pub open spec fn debug_row(menu: Menu, i: int) -> Seq<char> {
    if i == 0 {
        "Debug panel: "@ + on_off(menu.show_debug) + "###debug-panel-toggle"@
    } else if i <= CATEGORIES {
        category(i - 1).label_chars() + ": "@ + on_off(menu.details@[i - 1]) + "###debug-detail-"@
            + dec((i - 1) as nat)
    } else {
        "Export diagnostics###export-diag"@
    }
}

impl Menu {
    /// A row of the debug tab.
    pub fn debug_label(&self, row: usize) -> (label: String)
        requires
            row < DEBUG_ROWS,
        ensures
            label@ == debug_row(*self, row as int),
    {
        if row == 0 {
            let mut out = "Debug panel: ".to_owned();
            out.append(on_off_word(self.show_debug));
            out.append("###debug-panel-toggle");
            return out;
        }
        if row == EXPORT_ROW {
            return "Export diagnostics###export-diag".to_owned();
        }
        let i: usize = row - 1;
        let mut out = debug_layout::category_at(i).label().to_owned();
        out.append(": ");
        out.append(on_off_word(self.details[i]));
        out.append("###debug-detail-");
        out.append(text::dec_text(i as u64).as_str());
        out
    }

    /// The menu after the selected row of the debug tab was activated.
    pub open spec fn debug_activated(self) -> Menu {
        if self.debug_sel == 0 {
            Menu { show_debug: !self.show_debug, ..self }
        } else if self.debug_sel < EXPORT_ROW {
            let i = self.debug_sel - 1;
            let flipped = self.details@.update(i, !self.details@[i]);
            Menu { details: [flipped[0], flipped[1], flipped[2]], ..self }
        } else {
            self
        }
    }

    /// Follows up on the input of a frame on the debug tab: a click selects its row and activates it, a
    /// key activates the selected one. Each switch stands for itself.
    pub fn debug_input(&mut self, activate: bool, clicked: Option<usize>) -> (act: DebugAct)
        requires
            old(self).debug_sel < DEBUG_ROWS,
            clicked matches Some(i) ==> i < DEBUG_ROWS,
        ensures
            final(self).debug_sel < DEBUG_ROWS,
            ({
                let chosen = Menu {
                    debug_sel: match clicked {
                        Some(i) => i,
                        None => old(self).debug_sel,
                    },
                    ..*old(self)
                };
                if activate || clicked is Some {
                    &&& final(self).details@ == chosen.debug_activated().details@
                    &&& *final(self) == (Menu {
                        details: final(self).details,
                        ..chosen.debug_activated()
                    })
                    &&& act == (if chosen.debug_sel == EXPORT_ROW {
                        DebugAct::Export
                    } else {
                        DebugAct::Flipped
                    })
                } else {
                    *final(self) == *old(self) && act == DebugAct::Nothing
                }
            }),
    {
        let mut activate = activate;
        match clicked {
            Some(i) => {
                self.debug_sel = i;
                activate = true;
            },
            None => {},
        }
        if !activate {
            return DebugAct::Nothing;
        }
        if self.debug_sel == 0 {
            self.show_debug = !self.show_debug;
            return DebugAct::Flipped;
        }
        if self.debug_sel == EXPORT_ROW {
            return DebugAct::Export;
        }
        let i: usize = self.debug_sel - 1;
        let flipped = !self.details[i];
        let ghost before = self.details@;
        self.details[i] = flipped;
        assert(self.details@ =~= before.update(i as int, flipped));
        DebugAct::Flipped
    }
}

/// A row of the actions tab.
#[derive(Clone, Copy, Debug, PartialEq, Eq, Structural)]
pub struct ActionRow {
    pub action: SessionAction,
    pub enabled: bool,
}

/// The label of an action row. What follows the hashes is the row's identity and is not shown.
pub fn action_label(label: &str, i: usize) -> (out: String)
    ensures
        out@ == label@ + "###action-"@ + dec(i as nat),
{
    let mut out = label.to_owned();
    out.append("###action-");
    out.append(text::dec_text(i as u64).as_str());
    out
}

/// Whether the cursor has to be put elsewhere: it is past the rows, or on one that cannot be activated.
pub fn cursor_is_lost(sel: usize, rows: &Vec<ActionRow>) -> (lost: bool)
    ensures
        lost == (sel >= rows@.len() || !rows@[sel as int].enabled),
{
    sel >= rows.len() || !rows[sel].enabled
}

impl Menu {
    /// Follows up on the input of a frame on the actions tab: a click selects its row and activates it, a
    /// key activates the selected one. Only an enabled row is ever activated.
    pub fn actions_input(&mut self, rows: &Vec<ActionRow>, activate: bool, clicked: Option<usize>) -> (
    action: Option<SessionAction>)
        ensures
            ({
                let sel = match clicked {
                    Some(i) => i,
                    None => old(self).actions_sel,
                };
                &&& *final(self) == (Menu { actions_sel: sel, ..*old(self) })
                &&& action == (if (activate || clicked is Some) && sel < rows@.len()
                    && rows@[sel as int].enabled {
                    Some(rows@[sel as int].action)
                } else {
                    None
                })
            }),
            !activate && clicked is None ==> action is None && *final(self) == *old(self),
            clicked matches Some(i) ==> final(self).actions_sel == i && (i < rows@.len()
                && rows@[i as int].enabled ==> action == Some(rows@[i as int].action)),
            clicked is None ==> final(self).actions_sel == old(self).actions_sel,
            action is Some ==> final(self).actions_sel < rows@.len()
                && rows@[final(self).actions_sel as int].enabled,
    {
        let mut activate = activate;
        match clicked {
            Some(i) => {
                self.actions_sel = i;
                activate = true;
            },
            None => {},
        }
        if activate && self.actions_sel < rows.len() && rows[self.actions_sel].enabled {
            Some(rows[self.actions_sel].action)
        } else {
            None
        }
    }
}

/// The actions among the first `n` that a non-blocking attempt got through.
pub open spec fn offered(pending: Seq<SessionAction>, got: Seq<bool>, n: nat) -> Seq<SessionAction>
    decreases n,
{
    if n == 0 {
        Seq::empty()
    } else if got[n - 1] {
        offered(pending, got, (n - 1) as nat).push(pending[n - 1])
    } else {
        offered(pending, got, (n - 1) as nat)
    }
}

/// The actions among the first `n` that it did not get through.
pub open spec fn refused(pending: Seq<SessionAction>, got: Seq<bool>, n: nat) -> Seq<SessionAction>
    decreases n,
{
    if n == 0 {
        Seq::empty()
    } else if got[n - 1] {
        refused(pending, got, (n - 1) as nat)
    } else {
        refused(pending, got, (n - 1) as nat).push(pending[n - 1])
    }
}

/// Hands the waiting actions to the game thread, in order. `got` says of each whether the non-blocking
/// attempt on the queue got hold of it; what did not get through stays for the next frame.
pub fn flush_pending(pending: &mut Vec<SessionAction>, queue: &mut ActionQueue, got: &Vec<bool>)
    requires
        got@.len() == old(pending)@.len(),
    ensures
        final(pending)@ == refused(old(pending)@, got@, got@.len()),
        final(queue)@ == pushed_all(
            old(queue)@,
            offered(old(pending)@, got@, got@.len()),
            CAP as nat,
        ),
{
    let ghost start = pending@;
    let ghost held = queue@;
    let mut kept: Vec<SessionAction> = Vec::new();
    let mut i: usize = 0;
    while i < pending.len()
        invariant
            i <= pending@.len(),
            pending@ == start,
            got@.len() == start.len(),
            kept@ == refused(start, got@, i as nat),
            queue@ == pushed_all(held, offered(start, got@, i as nat), CAP as nat),
        decreases pending@.len() - i,
    {
        let action = pending[i];
        let ghost sent = offered(start, got@, i as nat);
        if got[i] {
            let _ = actionq::try_offer(Some(queue), action);
            assert(sent.push(action).drop_last() =~= sent);
        } else {
            let accepted = actionq::try_offer(None, action);
            if !accepted {
                kept.push(action);
            }
        }
        i = i + 1;
    }
    *pending = kept;
}

/// Asks for an action: it joins those that wait, and all of them are handed over as far as they get
/// through.
pub fn request_action(
    pending: &mut Vec<SessionAction>,
    action: SessionAction,
    queue: &mut ActionQueue,
    got: &Vec<bool>,
)
    requires
        got@.len() == old(pending)@.len() + 1,
    ensures
        final(pending)@ == refused(old(pending)@.push(action), got@, got@.len()),
        final(queue)@ == pushed_all(
            old(queue)@,
            offered(old(pending)@.push(action), got@, got@.len()),
            CAP as nat,
        ),
{
    pending.push(action);
    flush_pending(pending, queue, got);
}

/// No action is lost on the way and none is doubled: each one was either handed over or still waits.
pub proof fn every_action_is_sent_or_waits(
    pending: Seq<SessionAction>,
    got: Seq<bool>,
    n: nat,
)
    requires
        n <= pending.len(),
        got.len() == pending.len(),
    ensures
        (offered(pending, got, n) + refused(pending, got, n)).to_multiset() =~= pending.take(
            n as int,
        ).to_multiset(),
    decreases n,
{
    broadcast use vstd::seq_lib::group_to_multiset_ensures;

    if n > 0 {
        let m = (n - 1) as nat;
        every_action_is_sent_or_waits(pending, got, m);
        let (o, r) = (offered(pending, got, m), refused(pending, got, m));
        let last = pending[n - 1];
        assert(pending.take(n as int) =~= pending.take(m as int).push(last));
        vstd::seq_lib::lemma_multiset_commutative(o, r);
        if got[n - 1] {
            vstd::seq_lib::lemma_multiset_commutative(o.push(last), r);
        } else {
            vstd::seq_lib::lemma_multiset_commutative(o, r.push(last));
        }
    } else {
        assert(offered(pending, got, 0) + refused(pending, got, 0) =~= pending.take(0));
    }
}

/// The longest mask.
pub const MASK_LEN: usize = 64;

/// What is shown of a secret.
pub open spec fn secret_shown(value: Seq<char>, revealed: bool) -> Seq<char> {
    if revealed {
        value
    } else {
        Seq::new(
            if value.len() < MASK_LEN {
                value.len()
            } else {
                MASK_LEN as nat
            },
            |i: int| '*',
        )
    }
}

/// What is shown of a secret: stars, unless it is revealed.
pub fn secret_text(value: &str, revealed: bool) -> (shown: String)
    ensures
        shown@ == secret_shown(value@, revealed),
{
    if revealed {
        return value.to_owned();
    }
    let len: usize = value.unicode_len();
    let count: usize = if len < MASK_LEN {
        len
    } else {
        MASK_LEN
    };
    let mut stars: Vec<char> = Vec::new();
    while stars.len() < count
        invariant
            stars@.len() <= count,
            forall|j: int| 0 <= j < stars@.len() ==> stars@[j] == '*',
        decreases count - stars@.len(),
    {
        stars.push('*');
    }
    let shown = text::from_chars(&stars);
    assert(shown@ =~= secret_shown(value@, revealed));
    shown
}

/// A secret that is not revealed shows nothing but stars, and two secrets of one length look the same.
pub proof fn masked_secret_shows_nothing(a: Seq<char>, b: Seq<char>)
    requires
        a.len() == b.len(),
    ensures
        secret_shown(a, false) == secret_shown(b, false),
        forall|i: int| 0 <= i < secret_shown(a, false).len() ==> secret_shown(a, false)[i] == '*',
{
    assert(secret_shown(a, false) =~= secret_shown(b, false));
}

/// The label of the button that reveals a secret or hides it again.
pub fn reveal_label(noun: &str, revealed: bool) -> (label: String)
    ensures
        label@ == (if revealed {
            "Hide"@
        } else {
            "Reveal"@
        }) + "###reveal-"@ + noun@,
{
    let mut out = (if revealed {
        "Hide"
    } else {
        "Reveal"
    }).to_owned();
    out.append("###reveal-");
    out.append(noun);
    out
}

/// What copying a secret does: the secret itself goes to the clipboard, whether it is shown or not.
#[derive(Debug)]
pub struct SecretCopy {
    pub text: String,
    pub toast: Toast,
}

/// Copies a secret.
pub fn copy_secret(noun: &str, value: &str) -> (copy: SecretCopy)
    ensures
        copy.text@ == value@,
        copy.toast@ == (ToastView {
            severity: Severity::Info,
            message: "Copied "@ + noun@ + " to clipboard"@,
        }),
{
    let mut message = "Copied ".to_owned();
    message.append(noun);
    message.append(" to clipboard");
    SecretCopy { text: value.to_owned(), toast: Toast { severity: Severity::Info, message } }
}

/// What the menu's rows depend on.
#[derive(Clone, Copy, Debug, PartialEq, Eq, Structural)]
pub struct SessionContext {
    pub in_session: bool,
    pub is_host: bool,
    pub steam_ready: bool,
    pub in_game: bool,
    pub world_locked: bool,
    pub pvp_on: bool,
    pub pvp_teams_on: bool,
    pub friendly_fire_on: bool,
}

/// What the menu's rows depend on; the host's switches are not known yet and read as off.
pub fn session_context(in_session: bool, is_host: bool, steam_ready: bool, in_game: bool) -> (ctx:
    SessionContext)
    ensures
        ctx == (SessionContext {
            in_session,
            is_host,
            steam_ready,
            in_game,
            world_locked: false,
            pvp_on: false,
            pvp_teams_on: false,
            friendly_fire_on: false,
        }),
{
    SessionContext {
        in_session,
        is_host,
        steam_ready,
        in_game,
        world_locked: false,
        pvp_on: false,
        pvp_teams_on: false,
        friendly_fire_on: false,
    }
}

/// The palette.
#[derive(Clone, Copy, Debug, PartialEq, Eq, Structural)]
pub enum Swatch {
    Blue,
    Amber,
    Red,
    Grey,
    Teal,
    DimGrey,
}

/// The colour of a notice.
pub fn severity_color(severity: Severity) -> (color: Swatch)
    ensures
        color == (match severity {
            Severity::Info => Swatch::Blue,
            Severity::Warning => Swatch::Amber,
            Severity::Error => Swatch::Red,
        }),
{
    match severity {
        Severity::Info => Swatch::Blue,
        Severity::Warning => Swatch::Amber,
        Severity::Error => Swatch::Red,
    }
}

/// The colour of a log line.
pub fn level_color(level: Level) -> (color: Swatch)
    ensures
        color == (match level {
            Level::Error => Swatch::Red,
            Level::Warn => Swatch::Amber,
            Level::Info => Swatch::Grey,
            Level::Debug => Swatch::Teal,
            Level::Trace => Swatch::DimGrey,
        }),
{
    match level {
        Level::Error => Swatch::Red,
        Level::Warn => Swatch::Amber,
        Level::Info => Swatch::Grey,
        Level::Debug => Swatch::Teal,
        Level::Trace => Swatch::DimGrey,
    }
}

/// Where a pane is scrolled to: two lines up or down, within its bounds.
pub open spec fn scrolled(at: int, max: int, line: int, down: bool) -> int {
    if down {
        if at + 2 * line > max {
            max
        } else {
            at + 2 * line
        }
    } else if at < 2 * line {
        0
    } else if at - 2 * line > max {
        max
    } else {
        at - 2 * line
    }
}

/// Where a pane is scrolled to; nowhere without a key, or with both at once.
pub fn scroll_pane(at: u64, max: u64, line: u64, down: bool, up: bool) -> (target: Option<u64>)
    requires
        at + 2 * line <= u64::MAX,
    ensures
        target is Some == (down != up),
        target is Some ==> target->0 == scrolled(at as int, max as int, line as int, down),
{
    if down == up {
        return None;
    }
    let step: u64 = 2 * line;
    let raw: u64 = if down {
        at + step
    } else if at < step {
        0
    } else {
        at - step
    };
    Some(
        if raw > max {
            max
        } else {
            raw
        },
    )
}

/// Scrolling never leaves the pane.
pub proof fn scrolling_stays_in_the_pane(at: int, max: int, line: int, down: bool)
    requires
        0 <= at,
        0 <= max,
        0 <= line,
    ensures
        0 <= scrolled(at, max, line, down) <= max,
{
}

/// A drag of the window that can end at its home.
#[derive(Clone, Copy, Debug, PartialEq, Eq, Structural)]
pub struct HomeSnap {
    pub dragging: bool,
    /// Put the window back home in the next frame.
    pub snap: bool,
}

/// What the mouse does this frame.
#[derive(Clone, Copy, Debug, PartialEq, Eq, Structural)]
pub struct Drag {
    pub mouse_down: bool,
    pub released: bool,
    /// The window moved since the last frame.
    pub moved: bool,
    /// The mouse is over the window's home.
    pub in_home: bool,
}

impl HomeSnap {
    /// Whether a drag is under way, counting this frame.
    pub open spec fn is_dragging(self, d: Drag) -> bool {
        self.dragging || (d.mouse_down && d.moved)
    }

    /// One frame: a window that moves under the held button is being dragged until the button goes up;
    /// letting go over the home asks for it to be put back there. Whether the home is to be outlined.
    pub fn on_frame(&mut self, d: Drag) -> (outline: bool)
        ensures
            outline == (old(self).is_dragging(d) && d.mouse_down && d.in_home),
            final(self).snap == (old(self).snap || (old(self).is_dragging(d) && d.released
                && d.in_home)),
            final(self).dragging == (old(self).is_dragging(d) && d.mouse_down),
            !d.mouse_down ==> !final(self).dragging && !outline,
            old(self).dragging && d.released && d.in_home ==> final(self).snap,
            !d.in_home ==> final(self).snap == old(self).snap && !outline,
    {
        if d.mouse_down && d.moved {
            self.dragging = true;
        }
        let outline = self.dragging && d.mouse_down && d.in_home;
        if self.dragging && d.released && d.in_home {
            self.snap = true;
        }
        if !d.mouse_down {
            self.dragging = false;
        }
        outline
    }

    /// Takes the wish to be put back, once.
    pub fn take_snap(&mut self) -> (snap: bool)
        ensures
            snap == old(self).snap,
            *final(self) == (HomeSnap { snap: false, ..*old(self) }),
    {
        let snap = self.snap;
        self.snap = false;
        snap
    }
}

/// A position brought into the screen along one axis.
pub open spec fn kept_inside(pos: int, size: int, screen: int) -> int {
    let far = if screen - size > 0 {
        screen - size
    } else {
        0
    };
    if pos < 0 {
        0
    } else if pos > far {
        far
    } else {
        pos
    }
}

/// Where the window is put back to if it left the screen; nowhere while it is being dragged.
pub fn clamp_into_viewport(pos: (i64, i64), size: (u32, u32), screen: (u32, u32), mouse_down: bool) -> (
    back: Option<(i64, i64)>)
    ensures
        ({
            let x = kept_inside(pos.0 as int, size.0 as int, screen.0 as int);
            let y = kept_inside(pos.1 as int, size.1 as int, screen.1 as int);
            &&& back is Some == (!mouse_down && (x != pos.0 || y != pos.1))
            &&& back matches Some(b) ==> b.0 == x && b.1 == y
        }),
{
    let far_x: i64 = if screen.0 > size.0 {
        (screen.0 - size.0) as i64
    } else {
        0
    };
    let far_y: i64 = if screen.1 > size.1 {
        (screen.1 - size.1) as i64
    } else {
        0
    };
    let x: i64 = if pos.0 < 0 {
        0
    } else if pos.0 > far_x {
        far_x
    } else {
        pos.0
    };
    let y: i64 = if pos.1 < 0 {
        0
    } else if pos.1 > far_y {
        far_y
    } else {
        pos.1
    };
    if mouse_down || (x == pos.0 && y == pos.1) {
        None
    } else {
        Some((x, y))
    }
}

/// The window's title; what follows the hashes is its identity and is not shown.
pub fn window_title(version: &str) -> (title: String)
    ensures
        title@ == "unseamless-coop  v"@ + version@ + "###unseamless-coop"@,
{
    let mut out = "unseamless-coop  v".to_owned();
    out.append(version);
    out.append("###unseamless-coop");
    out
}

pub const OPEN_HINT: &'static str = "Press ` or RB+L3+R3 to open the menu";

/// The lines of the stamp: the version, the build where one is told, and how to open the menu.
pub fn watermark(version: &str, build: Option<&str>) -> (lines: Vec<String>)
    ensures
        texts(lines@) == (match build {
            Some(b) => seq!["unseamless-coop  v"@ + version@, "build "@ + b@, OPEN_HINT@],
            None => seq!["unseamless-coop  v"@ + version@, OPEN_HINT@],
        }),
{
    let mut lines: Vec<String> = Vec::new();
    let mut first = "unseamless-coop  v".to_owned();
    first.append(version);
    lines.push(first);
    match build {
        Some(b) => {
            let mut line = "build ".to_owned();
            line.append(b);
            lines.push(line);
        },
        None => {},
    }
    lines.push(OPEN_HINT.to_owned());
    assert(texts(lines@) =~= (match build {
        Some(b) => seq!["unseamless-coop  v"@ + version@, "build "@ + b@, OPEN_HINT@],
        None => seq!["unseamless-coop  v"@ + version@, OPEN_HINT@],
    }));
    lines
}

/// The note that the tester writes to a question of the guide, and the question it belongs to.
#[derive(Debug)]
pub struct ChoiceNote {
    pub note: String,
    pub step: Option<String>,
}

impl ChoiceNote {
    /// Whether the note belongs to this question.
    pub open spec fn belongs_to(self, step: Seq<char>) -> bool {
        self.step matches Some(s) && s@ == step
    }

    /// Follows what the guide shows: a note never carries over from one question to another, and no
    /// question owns it while none is up.
    pub fn follow(&mut self, view: &Option<RigView>)
        ensures
            match view {
                Some(RigView::Choice(choice)) => final(self).belongs_to(choice.step_id@)
                    && final(self).note@ == (if old(self).belongs_to(choice.step_id@) {
                    old(self).note@
                } else {
                    Seq::<char>::empty()
                }),
                _ => final(self).step is None && final(self).note == old(self).note,
            },
    {
        match view {
            Some(RigView::Choice(choice)) => {
                let same = match &self.step {
                    Some(s) => text::same_text(s.as_str(), choice.step_id.as_str()),
                    None => false,
                };
                if !same {
                    self.step = Some(choice.step_id.clone());
                    self.note = String::new();
                    assert(self.note@ =~= Seq::<char>::empty());
                }
            },
            _ => {
                self.step = None;
            },
        }
    }
}

/// Whether a question is up.
pub fn is_choice(view: &Option<RigView>) -> (yes: bool)
    ensures
        yes == (view matches Some(v) && v is Choice),
{
    match view {
        Some(RigView::Choice(_)) => true,
        _ => false,
    }
}

/// An answer to choose from, with the mark of the selected one.
pub open spec fn option_line(label: Seq<char>, selected: bool) -> Seq<char> {
    (if selected {
        "> "@
    } else {
        "  "@
    }) + label
}

/// The answers to a question, in order.
pub open spec fn option_lines(choice: ChoiceView) -> Seq<Seq<char>> {
    Seq::new(
        choice.options@.len(),
        |i: int| option_line(choice.options@[i]@, i == choice.selected),
    )
}

/// The answers to a question.
pub fn choice_options(choice: &ChoiceView) -> (lines: Vec<String>)
    ensures
        texts(lines@) == option_lines(*choice),
{
    let mut lines: Vec<String> = Vec::new();
    let ghost all = option_lines(*choice);
    let mut i: usize = 0;
    assert(texts(lines@) =~= all.take(0));
    while i < choice.options.len()
        invariant
            i <= choice.options@.len(),
            all == option_lines(*choice),
            texts(lines@) == all.take(i as int),
        decreases choice.options@.len() - i,
    {
        let ghost before = texts(lines@);
        let mut line = (if i == choice.selected {
            "> "
        } else {
            "  "
        }).to_owned();
        line.append(choice.options[i].as_str());
        let ghost chars = line@;
        lines.push(line);
        assert(texts(lines@) =~= before.push(chars));
        i = i + 1;
        assert(all.take(i as int) =~= before.push(all[i - 1]));
    }
    assert(all.take(i as int) =~= all);
    lines
}

/// The hint under a question.
pub fn choice_hint(choice: &ChoiceView) -> (hint: String)
    ensures
        hint@ == "d-pad/arrows: choose | A/Enter: confirm | "@ + choice.skip_hint@ + ": skip"@,
{
    let mut out = "d-pad/arrows: choose | A/Enter: confirm | ".to_owned();
    out.append(choice.skip_hint.as_str());
    out.append(": skip");
    out
}

/// The moves that drive a question.
#[derive(Clone, Copy, Debug, PartialEq, Eq, Structural)]
pub struct ModalInput {
    pub up: bool,
    pub down: bool,
    pub confirm: bool,
}

/// The moves of a frame: the controller's always, the keyboard's only while it does not write the note.
pub fn modal_input(pad: ModalInput, keys: ModalInput, typing: bool) -> (input: ModalInput)
    ensures
        input == (ModalInput {
            up: pad.up || (!typing && keys.up),
            down: pad.down || (!typing && keys.down),
            confirm: pad.confirm || (!typing && keys.confirm),
        }),
        typing ==> input == pad,
        pad.up || (keys.up && !typing) ==> input.up,
        pad.down || (keys.down && !typing) ==> input.down,
        pad.confirm || (keys.confirm && !typing) ==> input.confirm,
{
    let kb = !typing;
    ModalInput {
        up: pad.up || (kb && keys.up),
        down: pad.down || (kb && keys.down),
        confirm: pad.confirm || (kb && keys.confirm),
    }
}

/// What the export of the diagnostics comes to.
#[derive(Debug)]
pub struct Exported {
    pub line: LogLine,
    pub toast: Toast,
}

/// What is said of an export; `error` is why it failed, if it did.
pub fn exported(path: &str, error: Option<&str>) -> (out: Exported)
    ensures
        match error {
            None => out.line@ == (LogLineView {
                level: Level::Info,
                text: "exported diagnostics bundle to "@ + path@,
            }) && out.toast@ == (ToastView {
                severity: Severity::Info,
                message: "Diagnostics saved to "@ + path@,
            }),
            Some(e) => out.line@ == (LogLineView {
                level: Level::Error,
                text: "failed to export diagnostics to "@ + path@ + ": "@ + e@,
            }) && out.toast@ == (ToastView {
                severity: Severity::Error,
                message: "Couldn't save diagnostics: "@ + e@,
            }),
        },
{
    match error {
        None => {
            let mut line = "exported diagnostics bundle to ".to_owned();
            line.append(path);
            let mut message = "Diagnostics saved to ".to_owned();
            message.append(path);
            Exported {
                line: LogLine { level: Level::Info, text: line },
                toast: Toast { severity: Severity::Info, message },
            }
        },
        Some(e) => {
            let mut line = "failed to export diagnostics to ".to_owned();
            line.append(path);
            line.append(": ");
            line.append(e);
            let mut message = "Couldn't save diagnostics: ".to_owned();
            message.append(e);
            Exported {
                line: LogLine { level: Level::Error, text: line },
                toast: Toast { severity: Severity::Error, message },
            }
        },
    }
}

pub const NO_MODULE: &'static str = "overlay: no module handle; skipping hook install";

pub const HOOKED: &'static str = "overlay: DX12 present-hook installed; waiting for the swapchain";

/// Whether the overlay can be installed at all: it needs the handle of its own module.
pub fn install(module: u64) -> (refused: Option<LogLine>)
    ensures
        refused is Some == (module == 0),
        refused is Some ==> refused->0@ == (LogLineView { level: Level::Error, text: NO_MODULE@ }),
{
    if module == 0 {
        Some(LogLine { level: Level::Error, text: NO_MODULE.to_owned() })
    } else {
        None
    }
}

/// The line on the installation; `error` is why it failed, if it did.
pub fn installed_line(error: Option<&str>) -> (line: LogLine)
    ensures
        line@ == (match error {
            None => LogLineView { level: Level::Info, text: HOOKED@ },
            Some(e) => LogLineView {
                level: Level::Error,
                text: "overlay: hook install failed ("@ + e@ + "); no overlay this session"@,
            },
        }),
{
    match error {
        None => LogLine { level: Level::Info, text: HOOKED.to_owned() },
        Some(e) => {
            let mut out = "overlay: hook install failed (".to_owned();
            out.append(e);
            out.append("); no overlay this session");
            LogLine { level: Level::Error, text: out }
        },
    }
}

/// The place of a number among all numbers, told from its bit pattern: numbers with the sign bit set
/// come first, the larger patterns before the smaller ones.
pub open spec fn rank(bits: u32) -> u32 {
    if bits >= 0x8000_0000u32 {
        (0xffff_ffff - bits) as u32
    } else {
        (bits + 0x8000_0000) as u32
    }
}

fn rank_of(bits: u32) -> (r: u32)
    ensures
        r == rank(bits),
{
    if bits >= 0x8000_0000 {
        0xffff_ffff - bits
    } else {
        bits + 0x8000_0000
    }
}

/// Whether one label is painted before another: the farther one, and of two at one distance the one
/// that came first.
pub open spec fn paints_before(depths: Seq<u32>, a: usize, b: usize) -> bool {
    rank(depths[a as int]) > rank(depths[b as int]) || (rank(depths[a as int]) == rank(
        depths[b as int],
    ) && a < b)
}

/// The order names every one of the first `n` labels once, each before those painted after it.
pub open spec fn is_order(depths: Seq<u32>, order: Seq<usize>, n: nat) -> bool {
    &&& order.len() == n
    &&& forall|i: int| 0 <= i < n ==> #[trigger] order[i] < n
    &&& forall|k: usize| k < n ==> #[trigger] order.contains(k)
    &&& forall|i: int, j: int|
        0 <= i < j < n ==> paints_before(depths, #[trigger] order[i], #[trigger] order[j])
}

/// The order in which labels are painted: farthest first, so that a nearer one lies on top. Depths are
/// given as the bit patterns of their numbers.
pub fn paint_order(depths: &Vec<u32>) -> (order: Vec<usize>)
    ensures
        is_order(depths@, order@, depths@.len()),
{
    let mut order: Vec<usize> = Vec::new();
    let mut n: usize = 0;
    while n < depths.len()
        invariant
            n <= depths@.len(),
            is_order(depths@, order@, n as nat),
        decreases depths@.len() - n,
    {
        let mine: u32 = rank_of(depths[n]);
        let mut at: usize = order.len();
        while at > 0 && rank_of(depths[order[at - 1]]) < mine
            invariant
                n < depths@.len(),
                at <= order@.len(),
                is_order(depths@, order@, n as nat),
                mine == rank(depths@[n as int]),
                forall|i: int|
                    at <= i < order@.len() ==> rank(depths@[#[trigger] order@[i] as int]) < mine,
            decreases at,
        {
            at = at - 1;
        }
        let ghost before = order@;
        order.insert(at, n);
        proof {
            assert(order@ == before.insert(at as int, n));
            assert forall|k: usize| k < n + 1 implies #[trigger] order@.contains(k) by {
                if k == n {
                    assert(order@[at as int] == n);
                } else {
                    assert(before.contains(k));
                    let i = choose|i: int| 0 <= i < before.len() && before[i] == k;
                    if i < at {
                        assert(order@[i] == k);
                    } else {
                        assert(order@[i + 1] == k);
                    }
                }
            }
            assert forall|i: int, j: int| 0 <= i < j < n + 1 implies paints_before(
                depths@,
                #[trigger] order@[i],
                #[trigger] order@[j],
            ) by {
                let oi = if i < at {
                    before[i]
                } else if i == at {
                    n
                } else {
                    before[i - 1]
                };
                let oj = if j < at {
                    before[j]
                } else if j == at {
                    n
                } else {
                    before[j - 1]
                };
                assert(order@[i] == oi && order@[j] == oj);
                if i < at && j == at {
                    if i < at - 1 {
                        assert(paints_before(depths@, before[i], before[at - 1]));
                    }
                }
            }
        }
        n = n + 1;
    }
    order
}

/// Every label is painted, and none is painted twice.
pub proof fn each_label_is_painted_once(depths: Seq<u32>, order: Seq<usize>, n: nat)
    requires
        is_order(depths, order, n),
    ensures
        order.no_duplicates(),
        forall|k: usize| k < n ==> #[trigger] order.contains(k),
{
}

/// The toggle opens the menu and closes it again, cancelling closes it, and without either it stays as it is.
pub proof fn the_toggle_opens_and_closes(menu: Menu, input: FrameInput)
    ensures
        input.cancel ==> !menu.opened(input),
        !input.cancel && input.toggle ==> menu.opened(input) == !menu.open,
        !input.cancel && !input.toggle ==> menu.opened(input) == menu.open,
        menu.after_keys(input).open == menu.opened(input),
        menu.after_keys(input).tab == menu.tab,
        menu.after_keys(input).show_debug == menu.show_debug,
        menu.after_keys(input).disabled == menu.disabled,
        menu.after_keys(input).password_revealed == menu.password_revealed,
        menu.after_keys(input).debug_sel == menu.debug_sel,
        menu.after_keys(input).choice_active == input.choice_active,
        input.toggle && !menu.open ==> menu.after_keys(input).actions_sel == 0,
        !input.toggle || menu.open ==> menu.after_keys(input).actions_sel == menu.actions_sel,
{
}

/// What a frame shows: the window while the menu is open and no choice is up, the summary and the details that
/// were asked for, and the watermark only outside of play and without the summary.
pub proof fn a_frame_shows_what_is_open(menu: Menu, input: FrameInput, i: int)
    ensures
        menu.plan(input).window == (menu.after_keys(input).open && !input.choice_active),
        menu.plan(input).summary == menu.show_debug,
        0 <= i < 3 && menu.details@[i] ==> menu.plan(input).detail && menu.wants_report(),
        menu.show_debug ==> menu.wants_report(),
        menu.plan(input).detail ==> menu.details@[0] || menu.details@[1] || menu.details@[2],
        menu.wants_report() ==> menu.plan(input).summary || menu.plan(input).detail,
        input.in_gameplay ==> !menu.plan(input).watermark,
        menu.show_debug ==> !menu.plan(input).watermark,
        !input.in_gameplay && !menu.show_debug ==> menu.plan(input).watermark,
{
}

/// Right goes to the next tab and from the last to the first, left goes back, and neither stays.
pub proof fn tabs_go_round(menu: Menu)
    requires
        menu.tab < 4,
    ensures
        menu.tab < 3 ==> menu.tab_after(true, false) == menu.tab + 1,
        menu.tab == 3 ==> menu.tab_after(true, false) == 0,
        menu.tab > 0 ==> menu.tab_after(false, true) == menu.tab - 1,
        menu.tab == 0 ==> menu.tab_after(false, true) == 3,
        menu.tab_after(false, false) == menu.tab,
{
}

/// Only an overlay that is up takes the player's input.
pub proof fn input_is_taken_only_while_something_is_up(menu: Menu)
    ensures
        menu.disabled ==> !menu.swallows(),
        !menu.disabled && menu.open ==> menu.swallows(),
        !menu.disabled && menu.choice_active ==> menu.swallows(),
        !menu.open && !menu.choice_active ==> !menu.swallows(),
        menu.given_up().disabled,
        !menu.given_up().open,
        menu.given_up().tab == menu.tab,
        menu.given_up().show_debug == menu.show_debug,
{
}

/// Activating a row of the debug tab flips what the row stands for and nothing else, and doing it twice undoes it;
/// the row that exports flips nothing.
pub proof fn a_debug_row_flips_its_own_switch(menu: Menu, i: int)
    requires
        menu.debug_sel < 5,
        0 <= i < 3,
    ensures
        menu.debug_sel == 0 ==> menu.debug_activated().show_debug == !menu.show_debug,
        menu.debug_sel != 0 ==> menu.debug_activated().show_debug == menu.show_debug,
        menu.debug_sel == i + 1 ==> menu.debug_activated().details@[i] == !menu.details@[i],
        menu.debug_sel != i + 1 ==> menu.debug_activated().details@[i] == menu.details@[i],
        menu.debug_sel == 4 ==> menu.debug_activated() == menu,
        menu.debug_activated().debug_sel == menu.debug_sel,
        menu.debug_activated().open == menu.open,
        menu.debug_activated().debug_activated().show_debug == menu.show_debug,
        menu.debug_activated().debug_activated().details@[i] == menu.details@[i],
{
}

/// What the game thread took is handed over and no longer waits; what it did not take waits and is not handed over.
pub proof fn what_was_taken_is_handed_over(pending: Seq<SessionAction>, got: Seq<bool>, n: nat)
    requires
        n <= pending.len(),
        got.len() == pending.len(),
    ensures
        offered(pending, got, n).len() + refused(pending, got, n).len() == n,
        (forall|i: int| 0 <= i < n ==> #[trigger] got[i]) ==> offered(pending, got, n)
            == pending.take(n as int),
        (forall|i: int| 0 <= i < n ==> !#[trigger] got[i]) ==> refused(pending, got, n)
            == pending.take(n as int),
        forall|i: int|
            0 <= i < n && #[trigger] got[i] ==> offered(pending, got, n).contains(pending[i]),
        forall|i: int|
            0 <= i < n && !#[trigger] got[i] ==> refused(pending, got, n).contains(pending[i]),
    decreases n,
{
    if n > 0 {
        what_was_taken_is_handed_over(pending, got, (n - 1) as nat);
        let sent = offered(pending, got, (n - 1) as nat);
        let kept = refused(pending, got, (n - 1) as nat);
        assert forall|i: int| 0 <= i < n && #[trigger] got[i] implies offered(
            pending,
            got,
            n,
        ).contains(pending[i]) by {
            if i < n - 1 {
                let j = choose|j: int| 0 <= j < sent.len() && sent[j] == pending[i];
                assert(offered(pending, got, n)[j] == pending[i]);
            } else {
                assert(offered(pending, got, n)[sent.len() as int] == pending[i]);
            }
        }
        assert forall|i: int| 0 <= i < n && !#[trigger] got[i] implies refused(
            pending,
            got,
            n,
        ).contains(pending[i]) by {
            if i < n - 1 {
                let j = choose|j: int| 0 <= j < kept.len() && kept[j] == pending[i];
                assert(refused(pending, got, n)[j] == pending[i]);
            } else {
                assert(refused(pending, got, n)[kept.len() as int] == pending[i]);
            }
        }
        if forall|i: int| 0 <= i < n ==> #[trigger] got[i] {
            assert(got[n - 1]);
            assert(offered(pending, got, n) =~= pending.take(n as int));
        }
        if forall|i: int| 0 <= i < n ==> !#[trigger] got[i] {
            assert(!got[n - 1]);
            assert(refused(pending, got, n) =~= pending.take(n as int));
        }
    } else {
        assert(offered(pending, got, n) =~= pending.take(0));
        assert(refused(pending, got, n) =~= pending.take(0));
    }
}

/// A secret that is revealed is shown as it is; a masked one shows as many stars as it has characters, up to the
/// longest mask.
pub proof fn a_revealed_secret_is_shown(value: Seq<char>)
    ensures
        secret_shown(value, true) == value,
        value.len() <= 64 ==> secret_shown(value, false).len() == value.len(),
        value.len() > 64 ==> secret_shown(value, false).len() == 64,
{
}

/// A pane scrolls by two lines where there is room, up undoes down, and it stops at either end.
pub proof fn scrolling_goes_two_lines(at: int, max: int, line: int)
    requires
        0 <= at <= max,
        0 <= line,
    ensures
        at + 2 * line <= max ==> scrolled(at, max, line, true) == at + 2 * line && scrolled(
            scrolled(at, max, line, true),
            max,
            line,
            false,
        ) == at,
        at + 2 * line > max ==> scrolled(at, max, line, true) == max,
        at - 2 * line >= 0 ==> scrolled(at, max, line, false) == at - 2 * line,
        at - 2 * line < 0 ==> scrolled(at, max, line, false) == 0,
{
}

/// A window goes on being dragged while it was, and starts being dragged exactly by moving it with the button held.
pub proof fn dragging_starts_by_moving(snap: HomeSnap, d: Drag)
    ensures
        snap.dragging ==> snap.is_dragging(d),
        !snap.dragging ==> snap.is_dragging(d) == (d.mouse_down && d.moved),
{
}

/// A window is moved no more than it takes to have it on the screen: not at all where it is there already, as a
/// whole where it fits, and to the near border where it does not.
pub proof fn a_window_is_kept_on_the_screen(pos: int, size: int, screen: int)
    requires
        size >= 0,
        screen >= 0,
    ensures
        kept_inside(pos, size, screen) >= 0,
        size <= screen ==> kept_inside(pos, size, screen) + size <= screen,
        0 <= pos && pos + size <= screen ==> kept_inside(pos, size, screen) == pos,
        size > screen ==> kept_inside(pos, size, screen) == 0,
        size <= screen && pos + size > screen ==> kept_inside(pos, size, screen) + size == screen,
        pos < 0 ==> kept_inside(pos, size, screen) == 0,
        kept_inside(kept_inside(pos, size, screen), size, screen) == kept_inside(
            pos,
            size,
            screen,
        ),
{
}

/// Depths are ranked as the numbers they stand for: of two without a sign the larger bits are farther, of two with
/// one the smaller, and one with a sign is nearer than one without.
pub proof fn depths_are_ranked_as_numbers(a: u32, b: u32)
    ensures
        a < b < 0x8000_0000u32 ==> rank(a) < rank(b),
        0x8000_0000u32 <= a < b ==> rank(a) > rank(b),
        a < 0x8000_0000u32 <= b ==> rank(a) > rank(b),
        a != b ==> rank(a) != rank(b),
{
}

/// What is farther is painted first, so that what is nearer covers it; of two as far the first stays first.
pub proof fn the_farther_is_painted_first(depths: Seq<u32>, a: usize, b: usize)
    requires
        a < depths.len(),
        b < depths.len(),
    ensures
        rank(depths[a as int]) > rank(depths[b as int]) ==> paints_before(depths, a, b)
            && !paints_before(depths, b, a),
        depths[a as int] == depths[b as int] && a < b ==> paints_before(depths, a, b)
            && !paints_before(depths, b, a),
        a != b ==> paints_before(depths, a, b) || paints_before(depths, b, a),
        !paints_before(depths, a, a),
{
}

/// In the order of painting nothing nearer goes before anything farther.
pub proof fn nothing_nearer_goes_before(
    depths: Seq<u32>,
    order: Seq<usize>,
    n: nat,
    i: int,
    j: int,
)
    requires
        is_order(depths, order, n),
        0 <= i < j < n,
        n <= depths.len(),
    ensures
        order.len() == n,
        order[i] < n,
        rank(depths[order[i] as int]) >= rank(depths[order[j] as int]),
        depths[order[i] as int] == depths[order[j] as int] ==> order[i] < order[j],
{
    assert(paints_before(depths, order[i], order[j]));
}

/// Every option of a choice has its line, and exactly the selected one is marked.
pub proof fn the_selected_option_is_marked(choice: ChoiceView, i: int)
    requires
        0 <= i < choice.options@.len(),
    ensures
        option_lines(choice).len() == choice.options@.len(),
        i == choice.selected ==> option_lines(choice)[i] == "> "@ + choice.options@[i]@,
        i != choice.selected ==> option_lines(choice)[i] == "  "@ + choice.options@[i]@,
{
}

/// A note belongs to the step it was begun at and to no other.
pub proof fn a_note_belongs_to_one_step(note: ChoiceNote, a: Seq<char>, b: Seq<char>)
    ensures
        note.belongs_to(a) && note.belongs_to(b) ==> a == b,
        note.step is None ==> !note.belongs_to(a),
        note.step matches Some(s) ==> note.belongs_to(s@),
{
}

/// Each row of the debug tab tells its own switch: the panel, a category, or the export.
pub proof fn debug_rows_tell_their_switches(menu: Menu, i: int)
    requires
        0 <= i < 3,
    ensures
        on_off(true) == "on"@,
        on_off(false) == "off"@,
        debug_row(menu, 0) == "Debug panel: "@ + on_off(menu.show_debug) + "###debug-panel-toggle"@,
        debug_row(menu, i + 1) == category(i).label_chars() + ": "@ + on_off(menu.details@[i])
            + "###debug-detail-"@ + dec(i as nat),
        debug_row(menu, 4) == "Export diagnostics###export-diag"@,
{
}

/// What the cache shows is the report it holds, and nothing before it holds one.
pub proof fn the_cache_shows_its_report(cache: ReportCache)
    ensures
        cache.report is None ==> cache.shown() is None,
        cache.report matches Some(r) ==> cache.shown() == Some(r@),
{
}

} // verus!
