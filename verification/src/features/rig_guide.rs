//! The guide that leads a tester through a run: which guide is followed, which controller chords drive
//! it, and what is logged, shown and recorded after each of its ticks.

use vstd::prelude::*;

use crate::guide_log;
use crate::guide_log::GuideQueue;
use crate::levels;
use crate::levels::{lines_view, Level, LogLine, LogLineView};
use crate::notify::{Severity, Toast, ToastView};
use crate::text;
use crate::text::{dec, texts, trimmed};

verus! {

/// The left stick pressed.
pub const LEFT_THUMB: u16 = 0x0040;

pub const DPAD_UP: u16 = 0x0001;

pub const DPAD_DOWN: u16 = 0x0002;

/// What is held to say that a step is done: the left stick and up.
pub const DONE_CHORD: u16 = 0x0041;

/// What is pressed to skip a step: the left stick and down.
pub const SKIP_CHORD: u16 = 0x0042;

pub const DONE_HINT: &'static str = "L3 + Up";

pub const SKIP_HINT: &'static str = "L3 + Down";

/// Whether the chords are held.
#[derive(Clone, Copy, Debug, PartialEq, Eq, Structural)]
pub struct Chords {
    pub done: bool,
    pub skip: bool,
}

/// Reads the chords off the buttons: a chord is held when all of its buttons are, whatever else is.
pub fn chords(buttons: u16) -> (held: Chords)
    ensures
        held.done == (buttons & DONE_CHORD == DONE_CHORD),
        held.skip == (buttons & SKIP_CHORD == SKIP_CHORD),
{
    Chords { done: buttons & DONE_CHORD == DONE_CHORD, skip: buttons & SKIP_CHORD == SKIP_CHORD }
}

/// A chord is held exactly when both of its buttons are.
pub proof fn chord_needs_both_buttons(buttons: u16)
    ensures
        (buttons & DONE_CHORD == DONE_CHORD) == (buttons & LEFT_THUMB != 0 && buttons & DPAD_UP
            != 0),
        (buttons & SKIP_CHORD == SKIP_CHORD) == (buttons & LEFT_THUMB != 0 && buttons & DPAD_DOWN
            != 0),
{
    assert((buttons & 0x0041u16 == 0x0041u16) == (buttons & 0x0040u16 != 0 && buttons & 0x0001u16
        != 0)) by (bit_vector);
    assert((buttons & 0x0042u16 == 0x0042u16) == (buttons & 0x0040u16 != 0 && buttons & 0x0002u16
        != 0)) by (bit_vector);
}

/// What is known of the guide that is configured.
#[derive(Debug)]
pub struct GuideInfo {
    pub name: String,
    pub steps: u64,
}

/// Whether a guide is followed.
#[derive(Debug)]
pub enum GuideChoice {
    /// None is configured.
    Off,
    /// This one is.
    Run(LogLine),
    /// One is configured that there is not.
    Unknown(LogLine),
}

/// Whether the configured guide is followed. `found` is what was found under its name, which is read
/// without the blanks around it; `role` and `names` are the tester's role and the known guides in words.
pub fn feature(configured: &str, found: Option<&GuideInfo>, role: &str, names: &str) -> (choice:
    GuideChoice)
    ensures
        ({
            let name = trimmed(configured@);
            if name.len() == 0 {
                choice is Off
            } else {
                match found {
                    Some(g) => choice matches GuideChoice::Run(line) && line@ == (LogLineView {
                        level: Level::Info,
                        text: "rig-guide: running '"@ + g.name@ + "' as role "@ + role@ + " ("@
                            + dec(g.steps as nat) + " steps); done = "@ + DONE_HINT@ + ", skip = "@
                            + SKIP_HINT@,
                    }),
                    None => choice matches GuideChoice::Unknown(line) && line@ == (LogLineView {
                        level: Level::Warn,
                        text: "rig-guide: no guide named '"@ + name + "' (available: "@ + names@
                            + "); guide off"@,
                    }),
                }
            }
        }),
{
    let name = text::trim(configured);
    if name.as_str().unicode_len() == 0 {
        return GuideChoice::Off;
    }
    match found {
        Some(g) => {
            let mut out = "rig-guide: running '".to_owned();
            out.append(g.name.as_str());
            out.append("' as role ");
            out.append(role);
            out.append(" (");
            out.append(text::dec_text(g.steps).as_str());
            out.append(" steps); done = ");
            out.append(DONE_HINT);
            out.append(", skip = ");
            out.append(SKIP_HINT);
            GuideChoice::Run(LogLine { level: Level::Info, text: out })
        },
        None => {
            let mut out = "rig-guide: no guide named '".to_owned();
            out.append(name.as_str());
            out.append("' (available: ");
            out.append(names);
            out.append("); guide off");
            GuideChoice::Unknown(LogLine { level: Level::Warn, text: out })
        },
    }
}

/// The pinned instruction of a step. The colour is carried as the bit patterns of its parts.
#[derive(Debug)]
pub struct RigBanner {
    pub text: String,
    pub color: (u32, u32, u32),
}

/// A question to the tester.
#[derive(Debug)]
pub struct ChoiceView {
    pub step_id: String,
    pub prompt: String,
    pub options: Vec<String>,
    pub selected: usize,
    pub note_enabled: bool,
    pub skip_hint: String,
    pub color: (u32, u32, u32),
}

/// What the overlay shows of the guide.
#[derive(Debug)]
pub enum RigView {
    Banner(RigBanner),
    Choice(ChoiceView),
}

/// The tester's answer.
#[derive(Debug)]
pub struct ChoiceMade {
    pub step_id: String,
    pub label: String,
    pub note: String,
}

/// What a tick of the guide came to.
#[derive(Debug)]
pub struct GuideTick {
    pub banner: Option<String>,
    pub choice: Option<ChoiceView>,
    pub color: (u32, u32, u32),
    pub finished_now: bool,
    pub choice_made: Option<ChoiceMade>,
}

/// What follows from a tick.
#[derive(Debug)]
pub struct RigStep {
    pub lines: Vec<LogLine>,
    pub view: Option<RigView>,
    pub toast: Option<Toast>,
}

/// The line on the tester's answer; a note is quoted.
pub open spec fn answer_line(made: ChoiceMade) -> LogLineView {
    LogLineView {
        level: Level::Info,
        text: if made.note@.len() == 0 {
            "rig-guide: '"@ + made.step_id@ + "' -> '"@ + made.label@ + "'"@
        } else {
            "rig-guide: '"@ + made.step_id@ + "' -> '"@ + made.label@ + "' note = \""@ + made.note@
                + "\""@
        },
    }
}

pub const COMPLETE: &'static str = "rig-guide: guide complete";

pub const DONE_TOAST: &'static str = "Rig guide complete. Testing done.";

/// The lines of a tick: the answer, then the end.
pub open spec fn tick_lines(tick: GuideTick) -> Seq<LogLineView> {
    let answer = match tick.choice_made {
        Some(made) => seq![answer_line(made)],
        None => Seq::empty(),
    };
    if tick.finished_now {
        answer.push(LogLineView { level: Level::Info, text: COMPLETE@ })
    } else {
        answer
    }
}

/// Whether a step is being shown.
pub open spec fn shows(tick: GuideTick) -> bool {
    tick.banner is Some || tick.choice is Some
}

/// The view to publish: a question before an instruction.
pub open spec fn view_of(tick: GuideTick) -> Option<RigView> {
    match tick.choice {
        Some(choice) => Some(RigView::Choice(choice)),
        None => match tick.banner {
            Some(text) => Some(RigView::Banner(RigBanner { text, color: tick.color })),
            None => None,
        },
    }
}

/// Follows up on a tick: logs an answer and the end, records log lines for the guide exactly while a step
/// is being shown, and publishes what is shown.
pub fn after_tick(tick: GuideTick, tee: &mut bool, queue: Option<&mut GuideQueue>) -> (step: RigStep)
    ensures
        lines_view(step.lines@) == tick_lines(tick),
        *final(tee) == shows(tick),
        queue matches Some(q) ==> final(q)@ == (if shows(tick) {
            (*q)@
        } else {
            Seq::<Seq<char>>::empty()
        }),
        step.view == view_of(tick),
        step.toast is Some == tick.finished_now,
        tick.finished_now ==> step.toast->0@ == (ToastView {
            severity: Severity::Info,
            message: DONE_TOAST@,
        }),
{
    let mut lines: Vec<LogLine> = Vec::new();
    assert(lines_view(lines@) =~= Seq::empty());
    match &tick.choice_made {
        Some(made) => {
            let mut out = "rig-guide: '".to_owned();
            out.append(made.step_id.as_str());
            out.append("' -> '");
            out.append(made.label.as_str());
            if made.note.as_str().unicode_len() == 0 {
                out.append("'");
            } else {
                out.append("' note = \"");
                out.append(made.note.as_str());
                out.append("\"");
            }
            levels::push_line(&mut lines, Level::Info, out);
            assert(lines_view(lines@) =~= seq![answer_line(*made)]);
        },
        None => {},
    }
    let showing = tick.banner.is_some() || tick.choice.is_some();
    guide_log::set_enabled(tee, queue, showing);
    let toast = if tick.finished_now {
        levels::push_line(&mut lines, Level::Info, COMPLETE.to_owned());
        Some(Toast { severity: Severity::Info, message: DONE_TOAST.to_owned() })
    } else {
        None
    };
    let view = match tick.choice {
        Some(choice) => Some(RigView::Choice(choice)),
        None => match tick.banner {
            Some(text) => Some(RigView::Banner(RigBanner { text, color: tick.color })),
            None => None,
        },
    };
    RigStep { lines, view, toast }
}

/// The log lines that came in since the last tick, oldest first.
pub fn new_lines(queue: Option<&mut GuideQueue>) -> (lines: Vec<String>)
    ensures
        match queue {
            Some(q) => texts(lines@) == (*q)@ && final(q)@ == Seq::<Seq<char>>::empty(),
            None => lines@ == Seq::<String>::empty(),
        },
{
    guide_log::drain(queue)
}

/// Lines are recorded for the guide exactly while something of it is shown.
pub proof fn recording_follows_the_view(tick: GuideTick)
    ensures
        shows(tick) == (view_of(tick) is Some),
{
}

/// What is to be chosen is shown rather than the banner, the banner is shown in the guide's colour, and nothing is
/// shown exactly if there is neither.
pub proof fn a_choice_goes_before_the_banner(tick: GuideTick)
    ensures
        tick.choice is Some ==> view_of(tick) == Some(RigView::Choice(tick.choice->0)),
        tick.choice is None && tick.banner is Some ==> (view_of(tick) matches Some(
            RigView::Banner(b),
        ) && b.text == tick.banner->0 && b.color == tick.color),
        tick.choice is None && tick.banner is None ==> view_of(tick) is None && !shows(tick),
        tick.choice is Some || tick.banner is Some ==> shows(tick),
{
}

/// Each answer is logged, and so is the end of the guide, after the answer that ended it.
pub proof fn answers_and_the_end_are_logged(tick: GuideTick)
    ensures
        tick_lines(tick).len() == (if tick.choice_made is Some {
            1int
        } else {
            0
        }) + (if tick.finished_now {
            1int
        } else {
            0
        }),
        tick.choice_made is Some ==> tick_lines(tick)[0] == answer_line(tick.choice_made->0),
        tick.finished_now ==> tick_lines(tick).last().text == COMPLETE@,
{
}

/// An answer is told with its step and its label, and with a note exactly if one was made.
pub proof fn an_answer_is_told_with_its_note(made: ChoiceMade)
    ensures
        answer_line(made).level == Level::Info,
        made.note@.len() == 0 ==> answer_line(made).text == "rig-guide: '"@ + made.step_id@
            + "' -> '"@ + made.label@ + "'"@,
        made.note@.len() > 0 ==> answer_line(made).text == "rig-guide: '"@ + made.step_id@
            + "' -> '"@ + made.label@ + "' note = \""@ + made.note@ + "\""@,
{
}

/// The end of the guide is told to everyone.
pub proof fn the_end_is_told_to_everyone(tick: GuideTick)
    ensures
        tick.finished_now ==> tick_lines(tick).last().level == Level::Info,
{
}

} // verus!
