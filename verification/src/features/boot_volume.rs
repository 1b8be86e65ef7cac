//! Sets the master volume at boot and holds it until the game's own saved options were loaded over it.

use vstd::prelude::*;

use crate::levels;
use crate::levels::{lines_view, Level, LogLine, LogLineView};
use crate::text;
use crate::text::dec;

verus! {

/// The feature.
#[derive(Clone, Copy, Debug, PartialEq, Eq, Structural)]
pub struct BootVolume {
    /// Whether the first write took.
    pub applied: bool,
    /// What was written.
    pub target: u8,
    /// Whether the game was seen overwriting it.
    pub corrected: bool,
    /// Whether the volume is left alone from now on.
    pub done: bool,
}

/// The line on the first write.
pub open spec fn set_line(vol: u8, max: u8, before: u8) -> LogLineView {
    LogLineView {
        level: Level::Info,
        text: "boot master volume set to "@ + dec(vol as nat) + "/"@ + dec(max as nat) + " (was "@
            + dec(before as nat) + "); re-asserting across main-menu entry"@,
    }
}

/// The line on the game having overwritten the volume.
pub open spec fn clobbered_line(before: u8, target: u8) -> LogLineView {
    LogLineView {
        level: Level::Debug,
        text: "boot volume: options-load clobbered master_volume to "@ + dec(before as nat)
            + "; re-asserted "@ + dec(target as nat),
    }
}

pub const CLOSED: &'static str = "boot volume: re-assert window closed; leaving the in-game slider free";

/// The line on the end of it.
pub open spec fn closed_line() -> LogLineView {
    LogLineView { level: Level::Debug, text: CLOSED@ }
}

/// A line, or none.
pub open spec fn line_if(on: bool, line: LogLineView) -> Seq<LogLineView> {
    if on {
        seq![line]
    } else {
        Seq::empty()
    }
}

impl BootVolume {
    /// Nothing written yet.
    pub fn new() -> (feature: BootVolume)
        ensures
            feature == (BootVolume { applied: false, target: 0, corrected: false, done: false }),
    {
        BootVolume { applied: false, target: 0, corrected: false, done: false }
    }

    /// The volume to write this frame: none once the feature is done, none while the player did not ask
    /// for any, the configured one at first and what was written at first from then on.
    pub open spec fn to_write(self, configured: Option<u8>) -> Option<u8> {
        if self.done {
            None
        } else {
            match configured {
                None => None,
                Some(vol) => if self.applied {
                    Some(self.target)
                } else {
                    Some(vol)
                },
            }
        }
    }

    /// The volume to write this frame.
    pub fn volume(&self, configured: Option<u8>) -> (vol: Option<u8>)
        ensures
            vol == self.to_write(configured),
    {
        if self.done {
            return None;
        }
        match configured {
            None => None,
            Some(vol) => if self.applied {
                Some(self.target)
            } else {
                Some(vol)
            },
        }
    }

    /// The feature after the volume `vol` was written over `before`, or could not be (`None`: the game's
    /// settings are not there yet). `window_over` says whether the time to hold it is up.
    pub open spec fn after(self, vol: u8, before: Option<u8>, window_over: bool) -> BootVolume {
        if !self.applied {
            match before {
                Some(_) => BootVolume { applied: true, target: vol, ..self },
                None => self,
            }
        } else {
            BootVolume {
                corrected: self.corrected || (before is Some && before->0 != self.target),
                done: window_over,
                ..self
            }
        }
    }

    /// Follows up on the write of this frame.
    pub fn wrote(&mut self, vol: u8, max: u8, before: Option<u8>, window_over: bool) -> (lines: Vec<
        LogLine,
    >)
        requires
            !old(self).done,
        ensures
            *final(self) == old(self).after(vol, before, window_over),
            lines_view(lines@) == (if !old(self).applied {
                line_if(before is Some, set_line(vol, max, before->0))
            } else {
                line_if(
                    before is Some && before->0 != old(self).target && !old(self).corrected,
                    clobbered_line(before->0, old(self).target),
                ) + line_if(window_over, closed_line())
            }),
    {
        let mut lines: Vec<LogLine> = Vec::new();
        assert(lines_view(lines@) =~= Seq::empty());
        if !self.applied {
            match before {
                Some(b) => {
                    self.applied = true;
                    self.target = vol;
                    let mut out = "boot master volume set to ".to_owned();
                    out.append(text::dec_text(vol as u64).as_str());
                    out.append("/");
                    out.append(text::dec_text(max as u64).as_str());
                    out.append(" (was ");
                    out.append(text::dec_text(b as u64).as_str());
                    out.append("); re-asserting across main-menu entry");
                    levels::push_line(&mut lines, Level::Info, out);
                    assert(lines_view(lines@) =~= seq![set_line(vol, max, b)]);
                },
                None => {},
            }
            return lines;
        }
        match before {
            Some(b) => {
                if b != self.target && !self.corrected {
                    self.corrected = true;
                    let mut out = "boot volume: options-load clobbered master_volume to ".to_owned();
                    out.append(text::dec_text(b as u64).as_str());
                    out.append("; re-asserted ");
                    out.append(text::dec_text(self.target as u64).as_str());
                    levels::push_line(&mut lines, Level::Debug, out);
                    assert(lines_view(lines@) =~= seq![clobbered_line(b, self.target)]);
                }
            },
            None => {},
        }
        let ghost said = lines_view(lines@);
        if window_over {
            self.done = true;
            levels::push_line(&mut lines, Level::Debug, CLOSED.to_owned());
            assert(lines_view(lines@) =~= said + seq![closed_line()]);
        } else {
            assert(said + Seq::<LogLineView>::empty() =~= said);
        }
        lines
    }
}

/// Once the window is over the volume is never written again, whatever the configuration says.
pub proof fn slider_is_free_after_the_window(
    feature: BootVolume,
    vol: u8,
    before: Option<u8>,
    later: Option<u8>,
)
    requires
        feature.applied,
    ensures
        feature.after(vol, before, true).to_write(later) is None,
{
}

/// While the window is open, every frame in which the player asks for a volume writes the one that was
/// written first, so whatever the game loaded over it is gone again.
pub proof fn held_through_the_window(
    feature: BootVolume,
    vol: u8,
    before: Option<u8>,
    later: Option<u8>,
)
    requires
        feature.applied,
        later is Some,
    ensures
        feature.after(vol, before, false).to_write(later) == Some(feature.target),
{
}

/// Without a configured volume nothing is ever written; with one, it is written as it is until a write is seen to
/// have worked.
pub proof fn the_configured_volume_is_written(feature: BootVolume, vol: u8, window_over: bool)
    ensures
        feature.to_write(None) is None,
        !feature.done && !feature.applied ==> feature.to_write(Some(vol)) == Some(vol),
        !feature.done && !feature.applied ==> feature.after(vol, None, window_over).to_write(
            Some(vol),
        ) == Some(vol),
{
}

/// The volume that was written first is the one that is held, whatever is configured or read later, and the hold
/// ends with the window and not before it.
pub proof fn the_first_volume_is_held(
    feature: BootVolume,
    vol: u8,
    before: u8,
    later: u8,
    read: Option<u8>,
    window_over: bool,
)
    requires
        !feature.done,
        !feature.applied,
    ensures
        ({
            let first = feature.after(vol, Some(before), window_over);
            let next = first.after(later, read, window_over);
            &&& first.applied
            &&& first.target == vol
            &&& !first.done
            &&& first.to_write(Some(later)) == Some(vol)
            &&& next.target == vol
            &&& next.applied
            &&& next.done == window_over
            &&& window_over ==> next.to_write(Some(later)) is None
            &&& !window_over ==> next.to_write(Some(later)) == Some(vol)
        }),
{
}

/// A correction is noted exactly when something else was found in place of the held volume, and is not forgotten.
pub proof fn a_correction_is_noted(feature: BootVolume, vol: u8, read: u8, window_over: bool)
    requires
        feature.applied,
    ensures
        read != feature.target ==> feature.after(vol, Some(read), window_over).corrected,
        feature.corrected ==> feature.after(vol, Some(read), window_over).corrected,
        !feature.corrected && read == feature.target ==> !feature.after(
            vol,
            Some(read),
            window_over,
        ).corrected,
        feature.after(vol, None, window_over).corrected == feature.corrected,
{
}

/// What was set is told with what it was set from and to; a line that is not called for is not told.
pub proof fn the_volume_is_told(vol: u8, max: u8, before: u8, line: LogLineView)
    ensures
        line_if(true, line) == seq![line],
        line_if(false, line).len() == 0,
        set_line(vol, max, before).level == Level::Info,
        set_line(vol, max, before).text == "boot master volume set to "@ + dec(vol as nat) + "/"@
            + dec(max as nat) + " (was "@ + dec(before as nat)
            + "); re-asserting across main-menu entry"@,
        clobbered_line(before, vol).text
            == "boot volume: options-load clobbered master_volume to "@ + dec(before as nat)
            + "; re-asserted "@ + dec(vol as nat),
        closed_line().text == CLOSED@,
{
}

/// That the volume was set is told to everyone, and how it was held to who debugs it.
pub proof fn how_loud_the_volume_is_told(before: u8, target: u8)
    ensures
        clobbered_line(before, target).level == Level::Debug,
        closed_line().level == Level::Debug,
{
}

} // verus!
