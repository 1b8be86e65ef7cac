//! Lets partners damage an enemy during a critical hit, by clearing its invulnerability each frame.

use vstd::prelude::*;

use crate::levels;
use crate::levels::{lines_view, Level, LogLine, LogLineView};
use crate::text;
use crate::text::dec;

verus! {

/// The feature: the switch as it was seen last, and how often it cleared anything.
#[derive(Clone, Copy, Debug, PartialEq, Eq, Structural)]
pub struct CritCoop {
    pub latch: Option<bool>,
    pub clears: u64,
}

/// What is read of one character.
#[derive(Clone, Copy, Debug, PartialEq, Eq, Structural)]
pub struct CritTarget {
    /// Whether the character is fully loaded; nothing else may be looked at if it is not.
    pub active: bool,
    /// Whether it is invulnerable.
    pub invincible: bool,
    pub character_id: u32,
}

impl CritTarget {
    /// Whether the character's invulnerability is cleared.
    pub open spec fn is_cleared(self) -> bool {
        self.active && self.invincible
    }
}

/// What a frame does.
#[derive(Debug)]
pub struct CritStep {
    /// The positions of the characters to clear.
    pub clear: Vec<usize>,
    pub lines: Vec<LogLine>,
}

/// The positions among the first `n` characters that are cleared.
pub open spec fn cleared(chars: Seq<CritTarget>, n: nat) -> Seq<usize>
    decreases n,
{
    if n == 0 {
        Seq::empty()
    } else if chars[n - 1].is_cleared() {
        cleared(chars, (n - 1) as nat).push((n - 1) as usize)
    } else {
        cleared(chars, (n - 1) as nat)
    }
}

/// Whether the `k`-th clearing is logged: the first five, then every five hundredth.
pub open spec fn is_heartbeat(k: int) -> bool {
    k <= 5 || k % 500 == 0
}

/// The line on the `k`-th clearing.
pub open spec fn cleared_line(character_id: u32, k: int) -> LogLineView {
    LogLineView {
        level: Level::Debug,
        text: "crit co-op: cleared crit-invuln on cid="@ + dec(character_id as nat) + " (total "@
            + dec(k as nat) + ")"@,
    }
}

/// The lines on the clearings among the first `n` characters, after `before` earlier ones.
pub open spec fn cleared_lines(chars: Seq<CritTarget>, n: nat, before: int) -> Seq<LogLineView>
    decreases n,
{
    if n == 0 {
        Seq::empty()
    } else {
        let rest = cleared_lines(chars, (n - 1) as nat, before);
        let k = before + cleared(chars, n).len();
        if chars[n - 1].is_cleared() && is_heartbeat(k) {
            rest.push(cleared_line(chars[n - 1].character_id, k))
        } else {
            rest
        }
    }
}

/// The line on a change of the switch, if it changed.
pub open spec fn switch_lines(latch: Option<bool>, enabled: bool) -> Seq<LogLineView> {
    if latch == Some(enabled) {
        Seq::empty()
    } else {
        seq![
            LogLineView {
                level: Level::Debug,
                text: if enabled {
                    "crit co-op enabled"@
                } else {
                    "crit co-op disabled"@
                },
            },
        ]
    }
}

impl CritCoop {
    /// Nothing seen and nothing cleared.
    pub fn new() -> (feature: CritCoop)
        ensures
            feature == (CritCoop { latch: None, clears: 0 }),
    {
        CritCoop { latch: None, clears: 0 }
    }

    /// One frame over the enemies; no list stands for a world that is not there yet.
    pub fn on_frame(&mut self, enabled: bool, chars: Option<&Vec<CritTarget>>) -> (step: CritStep)
        requires
            chars matches Some(c) ==> old(self).clears + c@.len() <= u64::MAX,
        ensures
            final(self).latch == Some(enabled),
            ({
                let list = if enabled && chars is Some {
                    chars->0@
                } else {
                    Seq::empty()
                };
                &&& step.clear@ == cleared(list, list.len())
                &&& final(self).clears == old(self).clears + cleared(list, list.len()).len()
                &&& lines_view(step.lines@) == switch_lines(old(self).latch, enabled)
                    + cleared_lines(list, list.len(), old(self).clears as int)
            }),
    {
        let ghost clears = self.clears as int;
        let mut lines: Vec<LogLine> = Vec::new();
        assert(lines_view(lines@) =~= Seq::empty());
        let same = match self.latch {
            Some(l) => l == enabled,
            None => false,
        };
        let ghost seen = switch_lines(self.latch, enabled);
        self.latch = Some(enabled);
        if !same {
            let said = if enabled {
                "crit co-op enabled".to_owned()
            } else {
                "crit co-op disabled".to_owned()
            };
            levels::push_line(&mut lines, Level::Debug, said);
        }
        assert(lines_view(lines@) =~= seen);
        let mut clear: Vec<usize> = Vec::new();
        if !enabled {
            assert(seen + Seq::<LogLineView>::empty() =~= seen);
            return CritStep { clear, lines };
        }
        match chars {
            None => {
                assert(seen + Seq::<LogLineView>::empty() =~= seen);
            },
            Some(list) => {
                let mut i: usize = 0;
                assert(seen + cleared_lines(list@, 0, clears) =~= seen);
                while i < list.len()
                    invariant
                        i <= list@.len(),
                        clears + list@.len() <= u64::MAX,
                        clear@ == cleared(list@, i as nat),
                        clear@.len() <= i,
                        self.latch == Some(enabled),
                        self.clears == clears + clear@.len(),
                        lines_view(lines@) == seen + cleared_lines(list@, i as nat, clears),
                    decreases list@.len() - i,
                {
                    let c = list[i];
                    let ghost said = cleared_lines(list@, i as nat, clears);
                    if c.active && c.invincible {
                        self.clears = self.clears + 1;
                        clear.push(i);
                        assert(clear@ == cleared(list@, (i + 1) as nat));
                        if self.clears <= 5 || self.clears % 500 == 0 {
                            let mut out =
                                "crit co-op: cleared crit-invuln on cid=".to_owned();
                            out.append(text::dec_text(c.character_id as u64).as_str());
                            out.append(" (total ");
                            out.append(text::dec_text(self.clears).as_str());
                            out.append(")");
                            levels::push_line(&mut lines, Level::Debug, out);
                            assert(lines_view(lines@) =~= seen + said.push(
                                cleared_line(c.character_id, self.clears as int),
                            ));
                        }
                    }
                    i = i + 1;
                }
            },
        }
        CritStep { clear, lines }
    }
}

/// A character that is not fully loaded is never touched, and every loaded one that is invulnerable is
/// cleared.
pub proof fn cleared_exactly_the_loaded_and_invincible(chars: Seq<CritTarget>, n: nat, k: int)
    requires
        n <= chars.len() <= usize::MAX,
        0 <= k < n,
    ensures
        cleared(chars, n).contains(k as usize) == chars[k].is_cleared(),
    decreases n,
{
    let rest = cleared(chars, (n - 1) as nat);
    cleared_is_below(chars, (n - 1) as nat);
    if k < n - 1 {
        cleared_exactly_the_loaded_and_invincible(chars, (n - 1) as nat, k);
        if chars[n - 1].is_cleared() {
            let all = rest.push((n - 1) as usize);
            if rest.contains(k as usize) {
                let j = choose|j: int| 0 <= j < rest.len() && rest[j] == k as usize;
                assert(all[j] == k as usize);
            }
            if all.contains(k as usize) {
                let j = choose|j: int| 0 <= j < all.len() && all[j] == k as usize;
                assert(j < rest.len());
                assert(rest[j] == k as usize);
            }
        }
    } else if chars[n - 1].is_cleared() {
        assert(rest.push((n - 1) as usize)[rest.len() as int] == k as usize);
    }
}

proof fn cleared_is_below(chars: Seq<CritTarget>, n: nat)
    requires
        n <= chars.len() <= usize::MAX,
    ensures
        forall|j: int| 0 <= j < cleared(chars, n).len() ==> #[trigger] cleared(chars, n)[j] < n,
    decreases n,
{
    if n > 0 {
        cleared_is_below(chars, (n - 1) as nat);
        let rest = cleared(chars, (n - 1) as nat);
        assert forall|j: int| 0 <= j < cleared(chars, n).len() implies #[trigger] cleared(
            chars,
            n,
        )[j] < n by {
            if j < rest.len() {
                assert(cleared(chars, n)[j] == rest[j]);
            }
        }
    }
}

/// Each character is cleared once, in the order of the list: those that are loaded and invincible, and no other.
pub proof fn cleared_once_and_in_order(chars: Seq<CritTarget>, n: nat)
    requires
        n <= chars.len() <= usize::MAX,
    ensures
        forall|i: int, j: int|
            0 <= i < j < cleared(chars, n).len() ==> cleared(chars, n)[i] < cleared(chars, n)[j],
        forall|j: int|
            0 <= j < cleared(chars, n).len() ==> (#[trigger] cleared(chars, n)[j]) < n
                && chars[cleared(chars, n)[j] as int].active
                && chars[cleared(chars, n)[j] as int].invincible,
        forall|k: int|
            0 <= k < n && (#[trigger] chars[k]).active && chars[k].invincible ==> cleared(
                chars,
                n,
            ).contains(k as usize),
    decreases n,
{
    if n > 0 {
        cleared_once_and_in_order(chars, (n - 1) as nat);
        let before = cleared(chars, (n - 1) as nat);
        let now = cleared(chars, n);
        assert forall|k: int|
            0 <= k < n && (#[trigger] chars[k]).active && chars[k].invincible implies now.contains(
            k as usize,
        ) by {
            if k < n - 1 {
                assert(before.contains(k as usize));
                let j = choose|j: int| 0 <= j < before.len() && before[j] == k as usize;
                assert(now[j] == k as usize);
            } else {
                assert(now[before.len() as int] == k as usize);
            }
        }
    }
}

/// The first five clears are logged one by one, and after them every five-hundredth.
pub proof fn the_first_clears_are_logged(k: int)
    ensures
        1 <= k <= 5 ==> is_heartbeat(k),
        is_heartbeat(500 * k),
        5 < k < 500 ==> !is_heartbeat(k),
        k > 5 ==> is_heartbeat(k) == is_heartbeat(k + 500),
{
}

/// Turning the feature on or off is logged once; a frame that leaves it as it is logs nothing.
pub proof fn each_switch_is_logged_once(enabled: bool)
    ensures
        switch_lines(Some(enabled), enabled).len() == 0,
        switch_lines(Some(!enabled), enabled).len() == 1,
        switch_lines(None, enabled).len() == 1,
        switch_lines(None, true)[0].text == "crit co-op enabled"@,
        switch_lines(None, false)[0].text == "crit co-op disabled"@,
{
}

/// No more lines than clears, and a line for every clear among the first five.
pub proof fn a_line_for_each_of_the_first_clears(chars: Seq<CritTarget>, n: nat, before: int)
    requires
        n <= chars.len(),
        before >= 0,
    ensures
        cleared_lines(chars, n, before).len() <= cleared(chars, n).len(),
        before + cleared(chars, n).len() <= 5 ==> cleared_lines(chars, n, before).len() == cleared(
            chars,
            n,
        ).len(),
    decreases n,
{
    if n > 0 {
        a_line_for_each_of_the_first_clears(chars, (n - 1) as nat, before);
    }
}

/// A clear is told with the character and how many there were.
pub proof fn a_clear_is_told_with_its_character(character_id: u32, k: int)
    ensures
        cleared_line(character_id, k).level == Level::Debug,
        cleared_line(character_id, k).text == "crit co-op: cleared crit-invuln on cid="@ + dec(
            character_id as nat,
        ) + " (total "@ + dec(k as nat) + ")"@,
{
}

/// Turning the feature on or off is told to who debugs it.
pub proof fn how_loud_the_switch_is_told(enabled: bool)
    ensures
        switch_lines(None, enabled)[0].level == Level::Debug,
        switch_lines(Some(!enabled), enabled)[0].level == Level::Debug,
        switch_lines(Some(!enabled), enabled) == switch_lines(None, enabled),
{
}

} // verus!
