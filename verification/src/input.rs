//! The decisions of the input hooks: what the controller snapshot holds, and what of its own input the
//! game gets to see while the menu is open.

use vstd::prelude::*;

use crate::hook::HookError;
use crate::levels::{Level, LogLine, LogLineView};

verus! {

/// Whether the game's own input is being suppressed.
#[derive(Clone, Copy, Debug, PartialEq, Eq, Structural)]
pub struct InputBlock {
    pub blocked: bool,
}

impl InputBlock {
    /// At first the game gets all of its input.
    pub fn new() -> (block: InputBlock)
        ensures
            !block.blocked,
    {
        InputBlock { blocked: false }
    }
}

/// Starts or stops the suppression.
pub fn set_blocked(block: &mut InputBlock, blocked: bool)
    ensures
        final(block).blocked == blocked,
{
    block.blocked = blocked;
}

/// Whether the game's input is being suppressed.
pub fn is_blocked(block: InputBlock) -> (blocked: bool)
    ensures
        blocked == block.blocked,
{
    block.blocked
}

/// The buttons and the left stick in one word.
pub open spec fn packed(buttons: u16, lx: i16, ly: i16) -> u64 {
    (buttons as u64) | (((lx as u16) as u64) << 16u64) | (((ly as u16) as u64) << 32u64)
}

/// The buttons and the left stick out of one word.
pub open spec fn unpacked(v: u64) -> (u16, i16, i16) {
    (v as u16, ((v >> 16u64) as u16) as i16, ((v >> 32u64) as u16) as i16)
}

/// Packs the buttons and the left stick, so that one word can be published at once.
pub fn pack_pad(buttons: u16, lx: i16, ly: i16) -> (v: u64)
    ensures
        v == packed(buttons, lx, ly),
{
    (buttons as u64) | (((lx as u16) as u64) << 16u64) | (((ly as u16) as u64) << 32u64)
}

/// Unpacks what was packed.
pub fn unpack_pad(v: u64) -> (pad: (u16, i16, i16))
    ensures
        pad == unpacked(v),
{
    (v as u16, ((v >> 16u64) as u16) as i16, ((v >> 32u64) as u16) as i16)
}

/// Unpacking gives back exactly what was packed, and the neutral word is the neutral pad.
pub proof fn unpack_inverts_pack(buttons: u16, lx: i16, ly: i16)
    ensures
        unpacked(packed(buttons, lx, ly)) == (buttons, lx, ly),
        unpacked(0) == (0u16, 0i16, 0i16),
{
    let v = packed(buttons, lx, ly);
    assert(v as u16 == buttons && ((v >> 16u64) as u16) as i16 == lx && ((v >> 32u64) as u16) as i16
        == ly) by (bit_vector)
        requires
            v == (buttons as u64) | (((lx as u16) as u64) << 16u64) | (((ly as u16) as u64)
                << 32u64),
    ;
    assert(0u64 as u16 == 0u16 && ((0u64 >> 16u64) as u16) as i16 == 0i16 && ((0u64
        >> 32u64) as u16) as i16 == 0i16) by (bit_vector);
}

/// The owner of a pad that no controller reports to.
pub const NO_OWNER: i32 = -1i32;

/// The published pad and the controller it comes from; a negative owner is none.
#[derive(Clone, Copy, Debug, PartialEq, Eq, Structural)]
pub struct PadCell {
    pub snapshot: u64,
    pub owner: i32,
}

impl PadCell {
    /// No controller, everything neutral.
    pub fn new() -> (cell: PadCell)
        ensures
            cell == (PadCell { snapshot: 0, owner: NO_OWNER }),
    {
        PadCell { snapshot: 0, owner: NO_OWNER }
    }

    /// After a controller reported: the first one to report owns the snapshot, and only the owner
    /// updates it.
    pub open spec fn captured(self, user: u32, buttons: u16, lx: i16, ly: i16) -> PadCell {
        if self.owner < 0 || self.owner == user as i32 {
            PadCell { snapshot: packed(buttons, lx, ly), owner: user as i32 }
        } else {
            self
        }
    }

    /// After a controller was found gone: the owner's snapshot becomes neutral and ownership is free.
    pub open spec fn released(self, user: u32) -> PadCell {
        if self.owner == user as i32 {
            PadCell { snapshot: 0, owner: NO_OWNER }
        } else {
            self
        }
    }
}

/// The published buttons and left stick.
pub fn pad_snapshot(cell: PadCell) -> (pad: (u16, i16, i16))
    ensures
        pad == unpacked(cell.snapshot),
{
    unpack_pad(cell.snapshot)
}

/// Takes over a controller's report.
pub fn capture_pad(cell: &mut PadCell, user: u32, buttons: u16, lx: i16, ly: i16)
    ensures
        *final(cell) == old(cell).captured(user, buttons, lx, ly),
{
    let idx: i32 = user as i32;
    if cell.owner < 0 || cell.owner == idx {
        cell.owner = idx;
        cell.snapshot = pack_pad(buttons, lx, ly);
    }
}

/// Lets go of a controller that is gone.
pub fn release_pad(cell: &mut PadCell, user: u32)
    ensures
        *final(cell) == old(cell).released(user),
{
    if cell.owner == user as i32 {
        cell.owner = NO_OWNER;
        cell.snapshot = 0;
    }
}

/// The controller state as the system reports it.
#[derive(Clone, Copy, Debug, PartialEq, Eq, Structural)]
pub struct XInputGamepad {
    pub buttons: u16,
    pub left_trigger: u8,
    pub right_trigger: u8,
    pub thumb_lx: i16,
    pub thumb_ly: i16,
    pub thumb_rx: i16,
    pub thumb_ry: i16,
}

/// A controller state with its change counter.
#[derive(Clone, Copy, Debug, PartialEq, Eq, Structural)]
pub struct XInputState {
    pub packet_number: u32,
    pub gamepad: XInputGamepad,
}

impl XInputGamepad {
    /// Nothing pressed, everything centred.
    pub open spec fn neutral() -> XInputGamepad {
        XInputGamepad {
            buttons: 0,
            left_trigger: 0,
            right_trigger: 0,
            thumb_lx: 0,
            thumb_ly: 0,
            thumb_rx: 0,
            thumb_ry: 0,
        }
    }
}

/// The counter that follows, so that the game notices the change.
pub open spec fn next_packet(n: u32) -> u32 {
    if n == u32::MAX {
        0
    } else {
        (n + 1) as u32
    }
}

/// After the system answered a state query with `ret`: a successful answer is captured, and blanked
/// for the game while input is blocked; a failed one releases the controller. Returns the state that
/// the game gets to see.
pub fn on_xinput_state(
    cell: &mut PadCell,
    block: InputBlock,
    user: u32,
    ret: u32,
    state: Option<XInputState>,
) -> (seen: Option<XInputState>)
    ensures
        ret == 0 && state is Some ==> {
            let pad = state->0.gamepad;
            &&& *final(cell) == old(cell).captured(user, pad.buttons, pad.thumb_lx, pad.thumb_ly)
            &&& seen == (if block.blocked {
                Some(
                    XInputState {
                        packet_number: next_packet(state->0.packet_number),
                        gamepad: XInputGamepad::neutral(),
                    },
                )
            } else {
                state
            })
        },
        ret != 0 ==> *final(cell) == old(cell).released(user) && seen == state,
        ret == 0 && state is None ==> *final(cell) == *old(cell) && seen is None,
        !block.blocked ==> seen == state,
        ret != 0 ==> seen == state,
        ret == 0 && block.blocked && state is Some ==> seen is Some && seen->0.gamepad.buttons == 0
            && seen->0.packet_number != state->0.packet_number,
{
    if ret != 0 {
        release_pad(cell, user);
        return state;
    }
    match state {
        Some(s) => {
            capture_pad(cell, user, s.gamepad.buttons, s.gamepad.thumb_lx, s.gamepad.thumb_ly);
            if is_blocked(block) {
                Some(
                    XInputState {
                        packet_number: s.packet_number.wrapping_add(1),
                        gamepad: XInputGamepad {
                            buttons: 0,
                            left_trigger: 0,
                            right_trigger: 0,
                            thumb_lx: 0,
                            thumb_ly: 0,
                            thumb_rx: 0,
                            thumb_ry: 0,
                        },
                    },
                )
            } else {
                state
            }
        },
        None => state,
    }
}

/// The device data that the game gets to see after a state query with result `hr`: zeros while input
/// is blocked, if there is data at all and the query succeeded.
pub fn on_device_state(block: InputBlock, hr: u64, data: Vec<u8>) -> (seen: Vec<u8>)
    ensures
        seen@ == (if hr == 0 && block.blocked {
            Seq::new(data@.len(), |i: int| 0u8)
        } else {
            data@
        }),
        seen@.len() == data@.len(),
        !block.blocked ==> seen@ == data@,
        hr == 0 && block.blocked ==> forall|i: int| 0 <= i < seen@.len() ==> seen@[i] == 0,
{
    if hr == 0 && is_blocked(block) {
        let mut seen: Vec<u8> = Vec::new();
        let n: usize = data.len();
        let mut i: usize = 0;
        while i < n
            invariant
                i <= n,
                n == data@.len(),
                seen@ == Seq::new(i as nat, |k: int| 0u8),
            decreases n - i,
        {
            seen.push(0);
            i = i + 1;
            assert(seen@ =~= Seq::new(i as nat, |k: int| 0u8));
        }
        seen
    } else {
        data
    }
}

/// The answer to a request to move the cursor: success without moving it while input is blocked, else
/// nothing, and the request goes through.
pub fn on_set_cursor_pos(block: InputBlock) -> (answer: Option<u64>)
    ensures
        answer == (if block.blocked {
            Some(1u64)
        } else {
            None
        }),
        answer is Some == block.blocked,
{
    if is_blocked(block) {
        Some(1)
    } else {
        None
    }
}

/// The rectangle that a request to confine the cursor goes through with: none while input is blocked.
pub fn on_clip_cursor(block: InputBlock, rect: u64) -> (passed: u64)
    ensures
        passed == (if block.blocked {
            0
        } else {
            rect
        }),
        !block.blocked ==> passed == rect,
        block.blocked ==> passed == 0,
{
    if is_blocked(block) {
        0
    } else {
        rect
    }
}

/// Whether the mouse needs a hook of its own: only if its query is not the keyboard's.
pub fn mouse_needs_own_hook(keyboard: u64, mouse: u64) -> (yes: bool)
    ensures
        yes == (mouse != keyboard),
{
    mouse != keyboard
}

/// The line on how hooking the controller went. A failure only costs the controller.
pub fn xinput_line(installed: &Result<(), HookError>) -> (line: LogLine)
    ensures
        line@ == (match *installed {
            Ok(_) => LogLineView {
                level: Level::Info,
                text: "input: hooked XInput GetState (controller menu nav + RB+L3+R3 toggle; pad blanked while open)"@,
            },
            Err(e) => LogLineView {
                level: Level::Warn,
                text: "input: XInput hook not installed ("@ + e.words()
                    + "); controller won't drive the menu or be suppressed"@,
            },
        }),
{
    match installed {
        Ok(_) => LogLine {
            level: Level::Info,
            text:
                "input: hooked XInput GetState (controller menu nav + RB+L3+R3 toggle; pad blanked while open)".to_owned(),
        },
        Err(e) => {
            let mut out = "input: XInput hook not installed (".to_owned();
            out.append(e.message().as_str());
            out.append("); controller won't drive the menu or be suppressed");
            LogLine { level: Level::Warn, text: out }
        },
    }
}

/// A second controller never disturbs the owner's snapshot, neither by reporting nor by going away.
pub proof fn only_the_owner_is_heard(
    cell: PadCell,
    user: u32,
    buttons: u16,
    lx: i16,
    ly: i16,
)
    requires
        cell.owner >= 0,
        cell.owner != user as i32,
    ensures
        cell.captured(user, buttons, lx, ly) == cell,
        cell.released(user) == cell,
{
}

/// What the owner reports is what the snapshot shows, and after it goes away the pad reads neutral and
/// the next controller to report takes over.
pub proof fn owner_is_shown_until_it_leaves(
    cell: PadCell,
    user: u32,
    buttons: u16,
    lx: i16,
    ly: i16,
    next: u32,
)
    requires
        cell.owner < 0 || cell.owner == user as i32,
    ensures
        unpacked(cell.captured(user, buttons, lx, ly).snapshot) == (buttons, lx, ly),
        unpacked(cell.captured(user, buttons, lx, ly).released(user).snapshot) == (
            0u16,
            0i16,
            0i16,
        ),
        unpacked(
            cell.captured(user, buttons, lx, ly).released(user).captured(
                next,
                buttons,
                lx,
                ly,
            ).snapshot,
        ) == (buttons, lx, ly),
{
    unpack_inverts_pack(buttons, lx, ly);
}

/// A controller that is free or held by the user is theirs afterwards; letting go frees it and nothing else does.
pub proof fn a_free_controller_is_taken(cell: PadCell, user: u32, buttons: u16, lx: i16, ly: i16)
    requires
        user <= i32::MAX,
    ensures
        cell.owner < 0 ==> cell.captured(user, buttons, lx, ly).owner == user,
        cell.owner == user ==> cell.captured(user, buttons, lx, ly).owner == user,
        cell.owner == user ==> cell.released(user).owner == -1 && cell.released(user).snapshot == 0,
        cell.owner != user ==> cell.released(user) == cell,
{
}

/// A controller at rest presses and tilts nothing.
pub proof fn a_controller_at_rest()
    ensures
        XInputGamepad::neutral().buttons == 0,
        XInputGamepad::neutral().left_trigger == 0,
        XInputGamepad::neutral().right_trigger == 0,
        XInputGamepad::neutral().thumb_lx == 0,
        XInputGamepad::neutral().thumb_ly == 0,
        XInputGamepad::neutral().thumb_rx == 0,
        XInputGamepad::neutral().thumb_ry == 0,
{
}

/// Every blanked packet has another number than the one it stands for: the next.
pub proof fn a_blanked_packet_is_news(n: u32)
    ensures
        next_packet(n) != n,
        n < u32::MAX ==> next_packet(n) == n + 1,
        next_packet(u32::MAX) == 0,
{
}

} // verus!
