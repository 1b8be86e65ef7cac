//! The decisions of the stream transports: how a frame is written to a socket that may not take it all
//! at once, how a socket is drained, and which received frames are trusted.

use vstd::prelude::*;

use crate::levels::{Level, LogLine, LogLineView};

verus! {

/// Consecutive refusals after which a peer that does not read is dropped.
pub const MAX_WRITE_STALLS: u32 = 50_000;

/// How one write on the socket went.
#[derive(Clone, Copy, Debug, PartialEq, Eq, Structural)]
pub enum WriteEvent {
    /// This many bytes were taken; zero means that the peer is gone.
    Wrote(usize),
    /// The socket takes nothing right now.
    WouldBlock,
    /// The call was interrupted.
    Interrupted,
    /// Any other failure.
    Failed,
}

/// What to do next about a frame.
#[derive(Clone, Copy, Debug, PartialEq, Eq, Structural)]
pub enum WriteStep {
    /// Write the rest.
    Write,
    /// Wait a moment, then write the rest.
    Wait,
    /// The whole frame is out.
    Done,
    /// Give up on the peer.
    Close,
    /// Give up on a peer that does not read.
    CloseStalled,
}

/// A frame on its way out.
#[derive(Clone, Copy, Debug, PartialEq, Eq, Structural)]
pub struct FrameWrite {
    /// The length of the frame.
    pub len: usize,
    /// How much of it is out.
    pub written: usize,
    /// Consecutive refusals.
    pub stalls: u32,
    /// Refusals after which the peer is dropped; without a limit it is waited for.
    pub limit: Option<u32>,
}

impl FrameWrite {
    /// No more is out than there is.
    pub open spec fn wf(self) -> bool {
        self.written <= self.len && (self.limit matches Some(l) ==> self.stalls <= l && l
            < u32::MAX)
    }

    /// A frame of which nothing is out yet.
    pub fn new(len: usize, limit: Option<u32>) -> (frame: FrameWrite)
        requires
            limit matches Some(l) ==> l < u32::MAX,
        ensures
            frame == (FrameWrite { len, written: 0, stalls: 0, limit }),
            frame.wf(),
    {
        FrameWrite { len, written: 0, stalls: 0, limit }
    }

    /// What comes first: an empty frame is out at once.
    pub fn first(&self) -> (step: WriteStep)
        ensures
            step == (if self.written < self.len {
                WriteStep::Write
            } else {
                WriteStep::Done
            }),
    {
        if self.written < self.len {
            WriteStep::Write
        } else {
            WriteStep::Done
        }
    }

    /// Whether one more refusal is one too many.
    pub open spec fn stalls_out(self) -> bool {
        self.limit matches Some(l) && self.stalls + 1 > l
    }

    /// After one write of what was left: progress is recorded and ends a run of refusals; a peer that
    /// is gone, fails or refuses too often is given up.
    pub fn step(&mut self, event: WriteEvent) -> (step: WriteStep)
        requires
            old(self).wf(),
            old(self).written < old(self).len,
            event matches WriteEvent::Wrote(n) ==> n <= old(self).len - old(self).written,
        ensures
            final(self).wf(),
            final(self).len == old(self).len && final(self).limit == old(self).limit,
            step == WriteStep::Done ==> final(self).written == final(self).len,
            match event {
                WriteEvent::Wrote(n) => if n == 0 {
                    *final(self) == *old(self) && step == WriteStep::Close
                } else {
                    &&& final(self).written == old(self).written + n
                    &&& final(self).stalls == 0
                    &&& step == (if old(self).written + n < old(self).len {
                        WriteStep::Write
                    } else {
                        WriteStep::Done
                    })
                },
                WriteEvent::WouldBlock => {
                    &&& final(self).written == old(self).written
                    &&& step == (if old(self).stalls_out() {
                        WriteStep::CloseStalled
                    } else {
                        WriteStep::Wait
                    })
                    &&& final(self).stalls == (if old(self).limit is None || old(
                        self,
                    ).stalls_out() {
                        old(self).stalls as int
                    } else {
                        old(self).stalls + 1
                    })
                },
                WriteEvent::Interrupted => *final(self) == *old(self) && step == WriteStep::Write,
                WriteEvent::Failed => *final(self) == *old(self) && step == WriteStep::Close,
            },
    {
        match event {
            WriteEvent::Wrote(n) => {
                if n == 0 {
                    return WriteStep::Close;
                }
                self.written = self.written + n;
                self.stalls = 0;
                self.first()
            },
            WriteEvent::WouldBlock => match self.limit {
                Some(limit) => {
                    if self.stalls + 1 > limit {
                        WriteStep::CloseStalled
                    } else {
                        self.stalls = self.stalls + 1;
                        WriteStep::Wait
                    }
                },
                None => WriteStep::Wait,
            },
            WriteEvent::Interrupted => WriteStep::Write,
            WriteEvent::Failed => WriteStep::Close,
        }
    }
}

/// The warning about a peer that does not read.
pub fn stalled_line() -> (line: LogLine)
    ensures
        line@ == (LogLineView {
            level: Level::Warn,
            text: "bridge: client not draining; dropping"@,
        }),
{
    LogLine { level: Level::Warn, text: "bridge: client not draining; dropping".to_owned() }
}

/// How one read on the socket went.
#[derive(Clone, Copy, Debug, PartialEq, Eq, Structural)]
pub enum ReadEvent {
    /// This many bytes came; zero means that the peer is gone.
    Got(usize),
    /// Nothing more is there right now.
    WouldBlock,
    /// The call was interrupted.
    Interrupted,
    /// Any other failure.
    Failed,
}

/// What to do next about a socket.
#[derive(Clone, Copy, Debug, PartialEq, Eq, Structural)]
pub enum ReadStep {
    /// Hand the bytes to the decoder and read on.
    Feed,
    /// Read on.
    Again,
    /// Everything that is there was read.
    Drained,
    /// Everything was read, and the peer is gone.
    Closed,
}

/// After one read: everything that is there is read before the frames are looked at.
pub fn read_step(event: ReadEvent) -> (step: ReadStep)
    ensures
        step == (match event {
            ReadEvent::Got(n) => if n == 0 {
                ReadStep::Closed
            } else {
                ReadStep::Feed
            },
            ReadEvent::WouldBlock => ReadStep::Drained,
            ReadEvent::Interrupted => ReadStep::Again,
            ReadEvent::Failed => ReadStep::Closed,
        }),
{
    match event {
        ReadEvent::Got(n) => if n == 0 {
            ReadStep::Closed
        } else {
            ReadStep::Feed
        },
        ReadEvent::WouldBlock => ReadStep::Drained,
        ReadEvent::Interrupted => ReadStep::Again,
        ReadEvent::Failed => ReadStep::Closed,
    }
}

/// The most attempts to reach a listening peer.
pub const MAX_CONNECTS: u32 = 100;

/// What an attempt to reach a peer comes to.
#[derive(Clone, Copy, Debug, PartialEq, Eq, Structural)]
pub enum ConnectStep {
    Up,
    /// Try again after a moment.
    Again,
    /// Report the last failure.
    GiveUp,
}

/// The attempts to reach a peer so far.
#[derive(Clone, Copy, Debug, PartialEq, Eq, Structural)]
pub struct Connecting {
    pub attempts: u32,
}

impl Connecting {
    /// No attempt yet.
    pub fn new() -> (c: Connecting)
        ensures
            c.attempts == 0,
    {
        Connecting { attempts: 0 }
    }

    /// After one more attempt: success ends it, and so does the last one.
    pub fn step(&mut self, connected: bool) -> (step: ConnectStep)
        requires
            old(self).attempts < MAX_CONNECTS,
        ensures
            final(self).attempts == old(self).attempts + 1,
            step == (if connected {
                ConnectStep::Up
            } else if final(self).attempts == MAX_CONNECTS {
                ConnectStep::GiveUp
            } else {
                ConnectStep::Again
            }),
            step == ConnectStep::Again ==> final(self).attempts < MAX_CONNECTS,
    {
        self.attempts = self.attempts + 1;
        if connected {
            ConnectStep::Up
        } else if self.attempts == MAX_CONNECTS {
            ConnectStep::GiveUp
        } else {
            ConnectStep::Again
        }
    }
}

/// A received frame and who it is from.
#[derive(Debug)]
pub struct Frame {
    pub from: u64,
    pub bytes: Vec<u8>,
}

/// The frames among the first `n` that come from the partner, in order.
pub open spec fn from_partner(frames: Seq<Frame>, partner: u64, n: nat) -> Seq<Frame>
    decreases n,
{
    if n == 0 {
        Seq::empty()
    } else {
        let before = from_partner(frames, partner, (n - 1) as nat);
        if frames[n - 1].from == partner {
            before.push(frames[n - 1])
        } else {
            before
        }
    }
}

/// The trust boundary: only frames from the partner are kept, in order.
pub fn trusted_frames(frames: Vec<Frame>, partner: u64) -> (kept: Vec<Frame>)
    ensures
        kept@ == from_partner(frames@, partner, frames@.len()),
{
    let mut frames = frames;
    let ghost all = frames@;
    let mut rev: Vec<Frame> = Vec::new();
    while frames.len() > 0
        invariant
            frames@ + rev@.reverse() == all,
        decreases frames@.len(),
    {
        match frames.pop() {
            Some(f) => {
                let ghost before = rev@;
                let ghost rest = frames@;
                rev.push(f);
                assert(rev@.reverse() =~= seq![f] + before.reverse());
                assert(rest + (seq![f] + before.reverse()) =~= rest.push(f) + before.reverse());
            },
            None => {},
        }
    }
    assert(rev@.reverse() =~= all);
    let mut kept: Vec<Frame> = Vec::new();
    let ghost mut i: nat = 0;
    while rev.len() > 0
        invariant
            i + rev@.len() == all.len(),
            rev@.reverse() =~= all.skip(i as int),
            kept@ == from_partner(all, partner, i),
        decreases rev@.len(),
    {
        let ghost left = rev@;
        match rev.pop() {
            Some(f) => {
                proof {
                    assert(left.reverse()[0] == left.last());
                    assert(all.skip(i as int)[0] == all[i as int]);
                    assert(f == all[i as int]);
                    assert(rev@.reverse() =~= left.reverse().skip(1));
                    assert(all.skip(i as int).skip(1) =~= all.skip((i + 1) as int));
                    i = i + 1;
                }
                if f.from == partner {
                    kept.push(f);
                }
            },
            None => {},
        }
    }
    kept
}

/// Nothing but the partner's own frames gets past the trust boundary.
pub proof fn strangers_are_dropped(frames: Seq<Frame>, partner: u64, n: nat, k: int)
    requires
        n <= frames.len(),
        0 <= k < from_partner(frames, partner, n).len(),
    ensures
        from_partner(frames, partner, n)[k].from == partner,
    decreases n,
{
    if n > 0 {
        let before = from_partner(frames, partner, (n - 1) as nat);
        if k < before.len() {
            strangers_are_dropped(frames, partner, (n - 1) as nat, k);
        }
    }
}

/// Every frame of the partner gets past the trust boundary, each with its bytes, in the order they came.
pub proof fn the_partners_frames_are_kept(frames: Seq<Frame>, partner: u64, n: nat)
    requires
        n <= frames.len(),
    ensures
        forall|i: int|
            0 <= i < n && (#[trigger] frames[i]).from == partner ==> from_partner(
                frames,
                partner,
                n,
            ).contains(frames[i]),
        (forall|i: int| 0 <= i < n ==> (#[trigger] frames[i]).from == partner) ==> from_partner(
            frames,
            partner,
            n,
        ) == frames.take(n as int),
        (forall|i: int| 0 <= i < n ==> (#[trigger] frames[i]).from != partner) ==> from_partner(
            frames,
            partner,
            n,
        ).len() == 0,
        from_partner(frames, partner, n).len() <= n,
    decreases n,
{
    if n > 0 {
        the_partners_frames_are_kept(frames, partner, (n - 1) as nat);
        let before = from_partner(frames, partner, (n - 1) as nat);
        let now = from_partner(frames, partner, n);
        assert forall|i: int| 0 <= i < n && (#[trigger] frames[i]).from == partner implies now.contains(
            frames[i],
        ) by {
            if i < n - 1 {
                assert(before.contains(frames[i]));
                let j = choose|j: int| 0 <= j < before.len() && before[j] == frames[i];
                assert(now[j] == frames[i]);
            } else {
                assert(now[before.len() as int] == frames[i]);
            }
        }
        if forall|i: int| 0 <= i < n ==> (#[trigger] frames[i]).from == partner {
            assert(frames[n - 1].from == partner);
            assert(now =~= frames.take(n as int));
        }
    } else {
        assert(from_partner(frames, partner, n) =~= frames.take(0));
    }
}

/// A peer that refuses is waited for up to the limit and given up at the refusal after it; without a limit it is
/// waited for for ever.
pub proof fn a_peer_is_given_up_past_the_limit(frame: FrameWrite, limit: u32)
    ensures
        frame.limit is None ==> !frame.stalls_out(),
        frame.limit == Some(limit) ==> frame.stalls_out() == (frame.stalls >= limit),
{
}

} // verus!
