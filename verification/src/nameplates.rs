//! The hand-over of projected nameplates from the game thread to the overlay.

use vstd::prelude::*;

verus! {

/// How a nameplate is drawn.
#[derive(Clone, Copy, Debug, PartialEq, Eq, Structural)]
pub enum NameplateKind {
    /// Over a peer that is on the screen.
    Plate,
    /// At the border of the screen, toward a peer that is off it.
    Edge,
}

/// One projected nameplate. Coordinates, depth and colour are carried as the bit patterns of their
/// numbers; only drawing looks inside.
#[derive(Debug)]
pub struct NameplateLabel {
    pub ndc: (u32, u32),
    pub depth: u32,
    pub color: (u32, u32, u32),
    pub kind: NameplateKind,
    pub text: String,
}

/// The labels published last.
pub struct Labels {
    labels: Vec<NameplateLabel>,
}

impl View for Labels {
    type V = Seq<NameplateLabel>;

    closed spec fn view(&self) -> Seq<NameplateLabel> {
        self.labels@
    }
}

/// No labels.
pub fn init() -> (cell: Labels)
    ensures
        cell@ == Seq::<NameplateLabel>::empty(),
{
    Labels { labels: Vec::new() }
}

/// Replaces the labels; nothing happens before the hand-over is set up.
pub fn publish(cell: Option<&mut Labels>, labels: Vec<NameplateLabel>)
    ensures
        cell matches Some(c) ==> final(c)@ == labels@,
{
    match cell {
        Some(c) => {
            c.labels = labels;
        },
        None => {},
    }
}

/// A copy of the labels, if a non-blocking attempt got hold of them.
pub fn snapshot(cell: Option<&Labels>) -> (labels: Option<Vec<NameplateLabel>>)
    ensures
        labels is Some == (cell is Some),
        cell matches Some(c) ==> labels->0@ == c@,
{
    match cell {
        None => None,
        Some(c) => {
            let mut copy: Vec<NameplateLabel> = Vec::new();
            let mut i: usize = 0;
            while i < c.labels.len()
                invariant
                    i <= c.labels@.len(),
                    copy@ == c.labels@.take(i as int),
                decreases c.labels@.len() - i,
            {
                let from = &c.labels[i];
                copy.push(
                    NameplateLabel {
                        ndc: from.ndc,
                        depth: from.depth,
                        color: from.color,
                        kind: from.kind,
                        text: from.text.clone(),
                    },
                );
                i = i + 1;
                assert(copy@ =~= c.labels@.take(i as int));
            }
            assert(copy@ =~= c.labels@);
            Some(copy)
        },
    }
}

} // verus!
