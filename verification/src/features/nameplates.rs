//! Labels over the heads of the peers: who gets one, under which name, and whether it is a plate, a mark
//! at the border of the screen, or nothing. What the projection finds out is handed in.

use vstd::prelude::*;

use crate::levels::{Level, LogLine, LogLineView};
use crate::nameplates;
use crate::nameplates::{Labels, NameplateKind, NameplateLabel};
use crate::text;
use crate::text::{dec, texts};

verus! {

/// The feature; it remembers whether it was active when it was looked at last.
#[derive(Clone, Copy, Debug, PartialEq, Eq, Structural)]
pub struct Nameplates {
    pub active: Option<bool>,
}

impl Nameplates {
    /// Nothing seen yet.
    pub fn new() -> (feature: Nameplates)
        ensures
            feature.active is None,
    {
        Nameplates { active: None }
    }

    /// Follows the switch: labels are shown if they are enabled and anything is chosen to be shown
    /// overhead. A change is logged, once; when it goes off, what is on the screen is taken down.
    pub fn on_switch(&mut self, enabled: bool, shows_nothing: bool, cell: Option<&mut Labels>) -> (
    line: Option<LogLine>)
        ensures
            ({
                let active = enabled && !shows_nothing;
                let changed = old(self).active != Some(active);
                &&& final(self).active == Some(active)
                &&& line is Some == changed
                &&& changed ==> line->0@ == (LogLineView {
                    level: Level::Debug,
                    text: if active {
                        "nameplates enabled"@
                    } else {
                        "nameplates disabled"@
                    },
                })
                &&& cell matches Some(c) ==> final(c)@ == (if changed && !active {
                    Seq::<NameplateLabel>::empty()
                } else {
                    (*c)@
                })
            }),
    {
        let active = enabled && !shows_nothing;
        let same = match self.active {
            Some(a) => a == active,
            None => false,
        };
        self.active = Some(active);
        if same {
            return None;
        }
        if active {
            Some(LogLine { level: Level::Debug, text: "nameplates enabled".to_owned() })
        } else {
            nameplates::publish(cell, Vec::new());
            Some(LogLine { level: Level::Debug, text: "nameplates disabled".to_owned() })
        }
    }
}

/// The peers among the first `n` characters: everyone but the local player.
pub open spec fn peers(chars: Seq<u64>, own: Option<u64>, n: nat) -> Seq<u64>
    decreases n,
{
    if n == 0 {
        Seq::empty()
    } else {
        let before = peers(chars, own, (n - 1) as nat);
        if own == Some(chars[n - 1]) {
            before
        } else {
            before.push(chars[n - 1])
        }
    }
}

/// The peers, in order.
pub fn peer_list(chars: &Vec<u64>, own: Option<u64>) -> (list: Vec<u64>)
    ensures
        list@ == peers(chars@, own, chars@.len()),
{
    let mut list: Vec<u64> = Vec::new();
    let mut i: usize = 0;
    while i < chars.len()
        invariant
            i <= chars@.len(),
            list@ == peers(chars@, own, i as nat),
        decreases chars@.len() - i,
    {
        let own_one = match own {
            Some(a) => a == chars[i],
            None => false,
        };
        if !own_one {
            list.push(chars[i]);
        }
        i = i + 1;
    }
    list
}

/// The names of the peers: they are numbered from one.
pub open spec fn peer_names(n: nat) -> Seq<Seq<char>> {
    Seq::new(n, |i: int| "Player "@ + dec((i + 1) as nat))
}

/// The names of so many peers.
pub fn placeholder_names(n: u32) -> (names: Vec<String>)
    ensures
        texts(names@) == peer_names(n as nat),
{
    let mut names: Vec<String> = Vec::new();
    let mut i: u32 = 0;
    assert(texts(names@) =~= peer_names(0));
    while i < n
        invariant
            i <= n,
            texts(names@) == peer_names(i as nat),
        decreases n - i,
    {
        let ghost before = texts(names@);
        let mut name = "Player ".to_owned();
        name.append(text::dec_text(i as u64 + 1).as_str());
        let ghost chars = name@;
        names.push(name);
        assert(texts(names@) =~= before.push(chars));
        i = i + 1;
        assert(peer_names(i as nat) =~= before.push(chars));
    }
    names
}

/// What the projection found out about one character. Numbers are carried as their bit patterns.
#[derive(Clone, Copy, Debug)]
pub struct Projection {
    /// The distance is a number, and no more than the limit.
    pub in_range: bool,
    /// The character is in front of the camera and on the screen.
    pub on_screen: bool,
    /// Where it is on the screen, and how deep.
    pub point: (u32, u32),
    pub depth: u32,
    /// Where the mark at the border is, and the distance.
    pub edge: (u32, u32),
    pub distance: u32,
}

/// The label of one character, if it has one.
pub open spec fn placed(
    p: Projection,
    color: (u32, u32, u32),
    text: String,
) -> Option<NameplateLabel> {
    if !p.in_range {
        None
    } else if p.on_screen {
        Some(
            NameplateLabel {
                ndc: p.point,
                depth: p.depth,
                color,
                kind: NameplateKind::Plate,
                text,
            },
        )
    } else {
        Some(
            NameplateLabel {
                ndc: p.edge,
                depth: p.distance,
                color,
                kind: NameplateKind::Edge,
                text,
            },
        )
    }
}

/// Adds the label of one character: nothing for one that is too far away, a plate for one on the screen,
/// a mark at the border for any other.
pub fn push_label(
    labels: &mut Vec<NameplateLabel>,
    p: Projection,
    color: (u32, u32, u32),
    text: String,
)
    ensures
        final(labels)@ == (match placed(p, color, text) {
            Some(label) => old(labels)@.push(label),
            None => old(labels)@,
        }),
{
    if !p.in_range {
        return;
    }
    if p.on_screen {
        labels.push(
            NameplateLabel {
                ndc: p.point,
                depth: p.depth,
                color,
                kind: NameplateKind::Plate,
                text,
            },
        );
    } else {
        labels.push(
            NameplateLabel {
                ndc: p.edge,
                depth: p.distance,
                color,
                kind: NameplateKind::Edge,
                text,
            },
        );
    }
}

/// One character to label.
#[derive(Debug)]
pub struct Candidate {
    pub projection: Projection,
    pub color: (u32, u32, u32),
    /// What is written; nothing for a peer of whom nothing is to be shown.
    pub text: Option<String>,
}

/// The labels of the first `n` candidates.
pub open spec fn labels_of(list: Seq<Candidate>, n: nat) -> Seq<NameplateLabel>
    decreases n,
{
    if n == 0 {
        Seq::empty()
    } else {
        let before = labels_of(list, (n - 1) as nat);
        match list[n - 1].text {
            Some(t) => match placed(list[n - 1].projection, list[n - 1].color, t) {
                Some(label) => before.push(label),
                None => before,
            },
            None => before,
        }
    }
}

/// The labels of this frame: the peers', then the local player's own where it is asked for (`own`).
pub fn gather_labels(list: &Vec<Candidate>, own: Option<&Candidate>) -> (labels: Vec<NameplateLabel>)
    ensures
        labels@ == (match own {
            Some(o) => labels_of(list@.push(*o), (list@.len() + 1) as nat),
            None => labels_of(list@, list@.len()),
        }),
{
    let mut labels: Vec<NameplateLabel> = Vec::new();
    let mut i: usize = 0;
    while i < list.len()
        invariant
            i <= list@.len(),
            labels@ == labels_of(list@, i as nat),
        decreases list@.len() - i,
    {
        let c = &list[i];
        match &c.text {
            Some(t) => push_label(&mut labels, c.projection, c.color, t.clone()),
            None => {},
        }
        i = i + 1;
    }
    match own {
        Some(o) => {
            proof {
                labels_of_prefix(list@, *o, list@.len());
            }
            match &o.text {
                Some(t) => push_label(&mut labels, o.projection, o.color, t.clone()),
                None => {},
            }
        },
        None => {},
    }
    labels
}

proof fn labels_of_prefix(list: Seq<Candidate>, last: Candidate, n: nat)
    requires
        n <= list.len(),
    ensures
        labels_of(list.push(last), n) == labels_of(list, n),
    decreases n,
{
    if n > 0 {
        labels_of_prefix(list, last, (n - 1) as nat);
    }
}

/// Publishes the labels of a frame, none too: whoever is not among them is taken off the screen.
pub fn publish_frame(cell: Option<&mut Labels>, labels: Option<Vec<NameplateLabel>>)
    ensures
        cell matches Some(c) ==> final(c)@ == (match labels {
            Some(l) => l@,
            None => Seq::<NameplateLabel>::empty(),
        }),
{
    match labels {
        Some(l) => nameplates::publish(cell, l),
        None => nameplates::publish(cell, Vec::new()),
    }
}

/// A character out of range is not labelled at all, wherever it is.
pub proof fn out_of_range_is_not_labelled(p: Projection, color: (u32, u32, u32), text: String)
    requires
        !p.in_range,
    ensures
        placed(p, color, text) is None,
{
}

/// Everyone but oneself is a peer, in the order of the list; without an own character everyone is.
pub proof fn everyone_else_is_a_peer(chars: Seq<u64>, own: Option<u64>, n: nat)
    requires
        n <= chars.len(),
    ensures
        forall|i: int|
            0 <= i < n && Some(#[trigger] chars[i]) != own ==> peers(chars, own, n).contains(
                chars[i],
            ),
        forall|k: int|
            0 <= k < peers(chars, own, n).len() ==> Some(#[trigger] peers(chars, own, n)[k]) != own
                && chars.contains(peers(chars, own, n)[k]),
        own is None ==> peers(chars, own, n) == chars.take(n as int),
        (forall|i: int| 0 <= i < n ==> Some(#[trigger] chars[i]) != own) ==> peers(chars, own, n)
            == chars.take(n as int),
    decreases n,
{
    if n > 0 {
        everyone_else_is_a_peer(chars, own, (n - 1) as nat);
        let before = peers(chars, own, (n - 1) as nat);
        let now = peers(chars, own, n);
        assert forall|i: int| 0 <= i < n && Some(#[trigger] chars[i]) != own implies now.contains(
            chars[i],
        ) by {
            if i < n - 1 {
                assert(before.contains(chars[i]));
                let j = choose|j: int| 0 <= j < before.len() && before[j] == chars[i];
                assert(now[j] == chars[i]);
            } else {
                assert(now[before.len() as int] == chars[i]);
            }
        }
        assert forall|k: int| 0 <= k < now.len() implies Some(#[trigger] now[k]) != own
            && chars.contains(now[k]) by {
            if k < before.len() {
                assert(before[k] == now[k]);
            } else {
                assert(chars[n - 1] == now[k]);
            }
        }
        if forall|i: int| 0 <= i < n ==> Some(#[trigger] chars[i]) != own {
            assert(Some(chars[n - 1]) != own);
            assert(now =~= chars.take(n as int));
        }
        if own is None {
            assert(now =~= chars.take(n as int));
        }
    } else {
        assert(peers(chars, own, n) =~= chars.take(0));
    }
}

/// A head in range is always labelled, in its colour and under its name: at its point while it is on the screen,
/// at the border while it is not.
pub proof fn a_head_in_range_is_labelled(p: Projection, color: (u32, u32, u32), text: String)
    requires
        p.in_range,
    ensures
        placed(p, color, text) is Some,
        placed(p, color, text)->0.text == text,
        placed(p, color, text)->0.color == color,
        p.on_screen ==> placed(p, color, text)->0.kind == NameplateKind::Plate && placed(
            p,
            color,
            text,
        )->0.ndc == p.point && placed(p, color, text)->0.depth == p.depth,
        !p.on_screen ==> placed(p, color, text)->0.kind == NameplateKind::Edge && placed(
            p,
            color,
            text,
        )->0.ndc == p.edge && placed(p, color, text)->0.depth == p.distance,
{
}

/// Every candidate in range that has a text gets its label; one without a text gets none.
pub proof fn every_named_head_in_range_gets_its_label(list: Seq<Candidate>, n: nat)
    requires
        n <= list.len(),
    ensures
        labels_of(list, n).len() <= n,
        forall|i: int|
            0 <= i < n && (#[trigger] list[i]).text is Some && list[i].projection.in_range
                ==> labels_of(list, n).contains(
                placed(list[i].projection, list[i].color, list[i].text->0)->0,
            ),
        (forall|i: int| 0 <= i < n ==> (#[trigger] list[i]).text is None) ==> labels_of(
            list,
            n,
        ).len() == 0,
    decreases n,
{
    if n > 0 {
        every_named_head_in_range_gets_its_label(list, (n - 1) as nat);
        let before = labels_of(list, (n - 1) as nat);
        let now = labels_of(list, n);
        assert forall|i: int|
            0 <= i < n && (#[trigger] list[i]).text is Some
                && list[i].projection.in_range implies now.contains(
            placed(list[i].projection, list[i].color, list[i].text->0)->0,
        ) by {
            let label = placed(list[i].projection, list[i].color, list[i].text->0)->0;
            if i < n - 1 {
                assert(before.contains(label));
                let j = choose|j: int| 0 <= j < before.len() && before[j] == label;
                assert(now[j] == label);
            } else {
                assert(now[before.len() as int] == label);
            }
        }
    }
}

/// The placeholder names count the peers from one.
pub proof fn peers_are_counted_from_one(n: nat, i: int)
    requires
        0 <= i < n,
    ensures
        peer_names(n).len() == n,
        peer_names(n)[0] == "Player "@ + dec(1),
        peer_names(n)[i] == "Player "@ + dec((i + 1) as nat),
{
}

} // verus!
