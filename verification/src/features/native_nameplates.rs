//! Marks over the heads of the players, drawn by the game itself: who gets one.

use vstd::prelude::*;

use crate::levels::{Level, LogLine, LogLineView};

verus! {

/// A place for a character in one of the game's sets.
#[derive(Clone, Copy, Debug, PartialEq, Eq, Structural)]
pub struct ChrEntry {
    /// Whether the character is fully loaded.
    pub active: bool,
    /// The address of the character, if there is one.
    pub address: Option<u64>,
}

impl ChrEntry {
    /// Whether there is a character that may be looked at.
    pub open spec fn usable(self) -> bool {
        self.active && self.address is Some
    }
}

/// The characters among the first `n` places that may be looked at.
pub open spec fn loaded(entries: Seq<ChrEntry>, n: nat) -> Seq<u64>
    decreases n,
{
    if n == 0 {
        Seq::empty()
    } else {
        let before = loaded(entries, (n - 1) as nat);
        if entries[n - 1].usable() {
            before.push(entries[n - 1].address->0)
        } else {
            before
        }
    }
}

/// The fully loaded characters of a set, in order. One that is still joining or already leaving is not
/// wired up and must not be looked at.
pub fn active_characters(entries: &Vec<ChrEntry>) -> (list: Vec<u64>)
    ensures
        list@ == loaded(entries@, entries@.len()),
{
    let mut list: Vec<u64> = Vec::new();
    let mut i: usize = 0;
    while i < entries.len()
        invariant
            i <= entries@.len(),
            list@ == loaded(entries@, i as nat),
        decreases entries@.len() - i,
    {
        let e = entries[i];
        if e.active {
            match e.address {
                Some(a) => list.push(a),
                None => {},
            }
        }
        i = i + 1;
    }
    list
}

/// A character that is not fully loaded is never handed out.
pub proof fn only_loaded_characters(entries: Seq<ChrEntry>, n: nat, k: int)
    requires
        n <= entries.len(),
        0 <= k < loaded(entries, n).len(),
    ensures
        exists|i: int|
            0 <= i < n && (#[trigger] entries[i]).usable() && entries[i].address == Some(
                loaded(entries, n)[k],
            ),
    decreases n,
{
    if n > 0 {
        let before = loaded(entries, (n - 1) as nat);
        if k < before.len() {
            only_loaded_characters(entries, (n - 1) as nat, k);
        } else {
            assert(entries[n - 1].usable());
        }
    }
}

/// The local player.
#[derive(Clone, Copy, Debug, PartialEq, Eq, Structural)]
pub struct OwnChr {
    pub address: u64,
    pub active: bool,
}

/// Whose head is marked.
#[derive(Clone, Copy, Debug, PartialEq, Eq, Structural)]
pub enum Marker {
    /// The local player's.
    Own,
    /// A peer's, known by address; the address also picks its colour.
    Peer(u64),
}

/// The markers of the peers among the first `n` characters.
pub open spec fn peer_markers(chars: Seq<u64>, own: Option<u64>, n: nat) -> Seq<Marker>
    decreases n,
{
    if n == 0 {
        Seq::empty()
    } else {
        let before = peer_markers(chars, own, (n - 1) as nat);
        if own == Some(chars[n - 1]) {
            before
        } else {
            before.push(Marker::Peer(chars[n - 1]))
        }
    }
}

/// The local player's marker, if they are fully loaded.
pub open spec fn own_marker(own: Option<OwnChr>) -> Seq<Marker> {
    match own {
        Some(o) => if o.active {
            seq![Marker::Own]
        } else {
            Seq::empty()
        },
        None => Seq::empty(),
    }
}

/// The address of the local player.
pub open spec fn own_address(own: Option<OwnChr>) -> Option<u64> {
    match own {
        Some(o) => Some(o.address),
        None => None,
    }
}

/// Who is marked: the local player first, then every other player, none of them twice.
pub fn gather(own: Option<OwnChr>, chars: &Vec<u64>) -> (markers: Vec<Marker>)
    ensures
        markers@ == own_marker(own) + peer_markers(chars@, own_address(own), chars@.len()),
{
    let mut markers: Vec<Marker> = Vec::new();
    let address: Option<u64> = match own {
        Some(o) => {
            if o.active {
                markers.push(Marker::Own);
            }
            Some(o.address)
        },
        None => None,
    };
    let ghost first = markers@;
    assert(first =~= own_marker(own));
    let mut i: usize = 0;
    assert(first + peer_markers(chars@, address, 0) =~= first);
    while i < chars.len()
        invariant
            i <= chars@.len(),
            markers@ == first + peer_markers(chars@, address, i as nat),
        decreases chars@.len() - i,
    {
        let ghost before = peer_markers(chars@, address, i as nat);
        let own_one = match address {
            Some(a) => a == chars[i],
            None => false,
        };
        if !own_one {
            markers.push(Marker::Peer(chars[i]));
            assert(markers@ =~= first + before.push(Marker::Peer(chars@[i as int])));
        }
        i = i + 1;
    }
    markers
}

/// The local player is never marked as a peer.
pub proof fn oneself_is_no_peer(chars: Seq<u64>, own: u64, n: nat, k: int)
    requires
        n <= chars.len(),
        0 <= k < peer_markers(chars, Some(own), n).len(),
    ensures
        peer_markers(chars, Some(own), n)[k] != Marker::Peer(own),
    decreases n,
{
    if n > 0 {
        let before = peer_markers(chars, Some(own), (n - 1) as nat);
        if k < before.len() {
            oneself_is_no_peer(chars, own, (n - 1) as nat, k);
        }
    }
}

/// The feature; it remembers the switch as it was seen last.
#[derive(Clone, Copy, Debug, PartialEq, Eq, Structural)]
pub struct NativeNameplates {
    pub active: Option<bool>,
}

impl NativeNameplates {
    /// Nothing seen yet.
    pub fn new() -> (feature: NativeNameplates)
        ensures
            feature.active is None,
    {
        NativeNameplates { active: None }
    }

    /// Follows the switch; a change is logged, once.
    pub fn on_switch(&mut self, enabled: bool) -> (line: Option<LogLine>)
        ensures
            final(self).active == Some(enabled),
            line is Some == (old(self).active != Some(enabled)),
            line is Some ==> line->0@ == (LogLineView {
                level: Level::Debug,
                text: if enabled {
                    "native nameplates enabled"@
                } else {
                    "native nameplates disabled"@
                },
            }),
    {
        let same = match self.active {
            Some(a) => a == enabled,
            None => false,
        };
        self.active = Some(enabled);
        if same {
            return None;
        }
        let text = if enabled {
            "native nameplates enabled".to_owned()
        } else {
            "native nameplates disabled".to_owned()
        };
        Some(LogLine { level: Level::Debug, text })
    }
}

/// Every character that is active and has an address is listed, and their number is never more than there are
/// entries.
pub proof fn every_loaded_character_is_listed(entries: Seq<ChrEntry>, n: nat)
    requires
        n <= entries.len(),
    ensures
        loaded(entries, n).len() <= n,
        forall|i: int|
            0 <= i < n && (#[trigger] entries[i]).active && entries[i].address is Some ==> loaded(
                entries,
                n,
            ).contains(entries[i].address->0),
        (forall|i: int| 0 <= i < n ==> !(#[trigger] entries[i]).active) ==> loaded(
            entries,
            n,
        ).len() == 0,
        (forall|i: int| 0 <= i < n ==> (#[trigger] entries[i]).address is None) ==> loaded(
            entries,
            n,
        ).len() == 0,
    decreases n,
{
    if n > 0 {
        every_loaded_character_is_listed(entries, (n - 1) as nat);
        let before = loaded(entries, (n - 1) as nat);
        let now = loaded(entries, n);
        assert forall|i: int|
            0 <= i < n && (#[trigger] entries[i]).active
                && entries[i].address is Some implies now.contains(entries[i].address->0) by {
            if i < n - 1 {
                assert(before.contains(entries[i].address->0));
                let j = choose|j: int| 0 <= j < before.len() && before[j] == entries[i].address->0;
                assert(now[j] == entries[i].address->0);
            } else {
                assert(now[before.len() as int] == entries[i].address->0);
            }
        }
    }
}

/// Every character but one's own is marked as a peer, and none that is not in the list.
pub proof fn everyone_else_is_marked(chars: Seq<u64>, own: Option<u64>, n: nat)
    requires
        n <= chars.len(),
    ensures
        peer_markers(chars, own, n).len() <= n,
        own is None ==> peer_markers(chars, own, n).len() == n,
        forall|i: int|
            0 <= i < n && Some(#[trigger] chars[i]) != own ==> peer_markers(
                chars,
                own,
                n,
            ).contains(Marker::Peer(chars[i])),
        forall|k: int|
            0 <= k < peer_markers(chars, own, n).len() ==> (#[trigger] peer_markers(
                chars,
                own,
                n,
            )[k]) is Peer && chars.contains(peer_markers(chars, own, n)[k]->Peer_0),
    decreases n,
{
    if n > 0 {
        everyone_else_is_marked(chars, own, (n - 1) as nat);
        let before = peer_markers(chars, own, (n - 1) as nat);
        let now = peer_markers(chars, own, n);
        assert forall|i: int| 0 <= i < n && Some(#[trigger] chars[i]) != own implies now.contains(
            Marker::Peer(chars[i]),
        ) by {
            if i < n - 1 {
                assert(before.contains(Marker::Peer(chars[i])));
                let j = choose|j: int| 0 <= j < before.len() && before[j] == Marker::Peer(chars[i]);
                assert(now[j] == Marker::Peer(chars[i]));
            } else {
                assert(now[before.len() as int] == Marker::Peer(chars[i]));
            }
        }
        assert forall|k: int| 0 <= k < now.len() implies (#[trigger] now[k]) is Peer
            && chars.contains(now[k]->Peer_0) by {
            if k < before.len() {
                assert(before[k] == now[k]);
            } else {
                assert(chars[n - 1] == now[k]->Peer_0);
            }
        }
    }
}

/// One's own character is marked once while it is active, and not at all otherwise.
pub proof fn oneself_is_marked_while_active(address: u64)
    ensures
        own_marker(Some(OwnChr { address, active: true })) == seq![Marker::Own],
        own_marker(Some(OwnChr { address, active: false })).len() == 0,
        own_marker(None).len() == 0,
        own_address(Some(OwnChr { address, active: true })) == Some(address),
        own_address(Some(OwnChr { address, active: false })) == Some(address),
        own_address(None) is None,
{
}

} // verus!
