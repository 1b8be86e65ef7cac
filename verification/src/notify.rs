//! The notices shown over the game: short-lived toasts, and banners that stay until they are cleared.

use vstd::prelude::*;

use crate::text;

verus! {

/// How urgent a notice is.
#[derive(Clone, Copy, Debug, PartialEq, Eq, Structural)]
pub enum Severity {
    Info,
    Warning,
    Error,
}

/// A notice to show for a while.
#[derive(Debug)]
pub struct Toast {
    pub severity: Severity,
    pub message: String,
}

/// The severity and the characters of a toast.
pub struct ToastView {
    pub severity: Severity,
    pub message: Seq<char>,
}

impl View for Toast {
    type V = ToastView;

    open spec fn view(&self) -> ToastView {
        ToastView { severity: self.severity, message: self.message@ }
    }
}

/// A toast that is being shown.
#[derive(Debug)]
pub struct LiveToast {
    pub toast: Toast,
    /// Milliseconds it is still shown.
    pub remaining: u64,
    /// Milliseconds it is shown in all.
    pub duration: u64,
}

/// A toast with its remaining and whole life.
pub struct LiveToastView {
    pub toast: ToastView,
    pub remaining: nat,
    pub duration: nat,
}

impl View for LiveToast {
    type V = LiveToastView;

    open spec fn view(&self) -> LiveToastView {
        LiveToastView {
            toast: self.toast@,
            remaining: self.remaining as nat,
            duration: self.duration as nat,
        }
    }
}

/// A notice that stays until it is cleared.
#[derive(Debug)]
pub struct Banner {
    pub id: String,
    pub severity: Severity,
    pub message: String,
}

/// The characters of a banner.
pub struct BannerView {
    pub id: Seq<char>,
    pub severity: Severity,
    pub message: Seq<char>,
}

impl View for Banner {
    type V = BannerView;

    open spec fn view(&self) -> BannerView {
        BannerView { id: self.id@, severity: self.severity, message: self.message@ }
    }
}

/// Everything that is being shown.
#[derive(Debug)]
pub struct Notifications {
    banners: Vec<Banner>,
    toasts: Vec<LiveToast>,
}

/// The banners in the order they were first set, and the toasts in the order they were pushed.
#[verifier::ext_equal]
pub struct NotificationsView {
    pub banners: Seq<BannerView>,
    pub toasts: Seq<LiveToastView>,
}

pub open spec fn banners_view(banners: Seq<Banner>) -> Seq<BannerView> {
    Seq::new(banners.len(), |i: int| banners[i]@)
}

pub open spec fn toasts_view(toasts: Seq<LiveToast>) -> Seq<LiveToastView> {
    Seq::new(toasts.len(), |i: int| toasts[i]@)
}

impl View for Notifications {
    type V = NotificationsView;

    closed spec fn view(&self) -> NotificationsView {
        NotificationsView {
            banners: banners_view(self.banners@),
            toasts: toasts_view(self.toasts@),
        }
    }
}

/// The first position at or after `from` of the banner with this id, or the number of banners.
pub open spec fn banner_at(banners: Seq<BannerView>, id: Seq<char>, from: int) -> int
    decreases banners.len() - from,
{
    if from >= banners.len() {
        banners.len() as int
    } else if banners[from].id == id {
        from
    } else {
        banner_at(banners, id, from + 1)
    }
}

/// The banners with one set: in its place if it was there, else at the end.
pub open spec fn banner_set(banners: Seq<BannerView>, banner: BannerView) -> Seq<BannerView> {
    let at = banner_at(banners, banner.id, 0);
    if at < banners.len() {
        banners.update(at, banner)
    } else {
        banners.push(banner)
    }
}

/// The banners without the one of this id.
pub open spec fn banner_cleared(banners: Seq<BannerView>, id: Seq<char>) -> Seq<BannerView> {
    let at = banner_at(banners, id, 0);
    if at < banners.len() {
        banners.remove(at)
    } else {
        banners
    }
}

/// The toasts after `elapsed` milliseconds: each one older, those whose time is up gone.
pub open spec fn aged(toasts: Seq<LiveToastView>, elapsed: nat) -> Seq<LiveToastView>
    decreases toasts.len(),
{
    if toasts.len() == 0 {
        Seq::empty()
    } else {
        let before = aged(toasts.drop_last(), elapsed);
        let t = toasts.last();
        if t.remaining > elapsed {
            before.push(LiveToastView { remaining: (t.remaining - elapsed) as nat, ..t })
        } else {
            before
        }
    }
}

/// Nothing shown.
pub fn init() -> (notifications: Notifications)
    ensures
        notifications@ == (NotificationsView { banners: Seq::empty(), toasts: Seq::empty() }),
{
    let n = Notifications { banners: Vec::new(), toasts: Vec::new() };
    assert(n@ =~= (NotificationsView { banners: Seq::empty(), toasts: Seq::empty() }));
    n
}

impl Notifications {
    fn find(&self, id: &str) -> (at: usize)
        ensures
            at as int == banner_at(self@.banners, id@, 0),
            at <= self.banners@.len(),
    {
        let mut i: usize = 0;
        while i < self.banners.len()
            invariant
                i <= self.banners@.len(),
                banner_at(self@.banners, id@, 0) == banner_at(self@.banners, id@, i as int),
            decreases self.banners@.len() - i,
        {
            assert(self@.banners[i as int].id == self.banners@[i as int].id@);
            if text::same_text(self.banners[i].id.as_str(), id) {
                return i;
            }
            i = i + 1;
        }
        i
    }

    /// Whether there is nothing to draw.
    pub fn is_empty(&self) -> (empty: bool)
        ensures
            empty == (self@.banners.len() == 0 && self@.toasts.len() == 0),
    {
        self.banners.len() == 0 && self.toasts.len() == 0
    }

    /// The banners, in the order they were first set.
    pub fn banners(&self) -> (list: &Vec<Banner>)
        ensures
            banners_view(list@) == self@.banners,
    {
        &self.banners
    }

    /// The toasts, oldest first.
    pub fn toasts(&self) -> (list: &Vec<LiveToast>)
        ensures
            toasts_view(list@) == self@.toasts,
    {
        &self.toasts
    }

    /// Ages every toast by one frame and drops those whose time is up.
    pub fn tick(&mut self, elapsed: u64)
        ensures
            final(self)@ == (NotificationsView {
                toasts: aged(old(self)@.toasts, elapsed as nat),
                ..old(self)@
            }),
    {
        let ghost start = toasts_view(self.toasts@);
        let mut kept: Vec<LiveToast> = Vec::new();
        let mut rest: Vec<LiveToast> = Vec::new();
        rest.append(&mut self.toasts);
        let mut i: usize = 0;
        let n: usize = rest.len();
        assert(toasts_view(kept@) =~= aged(start.take(0), elapsed as nat));
        while i < n
            invariant
                i <= n,
                n == rest@.len(),
                start == toasts_view(rest@),
                toasts_view(kept@) == aged(start.take(i as int), elapsed as nat),
            decreases n - i,
        {
            let t = &rest[i];
            proof {
                let upto = start.take(i + 1);
                assert(upto.drop_last() =~= start.take(i as int));
                assert(upto.last() == rest@[i as int]@);
            }
            if t.remaining > elapsed {
                let ghost before = toasts_view(kept@);
                let copy = LiveToast {
                    toast: Toast { severity: t.toast.severity, message: t.toast.message.clone() },
                    remaining: t.remaining - elapsed,
                    duration: t.duration,
                };
                let ghost added = copy@;
                kept.push(copy);
                assert(toasts_view(kept@) =~= before.push(added));
            }
            i = i + 1;
        }
        assert(start.take(n as int) =~= start);
        self.toasts = kept;
        assert(self@ =~= (NotificationsView {
            toasts: aged(start, elapsed as nat),
            ..old(self)@
        }));
    }
}

/// Shows a toast for `lifetime` milliseconds; nothing happens before the notifications are set up.
pub fn toast(board: Option<&mut Notifications>, severity: Severity, message: &str, lifetime: u64)
    ensures
        board matches Some(n) ==> final(n)@ == (NotificationsView {
            toasts: (*n)@.toasts.push(
                LiveToastView {
                    toast: ToastView { severity, message: message@ },
                    remaining: lifetime as nat,
                    duration: lifetime as nat,
                },
            ),
            ..(*n)@
        }),
{
    match board {
        Some(n) => {
            let ghost start = n@;
            let live = LiveToast {
                toast: Toast { severity, message: message.to_owned() },
                remaining: lifetime,
                duration: lifetime,
            };
            let ghost added = live@;
            n.toasts.push(live);
            assert(toasts_view(n.toasts@) =~= start.toasts.push(added));
        },
        None => {},
    }
}

/// Sets the banner under `id`, or updates it in its place.
pub fn set_banner(board: Option<&mut Notifications>, id: &str, severity: Severity, message: &str)
    ensures
        board matches Some(n) ==> final(n)@ == (NotificationsView {
            banners: banner_set(
                (*n)@.banners,
                BannerView { id: id@, severity, message: message@ },
            ),
            ..(*n)@
        }),
{
    match board {
        Some(n) => {
            let ghost start = n@;
            let at: usize = n.find(id);
            let banner = Banner { id: id.to_owned(), severity, message: message.to_owned() };
            let ghost shown = banner@;
            if at < n.banners.len() {
                n.banners.set(at, banner);
                assert(banners_view(n.banners@) =~= start.banners.update(at as int, shown));
            } else {
                n.banners.push(banner);
                assert(banners_view(n.banners@) =~= start.banners.push(shown));
            }
        },
        None => {},
    }
}

/// Clears the banner under `id`; nothing happens if it is not set.
pub fn clear_banner(board: Option<&mut Notifications>, id: &str)
    ensures
        board matches Some(n) ==> final(n)@ == (NotificationsView {
            banners: banner_cleared((*n)@.banners, id@),
            ..(*n)@
        }),
{
    match board {
        Some(n) => {
            let ghost start = n@;
            let at: usize = n.find(id);
            if at < n.banners.len() {
                let _ = n.banners.remove(at);
                assert(banners_view(n.banners@) =~= start.banners.remove(at as int));
            }
        },
        None => {},
    }
}

/// No two banners have one id.
pub open spec fn ids_differ(banners: Seq<BannerView>) -> bool {
    forall|i: int, j: int|
        0 <= i < j < banners.len() ==> (#[trigger] banners[i]).id != (#[trigger] banners[j]).id
}

pub proof fn position_is_first(banners: Seq<BannerView>, id: Seq<char>, from: int)
    requires
        0 <= from <= banners.len(),
    ensures
        from <= banner_at(banners, id, from) <= banners.len(),
        banner_at(banners, id, from) < banners.len() ==> banners[banner_at(banners, id, from)].id
            == id,
        forall|k: int| from <= k < banner_at(banners, id, from) ==> banners[k].id != id,
    decreases banners.len() - from,
{
    if from < banners.len() && banners[from].id != id {
        position_is_first(banners, id, from + 1);
    }
}

/// Setting a banner and clearing it leave at most one banner under each id; a banner that is set is
/// there, and one that is cleared is gone.
pub proof fn banners_have_one_per_id(banners: Seq<BannerView>, banner: BannerView)
    requires
        ids_differ(banners),
    ensures
        ids_differ(banner_set(banners, banner)),
        banner_set(banners, banner).contains(banner),
        ids_differ(banner_cleared(banners, banner.id)),
        forall|k: int|
            0 <= k < banner_cleared(banners, banner.id).len() ==> (#[trigger] banner_cleared(
                banners,
                banner.id,
            )[k]).id != banner.id,
{
    position_is_first(banners, banner.id, 0);
    let at = banner_at(banners, banner.id, 0);
    let set = banner_set(banners, banner);
    if at < banners.len() {
        assert(set[at] == banner);
    } else {
        assert(set[banners.len() as int] == banner);
    }
}

/// A toast whose time is not up yet stays, as much older as time went by and otherwise the same; one whose time
/// is up is gone.
pub proof fn toasts_live_their_time(toasts: Seq<LiveToastView>, elapsed: nat)
    ensures
        forall|i: int|
            0 <= i < toasts.len() && (#[trigger] toasts[i]).remaining > elapsed ==> aged(
                toasts,
                elapsed,
            ).contains(
                LiveToastView {
                    toast: toasts[i].toast,
                    remaining: (toasts[i].remaining - elapsed) as nat,
                    duration: toasts[i].duration,
                },
            ),
        forall|k: int|
            0 <= k < aged(toasts, elapsed).len() ==> exists|i: int|
                0 <= i < toasts.len() && (#[trigger] toasts[i]).remaining == (#[trigger] aged(
                    toasts,
                    elapsed,
                )[k]).remaining + elapsed && toasts[i].toast == aged(toasts, elapsed)[k].toast
                    && toasts[i].duration == aged(toasts, elapsed)[k].duration,
        forall|k: int|
            0 <= k < aged(toasts, elapsed).len() ==> (#[trigger] aged(toasts, elapsed)[k]).remaining
                > 0,
        (forall|i: int| 0 <= i < toasts.len() ==> (#[trigger] toasts[i]).remaining > elapsed)
            ==> aged(toasts, elapsed).len() == toasts.len(),
    decreases toasts.len(),
{
    if toasts.len() > 0 {
        let rest = toasts.drop_last();
        toasts_live_their_time(rest, elapsed);
        let before = aged(rest, elapsed);
        let now = aged(toasts, elapsed);
        assert forall|i: int| 0 <= i < toasts.len() && (#[trigger] toasts[i]).remaining
            > elapsed implies now.contains(
            LiveToastView {
                toast: toasts[i].toast,
                remaining: (toasts[i].remaining - elapsed) as nat,
                duration: toasts[i].duration,
            },
        ) by {
            let t = LiveToastView {
                toast: toasts[i].toast,
                remaining: (toasts[i].remaining - elapsed) as nat,
                duration: toasts[i].duration,
            };
            if i < toasts.len() - 1 {
                assert(rest[i] == toasts[i]);
                assert(before.contains(t));
                let j = choose|j: int| 0 <= j < before.len() && before[j] == t;
                assert(now[j] == t);
            } else {
                assert(now[before.len() as int] == t);
            }
        }
        assert forall|k: int| 0 <= k < now.len() implies (exists|i: int|
            0 <= i < toasts.len() && (#[trigger] toasts[i]).remaining == (#[trigger] now[k]).remaining
                + elapsed && toasts[i].toast == now[k].toast && toasts[i].duration
                == now[k].duration) && now[k].remaining > 0 by {
            if k < before.len() {
                assert(before[k] == now[k]);
                let i = choose|i: int|
                    0 <= i < rest.len() && (#[trigger] rest[i]).remaining == before[k].remaining
                        + elapsed && rest[i].toast == before[k].toast && rest[i].duration
                        == before[k].duration;
                assert(toasts[i] == rest[i]);
            } else {
                assert(toasts[toasts.len() - 1].remaining > elapsed);
            }
        }
        if forall|i: int| 0 <= i < toasts.len() ==> (#[trigger] toasts[i]).remaining > elapsed {
            assert(toasts[toasts.len() - 1].remaining > elapsed);
            assert forall|i: int| 0 <= i < rest.len() implies (#[trigger] rest[i]).remaining
                > elapsed by {
                assert(rest[i] == toasts[i]);
            }
        }
    }
}

/// Time that goes by in two steps is the time that goes by in one.
pub proof fn ageing_adds_up(toasts: Seq<LiveToastView>, a: nat, b: nat)
    ensures
        aged(aged(toasts, a), b) == aged(toasts, a + b),
        aged(toasts, 0).len() <= toasts.len(),
    decreases toasts.len(),
{
    if toasts.len() > 0 {
        ageing_adds_up(toasts.drop_last(), a, b);
        let before = aged(toasts.drop_last(), a);
        let t = toasts.last();
        if t.remaining > a {
            let now = before.push(LiveToastView { remaining: (t.remaining - a) as nat, ..t });
            assert(now.drop_last() =~= before);
        }
    }
}

/// Setting a banner leaves every other banner in its place, and so does clearing one leave every other banner.
pub proof fn other_banners_are_left_alone(
    banners: Seq<BannerView>,
    banner: BannerView,
    other: BannerView,
)
    requires
        ids_differ(banners),
        other.id != banner.id,
    ensures
        banner_set(banners, banner).contains(other) == banners.contains(other),
        banner_cleared(banners, banner.id).contains(other) == banners.contains(other),
        forall|i: int|
            0 <= i < banners.len() && (#[trigger] banners[i]).id != banner.id ==> banner_set(
                banners,
                banner,
            )[i] == banners[i],
        banners.len() <= banner_set(banners, banner).len() <= banners.len() + 1,
{
    position_is_first(banners, banner.id, 0);
    let at = banner_at(banners, banner.id, 0);
    let set = banner_set(banners, banner);
    let cleared = banner_cleared(banners, banner.id);
    if banners.contains(other) {
        let i = choose|i: int| 0 <= i < banners.len() && banners[i] == other;
        assert(set[i] == other);
        if at < banners.len() {
            if i < at {
                assert(cleared[i] == other);
            } else {
                assert(cleared[i - 1] == other);
            }
        }
    }
    if set.contains(other) {
        let i = choose|i: int| 0 <= i < set.len() && set[i] == other;
        assert(banners[i] == other);
    }
    if cleared.contains(other) {
        let i = choose|i: int| 0 <= i < cleared.len() && cleared[i] == other;
        if at < banners.len() && i >= at {
            assert(banners[i + 1] == other);
        } else {
            assert(banners[i] == other);
        }
    }
}

} // verus!
