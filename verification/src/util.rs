//! Small shared mechanics: bounded first-in-first-out queues and the classification of a value that is
//! held into the game.

use std::collections::VecDeque;

use vstd::prelude::*;

verus! {

/// The queue with `item` at its end; at the cap the oldest items make room for it.
pub open spec fn pushed_capped<T>(q: Seq<T>, item: T, cap: nat) -> Seq<T> {
    if q.len() < cap {
        q.push(item)
    } else {
        q.skip(q.len() - cap + 1).push(item)
    }
}

/// The queue after several items were pushed in order.
pub open spec fn pushed_all<T>(q: Seq<T>, items: Seq<T>, cap: nat) -> Seq<T>
    decreases items.len(),
{
    if items.len() == 0 {
        q
    } else {
        pushed_capped(pushed_all(q, items.drop_last(), cap), items.last(), cap)
    }
}

/// The last `n` elements of a sequence, or all of them.
pub open spec fn newest<T>(s: Seq<T>, n: nat) -> Seq<T> {
    if s.len() <= n {
        s
    } else {
        s.skip(s.len() - n)
    }
}

/// Appends an item, evicting the oldest while the queue is at its cap.
pub fn push_capped<T>(q: &mut VecDeque<T>, item: T, cap: usize)
    requires
        cap >= 1,
    ensures
        final(q)@ == pushed_capped(old(q)@, item, cap as nat),
        final(q)@.len() <= cap,
{
    let ghost start = q@;
    let ghost mut gone: int = 0;
    while q.len() >= cap
        invariant
            cap >= 1,
            0 <= gone <= start.len(),
            gone == 0 || start.len() - gone >= cap - 1,
            q@ == start.skip(gone),
        decreases q@.len(),
    {
        let _ = q.pop_front();
        proof {
            gone = gone + 1;
            assert(q@ =~= start.skip(gone));
        }
    }
    q.push_back(item);
    proof {
        if start.len() < cap {
            assert(gone == 0);
            assert(start.skip(0) =~= start);
        } else {
            assert(gone == start.len() - cap + 1);
        }
    }
}

/// Takes every item out of a queue, oldest first.
pub fn drain_all<T>(q: &mut VecDeque<T>) -> (items: Vec<T>)
    ensures
        items@ == old(q)@,
        final(q)@ == Seq::<T>::empty(),
{
    let mut items: Vec<T> = Vec::new();
    let ghost start = q@;
    assert(items@ + q@ =~= start);
    while q.len() > 0
        invariant
            items@ + q@ == start,
        decreases q@.len(),
    {
        let ghost before = q@;
        match q.pop_front() {
            Some(item) => {
                items.push(item);
                assert(items@ + q@ =~= items@.drop_last() + before);
            },
            None => {},
        }
    }
    assert(items@ =~= start);
    items
}

/// However many items are pushed, a queue holds the newest of all that was ever pushed, in order, up
/// to its cap.
pub proof fn queue_keeps_the_newest<T>(q: Seq<T>, items: Seq<T>, cap: nat)
    requires
        cap >= 1,
        q.len() <= cap,
    ensures
        pushed_all(q, items, cap) == newest(q + items, cap),
        pushed_all(q, items, cap).len() <= cap,
    decreases items.len(),
{
    if items.len() == 0 {
        assert(q + items =~= q);
    } else {
        let rest = items.drop_last();
        queue_keeps_the_newest(q, rest, cap);
        assert(q + items =~= (q + rest).push(items.last()));
        let whole = (q + rest).push(items.last());
        if (q + rest).len() < cap {
            assert(pushed_all(q, items, cap) =~= newest(whole, cap));
        } else {
            assert(pushed_all(q, items, cap) =~= newest(whole, cap));
        }
    }
}

/// How an applied value relates to the one applied before it.
#[derive(Clone, Copy, Debug, PartialEq, Eq, Structural)]
pub enum Applied {
    /// Nothing was applied before.
    First,
    /// The same value again.
    Reasserted,
    /// Another value.
    Changed,
}

/// The classification of `value` after `last`.
pub open spec fn classified<T>(last: Option<T>, value: T) -> Applied {
    match last {
        None => Applied::First,
        Some(l) => if l == value {
            Applied::Reasserted
        } else {
            Applied::Changed
        },
    }
}

/// Classifies a flag and remembers it.
pub fn classify_flag(last: &mut Option<bool>, value: bool) -> (applied: Applied)
    ensures
        applied == classified(*old(last), value),
        *final(last) == Some(value),
{
    let applied = match *last {
        None => Applied::First,
        Some(l) => if l == value {
            Applied::Reasserted
        } else {
            Applied::Changed
        },
    };
    *last = Some(value);
    applied
}

/// Classifies a pair of numbers and remembers it.
pub fn classify_pair(last: &mut Option<(u32, u32)>, value: (u32, u32)) -> (applied: Applied)
    ensures
        applied == classified(*old(last), value),
        *final(last) == Some(value),
{
    let applied = match *last {
        None => Applied::First,
        Some(l) => if l.0 == value.0 && l.1 == value.1 {
            Applied::Reasserted
        } else {
            Applied::Changed
        },
    };
    *last = Some(value);
    applied
}

/// Sets a cell up: with the fresh value where it holds none yet, and without any change where it does.
pub fn set_up<T>(cell: &mut Option<T>, fresh: T)
    ensures
        *final(cell) == (match *old(cell) {
            Some(v) => Some(v),
            None => Some(fresh),
        }),
{
    if cell.is_none() {
        *cell = Some(fresh);
    }
}

/// An item that is pushed is the newest; a queue with room loses nothing, and a full one only its oldest item.
pub proof fn a_push_costs_at_most_the_oldest<T>(q: Seq<T>, item: T, cap: nat)
    requires
        cap >= 1,
        q.len() <= cap,
    ensures
        pushed_capped(q, item, cap).last() == item,
        q.len() < cap ==> pushed_capped(q, item, cap).len() == q.len() + 1 && forall|i: int|
            0 <= i < q.len() ==> #[trigger] pushed_capped(q, item, cap)[i] == q[i],
        q.len() == cap ==> pushed_capped(q, item, cap).len() == cap && forall|i: int|
            0 <= i < cap - 1 ==> #[trigger] pushed_capped(q, item, cap)[i] == q[i + 1],
{
}

/// A value is the first only where there was none, the same only after an equal one, and changed only after
/// another one.
pub proof fn a_value_is_held_against_the_last<T>(last: Option<T>, value: T)
    ensures
        (classified(last, value) == Applied::First) == (last is None),
        (classified(last, value) == Applied::Reasserted) == (last == Some(value)),
        (classified(last, value) == Applied::Changed) == (last is Some && last->0 != value),
        classified(Some(value), value) == Applied::Reasserted,
{
}

} // verus!
