//! What the reordering of control groups gives: the groups come out in the order of
//! their numbers with none left out, none that was taken is lost, and only a few are
//! ever held.
use crate::lists;
use crate::protocol::{group_refused, held_after, Reorder, REORDER_WINDOW};
use vstd::prelude::*;

verus! {

/// A connection's control groups so far: those that were handed on, the number that
/// is awaited, those that are held, and whether one was refused, which ends it.
#[verifier::ext_equal]
pub struct Run<T> {
    pub out: Seq<(u64, T)>,
    pub expected: u64,
    pub held: Map<u64, T>,
    pub refused: bool,
}

/// Before anything has come.
pub open spec fn start<T>() -> Run<T> {
    Run { out: Seq::empty(), expected: 0, held: Map::empty(), refused: false }
}

/// The group with the awaited number is handed on.
pub open spec fn handed_on<T>(run: Run<T>, group: T) -> Run<T> {
    Run {
        out: run.out.push((run.expected, group)),
        expected: (run.expected + 1) as u64,
        held: run.held.remove(run.expected),
        refused: run.refused,
    }
}

/// What is held is handed on while its turn has come, as [`Reorder::take`] does.
pub open spec fn flushed<T>(run: Run<T>) -> Run<T>
    decreases run.held.dom().len(),
    when run.held.dom().finite()
{
    if run.held.contains_key(run.expected) && run.expected < u64::MAX {
        flushed(handed_on(run, run.held[run.expected]))
    } else {
        run
    }
}

/// A group arrives, and [`Reorder::offer`] decides. The connection also ends when the
/// numbers have run out.
pub open spec fn arrived<T>(run: Run<T>, sequence: u64, group: T) -> Run<T> {
    if run.refused || run.expected == u64::MAX || group_refused(
        run.held,
        run.expected,
        sequence,
    ) is Some {
        Run { refused: true, ..run }
    } else if sequence == run.expected {
        flushed(handed_on(run, group))
    } else {
        Run { held: held_after(run.held, run.expected, sequence, group), ..run }
    }
}

/// After these arrivals.
pub open spec fn after<T>(arrivals: Seq<(u64, T)>) -> Run<T>
    decreases arrivals.len(),
{
    if arrivals.len() == 0 {
        start()
    } else {
        arrived(after(arrivals.drop_last()), arrivals.last().0, arrivals.last().1)
    }
}

/// What holds at every moment.
pub open spec fn in_order<T>(run: Run<T>) -> bool {
    &&& run.held.dom().finite()
    &&& run.out.len() == run.expected
    &&& forall|i: int| 0 <= i < run.out.len() ==> (#[trigger] run.out[i]).0 == i
    &&& forall|k: u64| #[trigger]
        run.held.contains_key(k) ==> run.expected <= k <= run.expected + REORDER_WINDOW
}

/// And nothing whose turn has come is held back.
pub open spec fn settled<T>(run: Run<T>) -> bool {
    in_order(run) && (run.expected < u64::MAX ==> !run.held.contains_key(run.expected))
}

/// Every group that was handed on or is held in `before` is so in `now`.
pub open spec fn keeps<T>(before: Run<T>, now: Run<T>) -> bool {
    &&& forall|i: int| 0 <= i < before.out.len() ==> now.out.contains(#[trigger] before.out[i])
    &&& forall|k: u64| #[trigger]
        before.held.contains_key(k) ==> kept(now, k, before.held[k])
}

/// The group was handed on or is held.
pub open spec fn kept<T>(run: Run<T>, sequence: u64, group: T) -> bool {
    run.out.contains((sequence, group)) || run.held.contains_key(sequence) && run.held[sequence]
        == group
}

proof fn handing_on<T>(run: Run<T>, group: T)
    requires
        in_order(run),
        run.expected < u64::MAX,
    ensures
        in_order(handed_on(run, group)),
        handed_on(run, group).out.contains((run.expected, group)),
        forall|i: int|
            0 <= i < run.out.len() ==> handed_on(run, group).out.contains(#[trigger] run.out[i]),
        forall|k: u64| #[trigger]
            run.held.contains_key(k) && k != run.expected ==> kept(
                handed_on(run, group),
                k,
                run.held[k],
            ),
{
    let now = handed_on(run, group);
    assert(now.out[run.out.len() as int] == (run.expected, group));
    assert forall|i: int| 0 <= i < run.out.len() implies now.out.contains(
        #[trigger] run.out[i],
    ) by {
        assert(now.out[i] == run.out[i]);
    }
}

proof fn flushing<T>(run: Run<T>)
    requires
        in_order(run),
    ensures
        settled(flushed(run)),
        keeps(run, flushed(run)),
        flushed(run).refused == run.refused,
    decreases run.held.dom().len(),
{
    if run.held.contains_key(run.expected) && run.expected < u64::MAX {
        let group = run.held[run.expected];
        let next = handed_on(run, group);
        handing_on(run, group);
        flushing(next);
        let now = flushed(run);
        assert forall|i: int| 0 <= i < run.out.len() implies now.out.contains(
            #[trigger] run.out[i],
        ) by {
            assert(next.out[i] == run.out[i]);
        }
        assert forall|k: u64| #[trigger] run.held.contains_key(k) implies kept(
            now,
            k,
            run.held[k],
        ) by {
            if k == run.expected {
                assert(next.out[run.out.len() as int] == (k, group));
                assert(now.out.contains(next.out[run.out.len() as int]));
            } else {
                assert(next.held.contains_key(k));
            }
        }
    }
}

proof fn arriving<T>(run: Run<T>, sequence: u64, group: T)
    requires
        settled(run),
    ensures
        settled(arrived(run, sequence, group)),
        keeps(run, arrived(run, sequence, group)),
        !arrived(run, sequence, group).refused ==> kept(
            arrived(run, sequence, group),
            sequence,
            group,
        ) && !run.refused,
{
    let now = arrived(run, sequence, group);
    if !run.refused && run.expected < u64::MAX && sequence == run.expected {
        let next = handed_on(run, group);
        handing_on(run, group);
        flushing(next);
        assert forall|i: int| 0 <= i < run.out.len() implies now.out.contains(
            #[trigger] run.out[i],
        ) by {
            assert(next.out[i] == run.out[i]);
        }
        assert(next.out[run.out.len() as int] == (sequence, group));
        assert(now.out.contains(next.out[run.out.len() as int]));
        assert forall|k: u64| #[trigger] run.held.contains_key(k) implies kept(
            now,
            k,
            run.held[k],
        ) by {
            assert(next.held.contains_key(k));
        }
    }
}

proof fn all_arrivals<T>(arrivals: Seq<(u64, T)>)
    ensures
        settled(after(arrivals)),
    decreases arrivals.len(),
{
    if arrivals.len() > 0 {
        all_arrivals(arrivals.drop_last());
        arriving(after(arrivals.drop_last()), arrivals.last().0, arrivals.last().1);
    }
}

/// The groups are handed on in the order of their numbers, beginning at zero, and no
/// number is passed over.
pub proof fn groups_come_in_order<T>(arrivals: Seq<(u64, T)>, i: int)
    requires
        0 <= i < after(arrivals).out.len(),
    ensures
        after(arrivals).out[i].0 == i,
{
    all_arrivals(arrivals);
}

/// No group that was taken is lost: until one is refused, every one that arrived was
/// handed on, or is held until its turn comes.
pub proof fn no_group_is_lost<T>(arrivals: Seq<(u64, T)>, j: int)
    requires
        0 <= j < arrivals.len(),
        !after(arrivals).refused,
    ensures
        kept(after(arrivals), arrivals[j].0, arrivals[j].1),
    decreases arrivals.len(),
{
    let rest = arrivals.drop_last();
    let before = after(rest);
    let now = after(arrivals);
    all_arrivals(rest);
    arriving(before, arrivals.last().0, arrivals.last().1);
    if j < rest.len() {
        no_group_is_lost(rest, j);
        assert(rest[j] == arrivals[j]);
        if before.out.contains((arrivals[j].0, arrivals[j].1)) {
            let k = choose|k: int|
                0 <= k < before.out.len() && before.out[k] == (arrivals[j].0, arrivals[j].1);
            assert(now.out.contains(before.out[k]));
        } else {
            assert(before.held.contains_key(arrivals[j].0));
        }
    }
}

/// However many groups arrive, only those of one window are held.
pub proof fn few_groups_are_held<T>(reorder: Reorder<T>, expected: u64)
    requires
        reorder.held().dom().finite(),
        reorder.within(expected),
    ensures
        reorder.held().dom().len() <= REORDER_WINDOW + 1,
{
    assert forall|k: u64| #[trigger] reorder.held().dom().contains(k) implies expected <= k
        < expected + REORDER_WINDOW + 1 by {
        assert(reorder.held().contains_key(k));
    }
    lists::range_bounds_size(
        reorder.held().dom(),
        expected as int,
        REORDER_WINDOW + 1,
    );
}

} // verus!
