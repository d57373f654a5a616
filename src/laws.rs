//! What holds of the accumulator over whole runs of the drain loop.
use vstd::prelude::*;
use crate::meter::{Meter, MeterError, Poll, Step, absorbed, cleared, drain_spec};

verus! {

/// The arithmetic sum of a sequence of cost events.
pub open spec fn sum(s: Seq<u64>) -> int
    decreases s.len(),
{
    if s.len() == 0 {
        0
    } else {
        sum(s.drop_last()) + s.last()
    }
}

/// The accumulator after the drain loop has folded in `events`, in order.
pub open spec fn drained(m: Meter, events: Seq<u64>) -> Meter
    decreases events.len(),
{
    if events.len() == 0 {
        m
    } else {
        absorbed(drained(m, events.drop_last()), events.last())
    }
}

/// The sum of a concatenation is the sum of its parts.
pub proof fn lemma_sum_concat(s: Seq<u64>, t: Seq<u64>)
    ensures
        sum(s + t) == sum(s) + sum(t),
    decreases t.len(),
{
    if t.len() == 0 {
        assert(s + t =~= s);
    } else {
        lemma_sum_concat(s, t.drop_last());
        assert((s + t).drop_last() =~= s + t.drop_last());
    }
}

/// Taking out one event takes its value out of the sum.
pub proof fn lemma_sum_remove(s: Seq<u64>, j: int)
    requires
        0 <= j < s.len(),
    ensures
        sum(s) == sum(s.remove(j)) + s[j],
{
    let pre = s.take(j);
    let post = s.skip(j + 1);
    assert(s =~= pre + seq![s[j]] + post);
    assert(s.remove(j) =~= pre + post);
    lemma_sum_concat(pre + seq![s[j]], post);
    lemma_sum_concat(pre, seq![s[j]]);
    lemma_sum_concat(pre, post);
    let one = seq![s[j]];
    assert(one.drop_last() =~= Seq::<u64>::empty());
    assert(sum(one.drop_last()) == 0);
    assert(sum(one) == s[j]);
    assert(sum(s) == sum(pre + seq![s[j]] + post));
}

/// The sum depends on which events there are, not on their order.
pub proof fn lemma_sum_order_free(a: Seq<u64>, b: Seq<u64>)
    requires
        a.to_multiset() == b.to_multiset(),
    ensures
        sum(a) == sum(b),
    decreases a.len(),
{
    broadcast use vstd::seq_lib::group_to_multiset_ensures;

    if a.len() == 0 {
        assert(b.to_multiset().len() == 0);
        assert(b.len() == 0);
    } else {
        let x = a.last();
        let rest = a.drop_last();
        assert(a =~= rest.push(x));
        assert(a.to_multiset().count(x) > 0);
        assert(b.contains(x));
        let j = choose|j: int| 0 <= j < b.len() && b[j] == x;
        assert(b.remove(j).to_multiset() =~= rest.to_multiset()) by {
            vstd::seq_lib::to_multiset_remove(b, j);
            assert(rest.push(x).to_multiset() =~= rest.to_multiset().insert(x));
        }
        lemma_sum_order_free(rest, b.remove(j));
        lemma_sum_remove(b, j);
    }
}

/// Folding events in adds exactly their sum to the total, as long as that
/// sum fits; every single step on the way fits too, so none of them
/// reports an overflow.
pub proof fn lemma_drained_total(m: Meter, events: Seq<u64>)
    requires
        m.elapsed + sum(events) <= u64::MAX,
    ensures
        drained(m, events).elapsed == m.elapsed + sum(events),
        drained(m, events).close == m.close,
        forall|i: int|
            0 <= i < events.len() ==> #[trigger] drain_spec(drained(m, events.take(i)), Poll::Value(events[i]))
                == (drained(m, events.take(i + 1)), Ok::<Step, MeterError>(Step::Continue)),
    decreases events.len(),
{
    if events.len() > 0 {
        let rest = events.drop_last();
        assert(sum(rest) <= sum(events));
        lemma_drained_total(m, rest);
        assert forall|i: int| 0 <= i < events.len() implies #[trigger] drain_spec(drained(m, events.take(i)), Poll::Value(events[i]))
                == (drained(m, events.take(i + 1)), Ok::<Step, MeterError>(Step::Continue)) by {
            if i < rest.len() {
                assert(events.take(i) =~= rest.take(i));
                assert(events.take(i + 1) =~= rest.take(i + 1));
            } else {
                assert(events.take(i) =~= rest);
                assert(events.take(i + 1) =~= events);
                assert(events.take(i + 1).drop_last() =~= rest);
            }
        }
    }
}

/// The accumulator after the drain loop has taken each poll outcome of
/// `polls` in turn.
pub open spec fn polled(m: Meter, polls: Seq<Poll>) -> Meter
    decreases polls.len(),
{
    if polls.len() == 0 {
        m
    } else {
        drain_spec(polled(m, polls.drop_last()), polls.last()).0
    }
}

/// Once every event has been drained, the total is the arithmetic sum of
/// the events submitted, in whatever order the producers' events reached
/// the drain loop (`seen` holds the same events as `submitted`), provided
/// that sum fits in a `u64`; no step on the way reports an overflow.
pub proof fn law_total_is_sum(m: Meter, submitted: Seq<u64>, seen: Seq<u64>)
    requires
        seen.to_multiset() == submitted.to_multiset(),
        m.elapsed + sum(submitted) <= u64::MAX,
    ensures
        drained(m, seen).elapsed == m.elapsed + sum(submitted),
        forall|i: int|
            0 <= i < seen.len() ==> (#[trigger] drain_spec(drained(m, seen.take(i)), Poll::Value(seen[i]))).1
                == Ok::<Step, MeterError>(Step::Continue),
{
    lemma_sum_order_free(seen, submitted);
    lemma_drained_total(m, seen);
}

/// A reset followed by no further events leaves a total of zero.
pub proof fn law_reset_then_idle(m: Meter)
    ensures
        drained(cleared(m), Seq::<u64>::empty()).elapsed == 0,
{
}

/// A reset between any two drain steps discards what was drained before
/// it: the total afterwards is the sum of the events drained after the
/// reset alone, and none of those steps overflows while that sum fits.
pub proof fn law_reset_in_flight(m: Meter, before: Seq<u64>, after: Seq<u64>)
    requires
        sum(after) <= u64::MAX,
    ensures
        drained(cleared(drained(m, before)), after).elapsed == sum(after),
        forall|i: int|
            0 <= i < after.len() ==> (#[trigger] drain_spec(
                drained(cleared(drained(m, before)), after.take(i)),
                Poll::Value(after[i]),
            )).1 == Ok::<Step, MeterError>(Step::Continue),
{
    lemma_drained_total(cleared(drained(m, before)), after);
}

/// Polls that bring no event leave the accumulator, and so the total that
/// `elapsed` reads, as it was.
pub proof fn law_idle_polls_keep_total(m: Meter, polls: Seq<Poll>)
    requires
        forall|i: int| 0 <= i < polls.len() ==> !(#[trigger] polls[i] is Value),
    ensures
        polled(m, polls) == m,
    decreases polls.len(),
{
    if polls.len() > 0 {
        law_idle_polls_keep_total(m, polls.drop_last());
        assert(!(polls[polls.len() - 1] is Value));
    }
}

} // verus!
