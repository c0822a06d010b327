//! What polling delivers: completions one after the other, each to its operation,
//! and those that are to be woken for them.
use std::task::Waker;

use vstd::prelude::*;

use crate::effects::{
    law_cancel_gives_what_is_stored_or_marks, law_notify_stores_the_completion,
    law_pop_gives_what_is_stored,
};
use crate::entry::Entry;
use crate::key::Key;
use crate::laws::law_poll_completes_each;
use crate::op::RawOp;
use crate::proactor::CancelAction;
use crate::push_entry::PushEntry;
use crate::state::{
    after_notify, after_notify_all, cancel_result, deliverable, pop_result, woken,
};

verus! {

/// Polling without completions changes nothing and wakes nobody.
pub proof fn law_poll_of_nothing<T>(ops: Map<usize, RawOp<T>>)
    ensures
        deliverable(ops, Seq::empty()),
        after_notify_all(ops, Seq::empty()) == ops,
        woken(ops, Seq::empty()).len() == 0,
{
}

/// Polling one completion leaves what notifying its operation leaves, and wakes
/// the one who waits for it, if someone does.
pub proof fn law_poll_of_one_is_notify<T>(ops: Map<usize, RawOp<T>>, entry: Entry)
    ensures
        deliverable(ops, seq![entry]) <==> ops.contains_key(entry.user_data),
        after_notify_all(ops, seq![entry]) == after_notify(ops, entry),
        woken(ops, seq![entry]) == match ops[entry.user_data].result {
            PushEntry::Pending(Some(waker)) => seq![waker],
            _ => Seq::<Waker>::empty(),
        },
{
    let one = seq![entry];
    assert(one.drop_last() =~= Seq::<Entry>::empty());
    reveal_with_fuel(deliverable, 2);
    reveal_with_fuel(after_notify_all, 2);
    reveal_with_fuel(woken, 2);
    assert(woken(ops, one) =~= match ops[entry.user_data].result {
        PushEntry::Pending(Some(waker)) => seq![waker],
        _ => Seq::<Waker>::empty(),
    });
}

/// Polling some completions and then others is polling all of them together.
pub proof fn law_polls_add_up<T>(
    ops: Map<usize, RawOp<T>>,
    first: Seq<Entry>,
    then: Seq<Entry>,
)
    ensures
        deliverable(ops, first + then) <==> deliverable(ops, first) && deliverable(
            after_notify_all(ops, first),
            then,
        ),
        after_notify_all(ops, first + then) == after_notify_all(
            after_notify_all(ops, first),
            then,
        ),
        woken(ops, first + then) == woken(ops, first) + woken(after_notify_all(ops, first), then),
    decreases then.len(),
{
    if then.len() == 0 {
        assert(first + then =~= first);
        assert(woken(ops, first) + woken(after_notify_all(ops, first), then) =~= woken(ops, first));
    } else {
        law_polls_add_up(ops, first, then.drop_last());
        assert((first + then).drop_last() =~= first + then.drop_last());
        assert((first + then).last() == then.last());
        assert(woken(ops, first + then) =~= woken(ops, first) + woken(
            after_notify_all(ops, first),
            then,
        ));
    }
}

/// For completions of different operations, those to be woken are exactly the
/// wakers that the completed operations had before, one for each that had one, in
/// the order of the completions.
pub proof fn law_poll_wakes_all_who_wait<T>(ops: Map<usize, RawOp<T>>, entries: Seq<Entry>)
    requires
        forall|i: int|
            0 <= i < entries.len() ==> ops.contains_key((#[trigger] entries[i]).user_data),
        forall|i: int, j: int|
            0 <= i < j < entries.len() ==> (#[trigger] entries[i]).user_data != (
            #[trigger] entries[j]).user_data,
    ensures
        woken(ops, entries) == entries.filter_map(
            |entry: Entry|
                match ops[entry.user_data].result {
                    PushEntry::Pending(waker) => waker,
                    PushEntry::Ready(_) => None,
                },
        ),
    decreases entries.len(),
{
    let had = |entry: Entry|
        match ops[entry.user_data].result {
            PushEntry::Pending(waker) => waker,
            PushEntry::Ready(_) => None,
        };
    if entries.len() > 0 {
        let earlier = entries.drop_last();
        law_poll_wakes_all_who_wait(ops, earlier);
        law_poll_completes_each(ops, earlier);
        let k = entries.last().user_data;
        assert(entries[entries.len() - 1].user_data == k);
        assert(forall|i: int| 0 <= i < earlier.len() ==> earlier[i] == entries[i]);
        assert(after_notify_all(ops, earlier).contains_key(k));
        assert(after_notify_all(ops, earlier)[k] == ops[k]);
    }
    assert(woken(ops, entries) =~= entries.filter_map(had));
}

/// If every completed operation is waited for, as many are woken as operations are
/// completed, and the one woken for a completion stands where the completion
/// does.
pub proof fn law_poll_wakes_one_for_each<T>(ops: Map<usize, RawOp<T>>, entries: Seq<Entry>)
    requires
        forall|i: int|
            0 <= i < entries.len() ==> ops.contains_key((#[trigger] entries[i]).user_data) && (
            ops[entries[i].user_data].result matches PushEntry::Pending(waker) && waker is Some),
        forall|i: int, j: int|
            0 <= i < j < entries.len() ==> (#[trigger] entries[i]).user_data != (
            #[trigger] entries[j]).user_data,
    ensures
        woken(ops, entries).len() == entries.len(),
        forall|i: int|
            0 <= i < entries.len() ==> ops[entries[i].user_data].result == PushEntry::<
                Option<Waker>,
                Result<usize, std::io::Error>,
            >::Pending(Some(#[trigger] woken(ops, entries)[i])),
    decreases entries.len(),
{
    if entries.len() > 0 {
        let earlier = entries.drop_last();
        assert(forall|i: int| 0 <= i < earlier.len() ==> earlier[i] == entries[i]);
        law_poll_wakes_one_for_each(ops, earlier);
        law_poll_completes_each(ops, earlier);
        let k = entries.last().user_data;
        assert(entries[entries.len() - 1].user_data == k);
        assert(after_notify_all(ops, earlier).contains_key(k));
        assert(after_notify_all(ops, earlier)[k] == ops[k]);
        assert forall|i: int| 0 <= i < entries.len() implies ops[entries[i].user_data].result
            == PushEntry::<Option<Waker>, Result<usize, std::io::Error>>::Pending(
            Some(#[trigger] woken(ops, entries)[i]),
        ) by {
            if i < earlier.len() {
                assert(woken(ops, entries)[i] == woken(ops, earlier)[i]);
            }
        }
    }
}

/// An operation that a poll completed is popped with the result and the flags of
/// its entry in that poll, and with the operation as it was; cancelling it instead
/// gives the same result and operation.
pub proof fn law_polled_operations_pop<T>(
    ops: Map<usize, RawOp<T>>,
    entries: Seq<Entry>,
    i: int,
    key: Key,
)
    requires
        forall|i: int|
            0 <= i < entries.len() ==> ops.contains_key((#[trigger] entries[i]).user_data),
        forall|i: int, j: int|
            0 <= i < j < entries.len() ==> (#[trigger] entries[i]).user_data != (
            #[trigger] entries[j]).user_data,
        0 <= i < entries.len(),
        entries[i].user_data == key.user_data(),
        !ops[key.user_data()].cancelled,
    ensures
        pop_result(after_notify_all(ops, entries), key) matches PushEntry::Ready((outcome, flags))
            && outcome.0 == entries[i].result && outcome.1 == ops[key.user_data()].op && flags
            == entries[i].flags,
        cancel_result(after_notify_all(ops, entries), key) matches CancelAction::Return(outcome)
            && outcome.0 == entries[i].result && outcome.1 == ops[key.user_data()].op,
{
    law_poll_completes_each(ops, entries);
    let after = after_notify_all(ops, entries);
    assert(after.contains_key(entries[i].user_data));
    law_pop_gives_what_is_stored(after, key);
    law_cancel_gives_what_is_stored_or_marks(after, key);
}

/// Where several completions of one operation come in one poll, the last one
/// counts.
pub proof fn law_last_completion_counts<T>(
    ops: Map<usize, RawOp<T>>,
    entries: Seq<Entry>,
    last: Entry,
)
    requires
        after_notify_all(ops, entries).contains_key(last.user_data),
        !after_notify_all(ops, entries)[last.user_data].cancelled,
    ensures
        ({
            let after = after_notify_all(ops, entries.push(last));
            &&& after.contains_key(last.user_data)
            &&& after[last.user_data].result matches PushEntry::Ready(res) && res == last.result
            &&& after[last.user_data].flags == last.flags
        }),
{
    assert(entries.push(last) =~= entries + seq![last]);
    law_polls_add_up(ops, entries, seq![last]);
    law_poll_of_one_is_notify(after_notify_all(ops, entries), last);
    law_notify_stores_the_completion(after_notify_all(ops, entries), last);
}

} // verus!
