//! Search for the first position at which a condition holds.

use vstd::prelude::*;

verus! {

/// The first position in `from..to` at which `pred` holds; `to` where it
/// holds at none.
pub open spec fn first_such(pred: spec_fn(int) -> bool, from: int, to: int) -> int
    decreases to - from,
{
    if from >= to {
        to
    } else if pred(from) {
        from
    } else {
        first_such(pred, from + 1, to)
    }
}

/// `first_such` lies in its range, `pred` fails before it and holds at it.
pub proof fn lemma_first_such(pred: spec_fn(int) -> bool, from: int, to: int)
    requires
        from <= to,
    ensures
        from <= first_such(pred, from, to) <= to,
        forall|k: int| from <= k < first_such(pred, from, to) ==> !(#[trigger] pred(k)),
        first_such(pred, from, to) < to ==> pred(first_such(pred, from, to)),
    decreases to - from,
{
    if from < to && !pred(from) {
        lemma_first_such(pred, from + 1, to);
    }
}

/// The position before which `pred` fails and at which it holds, or the
/// range ends, is `first_such`.
pub proof fn lemma_first_such_is(pred: spec_fn(int) -> bool, from: int, to: int, at: int)
    requires
        from <= at <= to,
        forall|k: int| from <= k < at ==> !(#[trigger] pred(k)),
        at < to ==> pred(at),
    ensures
        first_such(pred, from, to) == at,
    decreases to - from,
{
    if from < at {
        lemma_first_such_is(pred, from + 1, to, at);
    }
}

} // verus!
