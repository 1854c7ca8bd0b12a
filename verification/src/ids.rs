use vstd::prelude::*;

verus! {

/// The count that a counter holds: what was saved, or zero while nothing
/// has been saved yet.
pub open spec fn stored_count(stored: Option<u64>) -> int {
    match stored {
        Some(count) => count as int,
        None => 0,
    }
}

/// The id that a counter hands out next: one more than its count.
pub open spec fn id_after(stored: Option<u64>) -> int {
    stored_count(stored) + 1
}

/// The ids that `calls` successive calls hand out, each call reading back
/// what the previous one saved, starting from `stored`.
pub open spec fn ids_handed_out(stored: Option<u64>, calls: nat) -> Seq<int>
    decreases calls,
{
    if calls == 0 {
        Seq::empty()
    } else {
        seq![id_after(stored)] + ids_handed_out(Some(id_after(stored) as u64), (calls - 1) as nat)
    }
}

/// The next proposal id, given the proposal count that storage holds
/// (`None` before the first proposal). The caller saves the result as the
/// new count.
pub fn next_id(stored: Option<u64>) -> (id: u64)
    requires
        stored_count(stored) < u64::MAX,
    ensures
        id == id_after(stored),
{
    let count: u64 = match stored {
        Some(count) => count,
        None => 0,
    };
    count + 1
}

/// The next approval id of the pre-propose module, given the current id
/// that storage holds (`None` before the first approval). The caller saves
/// the result as the new current id.
pub fn advance_approval_id(stored: Option<u64>) -> (id: u64)
    requires
        stored_count(stored) < u64::MAX,
    ensures
        id == id_after(stored),
{
    let current: u64 = match stored {
        Some(current) => current,
        None => 0,
    };
    current + 1
}

proof fn ids_count_up_from(count: u64, calls: nat)
    requires
        count + calls <= u64::MAX,
    ensures
        ids_handed_out(Some(count), calls).len() == calls,
        forall|i: int| 0 <= i < calls ==> #[trigger] ids_handed_out(Some(count), calls)[i] == count + 1 + i,
    decreases calls,
{
    if calls > 0 {
        let next = (count + 1) as u64;
        ids_count_up_from(next, (calls - 1) as nat);
        let rest = ids_handed_out(Some(next), (calls - 1) as nat);
        assert(ids_handed_out(Some(count), calls) == seq![count + 1] + rest);
        assert forall|i: int| 0 <= i < calls implies #[trigger] ids_handed_out(Some(count), calls)[i]
            == count + 1 + i by {
            if i > 0 {
                assert(ids_handed_out(Some(count), calls)[i] == rest[i - 1]);
            }
        }
    }
}

/// A counter that starts empty hands out 1, 2, 3, ... in turn: the k-th
/// call returns k, so no id is handed out twice.
pub proof fn ids_count_up_from_one(calls: nat)
    requires
        calls <= u64::MAX,
    ensures
        ids_handed_out(None, calls).len() == calls,
        forall|i: int| 0 <= i < calls ==> #[trigger] ids_handed_out(None, calls)[i] == i + 1,
        forall|i: int, j: int|
            0 <= i < j < calls ==> ids_handed_out(None, calls)[i] < ids_handed_out(None, calls)[j],
    decreases calls,
{
    if calls > 0 {
        ids_count_up_from(1, (calls - 1) as nat);
        let rest = ids_handed_out(Some(1), (calls - 1) as nat);
        assert(ids_handed_out(None, calls) == seq![1int] + rest);
        assert forall|i: int| 0 <= i < calls implies #[trigger] ids_handed_out(None, calls)[i] == i
            + 1 by {
            if i > 0 {
                assert(ids_handed_out(None, calls)[i] == rest[i - 1]);
            }
        }
    }
}

} // verus!
