//! Which bindings ended up registered as system hotkeys.
use vstd::prelude::*;

verus! {

/// The indices `i` with `outcomes[i]` true, in increasing order: the
/// bindings whose registration succeeded, given each one's outcome.
pub open spec fn successes(outcomes: Seq<bool>, n: nat) -> Seq<usize>
    decreases n,
{
    if n == 0 {
        seq![]
    } else {
        let before = successes(outcomes, (n - 1) as nat);
        if outcomes[n - 1] {
            before.push((n - 1) as usize)
        } else {
            before
        }
    }
}

/// The indices of the bindings that registered, from the outcome of each
/// registration in binding order.
pub fn registered_indices(outcomes: &Vec<bool>) -> (r: Vec<usize>)
    ensures
        r@ == successes(outcomes@, outcomes.len() as nat),
{
    let mut registered: Vec<usize> = Vec::new();
    let mut index: usize = 0;
    while index < outcomes.len()
        invariant
            index <= outcomes.len(),
            registered@ == successes(outcomes@, index as nat),
        decreases outcomes.len() - index,
    {
        if outcomes[index] {
            registered.push(index);
        }
        index = index + 1;
    }
    registered
}

/// The registered indices are exactly the successful ones, each once and in
/// increasing order.
pub proof fn lemma_successes_exact(outcomes: Seq<bool>, n: nat)
    requires
        n <= outcomes.len(),
        n <= usize::MAX + 1,
    ensures
        forall|k: int|
            0 <= k < successes(outcomes, n).len() ==> {
                &&& #[trigger] successes(outcomes, n)[k] < n
                &&& outcomes[successes(outcomes, n)[k] as int]
            },
        forall|k1: int, k2: int|
            0 <= k1 < k2 < successes(outcomes, n).len() ==> #[trigger] successes(outcomes, n)[k1]
                < #[trigger] successes(outcomes, n)[k2],
        forall|i: int| 0 <= i < n && outcomes[i] ==> #[trigger] successes(outcomes, n).contains(i as usize),
    decreases n,
{
    if n > 0 {
        lemma_successes_exact(outcomes, (n - 1) as nat);
        let before = successes(outcomes, (n - 1) as nat);
        assert forall|i: int| 0 <= i < n && outcomes[i] implies #[trigger] successes(outcomes, n).contains(i as usize) by {
            if i < n - 1 {
                assert(before.contains(i as usize));
                let k = choose|k: int| 0 <= k < before.len() && before[k] == i as usize;
                assert(successes(outcomes, n)[k] == i as usize);
            } else {
                assert(successes(outcomes, n)[before.len() as int] == i as usize);
            }
        }
    }
}

} // verus!
