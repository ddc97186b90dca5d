//! Laws that relate several operations of the registry; each is proved
//! from the operations' public contracts alone.

use vstd::prelude::*;
use crate::registry::{Contract, register_allocates};

verus! {

/// A chain of registrations: `states` are the registry states seen between
/// the calls, and `ids[i]` is the identifier handed out by the call that
/// took `states[i]` to `states[i + 1]`.
pub open spec fn registration_chain(states: Seq<Contract>, ids: Seq<u16>) -> bool {
    &&& states.len() == ids.len() + 1
    &&& forall|i: int|
        0 <= i < ids.len() ==> #[trigger] register_allocates(states[i], states[i + 1], ids[i])
}

/// Along a registration chain the identifier allocator advances by exactly
/// one per call, so the state `j` steps in holds the start's `next_id`
/// plus `j - i`.
proof fn lemma_next_id_advances(states: Seq<Contract>, ids: Seq<u16>, i: int, j: int)
    requires
        registration_chain(states, ids),
        0 <= i <= j < states.len(),
    ensures
        states[j].next_id() == states[i].next_id() + (j - i),
    decreases j - i,
{
    if i < j {
        lemma_next_id_advances(states, ids, i, j - 1);
        assert(register_allocates(states[j - 1], states[j - 1 + 1], ids[j - 1]));
    }
}

/// Identifier uniqueness: whatever sequence of registrations is run, the
/// identifiers handed back are strictly increasing, so no identifier is
/// ever issued twice.
pub proof fn lemma_registered_ids_strictly_increase(states: Seq<Contract>, ids: Seq<u16>)
    requires
        registration_chain(states, ids),
    ensures
        forall|i: int, j: int| 0 <= i < j < ids.len() ==> #[trigger] ids[i] < #[trigger] ids[j],
{
    assert forall|i: int, j: int| 0 <= i < j < ids.len() implies #[trigger] ids[i]
        < #[trigger] ids[j] by {
        assert(register_allocates(states[i], states[i + 1], ids[i]));
        assert(register_allocates(states[j], states[j + 1], ids[j]));
        lemma_next_id_advances(states, ids, i + 1, j);
    }
}

} // verus!
