use rayon::prelude::{IntoParallelRefIterator, ParallelIterator};
use vstd::prelude::*;

verus! {

/// Applies `f` to every item of `items`, on the threads of rayon's pool, and
/// returns the results in the order of the items.
///
/// This calls `par_iter`, `map` and `collect` of rayon. The contract claims
/// of them that the vector collected from a mapped slice has one result for
/// each item, at the position of the item, and that each is a result of one
/// call of `f` on that item. Nothing of this is proved here. The call does
/// not return where rayon cannot start its threads.
#[verifier::external_body]
pub(crate) fn parallel_map<T: Sync, R: Send, F: Fn(&T) -> R + Sync + Send>(items: &[T], f: F) -> (r:
    Vec<R>)
    requires
        forall|i: int| 0 <= i < items@.len() ==> call_requires(f, (&#[trigger] items@[i],)),
    ensures
        r@.len() == items@.len(),
        forall|i: int|
            0 <= i < items@.len() ==> call_ensures(f, (&items@[i],), #[trigger] r@[i]),
{
    items.par_iter().map(f).collect()
}

} // verus!
