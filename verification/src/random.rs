use vstd::prelude::*;

use rand::rngs::ThreadRng;
use rand::seq::IndexedRandom;

verus! {

#[verifier::external_type_specification]
#[verifier::external_body]
pub struct ExThreadRng(ThreadRng);

/// `rand::rng`: a handle to the thread-local random generator. Nothing is promised of its
/// state.
#[verifier::external_body]
pub(crate) fn thread_rng() -> ThreadRng {
    rand::rng()
}

/// `IndexedRandom::choose` on a slice. Its source returns `None` when the slice is empty
/// and otherwise a reference to an element at a random index; which element is left open.
#[verifier::external_body]
pub(crate) fn choose_from<'a, T>(items: &'a [T], rng: &mut ThreadRng) -> (r: Option<&'a T>)
    ensures
        r is None <==> items@.len() == 0,
        r matches Some(x) ==> items@.contains(*x),
{
    items.choose(rng)
}

} // verus!
