//! What hashers are fed.

use vstd::prelude::*;

verus! {

/// `std::hash::Hash::hash`: feeds a value to a hasher. What the hasher makes of the value is its
/// own affair, so nothing is claimed of it.
#[verifier::external_body]
fn feed<T: std::hash::Hash, H: std::hash::Hasher>(value: &T, state: &mut H) {
    value.hash(state)
}

/// `step` is one call of `std::hash::Hash::hash` on `value`: the hasher before the call is
/// behind it at first, and the hasher after the call in the end.
pub closed spec fn fed<T: std::hash::Hash, H: std::hash::Hasher>(value: T, step: &mut H) -> bool {
    call_ensures(feed::<T, H>, (&value, step), ())
}

/// Calls `f` on a value and a hasher. Of a call that goes through a value, like this one, a
/// contract can say that it was made.
fn call_feed<T, H, F: Fn(&T, &mut H)>(f: F, value: &T, state: &mut H)
    requires
        forall|v: T, s: &mut H| #[trigger] call_requires(f, (&v, s)),
    ensures
        exists|step: &mut H|
            {
                &&& *step == *old(state)
                &&& *final(step) == *final(state)
                &&& #[trigger] call_ensures(f, (value, step), ())
            },
{
    f(value, state)
}

/// Feeds a value to a hasher, in one step.
pub(crate) fn feed_step<T: std::hash::Hash, H: std::hash::Hasher>(value: &T, state: &mut H)
    ensures
        exists|step: &mut H|
            {
                &&& *step == *old(state)
                &&& *final(step) == *final(state)
                &&& #[trigger] fed(*value, step)
            },
{
    call_feed(feed::<T, H>, value, state);
    proof {
        let step = choose|step: &mut H|
            {
                &&& *step == *old(state)
                &&& *final(step) == *state
                &&& #[trigger] call_ensures(feed::<T, H>, (value, step), ())
            };
        assert(fed(*value, step));
    }
}

/// A step is a call of the function that feeds the value, on that value.
proof fn fed_is_a_call<T: std::hash::Hash, H: std::hash::Hasher>(value: T, step: &mut H)
    requires
        fed(value, step),
    ensures
        call_ensures(feed::<T, H>, (&value, step), ()),
{
}

} // verus!
