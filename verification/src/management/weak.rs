//! Links to image descriptions that do not keep them.

use vstd::prelude::*;

use crate::management::description::ImageDescription;

verus! {

/// A link to an image description, by which it can be found for as long as there is a handle of
/// it. `std::sync::Weak` is what compositors make such links of.
///
/// Nothing is claimed of an implementation. What a link gives is taken for a description only
/// where it has the number and the contents of that description.
pub trait WeakHandle: Sized {
    /// What the compositor keeps with a description.
    type UserData;

    /// A link to the description.
    fn downgrade(desc: &ImageDescription<Self::UserData>) -> Self;

    /// A handle of the description, where there still is one.
    fn upgrade(&self) -> Option<ImageDescription<Self::UserData>>;
}

/// `weak` is what a call of [`WeakHandle::downgrade`] on the description can give.
pub open spec fn downgraded<W: WeakHandle>(desc: ImageDescription<W::UserData>, weak: W) -> bool {
    call_ensures(W::downgrade, (&desc,), weak)
}

/// `found` is what a call of [`WeakHandle::upgrade`] on the link can give.
pub open spec fn upgraded<W: WeakHandle>(
    weak: W,
    found: Option<ImageDescription<W::UserData>>,
) -> bool {
    call_ensures(W::upgrade, (&weak,), found)
}

} // verus!
