//! What holds of calls: what a caller can tell of the results, and of several calls in a row,
//! from what it handed in.

use vstd::prelude::*;

use crate::code_point::{code_round_trip, CodePoint};
use crate::instances::InstanceId;
use crate::post_error::PostError;
use crate::representation::named::{AlphaMode, ChromaLocation, Coefficients, Range};
use crate::representation::state::{ColorRepresentationState, RepresentationEvent};
use crate::representation::surface::{
    get_color_representation, merging_goes_part_by_part, surface_destroyed, ColorRepresentation,
    ColorRepresentationSurfaceCachedState, ColorRepresentationSurfaceData, RepresentationAction,
    RepresentationManagerError, RepresentationRequest,
};

verus! {

/// What two requests of different kinds say is read back together: the alpha mode and the pair,
/// in whichever order they are said, and the chroma location that was said before.
pub proof fn alpha_mode_and_pair_are_read_back(
    state: &ColorRepresentationState,
    mode: AlphaMode,
    coefficients: Coefficients,
    range: Range,
    alpha: RepresentationAction,
    pair: RepresentationAction,
    first: &mut ColorRepresentationSurfaceCachedState,
    second: &mut ColorRepresentationSurfaceCachedState,
    alpha_first: bool,
    read: ColorRepresentation,
)
    requires
        state@.coefficients_and_ranges.contains((coefficients, range)),
        call_ensures(
            ColorRepresentationState::surface_request,
            (state, true, (RepresentationRequest::SetAlphaMode { alpha_mode: mode.code_spec() })),
            alpha,
        ),
        call_ensures(
            ColorRepresentationState::surface_request,
            (
                state,
                true,
                (RepresentationRequest::SetCoefficientsAndRange {
                    coefficients: coefficients.code_spec(),
                    range: range.code_spec(),
                }),
            ),
            pair,
        ),
        call_ensures(
            ColorRepresentationSurfaceCachedState::apply,
            (
                first,
                if alpha_first {
                    &alpha
                } else {
                    &pair
                },
            ),
            (),
        ),
        *old(second) == *final(first),
        call_ensures(
            ColorRepresentationSurfaceCachedState::apply,
            (
                second,
                if alpha_first {
                    &pair
                } else {
                    &alpha
                },
            ),
            (),
        ),
        call_ensures(get_color_representation, (&*final(second),), read),
    ensures
        read.alpha_mode == mode,
        read.coefficients_and_range == Some((coefficients, range)),
        read.chroma_location == old(first).chroma_location,
{
    code_round_trip(mode);
    code_round_trip(coefficients);
    code_round_trip(range);
}

/// The same of the chroma location and the alpha mode.
pub proof fn chroma_location_and_alpha_mode_are_read_back(
    state: &ColorRepresentationState,
    mode: AlphaMode,
    location: ChromaLocation,
    alpha: RepresentationAction,
    chroma: RepresentationAction,
    first: &mut ColorRepresentationSurfaceCachedState,
    second: &mut ColorRepresentationSurfaceCachedState,
    alpha_first: bool,
    read: ColorRepresentation,
)
    requires
        state@.chroma_locations.contains(location),
        call_ensures(
            ColorRepresentationState::surface_request,
            (state, true, (RepresentationRequest::SetAlphaMode { alpha_mode: mode.code_spec() })),
            alpha,
        ),
        call_ensures(
            ColorRepresentationState::surface_request,
            (
                state,
                true,
                (RepresentationRequest::SetChromaLocation {
                    chroma_location: location.code_spec(),
                }),
            ),
            chroma,
        ),
        call_ensures(
            ColorRepresentationSurfaceCachedState::apply,
            (
                first,
                if alpha_first {
                    &alpha
                } else {
                    &chroma
                },
            ),
            (),
        ),
        *old(second) == *final(first),
        call_ensures(
            ColorRepresentationSurfaceCachedState::apply,
            (
                second,
                if alpha_first {
                    &chroma
                } else {
                    &alpha
                },
            ),
            (),
        ),
        call_ensures(get_color_representation, (&*final(second),), read),
    ensures
        read.alpha_mode == mode,
        read.chroma_location == Some(location),
        read.coefficients_and_range == old(first).coefficients_and_range,
{
    code_round_trip(mode);
    code_round_trip(location);
}

/// A request changes only the part that it speaks of.
pub proof fn applying_changes_only_its_part(
    state: &ColorRepresentationState,
    alive: bool,
    request: RepresentationRequest,
    action: RepresentationAction,
    pending: &mut ColorRepresentationSurfaceCachedState,
)
    requires
        call_ensures(ColorRepresentationState::surface_request, (state, alive, request), action),
        call_ensures(ColorRepresentationSurfaceCachedState::apply, (pending, &action), ()),
    ensures
        !(request is SetAlphaMode) ==> final(pending).alpha_mode == old(pending).alpha_mode,
        !(request is SetChromaLocation) ==> final(pending).chroma_location
            == old(pending).chroma_location,
        !(request is SetCoefficientsAndRange) ==> final(pending).coefficients_and_range
            == old(pending).coefficients_and_range,
        action is PostError ==> *final(pending) == *old(pending),
        !alive ==> *final(pending) == *old(pending),
{
}

/// A commit changes of the current state what was said, and only that; the pending state stays.
pub proof fn commits_change_what_was_said(
    pending: &mut ColorRepresentationSurfaceCachedState,
    committed: ColorRepresentationSurfaceCachedState,
    current: &mut ColorRepresentationSurfaceCachedState,
)
    requires
        call_ensures(ColorRepresentationSurfaceCachedState::commit, (pending,), committed),
        call_ensures(ColorRepresentationSurfaceCachedState::merge_into, (committed, current), ()),
    ensures
        *final(pending) == *old(pending),
        final(current).alpha_mode == if old(pending).alpha_mode is Some {
            old(pending).alpha_mode
        } else {
            old(current).alpha_mode
        },
        final(current).chroma_location == if old(pending).chroma_location is Some {
            old(pending).chroma_location
        } else {
            old(current).chroma_location
        },
        final(current).coefficients_and_range == if old(pending).coefficients_and_range is Some {
            old(pending).coefficients_and_range
        } else {
            old(current).coefficients_and_range
        },
{
    merging_goes_part_by_part(*old(pending), *old(current));
}

/// While a surface has an object a second one is refused and changes nothing; once the object is
/// destroyed another one is taken, and nothing has been said with it.
pub proof fn objects_come_one_after_the_other(
    surface: &mut Option<ColorRepresentationSurfaceData>,
    gone_pending: &mut ColorRepresentationSurfaceCachedState,
    data: &mut ColorRepresentationSurfaceData,
    pending: &mut ColorRepresentationSurfaceCachedState,
    next: InstanceId,
    posted: Option<PostError<RepresentationManagerError>>,
    again: &mut ColorRepresentationSurfaceData,
    later_pending: &mut ColorRepresentationSurfaceCachedState,
    third: InstanceId,
    refused: Option<PostError<RepresentationManagerError>>,
)
    requires
        *old(surface) is Some,
        call_ensures(surface_destroyed, (surface, gone_pending), ()),
        *final(surface) == Some(*old(data)),
        *old(pending) == *final(gone_pending),
        call_ensures(ColorRepresentationSurfaceData::attach, (data, pending, next), posted),
        *old(again) == *final(data),
        call_ensures(
            ColorRepresentationSurfaceData::attach,
            (again, later_pending, third),
            refused,
        ),
    ensures
        posted is None,
        final(data)@ == Some(next),
        final(pending).alpha_mode is None,
        final(pending).chroma_location is None,
        final(pending).coefficients_and_range is None,
        refused matches Some(p) && p.error == RepresentationManagerError::SurfaceExists,
        final(again)@ == Some(next),
        *final(later_pending) == *old(later_pending),
{
}

/// What was said with an object goes when the object does, also where color representation does
/// not know the surface.
pub proof fn destroying_takes_back_what_was_said(
    surface: &mut Option<ColorRepresentationSurfaceData>,
    pending: &mut ColorRepresentationSurfaceCachedState,
    read: ColorRepresentation,
)
    requires
        call_ensures(surface_destroyed, (surface, pending), ()),
        call_ensures(get_color_representation, (&*final(pending),), read),
    ensures
        read.alpha_mode == AlphaMode::PremultipliedElectrical,
        read.chroma_location is None,
        read.coefficients_and_range is None,
        *final(surface) is Some <==> *old(surface) is Some,
        *final(surface) matches Some(data) ==> data@ is None,
{
}

/// Every client that binds the manager is told the same, and binding and destroying objects
/// changes nothing of what is supported.
pub proof fn every_client_is_told_the_same(
    state: &mut ColorRepresentationState,
    one: InstanceId,
    first: Vec<RepresentationEvent>,
    later: &mut ColorRepresentationState,
    again: &mut ColorRepresentationState,
    two: InstanceId,
    second: Vec<RepresentationEvent>,
)
    requires
        call_ensures(ColorRepresentationState::bind, (state, one), first),
        *old(later) == *final(state),
        call_ensures(ColorRepresentationState::manager_destroyed, (later, one), ()),
        *old(again) == *final(later),
        call_ensures(ColorRepresentationState::bind, (again, two), second),
    ensures
        first@ == second@,
        final(again)@.coefficients_and_ranges == old(state)@.coefficients_and_ranges,
        final(again)@.chroma_locations == old(state)@.chroma_locations,
        final(again)@.alpha_modes == old(state)@.alpha_modes,
        final(state)@.instances == old(state)@.instances.push(one),
        final(again)@.instances.last() == two,
{
}

} // verus!
