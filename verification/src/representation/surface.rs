//! Surfaces, and the color representation that clients give them.

use vstd::prelude::*;
use vstd::std_specs::cmp::PartialEqSpec;

use crate::code_point::{code_names_one_member, code_round_trip, CodePoint};
use crate::instances::InstanceId;
use crate::post_error::PostError;
use crate::representation::named::{AlphaMode, ChromaLocation, Coefficients, Range};
use crate::representation::state::{ColorRepresentationState, RepresentationModel};

verus! {

/// What a client has said about the colors of a surface.
#[derive(Debug, Clone, Copy)]
pub struct ColorRepresentationSurfaceCachedState {
    pub coefficients_and_range: Option<(Coefficients, Range)>,
    pub chroma_location: Option<ChromaLocation>,
    pub alpha_mode: Option<AlphaMode>,
}

/// `newer`, or what was said before.
pub open spec fn newer_or<T>(newer: Option<T>, before: Option<T>) -> Option<T> {
    match newer {
        Some(_) => newer,
        None => before,
    }
}

/// What holds once `newer` is applied on top of `before`.
pub open spec fn merged(
    newer: ColorRepresentationSurfaceCachedState,
    before: ColorRepresentationSurfaceCachedState,
) -> ColorRepresentationSurfaceCachedState {
    ColorRepresentationSurfaceCachedState {
        coefficients_and_range: newer_or(
            newer.coefficients_and_range,
            before.coefficients_and_range,
        ),
        chroma_location: newer_or(newer.chroma_location, before.chroma_location),
        alpha_mode: newer_or(newer.alpha_mode, before.alpha_mode),
    }
}

/// Applying nothing changes nothing, and nothing is lost when there was nothing before.
pub proof fn merging_with_nothing(state: ColorRepresentationSurfaceCachedState)
    ensures
        merged(ColorRepresentationSurfaceCachedState::unset(), state) == state,
        merged(state, ColorRepresentationSurfaceCachedState::unset()) == state,
        merged(state, state) == state,
{
}

/// Each thing that is said holds on its own: what is said anew takes the place of what was said
/// before, and what is not said anew stays.
pub proof fn merging_goes_part_by_part(
    newer: ColorRepresentationSurfaceCachedState,
    before: ColorRepresentationSurfaceCachedState,
)
    ensures
        ({
            let after = merged(newer, before);
            &&& newer.alpha_mode is Some ==> after.alpha_mode == newer.alpha_mode
            &&& newer.alpha_mode is None ==> after.alpha_mode == before.alpha_mode
            &&& newer.chroma_location is Some ==> after.chroma_location == newer.chroma_location
            &&& newer.chroma_location is None ==> after.chroma_location == before.chroma_location
            &&& newer.coefficients_and_range is Some ==> after.coefficients_and_range
                == newer.coefficients_and_range
            &&& newer.coefficients_and_range is None ==> after.coefficients_and_range
                == before.coefficients_and_range
        }),
{
}

/// Commits can be applied one by one, or merged first and then applied.
pub proof fn merging_is_associative(
    a: ColorRepresentationSurfaceCachedState,
    b: ColorRepresentationSurfaceCachedState,
    c: ColorRepresentationSurfaceCachedState,
)
    ensures
        merged(a, merged(b, c)) == merged(merged(a, b), c),
{
}

impl ColorRepresentationSurfaceCachedState {
    /// Nothing said.
    pub open spec fn unset() -> Self {
        ColorRepresentationSurfaceCachedState {
            coefficients_and_range: None,
            chroma_location: None,
            alpha_mode: None,
        }
    }

    /// The state that a commit takes along; the pending state stays as it is.
    pub fn commit(&mut self) -> (committed: Self)
        ensures
            committed == *old(self),
            *final(self) == *old(self),
    {
        *self
    }

    /// Applies the state on top of `into`.
    pub fn merge_into(self, into: &mut Self)
        ensures
            *final(into) == merged(self, *old(into)),
    {
        if self.coefficients_and_range.is_some() {
            into.coefficients_and_range = self.coefficients_and_range;
        }
        if self.chroma_location.is_some() {
            into.chroma_location = self.chroma_location;
        }
        if self.alpha_mode.is_some() {
            into.alpha_mode = self.alpha_mode;
        }
    }
}

impl Default for ColorRepresentationSurfaceCachedState {
    fn default() -> (state: Self)
        ensures
            state == Self::unset(),
    {
        ColorRepresentationSurfaceCachedState {
            coefficients_and_range: None,
            chroma_location: None,
            alpha_mode: None,
        }
    }
}

/// The color representation of a surface.
#[derive(Debug, Clone, Copy, Eq, Hash)]
pub struct ColorRepresentation {
    pub alpha_mode: AlphaMode,
    pub coefficients_and_range: Option<(Coefficients, Range)>,
    pub chroma_location: Option<ChromaLocation>,
}

impl PartialEq for ColorRepresentation {
    fn eq(&self, other: &Self) -> (same: bool) {
        self.alpha_mode == other.alpha_mode && self.chroma_location == other.chroma_location
            && match (self.coefficients_and_range, other.coefficients_and_range) {
            (Some(a), Some(b)) => a.0 == b.0 && a.1 == b.1,
            (None, None) => true,
            _ => false,
        }
    }
}

impl vstd::std_specs::cmp::PartialEqSpecImpl for ColorRepresentation {
    open spec fn obeys_eq_spec() -> bool {
        true
    }

    open spec fn eq_spec(&self, other: &Self) -> bool {
        *self == *other
    }
}

/// Color representations are equal exactly where each part is.
pub proof fn equal_representations_agree_in_every_part(
    a: ColorRepresentation,
    b: ColorRepresentation,
)
    ensures
        a.eq_spec(&b) <==> a.alpha_mode == b.alpha_mode && a.coefficients_and_range
            == b.coefficients_and_range && a.chroma_location == b.chroma_location,
{
}

/// The color representation that follows from what a client has said. Without an alpha mode,
/// the color channels are electrical values multiplied by alpha.
pub open spec fn representation_of(
    state: ColorRepresentationSurfaceCachedState,
) -> ColorRepresentation {
    ColorRepresentation {
        alpha_mode: match state.alpha_mode {
            Some(mode) => mode,
            None => AlphaMode::PremultipliedElectrical,
        },
        coefficients_and_range: state.coefficients_and_range,
        chroma_location: state.chroma_location,
    }
}

/// What was said is read as it was said; without an alpha mode, the color channels are electrical
/// values multiplied by alpha.
pub proof fn representation_is_what_was_said(state: ColorRepresentationSurfaceCachedState)
    ensures
        state.alpha_mode matches Some(mode) ==> representation_of(state).alpha_mode == mode,
        state.alpha_mode is None ==> representation_of(state).alpha_mode
            == AlphaMode::PremultipliedElectrical,
        representation_of(state).chroma_location == state.chroma_location,
        representation_of(state).coefficients_and_range == state.coefficients_and_range,
{
}

/// The color representation of a surface whose pending state this is.
pub fn get_color_representation(pending: &ColorRepresentationSurfaceCachedState) -> (representation:
    ColorRepresentation)
    ensures
        representation == representation_of(*pending),
{
    ColorRepresentation {
        alpha_mode: match pending.alpha_mode {
            Some(mode) => mode,
            None => AlphaMode::PremultipliedElectrical,
        },
        coefficients_and_range: pending.coefficients_and_range,
        chroma_location: pending.chroma_location,
    }
}

/// What is kept with a surface that color representation knows.
#[derive(Debug)]
pub struct ColorRepresentationSurfaceData {
    instance: Option<InstanceId>,
}

impl View for ColorRepresentationSurfaceData {
    type V = Option<InstanceId>;

    closed spec fn view(&self) -> Option<InstanceId> {
        self.instance
    }
}

/// Errors of the color representation manager.
#[derive(Debug, Clone, Copy, PartialEq, Eq, Structural)]
pub enum RepresentationManagerError {
    SurfaceExists,
}

/// What attaching an object to a surface does to the object that the surface has, to the pending
/// state, and the error that is posted. A surface has one object at most.
pub open spec fn attach_step(
    attached: Option<InstanceId>,
    pending: ColorRepresentationSurfaceCachedState,
    instance: InstanceId,
) -> (
    Option<InstanceId>,
    ColorRepresentationSurfaceCachedState,
    Option<PostError<RepresentationManagerError>>,
) {
    match attached {
        Some(_) => (
            attached,
            pending,
            Some(
                PostError {
                    error: RepresentationManagerError::SurfaceExists,
                    message: "Surface already has ColorRepresentation attached",
                },
            ),
        ),
        None => (Some(instance), ColorRepresentationSurfaceCachedState::unset(), None),
    }
}

impl ColorRepresentationSurfaceData {
    /// A surface without an object.
    pub fn new() -> (data: Self)
        ensures
            data@ is None,
    {
        ColorRepresentationSurfaceData { instance: None }
    }

    /// Whether the surface has an object.
    pub fn is_resource_attached(&self) -> (attached: bool)
        ensures
            attached == self@ is Some,
    {
        self.instance.is_some()
    }

    /// Attaches an object to the surface, and gives the error to post, if any.
    pub fn attach(
        &mut self,
        pending: &mut ColorRepresentationSurfaceCachedState,
        instance: InstanceId,
    ) -> (posted: Option<PostError<RepresentationManagerError>>)
        ensures
            (final(self)@, *final(pending), posted) == attach_step(
                old(self)@,
                *old(pending),
                instance,
            ),
    {
        if self.is_resource_attached() {
            return Some(
                PostError {
                    error: RepresentationManagerError::SurfaceExists,
                    message: "Surface already has ColorRepresentation attached",
                },
            );
        }
        *pending = ColorRepresentationSurfaceCachedState::default();
        self.instance = Some(instance);
        None
    }
}

/// Takes the object of a surface away, and all that was said with it. `surface` is what is kept
/// with the surface, where color representation knows it.
pub fn surface_destroyed(
    surface: &mut Option<ColorRepresentationSurfaceData>,
    pending: &mut ColorRepresentationSurfaceCachedState,
)
    ensures
        match *old(surface) {
            Some(_) => *final(surface) matches Some(after) && after@ is None,
            None => *final(surface) is None,
        },
        *final(pending) == ColorRepresentationSurfaceCachedState::unset(),
{
    match surface {
        Some(data) => {
            data.instance = None;
        },
        None => {},
    }
    *pending = ColorRepresentationSurfaceCachedState::default();
}

/// A surface takes one object; a second one is refused and changes nothing.
pub proof fn surface_takes_one_object(
    pending: ColorRepresentationSurfaceCachedState,
    first: InstanceId,
    between: ColorRepresentationSurfaceCachedState,
    second: InstanceId,
)
    ensures
        attach_step(None, pending, first).2 is None,
        attach_step(attach_step(None, pending, first).0, between, second).2 matches Some(posted)
            && posted.error == RepresentationManagerError::SurfaceExists,
        attach_step(attach_step(None, pending, first).0, between, second).0 == Some(first),
        attach_step(attach_step(None, pending, first).0, between, second).1 == between,
{
}

/// Attaching an object is refused exactly where the surface has one. The object that is attached
/// is what the surface then has, and nothing has been said with it yet.
pub proof fn attaching_starts_anew(
    attached: Option<InstanceId>,
    pending: ColorRepresentationSurfaceCachedState,
    instance: InstanceId,
)
    ensures
        ({
            let (object, after, posted) = attach_step(attached, pending, instance);
            &&& posted is Some <==> attached is Some
            &&& posted matches Some(p) ==> p.error == RepresentationManagerError::SurfaceExists
                && p.message == "Surface already has ColorRepresentation attached"
            &&& posted is Some ==> object == attached && after == pending
            &&& posted is None ==> object == Some(instance)
            &&& posted is None ==> after.alpha_mode is None && after.chroma_location is None
                && after.coefficients_and_range is None
        }),
{
}

/// Errors of the color representation objects of surfaces.
#[derive(Debug, Clone, Copy, PartialEq, Eq, Structural)]
pub enum RepresentationSurfaceError {
    AlphaMode,
    Coefficients,
    Inert,
}

/// Requests to the color representation object of a surface, with code points.
#[derive(Debug, Clone, Copy)]
pub enum RepresentationRequest {
    SetAlphaMode { alpha_mode: u32 },
    SetChromaLocation { chroma_location: u32 },
    SetCoefficientsAndRange { coefficients: u32, range: u32 },
    /// Any other request.
    Other,
}

/// What is done about a request to the color representation object of a surface.
#[derive(Debug)]
pub enum RepresentationAction {
    Ignore,
    PostError(PostError<RepresentationSurfaceError>),
    /// Say this in the pending state of the surface.
    SetAlphaMode(AlphaMode),
    /// Say this in the pending state of the surface.
    SetChromaLocation(ChromaLocation),
    /// Say this in the pending state of the surface.
    SetCoefficientsAndRange(Coefficients, Range),
}

/// The refusal of a request.
pub open spec fn refused(
    error: RepresentationSurfaceError,
    message: &'static str,
) -> RepresentationAction {
    RepresentationAction::PostError(PostError { error, message })
}

/// What is done about a request to the color representation object of a surface that is there
/// still, or not.
pub open spec fn representation_action(
    model: RepresentationModel,
    surface_alive: bool,
    request: RepresentationRequest,
) -> RepresentationAction {
    if request is Other {
        RepresentationAction::Ignore
    } else if !surface_alive {
        refused(RepresentationSurfaceError::Inert, "surface doesn't exist")
    } else {
        match request {
            RepresentationRequest::SetAlphaMode { alpha_mode } => match AlphaMode::from_code_spec(
                alpha_mode,
            ) {
                None => refused(RepresentationSurfaceError::AlphaMode, "Unknown alpha mode"),
                Some(mode) => RepresentationAction::SetAlphaMode(mode),
            },
            RepresentationRequest::SetChromaLocation {
                chroma_location,
            } => match ChromaLocation::from_code_spec(chroma_location) {
                None => refused(RepresentationSurfaceError::AlphaMode, "Unknown chroma location"),
                Some(location) if model.chroma_locations.contains(location) =>
                    RepresentationAction::SetChromaLocation(location),
                Some(_) => refused(
                    RepresentationSurfaceError::Coefficients,
                    "client send chroma location not advertised",
                ),
            },
            RepresentationRequest::SetCoefficientsAndRange { coefficients, range } => match (
                Coefficients::from_code_spec(coefficients),
                Range::from_code_spec(range),
            ) {
                (None, _) => refused(
                    RepresentationSurfaceError::AlphaMode,
                    "Unknown coefficients",
                ),
                (Some(_), None) => refused(
                    RepresentationSurfaceError::AlphaMode,
                    "Unknown range",
                ),
                (Some(c), Some(r)) if model.coefficients_and_ranges.contains((c, r)) =>
                    RepresentationAction::SetCoefficientsAndRange(c, r),
                _ => refused(
                    RepresentationSurfaceError::Coefficients,
                    "client send coefficient not advertised",
                ),
            },
            RepresentationRequest::Other => RepresentationAction::Ignore,
        }
    }
}

fn refuse(error: RepresentationSurfaceError, message: &'static str) -> (action:
    RepresentationAction)
    ensures
        action == refused(error, message),
{
    RepresentationAction::PostError(PostError { error, message })
}

impl ColorRepresentationState {
    /// What is done about a request to the color representation object of a surface.
    pub fn surface_request(&self, surface_alive: bool, request: RepresentationRequest) -> (action:
        RepresentationAction)
        ensures
            action == representation_action(self@, surface_alive, request),
    {
        match request {
            RepresentationRequest::SetAlphaMode { alpha_mode } => {
                if !surface_alive {
                    return refuse(RepresentationSurfaceError::Inert, "surface doesn't exist");
                }
                match AlphaMode::from_code(alpha_mode) {
                    Some(mode) => RepresentationAction::SetAlphaMode(mode),
                    None => refuse(RepresentationSurfaceError::AlphaMode, "Unknown alpha mode"),
                }
            },
            RepresentationRequest::SetChromaLocation { chroma_location } => {
                if !surface_alive {
                    return refuse(RepresentationSurfaceError::Inert, "surface doesn't exist");
                }
                let location = match ChromaLocation::from_code(chroma_location) {
                    Some(location) => location,
                    None => return refuse(
                        RepresentationSurfaceError::AlphaMode,
                        "Unknown chroma location",
                    ),
                };
                if !self.supports_chroma_location(location) {
                    return refuse(
                        RepresentationSurfaceError::Coefficients,
                        "client send chroma location not advertised",
                    );
                }
                RepresentationAction::SetChromaLocation(location)
            },
            RepresentationRequest::SetCoefficientsAndRange { coefficients, range } => {
                if !surface_alive {
                    return refuse(RepresentationSurfaceError::Inert, "surface doesn't exist");
                }
                let coefficients = match Coefficients::from_code(coefficients) {
                    Some(coefficients) => coefficients,
                    None => return refuse(
                        RepresentationSurfaceError::AlphaMode,
                        "Unknown coefficients",
                    ),
                };
                let range = match Range::from_code(range) {
                    Some(range) => range,
                    None => return refuse(RepresentationSurfaceError::AlphaMode, "Unknown range"),
                };
                if !self.supports_coefficients_and_range(coefficients, range) {
                    return refuse(
                        RepresentationSurfaceError::Coefficients,
                        "client send coefficient not advertised",
                    );
                }
                RepresentationAction::SetCoefficientsAndRange(coefficients, range)
            },
            RepresentationRequest::Other => RepresentationAction::Ignore,
        }
    }
}

/// The pending state after an action.
pub open spec fn acted_on(
    pending: ColorRepresentationSurfaceCachedState,
    action: RepresentationAction,
) -> ColorRepresentationSurfaceCachedState {
    match action {
        RepresentationAction::SetAlphaMode(mode) => ColorRepresentationSurfaceCachedState {
            alpha_mode: Some(mode),
            ..pending
        },
        RepresentationAction::SetChromaLocation(location) =>
            ColorRepresentationSurfaceCachedState { chroma_location: Some(location), ..pending },
        RepresentationAction::SetCoefficientsAndRange(c, r) =>
            ColorRepresentationSurfaceCachedState {
            coefficients_and_range: Some((c, r)),
            ..pending
        },
        _ => pending,
    }
}

impl ColorRepresentationSurfaceCachedState {
    /// Changes the pending state as an action says.
    pub fn apply(&mut self, action: &RepresentationAction)
        ensures
            *final(self) == acted_on(*old(self), *action),
    {
        match action {
            RepresentationAction::SetAlphaMode(mode) => {
                self.alpha_mode = Some(*mode);
            },
            RepresentationAction::SetChromaLocation(location) => {
                self.chroma_location = Some(*location);
            },
            RepresentationAction::SetCoefficientsAndRange(c, r) => {
                self.coefficients_and_range = Some((*c, *r));
            },
            _ => {},
        }
    }
}

/// What is said about a surface has been advertised, chroma locations to the compositor's own
/// list and coefficients and ranges to clients.
pub open spec fn advertised(
    model: RepresentationModel,
    state: ColorRepresentationSurfaceCachedState,
) -> bool {
    &&& state.chroma_location matches Some(location) ==> model.chroma_locations.contains(location)
    &&& state.coefficients_and_range matches Some(pair) ==> model.coefficients_and_ranges.contains(
        pair,
    )
}

/// No request puts a chroma location, or coefficients and a range, into the pending state that
/// are not supported.
pub proof fn requests_keep_to_what_is_advertised(
    model: RepresentationModel,
    surface_alive: bool,
    pending: ColorRepresentationSurfaceCachedState,
    request: RepresentationRequest,
)
    requires
        advertised(model, pending),
    ensures
        advertised(
            model,
            acted_on(pending, representation_action(model, surface_alive, request)),
        ),
{
}

/// Nor does a merge.
pub proof fn merging_keeps_to_what_is_advertised(
    model: RepresentationModel,
    newer: ColorRepresentationSurfaceCachedState,
    before: ColorRepresentationSurfaceCachedState,
)
    requires
        advertised(model, newer),
        advertised(model, before),
    ensures
        advertised(model, merged(newer, before)),
{
}

/// What a client says and may say is what is read back, and holds whatever was current before
/// once it is committed.
pub proof fn what_is_said_is_read_back(
    model: RepresentationModel,
    pending: ColorRepresentationSurfaceCachedState,
    current: ColorRepresentationSurfaceCachedState,
    mode: AlphaMode,
    location: ChromaLocation,
    coefficients: Coefficients,
    range: Range,
)
    ensures
        ({
            let request = RepresentationRequest::SetAlphaMode { alpha_mode: mode.code_spec() };
            let said = acted_on(pending, representation_action(model, true, request));
            &&& representation_of(said).alpha_mode == mode
            &&& representation_of(merged(said, current)).alpha_mode == mode
        }),
        model.chroma_locations.contains(location) ==> ({
            let request = RepresentationRequest::SetChromaLocation {
                chroma_location: location.code_spec(),
            };
            let said = acted_on(pending, representation_action(model, true, request));
            &&& representation_of(said).chroma_location == Some(location)
            &&& representation_of(merged(said, current)).chroma_location == Some(location)
        }),
        model.coefficients_and_ranges.contains((coefficients, range)) ==> ({
            let request = RepresentationRequest::SetCoefficientsAndRange {
                coefficients: coefficients.code_spec(),
                range: range.code_spec(),
            };
            let said = acted_on(pending, representation_action(model, true, request));
            &&& representation_of(said).coefficients_and_range == Some((coefficients, range))
            &&& representation_of(merged(said, current)).coefficients_and_range == Some(
                (coefficients, range),
            )
        }),
{
    code_round_trip(mode);
    code_round_trip(location);
    code_round_trip(coefficients);
    code_round_trip(range);
}

/// A request changes only what it speaks of, whether it is carried out or not.
pub proof fn requests_change_only_their_part(
    model: RepresentationModel,
    surface_alive: bool,
    pending: ColorRepresentationSurfaceCachedState,
    request: RepresentationRequest,
)
    ensures
        ({
            let after = acted_on(pending, representation_action(model, surface_alive, request));
            &&& !(request is SetAlphaMode) ==> after.alpha_mode == pending.alpha_mode
            &&& !(request is SetChromaLocation) ==> after.chroma_location
                == pending.chroma_location
            &&& !(request is SetCoefficientsAndRange) ==> after.coefficients_and_range
                == pending.coefficients_and_range
        }),
{
}

/// Requests of different kinds can be made in any order.
pub proof fn order_of_requests_does_not_matter(
    model: RepresentationModel,
    pending: ColorRepresentationSurfaceCachedState,
    alpha_mode: u32,
    chroma_location: u32,
    coefficients: u32,
    range: u32,
)
    ensures
        ({
            let alpha = representation_action(
                model,
                true,
                (RepresentationRequest::SetAlphaMode { alpha_mode }),
            );
            let chroma = representation_action(
                model,
                true,
                (RepresentationRequest::SetChromaLocation { chroma_location }),
            );
            let pair = representation_action(
                model,
                true,
                (RepresentationRequest::SetCoefficientsAndRange { coefficients, range }),
            );
            &&& acted_on(acted_on(pending, alpha), chroma) == acted_on(
                acted_on(pending, chroma),
                alpha,
            )
            &&& acted_on(acted_on(pending, alpha), pair) == acted_on(
                acted_on(pending, pair),
                alpha,
            )
            &&& acted_on(acted_on(pending, chroma), pair) == acted_on(
                acted_on(pending, pair),
                chroma,
            )
        }),
{
}

/// An alpha mode is accepted exactly where the number is that of one, advertised or not, and is
/// then what the pending state says.
pub proof fn any_alpha_mode_is_accepted(
    model: RepresentationModel,
    pending: ColorRepresentationSurfaceCachedState,
    alpha_mode: u32,
)
    ensures
        ({
            let action = representation_action(
                model,
                true,
                (RepresentationRequest::SetAlphaMode { alpha_mode }),
            );
            let is_known = exists|m: AlphaMode| #[trigger] m.code_spec() == alpha_mode;
            &&& is_known ==> !(action is PostError) && (acted_on(pending, action).alpha_mode matches
                Some(mode) && mode.code_spec() == alpha_mode)
            &&& !is_known ==> (action matches RepresentationAction::PostError(posted)
                && posted.error == RepresentationSurfaceError::AlphaMode && posted.message
                == "Unknown alpha mode")
        }),
{
    match AlphaMode::from_code_spec(alpha_mode) {
        Some(mode) => {
            AlphaMode::from_code_inverts_code(alpha_mode, mode);
            assert(mode.code_spec() == alpha_mode);
        },
        None => {
            assert forall|m: AlphaMode| #[trigger] m.code_spec() != alpha_mode by {
                AlphaMode::from_code_inverts_code(alpha_mode, m);
            }
        },
    }
}

/// A chroma location is accepted exactly where the number is that of one that is supported, and
/// is then what the pending state says.
pub proof fn supported_chroma_locations_are_accepted(
    model: RepresentationModel,
    pending: ColorRepresentationSurfaceCachedState,
    chroma_location: u32,
)
    ensures
        ({
            let action = representation_action(
                model,
                true,
                (RepresentationRequest::SetChromaLocation { chroma_location }),
            );
            let is_known = exists|l: ChromaLocation| #[trigger] l.code_spec() == chroma_location;
            let is_supported = exists|l: ChromaLocation| #[trigger]
                model.chroma_locations.contains(l) && l.code_spec() == chroma_location;
            &&& is_supported ==> !(action is PostError) && (acted_on(pending, action).chroma_location
                matches Some(location) && location.code_spec() == chroma_location)
            &&& !is_known ==> (action matches RepresentationAction::PostError(posted)
                && posted.error == RepresentationSurfaceError::AlphaMode && posted.message
                == "Unknown chroma location")
            &&& is_known && !is_supported ==> (action matches RepresentationAction::PostError(posted)
                && posted.error == RepresentationSurfaceError::Coefficients && posted.message
                == "client send chroma location not advertised")
        }),
{
    match ChromaLocation::from_code_spec(chroma_location) {
        Some(location) => {
            ChromaLocation::from_code_inverts_code(chroma_location, location);
            assert(location.code_spec() == chroma_location);
            assert forall|l: ChromaLocation| #[trigger]
                model.chroma_locations.contains(l) && l.code_spec()
                    == chroma_location implies l == location by {
                code_names_one_member(l, location);
            }
        },
        None => {
            assert forall|l: ChromaLocation| #[trigger] l.code_spec() != chroma_location by {
                ChromaLocation::from_code_inverts_code(chroma_location, l);
            }
        },
    }
}

/// Coefficients and a range are accepted exactly where the numbers are those of a pair that is
/// supported, and are then what the pending state says.
pub proof fn supported_pairs_are_accepted(
    model: RepresentationModel,
    pending: ColorRepresentationSurfaceCachedState,
    coefficients: u32,
    range: u32,
)
    ensures
        ({
            let action = representation_action(
                model,
                true,
                (RepresentationRequest::SetCoefficientsAndRange { coefficients, range }),
            );
            let known_coefficients = exists|c: Coefficients| #[trigger]
                c.code_spec() == coefficients;
            let known_range = exists|r: Range| #[trigger] r.code_spec() == range;
            let is_supported = exists|c: Coefficients, r: Range| #[trigger]
                model.coefficients_and_ranges.contains((c, r)) && c.code_spec() == coefficients
                    && r.code_spec() == range;
            &&& is_supported ==> !(action is PostError) && (acted_on(
                pending,
                action,
            ).coefficients_and_range matches Some((c, r)) && c.code_spec() == coefficients
                && r.code_spec() == range)
            &&& !known_coefficients ==> (action matches RepresentationAction::PostError(posted)
                && posted.error == RepresentationSurfaceError::AlphaMode && posted.message
                == "Unknown coefficients")
            &&& known_coefficients && !known_range ==> (action matches
                RepresentationAction::PostError(posted) && posted.error
                == RepresentationSurfaceError::AlphaMode && posted.message == "Unknown range")
            &&& known_coefficients && known_range && !is_supported ==> (action matches
                RepresentationAction::PostError(posted) && posted.error
                == RepresentationSurfaceError::Coefficients && posted.message
                == "client send coefficient not advertised")
        }),
{
    match Coefficients::from_code_spec(coefficients) {
        Some(c0) => {
            Coefficients::from_code_inverts_code(coefficients, c0);
            assert(c0.code_spec() == coefficients);
            match Range::from_code_spec(range) {
                Some(r0) => {
                    Range::from_code_inverts_code(range, r0);
                    assert(r0.code_spec() == range);
                    assert forall|c: Coefficients, r: Range| #[trigger]
                        model.coefficients_and_ranges.contains((c, r)) && c.code_spec()
                            == coefficients && r.code_spec() == range implies c == c0 && r
                        == r0 by {
                        code_names_one_member(c, c0);
                        code_names_one_member(r, r0);
                    }
                },
                None => {
                    assert forall|r: Range| #[trigger] r.code_spec() != range by {
                        Range::from_code_inverts_code(range, r);
                    }
                },
            }
        },
        None => {
            assert forall|c: Coefficients| #[trigger] c.code_spec() != coefficients by {
                Coefficients::from_code_inverts_code(coefficients, c);
            }
        },
    }
}

/// On a surface that is gone every request that says something is an error, and no other request
/// ever is.
pub proof fn gone_surfaces_take_nothing(
    model: RepresentationModel,
    surface_alive: bool,
    request: RepresentationRequest,
)
    ensures
        !(request is Other) ==> (representation_action(model, false, request) matches
            RepresentationAction::PostError(posted) && posted.error
            == RepresentationSurfaceError::Inert && posted.message == "surface doesn't exist"),
        request is Other ==> representation_action(model, surface_alive, request) is Ignore,
{
}

/// A refused request changes nothing.
pub proof fn refused_request_changes_nothing(
    model: RepresentationModel,
    surface_alive: bool,
    pending: ColorRepresentationSurfaceCachedState,
    request: RepresentationRequest,
)
    ensures
        representation_action(model, surface_alive, request) is PostError ==> acted_on(
            pending,
            representation_action(model, surface_alive, request),
        ) == pending,
{
}

} // verus!
