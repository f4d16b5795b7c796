//! Surfaces: the image description that a client gives one, and the one it would best have.

use vstd::prelude::*;

use crate::code_point::{code_names_one_member, code_round_trip, CodePoint};
use crate::instances::{remove_instance_id, without, InstanceId};
use crate::management::description::ImageDescription;
use crate::management::identity::{
    events_give_the_number_back, preferred_changed, preferred_event, PreferredEvent,
};
use crate::management::image_description::{Cause, ImageDescriptionData, NewDescription};
use crate::management::named::RenderIntent;
use crate::management::state::{ColorManagementState, Support};
use crate::management::weak::WeakHandle;
use crate::post_error::PostError;

verus! {

/// The colors of a surface, as a client sets them and a commit applies them.
#[derive(Debug)]
pub struct ColorManagementSurfaceCachedState<U> {
    pub description: Option<ImageDescription<U>>,
    pub render_intent: RenderIntent,
}

impl<U> ColorManagementSurfaceCachedState<U> {
    /// No description, and the perceptual intent.
    pub open spec fn unset() -> Self {
        ColorManagementSurfaceCachedState {
            description: None,
            render_intent: RenderIntent::Perceptual,
        }
    }

    /// The state that a commit takes along; the pending state stays as it is.
    pub fn commit(&mut self) -> (committed: Self)
        ensures
            committed == *old(self),
            *final(self) == *old(self),
    {
        self.clone()
    }

    /// Replaces `into`, the state that was current.
    pub fn merge_into(self, into: &mut Self)
        ensures
            *final(into) == self,
    {
        *into = self;
    }
}

impl<U> Default for ColorManagementSurfaceCachedState<U> {
    fn default() -> (state: Self)
        ensures
            state == Self::unset(),
    {
        ColorManagementSurfaceCachedState {
            description: None,
            render_intent: RenderIntent::Perceptual,
        }
    }
}

impl<U> Clone for ColorManagementSurfaceCachedState<U> {
    fn clone(&self) -> (copy: Self)
        ensures
            copy == *self,
    {
        ColorManagementSurfaceCachedState {
            description: match &self.description {
                Some(description) => Some(description.clone()),
                None => None,
            },
            render_intent: self.render_intent,
        }
    }
}

/// The description and the rendering intent of a surface whose current state this is.
pub fn get_surface_description_from_surface_data<U>(
    current: &ColorManagementSurfaceCachedState<U>,
) -> (description: (Option<ImageDescription<U>>, RenderIntent))
    ensures
        description == (current.description, current.render_intent),
{
    let data = current.clone();
    (data.description, data.render_intent)
}

/// A feedback object of a surface, and its version.
#[derive(Debug, Clone, Copy, PartialEq, Eq, Structural)]
pub struct FeedbackInstance {
    pub id: InstanceId,
    pub version: u32,
}

/// The feedback objects without the one numbered `gone`.
pub open spec fn feedback_without(
    instances: Seq<FeedbackInstance>,
    gone: InstanceId,
) -> Seq<FeedbackInstance> {
    instances.filter(|i: FeedbackInstance| i.id != gone)
}

/// A feedback object that comes and goes leaves no trace.
pub proof fn adding_and_removing_feedback_cancel(
    instances: Seq<FeedbackInstance>,
    instance: FeedbackInstance,
)
    requires
        forall|i: int| 0 <= i < instances.len() ==> (#[trigger] instances[i]).id != instance.id,
    ensures
        feedback_without(instances.push(instance), instance.id) == instances,
{
    reveal(Seq::filter);
    assert(instances.push(instance).drop_last() =~= instances);
    feedback_without_absent(instances, instance.id);
}

proof fn feedback_without_absent(instances: Seq<FeedbackInstance>, gone: InstanceId)
    requires
        forall|i: int| 0 <= i < instances.len() ==> (#[trigger] instances[i]).id != gone,
    ensures
        feedback_without(instances, gone) == instances,
    decreases instances.len(),
{
    reveal(Seq::filter);
    if instances.len() > 0 {
        feedback_without_absent(instances.drop_last(), gone);
        assert(instances.drop_last().push(instances.last()) =~= instances);
    }
}

/// Removing goes over the feedback objects one by one: it takes away the one that is gone,
/// wherever it stands, and leaves the others in their order.
pub proof fn removing_feedback_goes_one_by_one(
    a: Seq<FeedbackInstance>,
    b: Seq<FeedbackInstance>,
    one: FeedbackInstance,
    gone: InstanceId,
)
    ensures
        feedback_without(a + b, gone) == feedback_without(a, gone) + feedback_without(b, gone),
        one.id == gone ==> feedback_without(seq![one], gone).len() == 0,
        one.id != gone ==> feedback_without(seq![one], gone) == seq![one],
    decreases b.len(),
{
    reveal(Seq::filter);
    assert(seq![one].drop_last() =~= Seq::empty());
    assert(feedback_without(Seq::empty(), gone) =~= Seq::empty());
    if b.len() == 0 {
        assert(a + b =~= a);
        assert(feedback_without(b, gone) =~= Seq::empty());
    } else {
        assert((a + b).drop_last() =~= a + b.drop_last());
        removing_feedback_goes_one_by_one(a, b.drop_last(), one, gone);
    }
}

/// What is kept with a surface that color management knows.
#[derive(Debug)]
pub struct ColorManagementSurfaceData<U> {
    preferred: ImageDescription<U>,
    known_instances: Vec<InstanceId>,
    known_feedback_instances: Vec<FeedbackInstance>,
}

/// The value of a [`ColorManagementSurfaceData`].
pub struct SurfaceModel<U> {
    pub preferred: ImageDescription<U>,
    pub instances: Seq<InstanceId>,
    pub feedback: Seq<FeedbackInstance>,
}

impl<U> View for ColorManagementSurfaceData<U> {
    type V = SurfaceModel<U>;

    closed spec fn view(&self) -> SurfaceModel<U> {
        SurfaceModel {
            preferred: self.preferred,
            instances: self.known_instances@,
            feedback: self.known_feedback_instances@,
        }
    }
}

impl<U> ColorManagementSurfaceData<U> {
    /// A surface that would best have `preferred`, with no objects.
    pub fn new(preferred: ImageDescription<U>) -> (data: Self)
        ensures
            data@ == (SurfaceModel {
                preferred,
                instances: Seq::<InstanceId>::empty(),
                feedback: Seq::<FeedbackInstance>::empty(),
            }),
    {
        ColorManagementSurfaceData {
            preferred,
            known_instances: Vec::new(),
            known_feedback_instances: Vec::new(),
        }
    }

    /// The description that the surface would best have.
    pub fn preferred(&self) -> (preferred: &ImageDescription<U>)
        ensures
            *preferred == self@.preferred,
    {
        &self.preferred
    }

    /// Adds an object.
    pub fn add_instance(&mut self, instance: InstanceId)
        ensures
            final(self)@ == (SurfaceModel {
                instances: old(self)@.instances.push(instance),
                ..old(self)@
            }),
    {
        self.known_instances.push(instance);
    }

    /// Removes an object.
    pub fn remove_instance(&mut self, instance: InstanceId)
        ensures
            final(self)@ == (SurfaceModel {
                instances: without(old(self)@.instances, instance),
                ..old(self)@
            }),
    {
        remove_instance_id(&mut self.known_instances, instance);
    }

    /// Adds a feedback object.
    pub fn add_feedback_instance(&mut self, instance: FeedbackInstance)
        ensures
            final(self)@ == (SurfaceModel {
                feedback: old(self)@.feedback.push(instance),
                ..old(self)@
            }),
    {
        self.known_feedback_instances.push(instance);
    }

    /// Removes a feedback object.
    pub fn remove_feedback_instance(&mut self, instance: InstanceId)
        ensures
            final(self)@ == (SurfaceModel {
                feedback: feedback_without(old(self)@.feedback, instance),
                ..old(self)@
            }),
    {
        let ghost all = self.known_feedback_instances@;
        let mut rest: Vec<FeedbackInstance> = Vec::new();
        let mut i: usize = 0;
        while i < self.known_feedback_instances.len()
            invariant
                all == self.known_feedback_instances@,
                i <= all.len(),
                rest@ == feedback_without(all.take(i as int), instance),
            decreases all.len() - i,
        {
            assert(all.take(i + 1).drop_last() =~= all.take(i as int));
            reveal(Seq::filter);
            let here = self.known_feedback_instances[i];
            if here.id != instance {
                rest.push(here);
            }
            i += 1;
        }
        assert(all.take(i as int) =~= all);
        self.known_feedback_instances = rest;
    }
}

/// An event to send on a feedback object.
#[derive(Debug, Clone, Copy)]
pub struct FeedbackEvent {
    pub instance: InstanceId,
    pub event: PreferredEvent,
}

/// The events that tell feedback objects that the description numbered `id` is preferred.
pub open spec fn feedback_events(instances: Seq<FeedbackInstance>, id: u64) -> Seq<FeedbackEvent> {
    instances.map_values(
        |i: FeedbackInstance|
            FeedbackEvent { instance: i.id, event: preferred_event(i.version, id) },
    )
}

/// What is kept with a surface once `preferred` is what it would best have, and the events to
/// send. Nothing happens where it has the description already.
pub open spec fn preferred_step<U>(
    surface: SurfaceModel<U>,
    preferred: ImageDescription<U>,
) -> (SurfaceModel<U>, Seq<FeedbackEvent>) {
    if surface.preferred.id_spec() == preferred.id_spec() {
        (surface, Seq::empty())
    } else {
        (
            SurfaceModel { preferred, ..surface },
            feedback_events(surface.feedback, preferred.id_spec()),
        )
    }
}

/// Makes `preferred` the description that a surface would best have, and gives the events to
/// send. Nothing happens on a surface that color management does not know.
pub fn update_surface_preferred<U>(
    states: &mut Option<ColorManagementSurfaceData<U>>,
    preferred: ImageDescription<U>,
) -> (events: Vec<FeedbackEvent>)
    ensures
        match *old(states) {
            None => *final(states) is None && events@ == Seq::<FeedbackEvent>::empty(),
            Some(data) => *final(states) matches Some(after) && (after@, events@)
                == preferred_step(data@, preferred),
        },
{
    let preferred_id: u64 = preferred.id();
    let mut events: Vec<FeedbackEvent> = Vec::new();
    match states {
        None => {},
        Some(data) => {
            if data.preferred.id() == preferred_id {
                return events;
            }
            data.preferred = preferred;
            let ghost all = data.known_feedback_instances@;
            let mut i: usize = 0;
            while i < data.known_feedback_instances.len()
                invariant
                    all == data.known_feedback_instances@,
                    i <= all.len(),
                    events@ == feedback_events(all.take(i as int), preferred_id),
                decreases all.len() - i,
            {
                let here = data.known_feedback_instances[i];
                events.push(
                    FeedbackEvent {
                        instance: here.id,
                        event: preferred_changed(here.version, preferred_id),
                    },
                );
                i += 1;
                assert(events@ =~= feedback_events(all.take(i as int), preferred_id));
            }
            assert(all.take(i as int) =~= all);
        },
    }
    events
}

/// Whenever the preferred description gets another number, greater or lower, each feedback object
/// is sent one event, in order, from which it can tell the new number as its version allows. The
/// description is replaced, and nothing else that is kept with the surface.
pub proof fn every_change_is_told<U>(surface: SurfaceModel<U>, preferred: ImageDescription<U>)
    requires
        surface.preferred.id_spec() != preferred.id_spec(),
    ensures
        ({
            let (after, events) = preferred_step(surface, preferred);
            &&& after.preferred == preferred
            &&& after.instances == surface.instances
            &&& after.feedback == surface.feedback
            &&& events.len() == surface.feedback.len()
            &&& forall|i: int|
                0 <= i < events.len() ==> (#[trigger] events[i]).instance == surface.feedback[i].id
            &&& forall|i: int|
                0 <= i < events.len() ==> match (#[trigger] events[i]).event {
                    PreferredEvent::PreferredChanged2 { identity_hi, identity_lo } =>
                        surface.feedback[i].version >= 2 && identity_hi * 0x1_0000_0000
                        + identity_lo == preferred.id_spec(),
                    PreferredEvent::PreferredChanged { identity } => surface.feedback[i].version
                        < 2 && (preferred.id_spec() - identity) % 0x1_0000_0000 == 0,
                }
        }),
{
    let (after, events) = preferred_step(surface, preferred);
    assert forall|i: int| 0 <= i < events.len() implies match (#[trigger] events[i]).event {
        PreferredEvent::PreferredChanged2 { identity_hi, identity_lo } =>
            surface.feedback[i].version >= 2 && identity_hi * 0x1_0000_0000 + identity_lo
            == preferred.id_spec(),
        PreferredEvent::PreferredChanged { identity } => surface.feedback[i].version < 2 && (
        preferred.id_spec() - identity) % 0x1_0000_0000 == 0,
    } by {
        events_give_the_number_back(surface.feedback[i].version, preferred.id_spec());
    }
}

/// Where the number stays the same, nothing is sent and nothing changes.
pub proof fn no_change_is_not_told<U>(surface: SurfaceModel<U>, preferred: ImageDescription<U>)
    requires
        surface.preferred.id_spec() == preferred.id_spec(),
    ensures
        preferred_step(surface, preferred).0 == surface,
        preferred_step(surface, preferred).1.len() == 0,
{
}

/// Clients are told of a change once: saying the same again is silent.
pub proof fn preferring_the_same_again_is_silent<U>(
    surface: SurfaceModel<U>,
    preferred: ImageDescription<U>,
)
    ensures
        preferred_step(preferred_step(surface, preferred).0, preferred) == (
            preferred_step(surface, preferred).0,
            Seq::<FeedbackEvent>::empty(),
        ),
        preferred_step(surface, preferred).0.preferred.id_spec() == preferred.id_spec(),
{
}

/// Errors of the color management objects of surfaces.
#[derive(Debug, Clone, Copy, PartialEq, Eq, Structural)]
pub enum SurfaceError {
    RenderIntent,
    Inert,
}

/// Requests to the color management object of a surface.
#[derive(Debug)]
pub enum SurfaceRequest<U> {
    SetImageDescription {
        /// What the image description object stands for, unless it failed.
        image_description: Option<ImageDescription<U>>,
        /// The code point of the rendering intent.
        render_intent: u32,
    },
    UnsetImageDescription,
    /// Any other request.
    Other,
}

/// What is done about a request to the color management object of a surface.
#[derive(Debug)]
pub enum SurfaceAction<U> {
    Ignore,
    /// Make this the pending state of the surface.
    SetPending(ColorManagementSurfaceCachedState<U>),
    /// Post an error on the object.
    PostError(PostError<SurfaceError>),
    /// Post an error on the image description that the request named.
    PostErrorOnDescription(PostError<SurfaceError>),
}

/// What is done about a request to the color management object of a surface that is there still,
/// or not.
pub open spec fn surface_action<U>(
    support: Support,
    surface_alive: bool,
    request: SurfaceRequest<U>,
) -> SurfaceAction<U> {
    match request {
        SurfaceRequest::SetImageDescription { image_description, render_intent } => if !surface_alive {
            SurfaceAction::Ignore
        } else {
            match (image_description, RenderIntent::from_code_spec(render_intent)) {
                (None, _) => SurfaceAction::PostErrorOnDescription(
                    PostError {
                        error: SurfaceError::Inert,
                        message: "Tried to set a failed image description on a surface",
                    },
                ),
                (Some(_), None) => SurfaceAction::PostError(
                    PostError {
                        error: SurfaceError::RenderIntent,
                        message: "Unknown render intent (wrong version?)",
                    },
                ),
                (Some(description), Some(intent)) => if support.intents.contains(intent) {
                    SurfaceAction::SetPending(
                        ColorManagementSurfaceCachedState {
                            description: Some(description),
                            render_intent: intent,
                        },
                    )
                } else {
                    SurfaceAction::PostError(
                        PostError {
                            error: SurfaceError::RenderIntent,
                            message: "Unsupported render intent",
                        },
                    )
                },
            }
        },
        SurfaceRequest::UnsetImageDescription => if surface_alive {
            SurfaceAction::SetPending(ColorManagementSurfaceCachedState::unset())
        } else {
            SurfaceAction::PostError(
                PostError { error: SurfaceError::Inert, message: "Surface doesn't exist" },
            )
        },
        SurfaceRequest::Other => SurfaceAction::Ignore,
    }
}

/// A surface only ever gets a rendering intent that is supported, or goes back to having no
/// description.
pub proof fn surfaces_get_supported_intents<U>(
    support: Support,
    surface_alive: bool,
    request: SurfaceRequest<U>,
)
    ensures
        surface_action(support, surface_alive, request) matches SurfaceAction::SetPending(state)
            ==> {
            ||| state == ColorManagementSurfaceCachedState::<U>::unset()
            ||| state.description is Some && support.intents.contains(state.render_intent)
        },
{
}

/// A description that is set with a supported rendering intent is what the surface then has.
pub proof fn set_description_is_what_the_surface_has<U>(
    support: Support,
    description: ImageDescription<U>,
    intent: RenderIntent,
)
    requires
        support.intents.contains(intent),
    ensures
        surface_action(
            support,
            true,
            (SurfaceRequest::SetImageDescription {
                image_description: Some(description),
                render_intent: intent.code_spec(),
            }),
        ) == SurfaceAction::SetPending(
            ColorManagementSurfaceCachedState {
                description: Some(description),
                render_intent: intent,
            },
        ),
{
    code_round_trip(intent);
}

/// What ends in an error: setting a description with a rendering intent that is not among the
/// supported ones, setting one that failed, and unsetting on a surface that is gone. Setting on a
/// surface that is gone is silent, and so is every other request.
pub proof fn what_surfaces_refuse<U>(
    support: Support,
    alive: bool,
    description: ImageDescription<U>,
    render_intent: u32,
)
    ensures
        ({
            let set = |image_description: Option<ImageDescription<U>>|
                SurfaceRequest::SetImageDescription { image_description, render_intent };
            let is_supported = exists|intent: RenderIntent| #[trigger]
                support.intents.contains(intent) && intent.code_spec() == render_intent;
            let is_known = exists|intent: RenderIntent| #[trigger]
                intent.code_spec() == render_intent;
            &&& surface_action(support, false, set(Some(description))) is Ignore
            &&& surface_action(support, false, set(None)) is Ignore
            &&& surface_action(support, true, set(None)) matches
                SurfaceAction::PostErrorOnDescription(posted) && posted.error
                == SurfaceError::Inert && posted.message
                == "Tried to set a failed image description on a surface"
            &&& is_supported ==> (surface_action(support, true, set(Some(description))) matches
                SurfaceAction::SetPending(state) && state.description == Some(description)
                && state.render_intent.code_spec() == render_intent)
            &&& !is_supported ==> (surface_action(support, true, set(Some(description))) matches
                SurfaceAction::PostError(posted) && posted.error == SurfaceError::RenderIntent
                && posted.message == if is_known {
                "Unsupported render intent"
            } else {
                "Unknown render intent (wrong version?)"
            })
        }),
        surface_action(support, false, SurfaceRequest::<U>::UnsetImageDescription) matches
            SurfaceAction::PostError(posted) && posted.error == SurfaceError::Inert
            && posted.message == "Surface doesn't exist",
        surface_action(support, true, SurfaceRequest::<U>::UnsetImageDescription) matches
            SurfaceAction::SetPending(state) && state.description is None && state.render_intent
            == RenderIntent::Perceptual,
        surface_action(support, alive, SurfaceRequest::<U>::Other) is Ignore,
{
    match RenderIntent::from_code_spec(render_intent) {
        Some(intent) => {
            RenderIntent::from_code_inverts_code(render_intent, intent);
            assert(intent.code_spec() == render_intent);
            if support.intents.contains(intent) {
            } else {
                assert forall|other: RenderIntent| other.code_spec() == render_intent implies !(
                #[trigger] support.intents.contains(other)) by {
                    code_names_one_member(other, intent);
                }
            }
        },
        None => {
            assert forall|other: RenderIntent| #[trigger] other.code_spec() != render_intent by {
                RenderIntent::from_code_inverts_code(render_intent, other);
            }
        },
    }
}

/// Nothing is set on a surface that is gone.
pub proof fn gone_surfaces_get_nothing<U>(support: Support, request: SurfaceRequest<U>)
    ensures
        !(surface_action(support, false, request) is SetPending),
{
}

impl<W: WeakHandle> ColorManagementState<W> {
    /// What is done about a request to the color management object of a surface.
    pub fn surface_request(
        &self,
        surface_alive: bool,
        request: SurfaceRequest<W::UserData>,
    ) -> (action: SurfaceAction<W::UserData>)
        ensures
            action == surface_action(self.support(), surface_alive, request),
    {
        match request {
            SurfaceRequest::SetImageDescription { image_description, render_intent } => {
                if !surface_alive {
                    return SurfaceAction::Ignore;
                }
                let description = match image_description {
                    Some(description) => description,
                    None => return SurfaceAction::PostErrorOnDescription(
                        PostError {
                            error: SurfaceError::Inert,
                            message: "Tried to set a failed image description on a surface",
                        },
                    ),
                };
                match RenderIntent::from_code(render_intent) {
                    Some(intent) => if self.supported_rendering_intents().contains(intent) {
                        SurfaceAction::SetPending(
                            ColorManagementSurfaceCachedState {
                                description: Some(description),
                                render_intent: intent,
                            },
                        )
                    } else {
                        SurfaceAction::PostError(
                            PostError {
                                error: SurfaceError::RenderIntent,
                                message: "Unsupported render intent",
                            },
                        )
                    },
                    None => SurfaceAction::PostError(
                        PostError {
                            error: SurfaceError::RenderIntent,
                            message: "Unknown render intent (wrong version?)",
                        },
                    ),
                }
            },
            SurfaceRequest::UnsetImageDescription => if surface_alive {
                SurfaceAction::SetPending(ColorManagementSurfaceCachedState::default())
            } else {
                SurfaceAction::PostError(
                    PostError { error: SurfaceError::Inert, message: "Surface doesn't exist" },
                )
            },
            SurfaceRequest::Other => SurfaceAction::Ignore,
        }
    }
}

/// Requests to a feedback object.
#[derive(Debug, Clone, Copy, PartialEq, Eq, Structural)]
pub enum FeedbackRequest {
    GetPreferred,
    GetPreferredParametric,
    /// Any other request.
    Other,
}

/// The image description object to make for a request to a feedback object, if any. `surface` is
/// what is kept with the surface, unless the surface is gone.
///
/// There is no parametric stand-in for a preferred description, so the parametric form can only
/// be asked for on a surface that is gone.
pub fn feedback_request<U>(
    surface: Option<&ColorManagementSurfaceData<U>>,
    request: FeedbackRequest,
) -> (new: Option<NewDescription<U>>)
    requires
        request is GetPreferredParametric ==> surface is None,
    ensures
        new == match (request, surface) {
            (FeedbackRequest::Other, _) => None,
            (_, Some(data)) => Some(
                NewDescription::Ready(
                    ImageDescriptionData { get_information: true, info: data@.preferred },
                ),
            ),
            (_, None) => Some(
                NewDescription::Failed {
                    cause: Cause::NoOutput,
                    message: "Surface was destroyed",
                },
            ),
        },
{
    match request {
        FeedbackRequest::Other => None,
        _ => Some(
            match surface {
                Some(data) => NewDescription::Ready(
                    ImageDescriptionData { get_information: true, info: data.preferred.clone() },
                ),
                None => NewDescription::Failed {
                    cause: Cause::NoOutput,
                    message: "Surface was destroyed",
                },
            },
        ),
    }
}

} // verus!
