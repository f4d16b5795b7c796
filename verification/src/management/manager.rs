//! The color manager object: what a client is told when it binds one, and its requests.

use vstd::prelude::*;

use crate::instances::InstanceId;
use crate::management::builder::{
    ImageDescriptionIccBuilder, ImageDescriptionParametricBuilder, Parameters,
};
use crate::management::description::ImageDescription;
use crate::management::identity::{preferred_changed, preferred_event, PreferredEvent};
use crate::management::named::{Feature, Primaries, RenderIntent, TransferFunction};
use crate::management::output::{ColorManagementOutput, OutputModel};
use crate::management::state::{ColorManagementState, Support};
use crate::management::surface::{ColorManagementSurfaceData, FeedbackInstance, SurfaceModel};
use crate::post_error::PostError;

verus! {

/// What a client that binds the color manager is sent.
#[derive(Debug, Clone, Copy)]
pub enum ManagerEvent {
    SupportedFeature(Feature),
    SupportedIntent(RenderIntent),
    SupportedTfNamed(TransferFunction),
    SupportedPrimariesNamed(Primaries),
    Done,
}

/// Everything that is supported, kind by kind, and that this was all.
pub open spec fn bind_events(support: Support) -> Seq<ManagerEvent> {
    support.features.map_values(|f: Feature| ManagerEvent::SupportedFeature(f))
        + support.intents.map_values(|i: RenderIntent| ManagerEvent::SupportedIntent(i))
        + support.tf.map_values(|t: TransferFunction| ManagerEvent::SupportedTfNamed(t))
        + support.primaries.map_values(|p: Primaries| ManagerEvent::SupportedPrimariesNamed(p))
        + seq![ManagerEvent::Done]
}

/// A client hears of everything that is supported, once where no support is listed twice, and of
/// nothing else.
pub proof fn clients_hear_of_all_support(
    support: Support,
    feature: Feature,
    intent: RenderIntent,
    tf: TransferFunction,
    primaries: Primaries,
)
    ensures
        bind_events(support).contains(ManagerEvent::SupportedFeature(feature))
            <==> support.features.contains(feature),
        bind_events(support).contains(ManagerEvent::SupportedIntent(intent))
            <==> support.intents.contains(intent),
        bind_events(support).contains(ManagerEvent::SupportedTfNamed(tf)) <==> support.tf.contains(
            tf,
        ),
        bind_events(support).contains(ManagerEvent::SupportedPrimariesNamed(primaries))
            <==> support.primaries.contains(primaries),
        bind_events(support).last() == ManagerEvent::Done,
        support.no_repetitions() ==> bind_events(support).no_duplicates(),
{
    let f = support.features.map_values(|f: Feature| ManagerEvent::SupportedFeature(f));
    let i = support.intents.map_values(|i: RenderIntent| ManagerEvent::SupportedIntent(i));
    let t = support.tf.map_values(|t: TransferFunction| ManagerEvent::SupportedTfNamed(t));
    let p = support.primaries.map_values(|p: Primaries| ManagerEvent::SupportedPrimariesNamed(p));
    let events = bind_events(support);
    if support.features.contains(feature) {
        let k = choose|k: int|
            0 <= k < support.features.len() && support.features[k] == feature;
        assert(events[k] == ManagerEvent::SupportedFeature(feature));
    }
    if support.intents.contains(intent) {
        let k = choose|k: int| 0 <= k < support.intents.len() && support.intents[k] == intent;
        assert(events[f.len() + k] == ManagerEvent::SupportedIntent(intent));
    }
    if support.tf.contains(tf) {
        let k = choose|k: int| 0 <= k < support.tf.len() && support.tf[k] == tf;
        assert(events[f.len() + i.len() + k] == ManagerEvent::SupportedTfNamed(tf));
    }
    if support.primaries.contains(primaries) {
        let k = choose|k: int|
            0 <= k < support.primaries.len() && support.primaries[k] == primaries;
        assert(events[f.len() + i.len() + t.len() + k] == ManagerEvent::SupportedPrimariesNamed(
            primaries,
        ));
    }
    if events.contains(ManagerEvent::SupportedFeature(feature)) {
        let k = choose|k: int|
            0 <= k < events.len() && events[k] == ManagerEvent::SupportedFeature(feature);
        assert(k < f.len());
        assert(support.features[k] == feature);
    }
    if events.contains(ManagerEvent::SupportedIntent(intent)) {
        let k = choose|k: int|
            0 <= k < events.len() && events[k] == ManagerEvent::SupportedIntent(intent);
        assert(f.len() <= k < f.len() + i.len());
        assert(support.intents[k - f.len()] == intent);
    }
    if events.contains(ManagerEvent::SupportedTfNamed(tf)) {
        let k = choose|k: int|
            0 <= k < events.len() && events[k] == ManagerEvent::SupportedTfNamed(tf);
        assert(f.len() + i.len() <= k < f.len() + i.len() + t.len());
        assert(support.tf[k - f.len() - i.len()] == tf);
    }
    if events.contains(ManagerEvent::SupportedPrimariesNamed(primaries)) {
        let k = choose|k: int|
            0 <= k < events.len() && events[k] == ManagerEvent::SupportedPrimariesNamed(primaries);
        assert(f.len() + i.len() + t.len() <= k < events.len() - 1);
        assert(support.primaries[k - f.len() - i.len() - t.len()] == primaries);
    }
}

/// A client hears of features first, then of intents, transfer functions and primaries, each in
/// the order in which they are listed.
pub proof fn clients_hear_kind_by_kind(support: Support, k: int)
    ensures
        ({
            let events = bind_events(support);
            let f = support.features.len();
            let i = f + support.intents.len();
            let t = i + support.tf.len();
            let p = t + support.primaries.len();
            &&& events.len() == p + 1
            &&& 0 <= k < f ==> events[k] == ManagerEvent::SupportedFeature(support.features[k])
            &&& f <= k < i ==> events[k] == ManagerEvent::SupportedIntent(support.intents[k - f])
            &&& i <= k < t ==> events[k] == ManagerEvent::SupportedTfNamed(support.tf[k - i])
            &&& t <= k < p ==> events[k] == ManagerEvent::SupportedPrimariesNamed(
                support.primaries[k - t],
            )
            &&& events[p as int] == ManagerEvent::Done
        }),
{
}

/// Errors of the color manager.
#[derive(Debug, Clone, Copy, PartialEq, Eq, Structural)]
pub enum ManagerError {
    UnsupportedFeature,
}

/// Requests to the color manager.
#[derive(Debug, Clone, Copy, PartialEq, Eq, Structural)]
pub enum ManagerRequest {
    GetOutput {
        /// Whether the output that the client named is one of the compositor's.
        output_found: bool,
    },
    GetSurface,
    GetSurfaceFeedback,
    CreateIccCreator,
    CreateParametricCreator,
    /// Any other request.
    Other,
}

/// What is done about a request to the color manager.
#[derive(Debug)]
pub enum ManagerAction {
    Ignore,
    PostError(PostError<ManagerError>),
    /// Make an object for an output: see [`bind_output`].
    BindOutput,
    /// Make an object for a surface: see [`bind_surface`].
    BindSurface,
    /// Make a feedback object for a surface: see [`bind_feedback`].
    BindFeedback,
    /// Make a creator that starts with this builder.
    CreateIcc(ImageDescriptionIccBuilder),
    /// Make a creator that starts with this builder.
    CreateParametric(ImageDescriptionParametricBuilder),
}

/// The value of a [`ManagerAction`].
pub enum ManagerActionModel {
    Ignore,
    PostError(PostError<ManagerError>),
    BindOutput,
    BindSurface,
    BindFeedback,
    CreateIcc(Option<Seq<u8>>),
    CreateParametric(Parameters),
}

impl View for ManagerAction {
    type V = ManagerActionModel;

    open spec fn view(&self) -> ManagerActionModel {
        match *self {
            ManagerAction::Ignore => ManagerActionModel::Ignore,
            ManagerAction::PostError(posted) => ManagerActionModel::PostError(posted),
            ManagerAction::BindOutput => ManagerActionModel::BindOutput,
            ManagerAction::BindSurface => ManagerActionModel::BindSurface,
            ManagerAction::BindFeedback => ManagerActionModel::BindFeedback,
            ManagerAction::CreateIcc(builder) => ManagerActionModel::CreateIcc(builder@),
            ManagerAction::CreateParametric(builder) => ManagerActionModel::CreateParametric(
                builder@,
            ),
        }
    }
}

/// The refusal of something that is not supported.
pub open spec fn unsupported(message: &'static str) -> ManagerActionModel {
    ManagerActionModel::PostError(PostError { error: ManagerError::UnsupportedFeature, message })
}

/// What is done about a request to the color manager. Creators start with empty builders.
pub open spec fn manager_action(support: Support, request: ManagerRequest) -> ManagerActionModel {
    match request {
        ManagerRequest::GetOutput { output_found } => if output_found {
            ManagerActionModel::BindOutput
        } else {
            unsupported("WlOutput has no associated `Output`")
        },
        ManagerRequest::GetSurface => ManagerActionModel::BindSurface,
        ManagerRequest::GetSurfaceFeedback => ManagerActionModel::BindFeedback,
        ManagerRequest::CreateIccCreator => if support.features.contains(Feature::IccV2V4) {
            ManagerActionModel::CreateIcc(None)
        } else {
            unsupported("Compositor doesn't support the ICC image description creator")
        },
        ManagerRequest::CreateParametricCreator => if support.features.contains(
            Feature::Parametric,
        ) {
            ManagerActionModel::CreateParametric(Parameters::none())
        } else {
            unsupported("Compositor doesn't support the Parametric image description creator")
        },
        ManagerRequest::Other => ManagerActionModel::Ignore,
    }
}

/// A creator of ICC descriptions is made exactly when profiles are supported, and one of
/// parametric descriptions exactly when parameters are, whatever else is supported. Both start
/// with nothing given. What is not made is refused.
pub proof fn creators_need_their_feature(support: Support)
    ensures
        ({
            let icc = manager_action(support, ManagerRequest::CreateIccCreator);
            let parametric = manager_action(support, ManagerRequest::CreateParametricCreator);
            &&& icc is CreateIcc <==> support.features.contains(Feature::IccV2V4)
            &&& icc matches ManagerActionModel::CreateIcc(profile) ==> profile is None
            &&& !(icc is CreateIcc) ==> (icc matches ManagerActionModel::PostError(posted)
                && posted.error == ManagerError::UnsupportedFeature && posted.message
                == "Compositor doesn't support the ICC image description creator")
            &&& parametric is CreateParametric <==> support.features.contains(Feature::Parametric)
            &&& parametric matches ManagerActionModel::CreateParametric(p) ==> p.tf is None
                && p.primaries is None && p.luminances is None && p.target_primaries is None
                && p.target_luminance is None && p.max_cll is None && p.max_fall is None
            &&& !(parametric is CreateParametric) ==> (parametric matches
                ManagerActionModel::PostError(posted) && posted.error
                == ManagerError::UnsupportedFeature && posted.message
                == "Compositor doesn't support the Parametric image description creator")
        }),
{
}

/// Objects for surfaces are made whatever is supported, and those for outputs exactly where the
/// output is one of the compositor's.
pub proof fn objects_need_no_feature(support: Support, output_found: bool)
    ensures
        manager_action(support, ManagerRequest::GetSurface) is BindSurface,
        manager_action(support, ManagerRequest::GetSurfaceFeedback) is BindFeedback,
        manager_action(support, ManagerRequest::Other) is Ignore,
        ({
            let action = manager_action(support, ManagerRequest::GetOutput { output_found });
            &&& action is BindOutput <==> output_found
            &&& !output_found ==> (action matches ManagerActionModel::PostError(posted)
                && posted.error == ManagerError::UnsupportedFeature && posted.message
                == "WlOutput has no associated `Output`")
        }),
{
}

fn refuse(message: &'static str) -> (action: ManagerAction)
    ensures
        action@ == unsupported(message),
{
    ManagerAction::PostError(PostError { error: ManagerError::UnsupportedFeature, message })
}

impl<W> ColorManagementState<W> {
    /// What a client that binds the color manager is sent.
    pub fn bind(&self) -> (events: Vec<ManagerEvent>)
        ensures
            events@ == bind_events(self.support()),
    {
        let mut events: Vec<ManagerEvent> = Vec::new();
        let features = self.supported_features().items();
        let mut i: usize = 0;
        while i < features.len()
            invariant
                i <= features.len(),
                events@ == features@.take(i as int).map_values(
                    |f: Feature| ManagerEvent::SupportedFeature(f),
                ),
            decreases features.len() - i,
        {
            events.push(ManagerEvent::SupportedFeature(features[i]));
            i += 1;
            assert(events@ =~= features@.take(i as int).map_values(
                |f: Feature| ManagerEvent::SupportedFeature(f),
            ));
        }
        assert(features@.take(i as int) =~= features@);
        let ghost before = events@;
        let intents = self.supported_rendering_intents().items();
        let mut i: usize = 0;
        while i < intents.len()
            invariant
                i <= intents.len(),
                events@ == before + intents@.take(i as int).map_values(
                    |i: RenderIntent| ManagerEvent::SupportedIntent(i),
                ),
            decreases intents.len() - i,
        {
            events.push(ManagerEvent::SupportedIntent(intents[i]));
            i += 1;
            assert(events@ =~= before + intents@.take(i as int).map_values(
                |i: RenderIntent| ManagerEvent::SupportedIntent(i),
            ));
        }
        assert(intents@.take(i as int) =~= intents@);
        let ghost before = events@;
        let tf = self.supported_tf().items();
        let mut i: usize = 0;
        while i < tf.len()
            invariant
                i <= tf.len(),
                events@ == before + tf@.take(i as int).map_values(
                    |t: TransferFunction| ManagerEvent::SupportedTfNamed(t),
                ),
            decreases tf.len() - i,
        {
            events.push(ManagerEvent::SupportedTfNamed(tf[i]));
            i += 1;
            assert(events@ =~= before + tf@.take(i as int).map_values(
                |t: TransferFunction| ManagerEvent::SupportedTfNamed(t),
            ));
        }
        assert(tf@.take(i as int) =~= tf@);
        let ghost before = events@;
        let primaries = self.supported_primaries().items();
        let mut i: usize = 0;
        while i < primaries.len()
            invariant
                i <= primaries.len(),
                events@ == before + primaries@.take(i as int).map_values(
                    |p: Primaries| ManagerEvent::SupportedPrimariesNamed(p),
                ),
            decreases primaries.len() - i,
        {
            events.push(ManagerEvent::SupportedPrimariesNamed(primaries[i]));
            i += 1;
            assert(events@ =~= before + primaries@.take(i as int).map_values(
                |p: Primaries| ManagerEvent::SupportedPrimariesNamed(p),
            ));
        }
        assert(primaries@.take(i as int) =~= primaries@);
        events.push(ManagerEvent::Done);
        events
    }

    /// What is done about a request to the color manager.
    pub fn manager_request(&self, request: ManagerRequest) -> (action: ManagerAction)
        ensures
            action@ == manager_action(self.support(), request),
    {
        match request {
            ManagerRequest::GetOutput { output_found } => if output_found {
                ManagerAction::BindOutput
            } else {
                refuse("WlOutput has no associated `Output`")
            },
            ManagerRequest::GetSurface => ManagerAction::BindSurface,
            ManagerRequest::GetSurfaceFeedback => ManagerAction::BindFeedback,
            ManagerRequest::CreateIccCreator => if self.supported_features().contains(
                Feature::IccV2V4,
            ) {
                ManagerAction::CreateIcc(ImageDescriptionIccBuilder::default())
            } else {
                refuse("Compositor doesn't support the ICC image description creator")
            },
            ManagerRequest::CreateParametricCreator => if self.supported_features().contains(
                Feature::Parametric,
            ) {
                ManagerAction::CreateParametric(ImageDescriptionParametricBuilder::default())
            } else {
                refuse("Compositor doesn't support the Parametric image description creator")
            },
            ManagerRequest::Other => ManagerAction::Ignore,
        }
    }
}

/// Adds an object to an output. One that color management does not know yet starts with the
/// description that the compositor gives for it.
pub fn bind_output<U>(
    output: &mut Option<ColorManagementOutput<U>>,
    description: Option<ImageDescription<U>>,
    instance: InstanceId,
)
    requires
        *old(output) is None ==> description is Some,
    ensures
        *final(output) matches Some(after) && after@ == match *old(output) {
            Some(data) => OutputModel { instances: data@.instances.push(instance), ..data@ },
            None => OutputModel { description: description.unwrap(), instances: seq![instance] },
        },
{
    match output {
        Some(data) => data.add_instance(instance),
        None => {
            let mut data = ColorManagementOutput::new(description.unwrap());
            data.add_instance(instance);
            assert(data@.instances =~= seq![instance]);
            *output = Some(data);
        },
    }
}

/// What is kept with a surface, or what a surface that color management does not know yet starts
/// with.
pub open spec fn surface_or_new<U>(
    surface: Option<ColorManagementSurfaceData<U>>,
    preferred: Option<ImageDescription<U>>,
) -> SurfaceModel<U> {
    match surface {
        Some(data) => data@,
        None => SurfaceModel {
            preferred: preferred.unwrap(),
            instances: Seq::empty(),
            feedback: Seq::empty(),
        },
    }
}

/// A surface that is known keeps what it has, whatever the compositor would now prefer; a new one
/// starts with what the compositor prefers, and no objects.
pub proof fn known_surfaces_keep_what_they_have<U>(
    surface: ColorManagementSurfaceData<U>,
    preferred: ImageDescription<U>,
)
    ensures
        surface_or_new(Some(surface), Some(preferred)) == surface@,
        surface_or_new(Some(surface), None) == surface@,
        surface_or_new(None, Some(preferred)).preferred == preferred,
        surface_or_new(None::<ColorManagementSurfaceData<U>>, Some(preferred)).instances.len() == 0,
        surface_or_new(None::<ColorManagementSurfaceData<U>>, Some(preferred)).feedback.len() == 0,
{
}

/// Makes color management know a surface.
fn insert_surface<U>(
    surface: &mut Option<ColorManagementSurfaceData<U>>,
    preferred: Option<ImageDescription<U>>,
)
    requires
        *old(surface) is None ==> preferred is Some,
    ensures
        *final(surface) matches Some(after) && after@ == surface_or_new(*old(surface), preferred),
{
    if surface.is_none() {
        *surface = Some(ColorManagementSurfaceData::new(preferred.unwrap()));
    }
}

/// Adds an object to a surface. One that color management does not know yet starts with the
/// preferred description that the compositor gives for it.
pub fn bind_surface<U>(
    surface: &mut Option<ColorManagementSurfaceData<U>>,
    preferred: Option<ImageDescription<U>>,
    instance: InstanceId,
)
    requires
        *old(surface) is None ==> preferred is Some,
    ensures
        *final(surface) matches Some(after) && after@ == ({
            let before = surface_or_new(*old(surface), preferred);
            SurfaceModel { instances: before.instances.push(instance), ..before }
        }),
{
    insert_surface(surface, preferred);
    match surface {
        Some(data) => data.add_instance(instance),
        None => {},
    }
}

/// Adds a feedback object to a surface, and gives the event that tells it what is preferred.
pub fn bind_feedback<U>(
    surface: &mut Option<ColorManagementSurfaceData<U>>,
    preferred: Option<ImageDescription<U>>,
    instance: FeedbackInstance,
) -> (event: PreferredEvent)
    requires
        *old(surface) is None ==> preferred is Some,
    ensures
        *final(surface) matches Some(after) && after@ == ({
            let before = surface_or_new(*old(surface), preferred);
            SurfaceModel { feedback: before.feedback.push(instance), ..before }
        }),
        event == preferred_event(
            instance.version,
            surface_or_new(*old(surface), preferred).preferred.id_spec(),
        ),
{
    insert_surface(surface, preferred);
    let mut preferred_id: u64 = 0;
    match surface {
        Some(data) => {
            preferred_id = data.preferred().id();
            data.add_feedback_instance(instance);
        },
        None => {},
    }
    preferred_changed(instance.version, preferred_id)
}

} // verus!
