//! What holds of calls: what a caller can tell of the results, and of two calls in a row, from
//! what it handed in.

use vstd::prelude::*;

use crate::code_point::distinct_keeps_members;
use crate::instances::InstanceId;
use crate::management::builder::{
    DescriptionError, IccFileReader, ImageDescriptionIccBuilder, ImageDescriptionParametricBuilder,
};
use crate::management::description::{
    ContentsModel, ImageDescription, ImageDescriptionContents, Luminance, MasteringLuminance,
    ParametricPrimaries, PrimariesEnum, TransferFunctionEnum,
};
use crate::management::icc_creator::{
    files_up_to_four_mebibytes_are_read, icc_verified, set_icc_file, IccCreatorError,
    SetIccFileOutcome,
};
use crate::management::identity::{
    events_give_the_number_back, image_description_ready, preferred_changed, PreferredEvent,
    ReadyEvent,
};
use crate::management::image_description::{
    failed_description_request, Cause, IccFile, ImageDescriptionAction, ImageDescriptionData,
    ImageDescriptionError, ImageDescriptionRequest, InfoEvent, NewDescription,
};
use crate::management::laws::{
    destruction_keeps_what_comes_back, its_own_link_decides, unknown_contents_are_added,
};
use crate::management::manager::{
    bind_feedback, bind_output, bind_surface, ManagerAction, ManagerError, ManagerRequest,
};
use crate::management::named::{Feature, Primaries, RenderIntent, TransferFunction};
use crate::management::output::{
    get_output_description, output_request, ColorManagementOutput, OutputRequest,
};
use crate::management::params_creator::{ParamsCreatorError, ParamsRequest};
use crate::management::state::{kept, ColorManagementState, ImageDescriptionIds};
use crate::management::surface::{
    every_change_is_told, feedback_request, get_surface_description_from_surface_data,
    update_surface_preferred, ColorManagementSurfaceCachedState, ColorManagementSurfaceData,
    FeedbackEvent, FeedbackInstance, FeedbackRequest,
};
use crate::management::weak::{upgraded, WeakHandle};
use crate::post_error::PostError;

verus! {

/// Whoever asks a color manager for contents that it knows, wherever they stand, gets what the
/// link of that description gave, if that is the description, and then nothing changes; and a
/// description with the next number otherwise. Either way it has the contents.
pub proof fn build_asks_the_link<W: WeakHandle>(
    state: &mut ColorManagementState<W>,
    ids: &mut ImageDescriptionIds,
    contents: ImageDescriptionContents,
    desc: ImageDescription<W::UserData>,
    i: int,
) where W::UserData: Default
    requires
        old(state).wf(),
        0 <= i < old(state).known().len(),
        old(state).known()[i].contents == contents@,
        call_ensures(ColorManagementState::<W>::build_description, (state, ids, contents), desc),
    ensures
        desc.contents_spec() == contents@,
        exists|found: Option<ImageDescription<W::UserData>>|
            {
                &&& #[trigger] call_ensures(W::upgrade, (&old(state).known()[i].link,), found)
                &&& match found {
                    Some(d) if d.id_spec() == old(state).known()[i].id && d.contents_spec()
                        == contents@ => desc == d && final(state).known() == old(state).known()
                        && final(ids)@ == old(ids)@,
                    _ => desc.id_spec() == old(ids)@ && final(state).known().len() == old(
                        state,
                    ).known().len() && final(state).known()[i].id == desc.id_spec(),
                }
            },
{
    its_own_link_decides(
        old(state).known(),
        old(ids)@,
        i,
        final(state).known(),
        final(ids)@,
        desc,
    );
}

/// Whoever asks for contents that are not known gets a description with the next number, and it
/// is known afterwards.
pub proof fn build_adds_what_is_not_known<W: WeakHandle>(
    state: &mut ColorManagementState<W>,
    ids: &mut ImageDescriptionIds,
    contents: ImageDescriptionContents,
    desc: ImageDescription<W::UserData>,
) where W::UserData: Default
    requires
        forall|i: int|
            0 <= i < old(state).known().len() ==> (#[trigger] old(state).known()[i]).contents
                != contents@,
        call_ensures(ColorManagementState::<W>::build_description, (state, ids, contents), desc),
    ensures
        desc.contents_spec() == contents@,
        desc.id_spec() == old(ids)@,
        final(state).known().len() == old(state).known().len() + 1,
        final(state).known().last().id == desc.id_spec(),
        final(state).known().last().contents == contents@,
{
    unknown_contents_are_added(
        old(state).known(),
        old(ids)@,
        contents@,
        final(state).known(),
        final(ids)@,
        desc,
    );
}

/// A destroyed description is no longer known, and nothing becomes known.
pub proof fn destroyed_is_not_known<W: WeakHandle>(
    state: &mut ColorManagementState<W>,
    info: ImageDescription<W::UserData>,
    i: int,
)
    requires
        0 <= i < final(state).known().len(),
        call_ensures(ColorManagementState::<W>::description_destroyed, (state, &info), ()),
    ensures
        !(final(state).known()[i].id == info.id_spec() && final(state).known()[i].contents
            == info.contents_spec()),
        old(state).known().contains(final(state).known()[i]),
{
}

/// A known description that its link gives back stays known when another one is destroyed.
pub proof fn others_stay_known<W: WeakHandle>(
    state: &mut ColorManagementState<W>,
    info: ImageDescription<W::UserData>,
    i: int,
)
    requires
        0 <= i < old(state).known().len(),
        !(old(state).known()[i].id == info.id_spec() && old(state).known()[i].contents
            == info.contents_spec()),
        forall|found: Option<ImageDescription<W::UserData>>| #[trigger]
            call_ensures(W::upgrade, (&old(state).known()[i].link,), found) ==> (found matches Some(
                d,
            ) && d.id_spec() == old(state).known()[i].id && d.contents_spec()
                == old(state).known()[i].contents),
        call_ensures(ColorManagementState::<W>::description_destroyed, (state, &info), ()),
    ensures
        final(state).known().contains(old(state).known()[i]),
{
    let known = old(state).known();
    let found = choose|found: Seq<Option<ImageDescription<W::UserData>>>|
        {
            &&& found.len() == known.len()
            &&& forall|j: int| 0 <= j < found.len() ==> upgraded(known[j].link, #[trigger] found[j])
            &&& final(state).known() == #[trigger] kept(known, found, info)
        };
    assert(upgraded(known[i].link, found[i]));
    assert(call_ensures(W::upgrade, (&known[i].link,), found[i]));
    destruction_keeps_what_comes_back(known, found, info, known[i]);
}

/// A color manager supports exactly what it was given, and knows no description yet.
pub proof fn manager_supports_what_it_was_given<W>(
    intents: Vec<RenderIntent>,
    features: Vec<Feature>,
    tf: Vec<TransferFunction>,
    primaries: Vec<Primaries>,
    state: ColorManagementState<W>,
    intent: RenderIntent,
    feature: Feature,
    name: TransferFunction,
    named: Primaries,
)
    requires
        call_ensures(
            ColorManagementState::<W>::new,
            (intents, features, tf, primaries),
            state,
        ),
    ensures
        state.support().intents.contains(intent) <==> intents@.contains(intent),
        state.support().features.contains(feature) <==> features@.contains(feature),
        state.support().tf.contains(name) <==> tf@.contains(name),
        state.support().primaries.contains(named) <==> primaries@.contains(named),
        state.known().len() == 0,
        state.wf(),
{
    distinct_keeps_members(intents@);
    distinct_keeps_members(features@);
    distinct_keeps_members(tf@);
    distinct_keeps_members(primaries@);
}

/// What a builder was given is what it builds, and a second profile takes the place of the first.
pub proof fn builder_builds_the_last_profile(
    builder: &mut ImageDescriptionIccBuilder,
    data: &[u8],
    was_set: bool,
    built: Result<ImageDescriptionContents, DescriptionError>,
)
    requires
        call_ensures(ImageDescriptionIccBuilder::with_data, (builder, data), was_set),
        call_ensures(ImageDescriptionIccBuilder::try_into, (*final(builder),), built),
    ensures
        built matches Ok(contents) && contents@ == ContentsModel::Icc(data@),
        was_set <==> old(builder)@ is Some,
{
}

/// What was read of a file is what a builder builds. A file that could not be read leaves the
/// builder as it was.
pub proof fn builder_builds_what_was_read<E>(
    builder: &mut ImageDescriptionIccBuilder,
    file: Result<IccFileReader, E>,
    was_set: Result<bool, E>,
    built: Result<ImageDescriptionContents, DescriptionError>,
)
    requires
        call_ensures(ImageDescriptionIccBuilder::with_file::<E>, (builder, file), was_set),
        call_ensures(ImageDescriptionIccBuilder::try_into, (*final(builder),), built),
    ensures
        file matches Ok(reader) ==> was_set == Ok::<bool, E>(old(builder)@ is Some) && (built matches
            Ok(contents) && contents@ == ContentsModel::Icc(reader.data_spec())),
        file matches Err(error) ==> was_set == Err::<bool, E>(error) && final(builder)@
            == old(builder)@,
{
}

/// A description has the transfer function and the primaries that its builder was given last, and
/// no other parameter because of them.
pub proof fn builder_builds_what_was_set(
    builder: &mut ImageDescriptionParametricBuilder,
    tf: TransferFunctionEnum,
    tf_was_set: bool,
    again: &mut ImageDescriptionParametricBuilder,
    primaries: PrimariesEnum,
    primaries_were_set: bool,
    built: Result<ImageDescriptionContents, DescriptionError>,
)
    requires
        call_ensures(ImageDescriptionParametricBuilder::set_tf, (builder, tf), tf_was_set),
        *old(again) == *final(builder),
        call_ensures(
            ImageDescriptionParametricBuilder::set_primaries,
            (again, primaries),
            primaries_were_set,
        ),
        call_ensures(ImageDescriptionParametricBuilder::try_into, (*final(again),), built),
    ensures
        tf_was_set <==> old(builder)@.tf is Some,
        primaries_were_set <==> old(builder)@.primaries is Some,
        built matches Ok(contents) && contents@ == (ContentsModel::Parametric {
            tf,
            primaries,
            luminances: old(builder)@.luminances,
            target_primaries: old(builder)@.target_primaries,
            target_luminance: old(builder)@.target_luminance,
            max_cll: old(builder)@.max_cll,
            max_fall: old(builder)@.max_fall,
        }),
{
}

/// The optional parameters are held as they were given last, each on its own.
pub proof fn builder_holds_what_was_set(
    a: &mut ImageDescriptionParametricBuilder,
    luminances: Luminance,
    b: &mut ImageDescriptionParametricBuilder,
    target_primaries: ParametricPrimaries,
    c: &mut ImageDescriptionParametricBuilder,
    target_luminance: MasteringLuminance,
    d: &mut ImageDescriptionParametricBuilder,
    max_cll: u32,
    e: &mut ImageDescriptionParametricBuilder,
    max_fall: u32,
    were_set: (bool, bool, bool, bool, bool),
)
    requires
        call_ensures(
            ImageDescriptionParametricBuilder::set_luminances,
            (a, luminances),
            were_set.0,
        ),
        *old(b) == *final(a),
        call_ensures(
            ImageDescriptionParametricBuilder::set_target_primaries,
            (b, target_primaries),
            were_set.1,
        ),
        *old(c) == *final(b),
        call_ensures(
            ImageDescriptionParametricBuilder::set_target_luminance,
            (c, target_luminance),
            were_set.2,
        ),
        *old(d) == *final(c),
        call_ensures(ImageDescriptionParametricBuilder::set_max_cll, (d, max_cll), were_set.3),
        *old(e) == *final(d),
        call_ensures(ImageDescriptionParametricBuilder::set_max_fall, (e, max_fall), were_set.4),
    ensures
        final(e)@.tf == old(a)@.tf,
        final(e)@.primaries == old(a)@.primaries,
        final(e)@.luminances == Some(luminances),
        final(e)@.target_primaries == Some(target_primaries),
        final(e)@.target_luminance == Some(target_luminance),
        final(e)@.max_cll == Some(max_cll),
        final(e)@.max_fall == Some(max_fall),
        were_set == (
            old(a)@.luminances is Some,
            old(a)@.target_primaries is Some,
            old(a)@.target_luminance is Some,
            old(a)@.max_cll is Some,
            old(a)@.max_fall is Some,
        ),
{
}

/// A creator takes a file exactly where it has not been used, at most four mebibytes are asked for
/// and the file could be read; it is an error all the same where it had a file before. What it
/// refuses changes nothing.
pub proof fn creator_takes_files(
    builder: &mut Option<ImageDescriptionIccBuilder>,
    length: u32,
    file: Result<IccFileReader, String>,
    outcome: SetIccFileOutcome,
)
    requires
        call_ensures(set_icc_file, (builder, length, file), outcome),
    ensures
        *final(builder) is Some <==> *old(builder) is Some,
        ({
            let profile_before = (*old(builder))->Some_0@;
            let profile_after = (*final(builder))->Some_0@;
            let looked_at = *old(builder) is Some && length <= 4 * 1024 * 1024;
            &&& outcome is Accepted <==> looked_at && file is Ok && profile_before is None
            &&& looked_at && file is Ok ==> profile_after == Some(file->Ok_0.data_spec())
            &&& *old(builder) is Some && !(looked_at && file is Ok) ==> profile_after
                == profile_before
            &&& outcome is PostBadFd <==> looked_at && file is Err
            &&& outcome matches SetIccFileOutcome::PostBadFd(message) ==> message@
                == "Failed to read ICC file: "@ + file->Err_0@
            &&& outcome matches SetIccFileOutcome::PostError(posted) ==> if *old(builder) is None {
                posted.error == IccCreatorError::AlreadySet && posted.message
                    == "Creator was already used"
            } else if length > 4 * 1024 * 1024 {
                posted.error == IccCreatorError::BadSize && posted.message
                    == "Size larger than 4MiB"
            } else {
                posted.error == IccCreatorError::AlreadySet && posted.message
                    == "ICC file was already set"
            }
        }),
{
    files_up_to_four_mebibytes_are_read(*old(builder) is None, length);
}

/// A creator creates once: with a profile it makes a description that holds the profile, and
/// without one it says what is missing. After that it is used.
pub proof fn icc_creator_creates_once<W: WeakHandle>(
    state: &mut ColorManagementState<W>,
    ids: &mut ImageDescriptionIds,
    builder: &mut Option<ImageDescriptionIccBuilder>,
    created: Result<ImageDescription<W::UserData>, PostError<IccCreatorError>>,
) where W::UserData: Default
    requires
        call_ensures(ColorManagementState::<W>::create_icc, (state, ids, builder), created),
    ensures
        *final(builder) is None,
        created is Ok <==> (*old(builder) matches Some(b) && b@ is Some),
        created matches Ok(desc) ==> desc.contents_spec() == ContentsModel::Icc(
            (*old(builder))->Some_0@->Some_0,
        ),
        created matches Err(posted) ==> if *old(builder) is None {
            posted.error == IccCreatorError::AlreadySet && posted.message
                == "Creator was already used"
        } else {
            posted.error == IccCreatorError::IncompleteSet && posted.message
                == "incomplete parameter set"
        },
        created is Err ==> final(state).known() == old(state).known() && final(ids)@ == old(ids)@,
        final(state).support() == old(state).support(),
{
}

/// A valid profile makes a description that is ready, one that tells nothing of itself; an invalid
/// one a description that failed.
pub proof fn valid_profiles_are_ready<U>(
    info: ImageDescription<U>,
    valid: bool,
    new: NewDescription<U>,
)
    requires
        call_ensures(icc_verified::<U>, (info, valid), new),
    ensures
        new is Ready <==> valid,
        new matches NewDescription::Ready(data) ==> data.info == info && !data.get_information,
        new matches NewDescription::Failed { cause, message } ==> cause == Cause::Unsupported
            && message == "ICC file failed to parse",
{
}

/// A creator creates once: with a transfer function and primaries it makes a description with the
/// parameters that it was given, one that tells nothing of itself. After that it is used.
pub proof fn params_creator_creates_once<W: WeakHandle>(
    state: &mut ColorManagementState<W>,
    ids: &mut ImageDescriptionIds,
    builder: &mut Option<ImageDescriptionParametricBuilder>,
    created: Result<NewDescription<W::UserData>, PostError<ParamsCreatorError>>,
) where W::UserData: Default
    requires
        call_ensures(ColorManagementState::<W>::create_parametric, (state, ids, builder), created),
    ensures
        *final(builder) is None,
        created is Ok <==> (*old(builder) matches Some(b) && b@.tf is Some && b@.primaries is Some),
        created matches Ok(new) ==> (new matches NewDescription::Ready(data)
            && !data.get_information && data.info.contents_spec() == ({
            let p = (*old(builder))->Some_0@;
            ContentsModel::Parametric {
                tf: p.tf->Some_0,
                primaries: p.primaries->Some_0,
                luminances: p.luminances,
                target_primaries: p.target_primaries,
                target_luminance: p.target_luminance,
                max_cll: p.max_cll,
                max_fall: p.max_fall,
            }
        })),
        created matches Err(posted) ==> if *old(builder) is None {
            posted.error == ParamsCreatorError::AlreadySet && posted.message
                == "Creator was already used"
        } else {
            posted.error == ParamsCreatorError::IncompleteSet && posted.message
                == "incomplete parameter set"
        },
        created is Err ==> final(state).known() == old(state).known() && final(ids)@ == old(ids)@,
        final(state).support() == old(state).support(),
{
}

/// An exponent that a creator takes is the one that it holds, to the last digit, and nothing else
/// that it holds changes.
pub proof fn creator_takes_exponents<W>(
    state: &ColorManagementState<W>,
    builder: &mut Option<ImageDescriptionParametricBuilder>,
    eexp: u32,
    posted: Option<PostError<ParamsCreatorError>>,
)
    requires
        *old(builder) is Some,
        call_ensures(
            ColorManagementState::<W>::params_creator_request,
            (state, builder, (ParamsRequest::SetTfPower { eexp })),
            posted,
        ),
    ensures
        *final(builder) is Some,
        ({
            let before = (*old(builder))->Some_0@;
            let after = (*final(builder))->Some_0@;
            let taken = state.support().features.contains(Feature::SetTfPower) && 10000 <= eexp
                <= 100000;
            &&& posted is None <==> taken && before.tf is None
            &&& taken ==> after.tf == Some(TransferFunctionEnum::Power(eexp))
            &&& !taken ==> after.tf == before.tf
            &&& after.primaries == before.primaries
            &&& after.luminances == before.luminances
            &&& after.target_primaries == before.target_primaries
            &&& after.target_luminance == before.target_luminance
            &&& after.max_cll == before.max_cll
            &&& after.max_fall == before.max_fall
        }),
{
}

/// A creator that has been used stays used, and refuses whatever gives it a parameter.
pub proof fn used_creator_stays_used<W>(
    state: &ColorManagementState<W>,
    builder: &mut Option<ImageDescriptionParametricBuilder>,
    request: ParamsRequest,
    posted: Option<PostError<ParamsCreatorError>>,
)
    requires
        *old(builder) is None,
        call_ensures(
            ColorManagementState::<W>::params_creator_request,
            (state, builder, request),
            posted,
        ),
    ensures
        *final(builder) is None,
        posted is None <==> request is Other,
        posted matches Some(p) ==> p.error == ParamsCreatorError::AlreadySet && p.message
            == "Creator was already used",
{
}

/// The manager makes a creator exactly where the feature that it needs is supported.
pub proof fn manager_makes_supported_creators<W>(
    state: &ColorManagementState<W>,
    icc: ManagerAction,
    parametric: ManagerAction,
)
    requires
        call_ensures(
            ColorManagementState::<W>::manager_request,
            (state, ManagerRequest::CreateIccCreator),
            icc,
        ),
        call_ensures(
            ColorManagementState::<W>::manager_request,
            (state, ManagerRequest::CreateParametricCreator),
            parametric,
        ),
    ensures
        icc is CreateIcc <==> state.support().features.contains(Feature::IccV2V4),
        !(icc is CreateIcc) ==> (icc matches ManagerAction::PostError(posted) && posted.error
            == ManagerError::UnsupportedFeature),
        parametric is CreateParametric <==> state.support().features.contains(Feature::Parametric),
        !(parametric is CreateParametric) ==> (parametric matches ManagerAction::PostError(posted)
            && posted.error == ManagerError::UnsupportedFeature),
{
}

/// The first object of an output brings its description, and later ones find it: the description
/// of an output is the one that it started with.
pub proof fn output_keeps_its_description<U>(
    output: &mut Option<ColorManagementOutput<U>>,
    first: ImageDescription<U>,
    one: InstanceId,
    again: &mut Option<ColorManagementOutput<U>>,
    second: Option<ImageDescription<U>>,
    two: InstanceId,
    description: Option<ImageDescription<U>>,
)
    requires
        *old(output) is None,
        call_ensures(bind_output::<U>, (output, Some(first), one), ()),
        *old(again) == *final(output),
        call_ensures(bind_output::<U>, (again, second, two), ()),
        call_ensures(
            get_output_description::<U>,
            (Some(&(*final(again))->Some_0),),
            description,
        ),
    ensures
        description == Some(first),
        *final(again) matches Some(data) && data@.instances == seq![one, two],
{
    assert((*final(again))->Some_0@.instances =~= seq![one, two]);
}

/// Without an output that is known there is no description.
pub proof fn unknown_outputs_have_no_description<U>(description: Option<ImageDescription<U>>)
    requires
        call_ensures(get_output_description::<U>, (None::<&ColorManagementOutput<U>>,), description),
    ensures
        description is None,
{
}

/// Whoever asks an output for its description gets one that is ready and tells of itself, or one
/// that failed where the output is gone. Other requests give nothing.
pub proof fn outputs_give_their_description<U>(
    output: Option<&ColorManagementOutput<U>>,
    asked: Option<NewDescription<U>>,
    other: Option<NewDescription<U>>,
)
    requires
        call_ensures(output_request::<U>, (output, OutputRequest::GetImageDescription), asked),
        call_ensures(output_request::<U>, (output, OutputRequest::Other), other),
    ensures
        other is None,
        output matches Some(data) ==> (asked matches Some(NewDescription::Ready(ready))
            && ready.info == data@.description && ready.get_information),
        output is None ==> (asked matches Some(NewDescription::Failed { cause, message }) && cause
            == Cause::NoOutput && message == "Output was destroyed"),
{
}

/// The first object of a surface brings what it prefers, and later ones find it, whatever the
/// compositor would now prefer. Objects and feedback objects are kept apart.
pub proof fn surface_keeps_what_it_prefers<U>(
    surface: &mut Option<ColorManagementSurfaceData<U>>,
    first: ImageDescription<U>,
    one: InstanceId,
    again: &mut Option<ColorManagementSurfaceData<U>>,
    second: Option<ImageDescription<U>>,
    two: FeedbackInstance,
    event: PreferredEvent,
)
    requires
        *old(surface) is None,
        call_ensures(bind_surface::<U>, (surface, Some(first), one), ()),
        *old(again) == *final(surface),
        call_ensures(bind_feedback::<U>, (again, second, two), event),
    ensures
        *final(again) matches Some(data) && data@.preferred == first && data@.instances
            == seq![one] && data@.feedback == seq![two],
        match event {
            PreferredEvent::PreferredChanged2 { identity_hi, identity_lo } => two.version >= 2
                && identity_hi * 0x1_0000_0000 + identity_lo == first.id_spec(),
            PreferredEvent::PreferredChanged { identity } => two.version < 2 && (first.id_spec()
                - identity) % 0x1_0000_0000 == 0,
        },
{
    events_give_the_number_back(two.version, first.id_spec());
    assert((*final(again))->Some_0@.instances =~= seq![one]);
    assert((*final(again))->Some_0@.feedback =~= seq![two]);
}

/// Whenever what a surface prefers gets another number, up or down, each of its feedback objects
/// is sent one event, in order, and whoever asks then gets the new description.
pub proof fn preferring_another_is_told<U>(
    surface: &mut Option<ColorManagementSurfaceData<U>>,
    preferred: ImageDescription<U>,
    events: Vec<FeedbackEvent>,
    asked: Option<NewDescription<U>>,
)
    requires
        *old(surface) matches Some(data) && data@.preferred.id_spec() != preferred.id_spec(),
        call_ensures(update_surface_preferred::<U>, (surface, preferred), events),
        *final(surface) matches Some(data) && call_ensures(
            feedback_request::<U>,
            (Some(&data), FeedbackRequest::GetPreferred),
            asked,
        ),
    ensures
        asked matches Some(NewDescription::Ready(ready)) && ready.info == preferred
            && ready.get_information,
        ({
            let feedback = (*old(surface))->Some_0@.feedback;
            &&& events@.len() == feedback.len()
            &&& forall|i: int|
                0 <= i < feedback.len() ==> (#[trigger] events@[i]).instance == feedback[i].id
            &&& forall|i: int|
                0 <= i < feedback.len() ==> match (#[trigger] events@[i]).event {
                    PreferredEvent::PreferredChanged2 { identity_hi, identity_lo } =>
                        feedback[i].version >= 2 && identity_hi * 0x1_0000_0000 + identity_lo
                        == preferred.id_spec(),
                    PreferredEvent::PreferredChanged { identity } => feedback[i].version < 2 && (
                    preferred.id_spec() - identity) % 0x1_0000_0000 == 0,
                }
        }),
{
    every_change_is_told((*old(surface))->Some_0@, preferred);
}

/// Preferring what has the same number already is silent, and so is preferring anything on a
/// surface that is not known.
pub proof fn preferring_the_same_is_not_told<U>(
    surface: &mut Option<ColorManagementSurfaceData<U>>,
    preferred: ImageDescription<U>,
    events: Vec<FeedbackEvent>,
)
    requires
        *old(surface) matches Some(data) ==> data@.preferred.id_spec() == preferred.id_spec(),
        call_ensures(update_surface_preferred::<U>, (surface, preferred), events),
    ensures
        events@.len() == 0,
        *final(surface) is Some <==> *old(surface) is Some,
        *old(surface) matches Some(data) ==> (*final(surface))->Some_0@ == data@,
{
}

/// Whoever asks a feedback object of a surface that is gone gets a description that failed; other
/// requests give nothing.
pub proof fn gone_surfaces_prefer_nothing<U>(
    request: FeedbackRequest,
    asked: Option<NewDescription<U>>,
)
    requires
        call_ensures(
            feedback_request::<U>,
            (None::<&ColorManagementSurfaceData<U>>, request),
            asked,
        ),
    ensures
        asked is None <==> request is Other,
        asked matches Some(new) ==> (new matches NewDescription::Failed { cause, message } && cause
            == Cause::NoOutput && message == "Surface was destroyed"),
{
}

/// What is committed is what is read, and what was current before is gone. The pending state
/// stays, so that a second commit gives the same.
pub proof fn commits_are_read_back<U>(
    pending: &mut ColorManagementSurfaceCachedState<U>,
    committed: ColorManagementSurfaceCachedState<U>,
    current: &mut ColorManagementSurfaceCachedState<U>,
    read: (Option<ImageDescription<U>>, RenderIntent),
)
    requires
        call_ensures(ColorManagementSurfaceCachedState::<U>::commit, (pending,), committed),
        call_ensures(
            ColorManagementSurfaceCachedState::<U>::merge_into,
            (committed, current),
            (),
        ),
        call_ensures(
            get_surface_description_from_surface_data::<U>,
            (&*final(current),),
            read,
        ),
    ensures
        read.0 == old(pending).description,
        read.1 == old(pending).render_intent,
        final(pending).description == old(pending).description,
        final(pending).render_intent == old(pending).render_intent,
{
}

/// A failed description can be destroyed, and nothing else can be done with it.
pub proof fn failed_descriptions_can_only_be_destroyed(
    request: ImageDescriptionRequest,
    posted: Option<PostError<ImageDescriptionError>>,
)
    requires
        call_ensures(failed_description_request, (request,), posted),
    ensures
        posted is None <==> request is Destroy,
        posted matches Some(p) ==> p.error == ImageDescriptionError::NotReady && p.message
            == "Image description had failed",
{
}

/// Information is refused exactly where the description may not tell of itself. Nothing but a
/// request for information is answered.
pub proof fn information_is_given_where_allowed<U>(
    data: &ImageDescriptionData<U>,
    file: IccFile,
    request: ImageDescriptionRequest,
    action: ImageDescriptionAction<'_>,
)
    requires
        call_ensures(ImageDescriptionData::<U>::request, (data, request, file), action),
    ensures
        !(request is GetInformation) ==> action is Ignore,
        request is GetInformation ==> !(action is Ignore),
        request is GetInformation ==> (action is PostError <==> !data.get_information),
        action matches ImageDescriptionAction::PostError(posted) ==> posted.error
            == ImageDescriptionError::NoInformation && posted.message
            == "Constructor doesn't allow get_information",
        action matches ImageDescriptionAction::CreateIccFile { data: bytes } ==>
            data.info.contents_spec() == ContentsModel::Icc(bytes@) && file is Missing,
        action matches ImageDescriptionAction::Send(events) ==> events@.len() > 0
            && events@.last() == InfoEvent::Done,
{
}

/// What is sent gives the number back, as the version allows.
pub proof fn numbers_are_sent(
    version: u32,
    id: u64,
    ready: ReadyEvent,
    preferred: PreferredEvent,
)
    requires
        call_ensures(image_description_ready, (version, id), ready),
        call_ensures(preferred_changed, (version, id), preferred),
    ensures
        match ready {
            ReadyEvent::Ready2 { identity_hi, identity_lo } => version >= 2 && identity_hi
                * 0x1_0000_0000 + identity_lo == id,
            ReadyEvent::Ready { identity } => version < 2 && (id - identity) % 0x1_0000_0000 == 0,
        },
        match preferred {
            PreferredEvent::PreferredChanged2 { identity_hi, identity_lo } => version >= 2
                && identity_hi * 0x1_0000_0000 + identity_lo == id,
            PreferredEvent::PreferredChanged { identity } => version < 2 && (id - identity)
                % 0x1_0000_0000 == 0,
        },
{
    events_give_the_number_back(version, id);
}

} // verus!
