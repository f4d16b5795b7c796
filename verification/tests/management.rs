use std::sync::{Arc, Weak};

use wayland_color::code_point::CodePoint;
use wayland_color::management::builder::{
    IccFileReader, ImageDescriptionIccBuilder, ImageDescriptionParametricBuilder, READ_BUFFER_SIZE,
};
use wayland_color::management::description::{
    IccData, ImageDescription, ImageDescriptionContents, ImageDescriptionInternal, Luminance,
    MasteringLuminance, ParametricPrimaries, PrimariesEnum, TransferFunctionEnum,
};
use wayland_color::management::icc_creator::{
    check_icc_file, icc_verified, set_icc_file, IccCreatorError, SetIccFileOutcome, MAX_ICC_SIZE,
};
use wayland_color::management::identity::{
    image_description_ready, preferred_changed, PreferredEvent, ReadyEvent,
};
use wayland_color::management::image_description::{
    failed_description_request, Cause, IccFile, ImageDescriptionAction, ImageDescriptionData,
    ImageDescriptionError, ImageDescriptionRequest, InfoEvent, NewDescription, NewDescriptionEvent,
};
use wayland_color::management::manager::{
    bind_feedback, bind_output, bind_surface, ManagerAction, ManagerError, ManagerEvent,
    ManagerRequest,
};
use wayland_color::management::named::{Feature, Primaries, RenderIntent, TransferFunction};
use wayland_color::management::output::{
    get_output_description, output_request, ColorManagementOutput, OutputRequest,
};
use wayland_color::management::params_creator::{ParamsCreatorError, ParamsRequest};
use wayland_color::management::state::{ColorManagementState, ImageDescriptionIds};
use wayland_color::management::surface::{
    feedback_request, get_surface_description_from_surface_data, update_surface_preferred,
    ColorManagementSurfaceCachedState, ColorManagementSurfaceData, FeedbackInstance,
    FeedbackRequest, SurfaceAction, SurfaceError, SurfaceRequest,
};
use wayland_color::management::weak::WeakHandle;

/// A link that does not keep the description it leads to.
#[derive(Debug)]
struct Link(Weak<ImageDescriptionInternal<()>>);

impl WeakHandle for Link {
    type UserData = ();

    fn downgrade(desc: &ImageDescription<()>) -> Self {
        Link(Arc::downgrade(&desc.0))
    }

    fn upgrade(&self) -> Option<ImageDescription<()>> {
        self.0.upgrade().map(ImageDescription)
    }
}

type State = ColorManagementState<Link>;
type Description = ImageDescription<()>;

fn everything() -> State {
    ColorManagementState::new(
        vec![RenderIntent::Perceptual, RenderIntent::Relative],
        vec![
            Feature::IccV2V4,
            Feature::Parametric,
            Feature::SetPrimaries,
            Feature::SetTfPower,
            Feature::SetLuminances,
            Feature::SetMasteringDisplayPrimaries,
        ],
        vec![TransferFunction::Srgb, TransferFunction::St2084Pq],
        vec![Primaries::Srgb, Primaries::Bt2020],
    )
}

fn nothing() -> State {
    ColorManagementState::new(vec![], vec![], vec![], vec![])
}

fn icc(bytes: &[u8]) -> ImageDescriptionContents {
    ImageDescriptionContents::ICC(IccData::new(bytes.to_vec()))
}

fn two_descriptions() -> (Description, Description) {
    let mut ids = ImageDescriptionIds::new();
    let mut state = nothing();
    (state.build_description(&mut ids, icc(&[1])), state.build_description(&mut ids, icc(&[2])))
}

const PRIMARIES: ParametricPrimaries = ParametricPrimaries {
    red: (1, -2),
    green: (3, 4),
    blue: (5, 6),
    white: (7, 8),
};

fn set_primaries() -> ParamsRequest {
    ParamsRequest::SetPrimaries { r_x: 1, r_y: -2, g_x: 3, g_y: 4, b_x: 5, b_y: 6, w_x: 7, w_y: 8 }
}

fn set_mastering_primaries() -> ParamsRequest {
    ParamsRequest::SetMasteringDisplayPrimaries {
        r_x: 1,
        r_y: -2,
        g_x: 3,
        g_y: 4,
        b_x: 5,
        b_y: 6,
        w_x: 7,
        w_y: 8,
    }
}

#[test]
fn binding_announces_everything_once() {
    let state: State = ColorManagementState::new(
        vec![RenderIntent::Relative, RenderIntent::Relative],
        vec![Feature::Parametric, Feature::IccV2V4, Feature::Parametric],
        vec![TransferFunction::Hlg],
        vec![Primaries::Ntsc],
    );
    let events = state.bind();
    assert_eq!(events.len(), 6);
    assert!(matches!(events[0], ManagerEvent::SupportedFeature(Feature::Parametric)));
    assert!(matches!(events[1], ManagerEvent::SupportedFeature(Feature::IccV2V4)));
    assert!(matches!(events[2], ManagerEvent::SupportedIntent(RenderIntent::Relative)));
    assert!(matches!(events[3], ManagerEvent::SupportedTfNamed(TransferFunction::Hlg)));
    assert!(matches!(events[4], ManagerEvent::SupportedPrimariesNamed(Primaries::Ntsc)));
    assert!(matches!(events[5], ManagerEvent::Done));
    assert!(matches!(nothing().bind()[..], [ManagerEvent::Done]));
}

fn manager_error(state: &State, request: ManagerRequest) -> &'static str {
    match state.manager_request(request) {
        ManagerAction::PostError(posted) => {
            assert_eq!(posted.error, ManagerError::UnsupportedFeature);
            posted.message
        }
        other => panic!("{:?}", other),
    }
}

#[test]
fn manager_requests() {
    let all = everything();
    assert!(matches!(
        all.manager_request(ManagerRequest::GetOutput { output_found: true }),
        ManagerAction::BindOutput
    ));
    assert_eq!(
        manager_error(&all, ManagerRequest::GetOutput { output_found: false }),
        "WlOutput has no associated `Output`"
    );
    assert!(matches!(all.manager_request(ManagerRequest::GetSurface), ManagerAction::BindSurface));
    assert!(matches!(
        all.manager_request(ManagerRequest::GetSurfaceFeedback),
        ManagerAction::BindFeedback
    ));
    assert!(matches!(
        all.manager_request(ManagerRequest::CreateIccCreator),
        ManagerAction::CreateIcc(_)
    ));
    assert!(matches!(
        all.manager_request(ManagerRequest::CreateParametricCreator),
        ManagerAction::CreateParametric(_)
    ));
    assert!(matches!(all.manager_request(ManagerRequest::Other), ManagerAction::Ignore));
    assert_eq!(
        manager_error(&nothing(), ManagerRequest::CreateIccCreator),
        "Compositor doesn't support the ICC image description creator"
    );
    assert_eq!(
        manager_error(&nothing(), ManagerRequest::CreateParametricCreator),
        "Compositor doesn't support the Parametric image description creator"
    );
}

#[test]
fn identities_are_split() {
    assert_eq!(
        image_description_ready(2, 0x1_0000_0002),
        ReadyEvent::Ready2 { identity_hi: 1, identity_lo: 2 }
    );
    assert_eq!(image_description_ready(1, 0x1_0000_0002), ReadyEvent::Ready { identity: 2 });
    assert_eq!(
        preferred_changed(3, u64::MAX),
        PreferredEvent::PreferredChanged2 { identity_hi: u32::MAX, identity_lo: u32::MAX }
    );
    assert_eq!(
        preferred_changed(1, 0xabc_0000_0007),
        PreferredEvent::PreferredChanged { identity: 7 }
    );
}

#[test]
fn outputs() {
    let (a, b) = two_descriptions();
    assert!(get_output_description::<()>(None).is_none());
    let mut slot: Option<ColorManagementOutput<()>> = None;
    bind_output(&mut slot, Some(a.clone()), 10);
    bind_output(&mut slot, Some(b), 11);
    assert!(get_output_description(slot.as_ref()).unwrap() == a);
    slot.as_mut().unwrap().remove_instance(10);
    slot.as_mut().unwrap().add_instance(12);
    let new = output_request(slot.as_ref(), OutputRequest::GetImageDescription).unwrap();
    match &new {
        NewDescription::Ready(data) => {
            assert!(data.get_information);
            assert!(data.info == a);
        }
        other => panic!("{:?}", other),
    }
    assert!(matches!(
        new.event(1),
        NewDescriptionEvent::Ready(ReadyEvent::Ready { identity: 1 })
    ));
    let gone = output_request::<()>(None, OutputRequest::GetImageDescription).unwrap();
    assert!(matches!(
        gone.event(2),
        NewDescriptionEvent::Failed { cause: Cause::NoOutput, message: "Output was destroyed" }
    ));
    assert!(output_request(slot.as_ref(), OutputRequest::Other).is_none());
}

#[test]
fn preferred_descriptions() {
    let (a, b) = two_descriptions();
    let mut unknown: Option<ColorManagementSurfaceData<()>> = None;
    assert!(update_surface_preferred(&mut unknown, a.clone()).is_empty());
    assert!(unknown.is_none());

    let mut slot = None;
    bind_surface(&mut slot, Some(a.clone()), 1);
    let first = bind_feedback(&mut slot, None, FeedbackInstance { id: 2, version: 1 });
    assert_eq!(first, PreferredEvent::PreferredChanged { identity: 1 });
    bind_feedback(&mut slot, None, FeedbackInstance { id: 3, version: 2 });
    bind_feedback(&mut slot, None, FeedbackInstance { id: 4, version: 2 });
    slot.as_mut().unwrap().remove_feedback_instance(4);
    slot.as_mut().unwrap().remove_instance(1);

    assert!(update_surface_preferred(&mut slot, a.clone()).is_empty());
    let events = update_surface_preferred(&mut slot, b.clone());
    assert_eq!(events.len(), 2);
    assert_eq!(events[0].instance, 2);
    assert_eq!(events[0].event, PreferredEvent::PreferredChanged { identity: 2 });
    assert_eq!(events[1].instance, 3);
    assert_eq!(
        events[1].event,
        PreferredEvent::PreferredChanged2 { identity_hi: 0, identity_lo: 2 }
    );
    assert!(update_surface_preferred(&mut slot, b.clone()).is_empty());

    match feedback_request(slot.as_ref(), FeedbackRequest::GetPreferred) {
        Some(NewDescription::Ready(data)) => {
            assert!(data.get_information);
            assert!(data.info == b);
        }
        other => panic!("{:?}", other),
    }
    for request in [FeedbackRequest::GetPreferred, FeedbackRequest::GetPreferredParametric] {
        assert!(matches!(
            feedback_request::<()>(None, request),
            Some(NewDescription::Failed {
                cause: Cause::NoOutput,
                message: "Surface was destroyed"
            })
        ));
    }
    assert!(feedback_request(slot.as_ref(), FeedbackRequest::Other).is_none());
}

#[test]
fn feedback_on_a_new_surface() {
    let (_, b) = two_descriptions();
    let mut slot = None;
    let event = bind_feedback(&mut slot, Some(b.clone()), FeedbackInstance { id: 5, version: 2 });
    assert_eq!(event, PreferredEvent::PreferredChanged2 { identity_hi: 0, identity_lo: 2 });
    assert!(*slot.unwrap().preferred() == b);
}

fn surface_error(action: SurfaceAction<()>) -> (SurfaceError, &'static str) {
    match action {
        SurfaceAction::PostError(posted) => (posted.error, posted.message),
        other => panic!("{:?}", other),
    }
}

#[test]
fn setting_a_description() {
    let (a, _) = two_descriptions();
    let state = everything();
    let set = |description: Option<Description>, render_intent: u32| {
        SurfaceRequest::SetImageDescription { image_description: description, render_intent }
    };
    let relative = RenderIntent::Relative.code();
    match state.surface_request(true, set(Some(a.clone()), relative)) {
        SurfaceAction::SetPending(mut pending) => {
            let mut current = ColorManagementSurfaceCachedState::default();
            pending.commit().merge_into(&mut current);
            let (description, intent) = get_surface_description_from_surface_data(&current);
            assert!(description == Some(a.clone()));
            assert_eq!(intent, RenderIntent::Relative);
            assert!(pending.description.is_some());
        }
        other => panic!("{:?}", other),
    }
    assert!(matches!(
        state.surface_request(false, set(Some(a.clone()), relative)),
        SurfaceAction::Ignore
    ));
    assert_eq!(
        surface_error(state.surface_request(true, set(Some(a.clone()), 3))),
        (SurfaceError::RenderIntent, "Unsupported render intent")
    );
    assert_eq!(
        surface_error(state.surface_request(true, set(Some(a.clone()), 6))),
        (SurfaceError::RenderIntent, "Unknown render intent (wrong version?)")
    );
    match state.surface_request(true, set(None, 6)) {
        SurfaceAction::PostErrorOnDescription(posted) => {
            assert_eq!(posted.error, SurfaceError::Inert);
            assert_eq!(
                posted.message,
                "Tried to set a failed image description on a surface"
            );
        }
        other => panic!("{:?}", other),
    }
}

#[test]
fn commits_replace_what_was_current() {
    let (a, b) = two_descriptions();
    let mut current = ColorManagementSurfaceCachedState {
        description: Some(a),
        render_intent: RenderIntent::Relative,
    };
    let mut pending = ColorManagementSurfaceCachedState {
        description: Some(b.clone()),
        render_intent: RenderIntent::Perceptual,
    };
    pending.commit().merge_into(&mut current);
    let (description, intent) = get_surface_description_from_surface_data(&current);
    assert!(description == Some(b));
    assert_eq!(intent, RenderIntent::Perceptual);
    ColorManagementSurfaceCachedState::default().commit().merge_into(&mut current);
    assert!(current.description.is_none());
}

#[test]
fn unsetting_a_description() {
    let state = everything();
    match state.surface_request(true, SurfaceRequest::UnsetImageDescription) {
        SurfaceAction::SetPending(pending) => {
            let (description, intent) = get_surface_description_from_surface_data(&pending);
            assert!(description.is_none());
            assert_eq!(intent, RenderIntent::Perceptual);
        }
        other => panic!("{:?}", other),
    }
    assert_eq!(
        surface_error(state.surface_request(false, SurfaceRequest::UnsetImageDescription)),
        (SurfaceError::Inert, "Surface doesn't exist")
    );
    assert!(matches!(
        state.surface_request(true, SurfaceRequest::Other),
        SurfaceAction::Ignore
    ));
}

#[test]
fn failed_descriptions_can_only_be_destroyed() {
    assert!(failed_description_request(ImageDescriptionRequest::Destroy).is_none());
    for request in [ImageDescriptionRequest::GetInformation, ImageDescriptionRequest::Other] {
        let posted = failed_description_request(request).unwrap();
        assert_eq!(posted.error, ImageDescriptionError::NotReady);
        assert_eq!(posted.message, "Image description had failed");
    }
}

fn data(contents: ImageDescriptionContents, get_information: bool) -> ImageDescriptionData<()> {
    let mut ids = ImageDescriptionIds::new();
    ImageDescriptionData { get_information, info: nothing().build_description(&mut ids, contents) }
}

#[test]
fn information_about_parameters() {
    let contents = ImageDescriptionContents::Parametric {
        tf: TransferFunctionEnum::Named(TransferFunction::St2084Pq),
        primaries: PrimariesEnum::Parametric(PRIMARIES),
        luminances: Some(Luminance { min: 1, max: 2, reference: 3 }),
        target_primaries: Some(PRIMARIES),
        target_luminance: Some(MasteringLuminance { min: 4, max: 5 }),
        max_cll: Some(6),
        max_fall: Some(7),
    };
    let described = data(contents, true);
    let action = described.request(ImageDescriptionRequest::GetInformation, IccFile::Missing);
    let events = match action {
        ImageDescriptionAction::Send(events) => events,
        other => panic!("{:?}", other),
    };
    assert!(described.info.icc_profile().is_none());
    assert_eq!(events.len(), 8);
    assert!(matches!(events[0], InfoEvent::TfNamed(TransferFunction::St2084Pq)));
    assert!(matches!(events[1], InfoEvent::Primaries(p) if p == PRIMARIES));
    assert!(matches!(
        events[2],
        InfoEvent::Luminances(Luminance { min: 1, max: 2, reference: 3 })
    ));
    assert!(matches!(events[3], InfoEvent::TargetPrimaries(p) if p == PRIMARIES));
    assert!(matches!(
        events[4],
        InfoEvent::TargetLuminance(MasteringLuminance { min: 4, max: 5 })
    ));
    assert!(matches!(events[5], InfoEvent::TargetMaxCll(6)));
    assert!(matches!(events[6], InfoEvent::TargetMaxFall(7)));
    assert!(matches!(events[7], InfoEvent::Done));
}

#[test]
fn information_leaves_out_what_is_not_set() {
    let contents = ImageDescriptionContents::Parametric {
        tf: TransferFunctionEnum::Power(22_000),
        primaries: PrimariesEnum::Named(Primaries::Srgb),
        luminances: None,
        target_primaries: None,
        target_luminance: None,
        max_cll: None,
        max_fall: Some(9),
    };
    match data(contents, true).request(ImageDescriptionRequest::GetInformation, IccFile::Failed) {
        ImageDescriptionAction::Send(events) => assert!(matches!(
            events[..],
            [
                InfoEvent::TfPower(22_000),
                InfoEvent::PrimariesNamed(Primaries::Srgb),
                InfoEvent::TargetMaxFall(9),
                InfoEvent::Done,
            ]
        )),
        other => panic!("{:?}", other),
    }
}

#[test]
fn information_about_a_profile() {
    let data = data(icc(&[1, 2, 3]), true);
    let get = ImageDescriptionRequest::GetInformation;
    assert!(matches!(
        data.request(get, IccFile::Missing),
        ImageDescriptionAction::CreateIccFile { data: [1, 2, 3] }
    ));
    assert_eq!(data.info.icc_profile(), Some(&[1u8, 2, 3][..]));
    assert!(matches!(
        data.request(get, IccFile::Failed),
        ImageDescriptionAction::Fail { cause: Cause::Unsupported, message: "Internal error" }
    ));
    match data.request(get, IccFile::Present { size: 0x1_0000_0003 }) {
        ImageDescriptionAction::Send(events) => {
            assert!(matches!(events[..], [InfoEvent::IccFile { size: 3 }, InfoEvent::Done]))
        }
        other => panic!("{:?}", other),
    }
    assert!(matches!(
        data.request(ImageDescriptionRequest::Destroy, IccFile::Missing),
        ImageDescriptionAction::Ignore
    ));
}

#[test]
fn information_has_to_be_allowed() {
    match data(icc(&[1]), false)
        .request(ImageDescriptionRequest::GetInformation, IccFile::Missing)
    {
        ImageDescriptionAction::PostError(posted) => {
            assert_eq!(posted.error, ImageDescriptionError::NoInformation);
            assert_eq!(posted.message, "Constructor doesn't allow get_information");
        }
        other => panic!("{:?}", other),
    }
}

fn read(bytes: u8, len: usize) -> IccFileReader {
    let mut reader = IccFileReader::new(len);
    reader.feed::<()>(&[bytes; READ_BUFFER_SIZE], Ok(READ_BUFFER_SIZE));
    assert!(reader.is_done());
    reader
}

fn icc_error(outcome: SetIccFileOutcome) -> (IccCreatorError, &'static str) {
    match outcome {
        SetIccFileOutcome::PostError(posted) => (posted.error, posted.message),
        other => panic!("{:?}", other),
    }
}

#[test]
fn icc_files_are_checked_first() {
    let fresh = Some(ImageDescriptionIccBuilder::default());
    assert!(check_icc_file(&fresh, MAX_ICC_SIZE).is_none());
    let posted = check_icc_file(&fresh, MAX_ICC_SIZE + 1).unwrap();
    assert_eq!(posted.error, IccCreatorError::BadSize);
    assert_eq!(posted.message, "Size larger than 4MiB");
    let posted = check_icc_file(&None, MAX_ICC_SIZE + 1).unwrap();
    assert_eq!(posted.error, IccCreatorError::AlreadySet);
    assert_eq!(posted.message, "Creator was already used");
    assert_eq!(MAX_ICC_SIZE, 1024 * 1024 * 4);
}

#[test]
fn icc_creator() {
    let mut ids = ImageDescriptionIds::new();
    let mut state = everything();
    let mut builder = Some(ImageDescriptionIccBuilder::default());
    match set_icc_file(&mut builder, 2, Err("no such thing".to_string())) {
        SetIccFileOutcome::PostBadFd(message) => {
            assert_eq!(message, "Failed to read ICC file: no such thing")
        }
        other => panic!("{:?}", other),
    }
    assert!(matches!(
        set_icc_file(&mut builder, 2, Ok(read(1, 2))),
        SetIccFileOutcome::Accepted
    ));
    assert_eq!(
        icc_error(set_icc_file(&mut builder, MAX_ICC_SIZE + 1, Ok(read(1, 2)))),
        (IccCreatorError::BadSize, "Size larger than 4MiB")
    );
    assert_eq!(
        icc_error(set_icc_file(&mut builder, 3, Ok(read(2, 3)))),
        (IccCreatorError::AlreadySet, "ICC file was already set")
    );
    let desc = state.create_icc(&mut ids, &mut builder).unwrap();
    assert!(*desc.contents() == icc(&[2, 2, 2]));
    assert!(builder.is_none());
    assert_eq!(
        icc_error(set_icc_file(&mut builder, 3, Ok(read(2, 3)))),
        (IccCreatorError::AlreadySet, "Creator was already used")
    );
    let posted = state.create_icc(&mut ids, &mut builder).unwrap_err();
    assert_eq!(posted.error, IccCreatorError::AlreadySet);
    assert_eq!(posted.message, "Creator was already used");

    match icc_verified(desc.clone(), true) {
        NewDescription::Ready(data) => {
            assert!(!data.get_information);
            assert!(data.info == desc);
        }
        other => panic!("{:?}", other),
    }
    assert!(matches!(
        icc_verified(desc, false),
        NewDescription::Failed {
            cause: Cause::Unsupported,
            message: "ICC file failed to parse"
        }
    ));
}

#[test]
fn icc_creator_needs_a_file() {
    let mut builder = Some(ImageDescriptionIccBuilder::default());
    let posted =
        everything().create_icc(&mut ImageDescriptionIds::new(), &mut builder).unwrap_err();
    assert_eq!(posted.error, IccCreatorError::IncompleteSet);
    assert_eq!(posted.message, "incomplete parameter set");
    assert!(builder.is_none());
}

fn refused(
    state: &State,
    builder: &mut Option<ImageDescriptionParametricBuilder>,
    request: ParamsRequest,
) -> (ParamsCreatorError, &'static str) {
    assert!(state.luminances_fit(builder.is_none(), &request));
    let posted = state.params_creator_request(builder, request).unwrap();
    (posted.error, posted.message)
}

fn accepts(
    state: &State,
    builder: &mut Option<ImageDescriptionParametricBuilder>,
    request: ParamsRequest,
) {
    assert!(state.luminances_fit(builder.is_none(), &request));
    assert!(state.params_creator_request(builder, request).is_none());
}

fn all_parameters() -> Vec<ParamsRequest> {
    vec![
        ParamsRequest::SetTfNamed { tf: TransferFunction::Srgb.code() },
        ParamsRequest::SetPrimariesNamed { primaries: Primaries::Bt2020.code() },
        set_mastering_primaries(),
        ParamsRequest::SetMasteringLuminance { min_lum: 9_999, max_lum: 1 },
        ParamsRequest::SetMaxCll { max_cll: 3 },
        ParamsRequest::SetMaxFall { max_fall: 4 },
        ParamsRequest::SetLuminances { min_lum: 5, max_lum: 6, reference_lum: 7 },
    ]
}

fn created() -> ImageDescriptionContents {
    ImageDescriptionContents::Parametric {
        tf: TransferFunctionEnum::Named(TransferFunction::Srgb),
        primaries: PrimariesEnum::Named(Primaries::Bt2020),
        luminances: Some(Luminance { min: 5, max: 6, reference: 7 }),
        target_primaries: Some(PRIMARIES),
        target_luminance: Some(MasteringLuminance { min: 9_999, max: 1 }),
        max_cll: Some(3),
        max_fall: Some(4),
    }
}

#[test]
fn order_of_parameters_does_not_matter() {
    let mut ids = ImageDescriptionIds::new();
    let mut state = everything();
    let mut forward = Some(ImageDescriptionParametricBuilder::default());
    for request in all_parameters() {
        accepts(&state, &mut forward, request);
    }
    let mut backward = Some(ImageDescriptionParametricBuilder::default());
    for request in all_parameters().into_iter().rev() {
        accepts(&state, &mut backward, request);
    }
    let (a, b) = match (
        state.create_parametric(&mut ids, &mut forward),
        state.create_parametric(&mut ids, &mut backward),
    ) {
        (Ok(NewDescription::Ready(a)), Ok(NewDescription::Ready(b))) => (a, b),
        other => panic!("{:?}", other),
    };
    assert!(*a.info.contents() == created());
    assert!(a.info == b.info);
    assert!(!a.get_information);
}

#[test]
fn parameters_are_given_once() {
    let state = everything();
    let mut builder = Some(ImageDescriptionParametricBuilder::default());
    for request in all_parameters() {
        accepts(&state, &mut builder, request);
    }
    let messages: Vec<&'static str> = all_parameters()
        .into_iter()
        .map(|request| {
            let (error, message) = refused(&state, &mut builder, request);
            assert_eq!(error, ParamsCreatorError::AlreadySet);
            message
        })
        .collect();
    assert_eq!(
        messages,
        vec![
            "Transfer function was already set",
            "Primaries were already set",
            "Mastering Primaries were already set",
            "Mastering luminances were already set",
            "Max CCL was already set",
            "Max CCL was already set",
            "Luminances were already set",
        ]
    );
    assert_eq!(
        refused(&state, &mut builder, ParamsRequest::SetTfPower { eexp: 10_000 }),
        (ParamsCreatorError::AlreadySet, "Transfer function was already set")
    );
    assert_eq!(
        refused(&state, &mut builder, set_primaries()),
        (ParamsCreatorError::AlreadySet, "Primaries were already set")
    );
}

#[test]
fn used_creators_refuse_parameters() {
    let state = everything();
    let mut builder = None;
    for request in all_parameters() {
        assert_eq!(
            refused(&state, &mut builder, request),
            (ParamsCreatorError::AlreadySet, "Creator was already used")
        );
    }
    accepts(&state, &mut builder, ParamsRequest::Other);
    let posted = everything()
        .create_parametric(&mut ImageDescriptionIds::new(), &mut builder)
        .unwrap_err();
    assert_eq!(posted.error, ParamsCreatorError::AlreadySet);
    assert_eq!(posted.message, "Creator was already used");
}

#[test]
fn missing_features_are_refused() {
    let state = nothing();
    let mut builder = Some(ImageDescriptionParametricBuilder::default());
    for (request, message) in [
        (ParamsRequest::SetTfPower { eexp: 0 }, "Unsupported feature set_tf_power"),
        (set_primaries(), "Unsupported feature set_primaries"),
        (set_mastering_primaries(), "Unsupported feature set_mastering_display_primaries"),
        (
            ParamsRequest::SetMasteringLuminance { min_lum: 0, max_lum: u32::MAX },
            "Unsupported feature set_mastering_luminance",
        ),
        (
            ParamsRequest::SetLuminances {
                min_lum: 0,
                max_lum: u32::MAX,
                reference_lum: u32::MAX,
            },
            "Unsupported feature set_luminances",
        ),
    ] {
        assert_eq!(
            refused(&state, &mut builder, request),
            (ParamsCreatorError::UnsupportedFeature, message)
        );
    }
    accepts(&state, &mut builder, ParamsRequest::SetMaxCll { max_cll: 1 });
    let posted = everything()
        .create_parametric(&mut ImageDescriptionIds::new(), &mut builder)
        .unwrap_err();
    assert_eq!(posted.error, ParamsCreatorError::IncompleteSet);
    assert_eq!(posted.message, "incomplete parameter set");
    assert!(builder.is_none());
}

#[test]
fn wrong_values_are_refused() {
    let state = everything();
    let mut builder = Some(ImageDescriptionParametricBuilder::default());
    for (request, error, message) in [
        (
            ParamsRequest::SetTfNamed { tf: 15 },
            ParamsCreatorError::InvalidTf,
            "Unknown transfer function",
        ),
        (
            ParamsRequest::SetTfNamed { tf: TransferFunction::Hlg.code() },
            ParamsCreatorError::InvalidTf,
            "Unsupported transfer function code point",
        ),
        (
            ParamsRequest::SetTfPower { eexp: 9_999 },
            ParamsCreatorError::InvalidTf,
            "Transfer function exponent out of range",
        ),
        (
            ParamsRequest::SetTfPower { eexp: 100_001 },
            ParamsCreatorError::InvalidTf,
            "Transfer function exponent out of range",
        ),
        (
            ParamsRequest::SetPrimariesNamed { primaries: 0 },
            ParamsCreatorError::InvalidTf,
            "Unknown primaries",
        ),
        (
            ParamsRequest::SetPrimariesNamed { primaries: Primaries::Pal.code() },
            ParamsCreatorError::InvalidTf,
            "Unsupported primaries",
        ),
        (
            ParamsRequest::SetMasteringLuminance { min_lum: 10_000, max_lum: 1 },
            ParamsCreatorError::InvalidLuminance,
            "MaxLUM <= MinLUM",
        ),
        (
            ParamsRequest::SetLuminances { min_lum: 10_000, max_lum: 1, reference_lum: u32::MAX },
            ParamsCreatorError::InvalidLuminance,
            "MaxLUM <= MinLUM",
        ),
        (
            ParamsRequest::SetLuminances { min_lum: 10_000, max_lum: 2, reference_lum: 1 },
            ParamsCreatorError::InvalidLuminance,
            "RefLUM <= MinLUM",
        ),
    ] {
        assert_eq!(refused(&state, &mut builder, request), (error, message));
    }
    for request in all_parameters() {
        accepts(&state, &mut builder, request);
    }
}

#[test]
fn exponents_at_the_limits() {
    let state = everything();
    for eexp in [10_000, 100_000] {
        let mut builder = Some(ImageDescriptionParametricBuilder::default());
        accepts(&state, &mut builder, ParamsRequest::SetTfPower { eexp });
        accepts(&state, &mut builder, set_primaries());
        let contents = builder.unwrap().try_into().unwrap();
        assert!(
            contents
                == ImageDescriptionContents::Parametric {
                    tf: TransferFunctionEnum::Power(eexp),
                    primaries: PrimariesEnum::Parametric(PRIMARIES),
                    luminances: None,
                    target_primaries: None,
                    target_luminance: None,
                    max_cll: None,
                    max_fall: None,
                }
        );
    }
}

#[test]
fn luminances_that_do_not_fit() {
    let state = everything();
    let most = u32::MAX / 10_000;
    let mastering = |max_lum| ParamsRequest::SetMasteringLuminance { min_lum: 0, max_lum };
    assert!(state.luminances_fit(false, &mastering(most)));
    assert!(!state.luminances_fit(false, &mastering(most + 1)));
    assert!(state.luminances_fit(true, &mastering(most + 1)));
    assert!(nothing().luminances_fit(false, &mastering(most + 1)));
    let set = |max_lum, reference_lum| ParamsRequest::SetLuminances {
        min_lum: 10_000,
        max_lum,
        reference_lum,
    };
    assert!(state.luminances_fit(false, &set(most, most)));
    assert!(!state.luminances_fit(false, &set(most, most + 1)));
    assert!(!state.luminances_fit(false, &set(most + 1, most)));
    assert!(state.luminances_fit(false, &set(1, most + 1)));
}
