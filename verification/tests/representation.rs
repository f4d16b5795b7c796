use wayland_color::code_point::CodePoint;
use wayland_color::representation::named::{AlphaMode, ChromaLocation, Coefficients, Range};
use wayland_color::representation::state::{ColorRepresentationState, RepresentationEvent};
use wayland_color::representation::surface::{
    get_color_representation, surface_destroyed, ColorRepresentation,
    ColorRepresentationSurfaceCachedState, ColorRepresentationSurfaceData, RepresentationAction,
    RepresentationManagerError, RepresentationRequest, RepresentationSurfaceError,
};

fn state() -> ColorRepresentationState {
    ColorRepresentationState::new(
        vec![(Coefficients::Bt709, Range::Limited), (Coefficients::Identity, Range::Full)],
        vec![ChromaLocation::Type0],
        vec![AlphaMode::PremultipliedElectrical, AlphaMode::Straight],
    )
}

fn refused(action: RepresentationAction) -> (RepresentationSurfaceError, &'static str) {
    match action {
        RepresentationAction::PostError(posted) => (posted.error, posted.message),
        other => panic!("{:?}", other),
    }
}

fn pair(coefficients: u32, range: u32) -> RepresentationRequest {
    RepresentationRequest::SetCoefficientsAndRange { coefficients, range }
}

#[test]
fn binding_announces_support() {
    let mut state = state();
    for instance in [1, 2] {
        let events = state.bind(instance);
        assert!(matches!(
            events[..],
            [
                RepresentationEvent::SupportedCoefficientsAndRanges(
                    Coefficients::Bt709,
                    Range::Limited
                ),
                RepresentationEvent::SupportedCoefficientsAndRanges(
                    Coefficients::Identity,
                    Range::Full
                ),
                RepresentationEvent::SupportedAlphaMode(AlphaMode::PremultipliedElectrical),
                RepresentationEvent::SupportedAlphaMode(AlphaMode::Straight),
            ]
        ));
    }
    state.manager_destroyed(1);
}

#[test]
fn accepted_requests() {
    let state = state();
    let mut pending = ColorRepresentationSurfaceCachedState::default();
    for request in [
        RepresentationRequest::SetAlphaMode { alpha_mode: AlphaMode::PremultipliedOptical.code() },
        RepresentationRequest::SetChromaLocation { chroma_location: 1 },
        pair(2, 2),
    ] {
        pending.apply(&state.surface_request(true, request));
    }
    assert!(
        get_color_representation(&pending)
            == ColorRepresentation {
                alpha_mode: AlphaMode::PremultipliedOptical,
                coefficients_and_range: Some((Coefficients::Bt709, Range::Limited)),
                chroma_location: Some(ChromaLocation::Type0),
            }
    );
    assert!(matches!(
        state.surface_request(false, RepresentationRequest::Other),
        RepresentationAction::Ignore
    ));
}

#[test]
fn what_is_said_is_read_back_after_a_commit() {
    let state = state();
    let mut pending = ColorRepresentationSurfaceCachedState::default();
    let mut current = ColorRepresentationSurfaceCachedState {
        coefficients_and_range: Some((Coefficients::Bt709, Range::Limited)),
        chroma_location: None,
        alpha_mode: Some(AlphaMode::PremultipliedOptical),
    };
    let request = RepresentationRequest::SetAlphaMode { alpha_mode: AlphaMode::Straight.code() };
    pending.apply(&state.surface_request(true, request));
    pending.apply(&state.surface_request(true, pair(1, 1)));
    pending.commit().merge_into(&mut current);
    let read = get_color_representation(&current);
    assert_eq!(read.alpha_mode, AlphaMode::Straight);
    assert_eq!(read.coefficients_and_range, Some((Coefficients::Identity, Range::Full)));
    assert_eq!(read.chroma_location, None);
}

#[test]
fn refused_requests() {
    let state = state();
    let mut pending = ColorRepresentationSurfaceCachedState::default();
    for (request, error, message) in [
        (
            RepresentationRequest::SetAlphaMode { alpha_mode: 3 },
            RepresentationSurfaceError::AlphaMode,
            "Unknown alpha mode",
        ),
        (
            RepresentationRequest::SetChromaLocation { chroma_location: 0 },
            RepresentationSurfaceError::AlphaMode,
            "Unknown chroma location",
        ),
        (
            RepresentationRequest::SetChromaLocation { chroma_location: 2 },
            RepresentationSurfaceError::Coefficients,
            "client send chroma location not advertised",
        ),
        (pair(0, 0), RepresentationSurfaceError::AlphaMode, "Unknown coefficients"),
        (pair(2, 3), RepresentationSurfaceError::AlphaMode, "Unknown range"),
        (
            pair(2, 1),
            RepresentationSurfaceError::Coefficients,
            "client send coefficient not advertised",
        ),
    ] {
        let action = state.surface_request(true, request);
        pending.apply(&action);
        assert_eq!(refused(action), (error, message));
        assert_eq!(
            refused(state.surface_request(false, request)),
            (RepresentationSurfaceError::Inert, "surface doesn't exist")
        );
    }
    assert!(pending.alpha_mode.is_none());
    assert!(pending.chroma_location.is_none());
    assert!(pending.coefficients_and_range.is_none());
}

#[test]
fn default_representation() {
    let pending = ColorRepresentationSurfaceCachedState::default();
    let expected = ColorRepresentation {
        alpha_mode: AlphaMode::PremultipliedElectrical,
        coefficients_and_range: None,
        chroma_location: None,
    };
    assert!(get_color_representation(&pending) == expected);
    assert!(
        ColorRepresentation { chroma_location: Some(ChromaLocation::Type1), ..expected }
            != expected
    );
    assert!(
        ColorRepresentation {
            coefficients_and_range: Some((Coefficients::Fcc, Range::Full)),
            ..expected
        } != expected
    );
}

#[test]
fn merging_keeps_what_is_not_said_again() {
    let mut newer = ColorRepresentationSurfaceCachedState {
        coefficients_and_range: None,
        chroma_location: Some(ChromaLocation::Type3),
        alpha_mode: None,
    };
    let mut into = ColorRepresentationSurfaceCachedState {
        coefficients_and_range: Some((Coefficients::Bt601, Range::Full)),
        chroma_location: Some(ChromaLocation::Type0),
        alpha_mode: None,
    };
    newer.commit().merge_into(&mut into);
    assert_eq!(into.coefficients_and_range, Some((Coefficients::Bt601, Range::Full)));
    assert_eq!(into.chroma_location, Some(ChromaLocation::Type3));
    assert_eq!(into.alpha_mode, None);
    assert_eq!(newer.chroma_location, Some(ChromaLocation::Type3));
}

#[test]
fn merging_first_or_one_by_one() {
    let state = |chroma_location, alpha_mode| ColorRepresentationSurfaceCachedState {
        coefficients_and_range: None,
        chroma_location,
        alpha_mode,
    };
    let a = state(None, Some(AlphaMode::Straight));
    let b = state(Some(ChromaLocation::Type1), Some(AlphaMode::PremultipliedOptical));
    let c = state(Some(ChromaLocation::Type2), None);
    let mut one_by_one = c;
    b.merge_into(&mut one_by_one);
    a.merge_into(&mut one_by_one);
    let mut first = b;
    a.merge_into(&mut first);
    let mut merged = c;
    first.merge_into(&mut merged);
    assert_eq!(one_by_one.chroma_location, Some(ChromaLocation::Type1));
    assert_eq!(merged.chroma_location, Some(ChromaLocation::Type1));
    assert_eq!(one_by_one.alpha_mode, Some(AlphaMode::Straight));
    assert_eq!(merged.alpha_mode, Some(AlphaMode::Straight));
    let mut unchanged = c;
    ColorRepresentationSurfaceCachedState::default().merge_into(&mut unchanged);
    assert_eq!(unchanged.chroma_location, Some(ChromaLocation::Type2));
}

#[test]
fn surfaces_take_one_object() {
    let mut slot = Some(ColorRepresentationSurfaceData::new());
    let mut pending = ColorRepresentationSurfaceCachedState::default();
    pending.alpha_mode = Some(AlphaMode::Straight);
    {
        let data = slot.as_mut().unwrap();
        assert!(!data.is_resource_attached());
        assert!(data.attach(&mut pending, 7).is_none());
        assert!(data.is_resource_attached());
        assert!(pending.alpha_mode.is_none());
        pending.alpha_mode = Some(AlphaMode::Straight);
        let posted = data.attach(&mut pending, 8).unwrap();
        assert_eq!(posted.error, RepresentationManagerError::SurfaceExists);
        assert_eq!(posted.message, "Surface already has ColorRepresentation attached");
        assert!(pending.alpha_mode.is_some());
    }
    surface_destroyed(&mut slot, &mut pending);
    assert!(pending.alpha_mode.is_none());
    let data = slot.as_mut().unwrap();
    assert!(!data.is_resource_attached());
    assert!(data.attach(&mut pending, 9).is_none());

    let mut unknown = None;
    pending.alpha_mode = Some(AlphaMode::Straight);
    surface_destroyed(&mut unknown, &mut pending);
    assert!(unknown.is_none());
    assert!(pending.alpha_mode.is_none());
}
