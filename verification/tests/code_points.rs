use wayland_color::code_point::{CodePoint, SupportedSet};
use wayland_color::management::named::{Feature, Primaries, RenderIntent, TransferFunction};
use wayland_color::representation::named::{AlphaMode, ChromaLocation, Coefficients, Range};
use wayland_protocols::wp::color_management::v1::server::wp_color_manager_v1 as manager;
use wayland_protocols::wp::color_representation::v1::server::wp_color_representation_surface_v1 as surface;

fn known<T: CodePoint>(limit: u32) -> Vec<u32> {
    (0..limit).filter(|code| T::from_code(*code).is_some()).collect()
}

fn round_trips<T: CodePoint + PartialEq + std::fmt::Debug>(members: &[T]) {
    for member in members {
        assert_eq!(T::from_code(member.code()), Some(*member));
    }
}

#[test]
fn known_codes_are_those_of_the_bindings() {
    let expect = |f: &dyn Fn(u32) -> bool| -> Vec<u32> { (0..64).filter(|c| f(*c)).collect() };
    assert_eq!(known::<RenderIntent>(64), expect(&|c| manager::RenderIntent::try_from(c).is_ok()));
    assert_eq!(known::<Feature>(64), expect(&|c| manager::Feature::try_from(c).is_ok()));
    assert_eq!(known::<Primaries>(64), expect(&|c| manager::Primaries::try_from(c).is_ok()));
    assert_eq!(
        known::<TransferFunction>(64),
        expect(&|c| manager::TransferFunction::try_from(c).is_ok())
    );
    assert_eq!(known::<AlphaMode>(64), expect(&|c| surface::AlphaMode::try_from(c).is_ok()));
    assert_eq!(known::<Coefficients>(64), expect(&|c| surface::Coefficients::try_from(c).is_ok()));
    assert_eq!(known::<Range>(64), expect(&|c| surface::Range::try_from(c).is_ok()));
    assert_eq!(
        known::<ChromaLocation>(64),
        expect(&|c| surface::ChromaLocation::try_from(c).is_ok())
    );
}

#[test]
fn known_codes_are_these() {
    assert_eq!(known::<RenderIntent>(64), (0..=5).collect::<Vec<u32>>());
    assert_eq!(known::<Feature>(64), (0..=8).collect::<Vec<u32>>());
    assert_eq!(known::<Primaries>(64), (1..=10).collect::<Vec<u32>>());
    assert_eq!(known::<TransferFunction>(64), (1..=14).collect::<Vec<u32>>());
    assert_eq!(known::<AlphaMode>(64), (0..=2).collect::<Vec<u32>>());
    assert_eq!(known::<Coefficients>(64), (1..=8).collect::<Vec<u32>>());
    assert_eq!(known::<Range>(64), (1..=2).collect::<Vec<u32>>());
    assert_eq!(known::<ChromaLocation>(64), (1..=6).collect::<Vec<u32>>());
}

#[test]
fn large_numbers_are_unknown() {
    assert_eq!(TransferFunction::from_code(u32::MAX), None);
    assert_eq!(RenderIntent::from_code(0x8000_0000), None);
    assert_eq!(Feature::from_code(9), None);
    assert_eq!(AlphaMode::from_code(3), None);
}

#[test]
fn codes_agree_with_the_bindings() {
    assert_eq!(RenderIntent::Perceptual.code(), u32::from(manager::RenderIntent::Perceptual));
    assert_eq!(RenderIntent::RelativeBpc.code(), u32::from(manager::RenderIntent::RelativeBpc));
    assert_eq!(
        RenderIntent::AbsoluteNoAdaptation.code(),
        u32::from(manager::RenderIntent::AbsoluteNoAdaptation)
    );
    assert_eq!(Feature::IccV2V4.code(), u32::from(manager::Feature::IccV2V4));
    assert_eq!(Feature::Parametric.code(), u32::from(manager::Feature::Parametric));
    assert_eq!(Feature::SetPrimaries.code(), u32::from(manager::Feature::SetPrimaries));
    assert_eq!(Feature::SetTfPower.code(), u32::from(manager::Feature::SetTfPower));
    assert_eq!(Feature::SetLuminances.code(), u32::from(manager::Feature::SetLuminances));
    assert_eq!(
        Feature::SetMasteringDisplayPrimaries.code(),
        u32::from(manager::Feature::SetMasteringDisplayPrimaries)
    );
    assert_eq!(Feature::WindowsScrgb.code(), u32::from(manager::Feature::WindowsScrgb));
    assert_eq!(Primaries::Srgb.code(), u32::from(manager::Primaries::Srgb));
    assert_eq!(Primaries::Bt2020.code(), u32::from(manager::Primaries::Bt2020));
    assert_eq!(Primaries::AdobeRgb.code(), u32::from(manager::Primaries::AdobeRgb));
    assert_eq!(TransferFunction::Bt1886.code(), u32::from(manager::TransferFunction::Bt1886));
    assert_eq!(TransferFunction::Log316.code(), u32::from(manager::TransferFunction::Log316));
    assert_eq!(TransferFunction::St2084Pq.code(), u32::from(manager::TransferFunction::St2084Pq));
    assert_eq!(TransferFunction::Hlg.code(), u32::from(manager::TransferFunction::Hlg));
    assert_eq!(AlphaMode::Straight.code(), u32::from(surface::AlphaMode::Straight));
    assert_eq!(Coefficients::Bt601.code(), u32::from(surface::Coefficients::Bt601));
    assert_eq!(Coefficients::Ictcp.code(), u32::from(surface::Coefficients::Ictcp));
    assert_eq!(Range::Limited.code(), u32::from(surface::Range::Limited));
    assert_eq!(ChromaLocation::Type0.code(), u32::from(surface::ChromaLocation::Type0));
    assert_eq!(ChromaLocation::Type5.code(), u32::from(surface::ChromaLocation::Type5));
}

#[test]
fn members_survive_the_wire() {
    round_trips(&[RenderIntent::Perceptual, RenderIntent::Saturation, RenderIntent::RelativeBpc]);
    round_trips(&[Feature::IccV2V4, Feature::ExtendedTargetVolume, Feature::WindowsBt2100]);
    round_trips(&[Primaries::PalM, Primaries::Cie1931Xyz, Primaries::DisplayP3]);
    round_trips(&[TransferFunction::Gamma22, TransferFunction::Srgb, TransferFunction::Hlg]);
    round_trips(&[AlphaMode::PremultipliedElectrical, AlphaMode::Straight]);
    round_trips(&[Coefficients::Identity, Coefficients::Bt2020Cl]);
    round_trips(&[Range::Full, Range::Limited]);
    round_trips(&[ChromaLocation::Type2, ChromaLocation::Type4]);
}

#[test]
fn sets_keep_the_first_of_each() {
    let set = SupportedSet::collect(vec![
        Feature::Parametric,
        Feature::IccV2V4,
        Feature::Parametric,
        Feature::SetTfPower,
        Feature::IccV2V4,
    ]);
    assert_eq!(
        *set.items(),
        vec![Feature::Parametric, Feature::IccV2V4, Feature::SetTfPower]
    );
    assert!(set.contains(Feature::SetTfPower));
    assert!(!set.contains(Feature::SetPrimaries));
}
