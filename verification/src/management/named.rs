//! The enumerations of the color management protocol.

use vstd::prelude::*;
use wayland_protocols::wp::color_management::v1::server::wp_color_manager_v1;
use wayland_server::WEnum;

use crate::code_point::CodePoint;
use crate::hashing::{fed, feed_step};

verus! {

/// How colors that the target cannot show are brought into its volume.
#[derive(Debug, Copy, Clone, PartialEq, Eq, Structural)]
pub enum RenderIntent {
    /// Perceptual.
    Perceptual,
    /// Media-relative colorimetric.
    Relative,
    /// Saturation.
    Saturation,
    /// ICC-absolute colorimetric.
    Absolute,
    /// Media-relative colorimetric with black point compensation.
    RelativeBpc,
    /// Absolute, without adapting the white point.
    AbsoluteNoAdaptation,
}

impl CodePoint for RenderIntent {
    open spec fn code_spec(self) -> u32 {
        match self {
            RenderIntent::Perceptual => 0,
            RenderIntent::Relative => 1,
            RenderIntent::Saturation => 2,
            RenderIntent::Absolute => 3,
            RenderIntent::RelativeBpc => 4,
            RenderIntent::AbsoluteNoAdaptation => 5,
        }
    }

    open spec fn from_code_spec(code: u32) -> Option<Self> {
        if code == 0 {
            Some(RenderIntent::Perceptual)
        } else if code == 1 {
            Some(RenderIntent::Relative)
        } else if code == 2 {
            Some(RenderIntent::Saturation)
        } else if code == 3 {
            Some(RenderIntent::Absolute)
        } else if code == 4 {
            Some(RenderIntent::RelativeBpc)
        } else if code == 5 {
            Some(RenderIntent::AbsoluteNoAdaptation)
        } else {
            None
        }
    }

    fn code(self) -> (code: u32) {
        match self {
            RenderIntent::Perceptual => 0,
            RenderIntent::Relative => 1,
            RenderIntent::Saturation => 2,
            RenderIntent::Absolute => 3,
            RenderIntent::RelativeBpc => 4,
            RenderIntent::AbsoluteNoAdaptation => 5,
        }
    }

    fn from_code(code: u32) -> (member: Option<Self>) {
        if !is_render_intent(code) {
            return None;
        }
        match code {
            0 => Some(RenderIntent::Perceptual),
            1 => Some(RenderIntent::Relative),
            2 => Some(RenderIntent::Saturation),
            3 => Some(RenderIntent::Absolute),
            4 => Some(RenderIntent::RelativeBpc),
            _ => Some(RenderIntent::AbsoluteNoAdaptation),
        }
    }

    proof fn from_code_inverts_code(code: u32, member: Self) {
    }
}

impl std::hash::Hash for RenderIntent {
    /// Feeds the code point.
    fn hash<H: std::hash::Hasher>(&self, state: &mut H)
        ensures
            exists|step: &mut H|
                {
                    &&& *step == *old(state)
                    &&& *final(step) == *final(state)
                    &&& #[trigger] fed(self.code_spec(), step)
                },
    {
        feed_step(&self.code(), state)
    }
}

/// `WEnum::from`, over the conversion from `u32` that `wp_color_manager_v1::RenderIntent`
/// has in the protocol bindings: a number is a value of the enumeration, and not an unknown
/// one, exactly when the protocol gives it to a rendering intent: 0 to 5.
#[verifier::external_body]
fn is_render_intent(code: u32) -> (known: bool)
    ensures
        known == (code <= 5),
{
    WEnum::<wp_color_manager_v1::RenderIntent>::from(code).into_result().is_ok()
}

/// An optional capability of the color manager.
#[derive(Debug, Copy, Clone, PartialEq, Eq, Structural)]
pub enum Feature {
    /// Image descriptions made from ICC profiles.
    IccV2V4,
    /// Image descriptions made from parameters.
    Parametric,
    /// Primaries given as chromaticity coordinates.
    SetPrimaries,
    /// Transfer functions given as an exponent.
    SetTfPower,
    /// Luminances of the primary color volume.
    SetLuminances,
    /// The color volume of the mastering display.
    SetMasteringDisplayPrimaries,
    /// Target volumes outside the primary volume.
    ExtendedTargetVolume,
    /// The Windows-scRGB image description.
    WindowsScrgb,
    /// The Windows BT.2100 image description.
    WindowsBt2100,
}

impl CodePoint for Feature {
    open spec fn code_spec(self) -> u32 {
        match self {
            Feature::IccV2V4 => 0,
            Feature::Parametric => 1,
            Feature::SetPrimaries => 2,
            Feature::SetTfPower => 3,
            Feature::SetLuminances => 4,
            Feature::SetMasteringDisplayPrimaries => 5,
            Feature::ExtendedTargetVolume => 6,
            Feature::WindowsScrgb => 7,
            Feature::WindowsBt2100 => 8,
        }
    }

    open spec fn from_code_spec(code: u32) -> Option<Self> {
        if code == 0 {
            Some(Feature::IccV2V4)
        } else if code == 1 {
            Some(Feature::Parametric)
        } else if code == 2 {
            Some(Feature::SetPrimaries)
        } else if code == 3 {
            Some(Feature::SetTfPower)
        } else if code == 4 {
            Some(Feature::SetLuminances)
        } else if code == 5 {
            Some(Feature::SetMasteringDisplayPrimaries)
        } else if code == 6 {
            Some(Feature::ExtendedTargetVolume)
        } else if code == 7 {
            Some(Feature::WindowsScrgb)
        } else if code == 8 {
            Some(Feature::WindowsBt2100)
        } else {
            None
        }
    }

    fn code(self) -> (code: u32) {
        match self {
            Feature::IccV2V4 => 0,
            Feature::Parametric => 1,
            Feature::SetPrimaries => 2,
            Feature::SetTfPower => 3,
            Feature::SetLuminances => 4,
            Feature::SetMasteringDisplayPrimaries => 5,
            Feature::ExtendedTargetVolume => 6,
            Feature::WindowsScrgb => 7,
            Feature::WindowsBt2100 => 8,
        }
    }

    fn from_code(code: u32) -> (member: Option<Self>) {
        if !is_feature(code) {
            return None;
        }
        match code {
            0 => Some(Feature::IccV2V4),
            1 => Some(Feature::Parametric),
            2 => Some(Feature::SetPrimaries),
            3 => Some(Feature::SetTfPower),
            4 => Some(Feature::SetLuminances),
            5 => Some(Feature::SetMasteringDisplayPrimaries),
            6 => Some(Feature::ExtendedTargetVolume),
            7 => Some(Feature::WindowsScrgb),
            _ => Some(Feature::WindowsBt2100),
        }
    }

    proof fn from_code_inverts_code(code: u32, member: Self) {
    }
}

impl std::hash::Hash for Feature {
    /// Feeds the code point.
    fn hash<H: std::hash::Hasher>(&self, state: &mut H)
        ensures
            exists|step: &mut H|
                {
                    &&& *step == *old(state)
                    &&& *final(step) == *final(state)
                    &&& #[trigger] fed(self.code_spec(), step)
                },
    {
        feed_step(&self.code(), state)
    }
}

/// `WEnum::from`, over the conversion from `u32` that `wp_color_manager_v1::Feature`
/// has in the protocol bindings: a number is a value of the enumeration, and not an unknown
/// one, exactly when the protocol gives it to a feature: 0 to 8.
#[verifier::external_body]
fn is_feature(code: u32) -> (known: bool)
    ensures
        known == (code <= 8),
{
    WEnum::<wp_color_manager_v1::Feature>::from(code).into_result().is_ok()
}

/// Primaries known by name.
#[derive(Debug, Copy, Clone, PartialEq, Eq, Structural)]
pub enum Primaries {
    /// sRGB and BT.709.
    Srgb,
    /// PAL-M.
    PalM,
    /// PAL.
    Pal,
    /// NTSC.
    Ntsc,
    /// Generic film with color filters using illuminant C.
    GenericFilm,
    /// BT.2020 and BT.2100.
    Bt2020,
    /// CIE 1931 XYZ.
    Cie1931Xyz,
    /// DCI P3.
    DciP3,
    /// Display P3.
    DisplayP3,
    /// Adobe RGB.
    AdobeRgb,
}

impl CodePoint for Primaries {
    open spec fn code_spec(self) -> u32 {
        match self {
            Primaries::Srgb => 1,
            Primaries::PalM => 2,
            Primaries::Pal => 3,
            Primaries::Ntsc => 4,
            Primaries::GenericFilm => 5,
            Primaries::Bt2020 => 6,
            Primaries::Cie1931Xyz => 7,
            Primaries::DciP3 => 8,
            Primaries::DisplayP3 => 9,
            Primaries::AdobeRgb => 10,
        }
    }

    open spec fn from_code_spec(code: u32) -> Option<Self> {
        if code == 1 {
            Some(Primaries::Srgb)
        } else if code == 2 {
            Some(Primaries::PalM)
        } else if code == 3 {
            Some(Primaries::Pal)
        } else if code == 4 {
            Some(Primaries::Ntsc)
        } else if code == 5 {
            Some(Primaries::GenericFilm)
        } else if code == 6 {
            Some(Primaries::Bt2020)
        } else if code == 7 {
            Some(Primaries::Cie1931Xyz)
        } else if code == 8 {
            Some(Primaries::DciP3)
        } else if code == 9 {
            Some(Primaries::DisplayP3)
        } else if code == 10 {
            Some(Primaries::AdobeRgb)
        } else {
            None
        }
    }

    fn code(self) -> (code: u32) {
        match self {
            Primaries::Srgb => 1,
            Primaries::PalM => 2,
            Primaries::Pal => 3,
            Primaries::Ntsc => 4,
            Primaries::GenericFilm => 5,
            Primaries::Bt2020 => 6,
            Primaries::Cie1931Xyz => 7,
            Primaries::DciP3 => 8,
            Primaries::DisplayP3 => 9,
            Primaries::AdobeRgb => 10,
        }
    }

    fn from_code(code: u32) -> (member: Option<Self>) {
        if !is_primaries(code) {
            return None;
        }
        match code {
            1 => Some(Primaries::Srgb),
            2 => Some(Primaries::PalM),
            3 => Some(Primaries::Pal),
            4 => Some(Primaries::Ntsc),
            5 => Some(Primaries::GenericFilm),
            6 => Some(Primaries::Bt2020),
            7 => Some(Primaries::Cie1931Xyz),
            8 => Some(Primaries::DciP3),
            9 => Some(Primaries::DisplayP3),
            _ => Some(Primaries::AdobeRgb),
        }
    }

    proof fn from_code_inverts_code(code: u32, member: Self) {
    }
}

impl std::hash::Hash for Primaries {
    /// Feeds the code point.
    fn hash<H: std::hash::Hasher>(&self, state: &mut H)
        ensures
            exists|step: &mut H|
                {
                    &&& *step == *old(state)
                    &&& *final(step) == *final(state)
                    &&& #[trigger] fed(self.code_spec(), step)
                },
    {
        feed_step(&self.code(), state)
    }
}

/// `WEnum::from`, over the conversion from `u32` that `wp_color_manager_v1::Primaries`
/// has in the protocol bindings: a number is a value of the enumeration, and not an unknown
/// one, exactly when the protocol gives it to named primaries: 1 to 10.
#[verifier::external_body]
fn is_primaries(code: u32) -> (known: bool)
    ensures
        known == (1 <= code <= 10),
{
    WEnum::<wp_color_manager_v1::Primaries>::from(code).into_result().is_ok()
}

/// Transfer functions known by name.
#[derive(Debug, Copy, Clone, PartialEq, Eq, Structural)]
pub enum TransferFunction {
    /// BT.1886.
    Bt1886,
    /// Display gamma 2.2.
    Gamma22,
    /// Display gamma 2.8.
    Gamma28,
    /// SMPTE ST 240.
    St240,
    /// Extended linear.
    ExtLinear,
    /// Logarithmic, 100:1.
    Log100,
    /// Logarithmic, 100 * sqrt(10):1.
    Log316,
    /// xvYCC.
    Xvycc,
    /// sRGB, piece-wise.
    Srgb,
    /// Extended sRGB, piece-wise.
    ExtSrgb,
    /// Perceptual quantizer.
    St2084Pq,
    /// SMPTE ST 428.
    St428,
    /// Hybrid log-gamma.
    Hlg,
    /// Compound power 2.4.
    CompoundPower24,
}

impl CodePoint for TransferFunction {
    open spec fn code_spec(self) -> u32 {
        match self {
            TransferFunction::Bt1886 => 1,
            TransferFunction::Gamma22 => 2,
            TransferFunction::Gamma28 => 3,
            TransferFunction::St240 => 4,
            TransferFunction::ExtLinear => 5,
            TransferFunction::Log100 => 6,
            TransferFunction::Log316 => 7,
            TransferFunction::Xvycc => 8,
            TransferFunction::Srgb => 9,
            TransferFunction::ExtSrgb => 10,
            TransferFunction::St2084Pq => 11,
            TransferFunction::St428 => 12,
            TransferFunction::Hlg => 13,
            TransferFunction::CompoundPower24 => 14,
        }
    }

    open spec fn from_code_spec(code: u32) -> Option<Self> {
        if code == 1 {
            Some(TransferFunction::Bt1886)
        } else if code == 2 {
            Some(TransferFunction::Gamma22)
        } else if code == 3 {
            Some(TransferFunction::Gamma28)
        } else if code == 4 {
            Some(TransferFunction::St240)
        } else if code == 5 {
            Some(TransferFunction::ExtLinear)
        } else if code == 6 {
            Some(TransferFunction::Log100)
        } else if code == 7 {
            Some(TransferFunction::Log316)
        } else if code == 8 {
            Some(TransferFunction::Xvycc)
        } else if code == 9 {
            Some(TransferFunction::Srgb)
        } else if code == 10 {
            Some(TransferFunction::ExtSrgb)
        } else if code == 11 {
            Some(TransferFunction::St2084Pq)
        } else if code == 12 {
            Some(TransferFunction::St428)
        } else if code == 13 {
            Some(TransferFunction::Hlg)
        } else if code == 14 {
            Some(TransferFunction::CompoundPower24)
        } else {
            None
        }
    }

    fn code(self) -> (code: u32) {
        match self {
            TransferFunction::Bt1886 => 1,
            TransferFunction::Gamma22 => 2,
            TransferFunction::Gamma28 => 3,
            TransferFunction::St240 => 4,
            TransferFunction::ExtLinear => 5,
            TransferFunction::Log100 => 6,
            TransferFunction::Log316 => 7,
            TransferFunction::Xvycc => 8,
            TransferFunction::Srgb => 9,
            TransferFunction::ExtSrgb => 10,
            TransferFunction::St2084Pq => 11,
            TransferFunction::St428 => 12,
            TransferFunction::Hlg => 13,
            TransferFunction::CompoundPower24 => 14,
        }
    }

    fn from_code(code: u32) -> (member: Option<Self>) {
        if !is_transfer_function(code) {
            return None;
        }
        match code {
            1 => Some(TransferFunction::Bt1886),
            2 => Some(TransferFunction::Gamma22),
            3 => Some(TransferFunction::Gamma28),
            4 => Some(TransferFunction::St240),
            5 => Some(TransferFunction::ExtLinear),
            6 => Some(TransferFunction::Log100),
            7 => Some(TransferFunction::Log316),
            8 => Some(TransferFunction::Xvycc),
            9 => Some(TransferFunction::Srgb),
            10 => Some(TransferFunction::ExtSrgb),
            11 => Some(TransferFunction::St2084Pq),
            12 => Some(TransferFunction::St428),
            13 => Some(TransferFunction::Hlg),
            _ => Some(TransferFunction::CompoundPower24),
        }
    }

    proof fn from_code_inverts_code(code: u32, member: Self) {
    }
}

impl std::hash::Hash for TransferFunction {
    /// Feeds the code point.
    fn hash<H: std::hash::Hasher>(&self, state: &mut H)
        ensures
            exists|step: &mut H|
                {
                    &&& *step == *old(state)
                    &&& *final(step) == *final(state)
                    &&& #[trigger] fed(self.code_spec(), step)
                },
    {
        feed_step(&self.code(), state)
    }
}

/// `WEnum::from`, over the conversion from `u32` that `wp_color_manager_v1::TransferFunction`
/// has in the protocol bindings: a number is a value of the enumeration, and not an unknown
/// one, exactly when the protocol gives it to a named transfer function: 1 to 14.
#[verifier::external_body]
fn is_transfer_function(code: u32) -> (known: bool)
    ensures
        known == (1 <= code <= 14),
{
    WEnum::<wp_color_manager_v1::TransferFunction>::from(code).into_result().is_ok()
}

/// Rendering intents have the numbers that the protocol gives them, and no other number names one.
pub proof fn render_intent_numbers(code: u32)
    ensures
        RenderIntent::Perceptual.code_spec() == 0,
        RenderIntent::Relative.code_spec() == 1,
        RenderIntent::Saturation.code_spec() == 2,
        RenderIntent::Absolute.code_spec() == 3,
        RenderIntent::RelativeBpc.code_spec() == 4,
        RenderIntent::AbsoluteNoAdaptation.code_spec() == 5,
        RenderIntent::from_code_spec(code) is Some <==> 0 <= code <= 5,
        RenderIntent::from_code_spec(code) matches Some(member) ==> member.code_spec() == code,
{
}

/// Features have the numbers that the protocol gives them, and no other number names one.
pub proof fn feature_numbers(code: u32)
    ensures
        Feature::IccV2V4.code_spec() == 0,
        Feature::Parametric.code_spec() == 1,
        Feature::SetPrimaries.code_spec() == 2,
        Feature::SetTfPower.code_spec() == 3,
        Feature::SetLuminances.code_spec() == 4,
        Feature::SetMasteringDisplayPrimaries.code_spec() == 5,
        Feature::ExtendedTargetVolume.code_spec() == 6,
        Feature::WindowsScrgb.code_spec() == 7,
        Feature::WindowsBt2100.code_spec() == 8,
        Feature::from_code_spec(code) is Some <==> 0 <= code <= 8,
        Feature::from_code_spec(code) matches Some(member) ==> member.code_spec() == code,
{
}

/// Named primaries have the numbers that the protocol gives them, and no other number names one.
pub proof fn primaries_numbers(code: u32)
    ensures
        Primaries::Srgb.code_spec() == 1,
        Primaries::PalM.code_spec() == 2,
        Primaries::Pal.code_spec() == 3,
        Primaries::Ntsc.code_spec() == 4,
        Primaries::GenericFilm.code_spec() == 5,
        Primaries::Bt2020.code_spec() == 6,
        Primaries::Cie1931Xyz.code_spec() == 7,
        Primaries::DciP3.code_spec() == 8,
        Primaries::DisplayP3.code_spec() == 9,
        Primaries::AdobeRgb.code_spec() == 10,
        Primaries::from_code_spec(code) is Some <==> 1 <= code <= 10,
        Primaries::from_code_spec(code) matches Some(member) ==> member.code_spec() == code,
{
}

/// Named transfer functions have the numbers that the protocol gives them, and no other number names one.
pub proof fn transfer_function_numbers(code: u32)
    ensures
        TransferFunction::Bt1886.code_spec() == 1,
        TransferFunction::Gamma22.code_spec() == 2,
        TransferFunction::Gamma28.code_spec() == 3,
        TransferFunction::St240.code_spec() == 4,
        TransferFunction::ExtLinear.code_spec() == 5,
        TransferFunction::Log100.code_spec() == 6,
        TransferFunction::Log316.code_spec() == 7,
        TransferFunction::Xvycc.code_spec() == 8,
        TransferFunction::Srgb.code_spec() == 9,
        TransferFunction::ExtSrgb.code_spec() == 10,
        TransferFunction::St2084Pq.code_spec() == 11,
        TransferFunction::St428.code_spec() == 12,
        TransferFunction::Hlg.code_spec() == 13,
        TransferFunction::CompoundPower24.code_spec() == 14,
        TransferFunction::from_code_spec(code) is Some <==> 1 <= code <= 14,
        TransferFunction::from_code_spec(code) matches Some(member) ==> member.code_spec() == code,
{
}

} // verus!
