//! The enumerations of the color representation protocol.

use vstd::prelude::*;
use wayland_protocols::wp::color_representation::v1::server::wp_color_representation_surface_v1;
use wayland_server::WEnum;

use crate::code_point::CodePoint;
use crate::hashing::{fed, feed_step};

verus! {

/// How the color channels of a buffer relate to its alpha channel.
#[derive(Debug, Copy, Clone, PartialEq, Eq, Structural)]
pub enum AlphaMode {
    /// Electrical values, multiplied by alpha.
    PremultipliedElectrical,
    /// Optical values, multiplied by alpha.
    PremultipliedOptical,
    /// Not multiplied by alpha.
    Straight,
}

impl CodePoint for AlphaMode {
    open spec fn code_spec(self) -> u32 {
        match self {
            AlphaMode::PremultipliedElectrical => 0,
            AlphaMode::PremultipliedOptical => 1,
            AlphaMode::Straight => 2,
        }
    }

    open spec fn from_code_spec(code: u32) -> Option<Self> {
        if code == 0 {
            Some(AlphaMode::PremultipliedElectrical)
        } else if code == 1 {
            Some(AlphaMode::PremultipliedOptical)
        } else if code == 2 {
            Some(AlphaMode::Straight)
        } else {
            None
        }
    }

    fn code(self) -> (code: u32) {
        match self {
            AlphaMode::PremultipliedElectrical => 0,
            AlphaMode::PremultipliedOptical => 1,
            AlphaMode::Straight => 2,
        }
    }

    fn from_code(code: u32) -> (member: Option<Self>) {
        if !is_alpha_mode(code) {
            return None;
        }
        match code {
            0 => Some(AlphaMode::PremultipliedElectrical),
            1 => Some(AlphaMode::PremultipliedOptical),
            _ => Some(AlphaMode::Straight),
        }
    }

    proof fn from_code_inverts_code(code: u32, member: Self) {
    }
}

impl std::hash::Hash for AlphaMode {
    /// Feeds the code point.
    fn hash<H: std::hash::Hasher>(&self, state: &mut H)
        ensures
            exists|step: &mut H|
                {
                    &&& *step == *old(state)
                    &&& *final(step) == *final(state)
                    &&& #[trigger] fed(self.code_spec(), step)
                },
    {
        feed_step(&self.code(), state)
    }
}

/// `WEnum::from`, over the conversion from `u32` that `wp_color_representation_surface_v1::AlphaMode`
/// has in the protocol bindings: a number is a value of the enumeration, and not an unknown
/// one, exactly when the protocol gives it to an alpha mode: 0 to 2.
#[verifier::external_body]
fn is_alpha_mode(code: u32) -> (known: bool)
    ensures
        known == (code <= 2),
{
    WEnum::<wp_color_representation_surface_v1::AlphaMode>::from(code).into_result().is_ok()
}

/// Matrix coefficients that take Y'CbCr to R'G'B'.
#[derive(Debug, Copy, Clone, PartialEq, Eq, Structural)]
pub enum Coefficients {
    /// The identity matrix.
    Identity,
    /// BT.709.
    Bt709,
    /// FCC.
    Fcc,
    /// BT.601.
    Bt601,
    /// SMPTE 240M.
    Smpte240,
    /// BT.2020 and BT.2100.
    Bt2020,
    /// BT.2020 with constant luminance.
    Bt2020Cl,
    /// BT.2100 ICtCp.
    Ictcp,
}

impl CodePoint for Coefficients {
    open spec fn code_spec(self) -> u32 {
        match self {
            Coefficients::Identity => 1,
            Coefficients::Bt709 => 2,
            Coefficients::Fcc => 3,
            Coefficients::Bt601 => 4,
            Coefficients::Smpte240 => 5,
            Coefficients::Bt2020 => 6,
            Coefficients::Bt2020Cl => 7,
            Coefficients::Ictcp => 8,
        }
    }

    open spec fn from_code_spec(code: u32) -> Option<Self> {
        if code == 1 {
            Some(Coefficients::Identity)
        } else if code == 2 {
            Some(Coefficients::Bt709)
        } else if code == 3 {
            Some(Coefficients::Fcc)
        } else if code == 4 {
            Some(Coefficients::Bt601)
        } else if code == 5 {
            Some(Coefficients::Smpte240)
        } else if code == 6 {
            Some(Coefficients::Bt2020)
        } else if code == 7 {
            Some(Coefficients::Bt2020Cl)
        } else if code == 8 {
            Some(Coefficients::Ictcp)
        } else {
            None
        }
    }

    fn code(self) -> (code: u32) {
        match self {
            Coefficients::Identity => 1,
            Coefficients::Bt709 => 2,
            Coefficients::Fcc => 3,
            Coefficients::Bt601 => 4,
            Coefficients::Smpte240 => 5,
            Coefficients::Bt2020 => 6,
            Coefficients::Bt2020Cl => 7,
            Coefficients::Ictcp => 8,
        }
    }

    fn from_code(code: u32) -> (member: Option<Self>) {
        if !is_coefficients(code) {
            return None;
        }
        match code {
            1 => Some(Coefficients::Identity),
            2 => Some(Coefficients::Bt709),
            3 => Some(Coefficients::Fcc),
            4 => Some(Coefficients::Bt601),
            5 => Some(Coefficients::Smpte240),
            6 => Some(Coefficients::Bt2020),
            7 => Some(Coefficients::Bt2020Cl),
            _ => Some(Coefficients::Ictcp),
        }
    }

    proof fn from_code_inverts_code(code: u32, member: Self) {
    }
}

impl std::hash::Hash for Coefficients {
    /// Feeds the code point.
    fn hash<H: std::hash::Hasher>(&self, state: &mut H)
        ensures
            exists|step: &mut H|
                {
                    &&& *step == *old(state)
                    &&& *final(step) == *final(state)
                    &&& #[trigger] fed(self.code_spec(), step)
                },
    {
        feed_step(&self.code(), state)
    }
}

/// `WEnum::from`, over the conversion from `u32` that `wp_color_representation_surface_v1::Coefficients`
/// has in the protocol bindings: a number is a value of the enumeration, and not an unknown
/// one, exactly when the protocol gives it to matrix coefficients: 1 to 8.
#[verifier::external_body]
fn is_coefficients(code: u32) -> (known: bool)
    ensures
        known == (1 <= code <= 8),
{
    WEnum::<wp_color_representation_surface_v1::Coefficients>::from(code).into_result().is_ok()
}

/// The quantization range of a buffer.
#[derive(Debug, Copy, Clone, PartialEq, Eq, Structural)]
pub enum Range {
    /// Full range.
    Full,
    /// Limited range.
    Limited,
}

impl CodePoint for Range {
    open spec fn code_spec(self) -> u32 {
        match self {
            Range::Full => 1,
            Range::Limited => 2,
        }
    }

    open spec fn from_code_spec(code: u32) -> Option<Self> {
        if code == 1 {
            Some(Range::Full)
        } else if code == 2 {
            Some(Range::Limited)
        } else {
            None
        }
    }

    fn code(self) -> (code: u32) {
        match self {
            Range::Full => 1,
            Range::Limited => 2,
        }
    }

    fn from_code(code: u32) -> (member: Option<Self>) {
        if !is_range(code) {
            return None;
        }
        match code {
            1 => Some(Range::Full),
            _ => Some(Range::Limited),
        }
    }

    proof fn from_code_inverts_code(code: u32, member: Self) {
    }
}

impl std::hash::Hash for Range {
    /// Feeds the code point.
    fn hash<H: std::hash::Hasher>(&self, state: &mut H)
        ensures
            exists|step: &mut H|
                {
                    &&& *step == *old(state)
                    &&& *final(step) == *final(state)
                    &&& #[trigger] fed(self.code_spec(), step)
                },
    {
        feed_step(&self.code(), state)
    }
}

/// `WEnum::from`, over the conversion from `u32` that `wp_color_representation_surface_v1::Range`
/// has in the protocol bindings: a number is a value of the enumeration, and not an unknown
/// one, exactly when the protocol gives it to a quantization range: 1 to 2.
#[verifier::external_body]
fn is_range(code: u32) -> (known: bool)
    ensures
        known == (1 <= code <= 2),
{
    WEnum::<wp_color_representation_surface_v1::Range>::from(code).into_result().is_ok()
}

/// Where the chroma samples of a subsampled buffer lie.
#[derive(Debug, Copy, Clone, PartialEq, Eq, Structural)]
pub enum ChromaLocation {
    /// Horizontal offset 0, vertical offset 0.5.
    Type0,
    /// Horizontal offset 0.5, vertical offset 0.5.
    Type1,
    /// Horizontal offset 0, vertical offset 0.
    Type2,
    /// Horizontal offset 0.5, vertical offset 0.
    Type3,
    /// Horizontal offset 0, vertical offset 1.
    Type4,
    /// Horizontal offset 0.5, vertical offset 1.
    Type5,
}

impl CodePoint for ChromaLocation {
    open spec fn code_spec(self) -> u32 {
        match self {
            ChromaLocation::Type0 => 1,
            ChromaLocation::Type1 => 2,
            ChromaLocation::Type2 => 3,
            ChromaLocation::Type3 => 4,
            ChromaLocation::Type4 => 5,
            ChromaLocation::Type5 => 6,
        }
    }

    open spec fn from_code_spec(code: u32) -> Option<Self> {
        if code == 1 {
            Some(ChromaLocation::Type0)
        } else if code == 2 {
            Some(ChromaLocation::Type1)
        } else if code == 3 {
            Some(ChromaLocation::Type2)
        } else if code == 4 {
            Some(ChromaLocation::Type3)
        } else if code == 5 {
            Some(ChromaLocation::Type4)
        } else if code == 6 {
            Some(ChromaLocation::Type5)
        } else {
            None
        }
    }

    fn code(self) -> (code: u32) {
        match self {
            ChromaLocation::Type0 => 1,
            ChromaLocation::Type1 => 2,
            ChromaLocation::Type2 => 3,
            ChromaLocation::Type3 => 4,
            ChromaLocation::Type4 => 5,
            ChromaLocation::Type5 => 6,
        }
    }

    fn from_code(code: u32) -> (member: Option<Self>) {
        if !is_chroma_location(code) {
            return None;
        }
        match code {
            1 => Some(ChromaLocation::Type0),
            2 => Some(ChromaLocation::Type1),
            3 => Some(ChromaLocation::Type2),
            4 => Some(ChromaLocation::Type3),
            5 => Some(ChromaLocation::Type4),
            _ => Some(ChromaLocation::Type5),
        }
    }

    proof fn from_code_inverts_code(code: u32, member: Self) {
    }
}

impl std::hash::Hash for ChromaLocation {
    /// Feeds the code point.
    fn hash<H: std::hash::Hasher>(&self, state: &mut H)
        ensures
            exists|step: &mut H|
                {
                    &&& *step == *old(state)
                    &&& *final(step) == *final(state)
                    &&& #[trigger] fed(self.code_spec(), step)
                },
    {
        feed_step(&self.code(), state)
    }
}

/// `WEnum::from`, over the conversion from `u32` that `wp_color_representation_surface_v1::ChromaLocation`
/// has in the protocol bindings: a number is a value of the enumeration, and not an unknown
/// one, exactly when the protocol gives it to a chroma location: 1 to 6.
#[verifier::external_body]
fn is_chroma_location(code: u32) -> (known: bool)
    ensures
        known == (1 <= code <= 6),
{
    WEnum::<wp_color_representation_surface_v1::ChromaLocation>::from(code).into_result().is_ok()
}

/// Alpha modes have the numbers that the protocol gives them, and no other number names one.
pub proof fn alpha_mode_numbers(code: u32)
    ensures
        AlphaMode::PremultipliedElectrical.code_spec() == 0,
        AlphaMode::PremultipliedOptical.code_spec() == 1,
        AlphaMode::Straight.code_spec() == 2,
        AlphaMode::from_code_spec(code) is Some <==> 0 <= code <= 2,
        AlphaMode::from_code_spec(code) matches Some(member) ==> member.code_spec() == code,
{
}

/// Coefficients have the numbers that the protocol gives them, and no other number names one.
pub proof fn coefficients_numbers(code: u32)
    ensures
        Coefficients::Identity.code_spec() == 1,
        Coefficients::Bt709.code_spec() == 2,
        Coefficients::Fcc.code_spec() == 3,
        Coefficients::Bt601.code_spec() == 4,
        Coefficients::Smpte240.code_spec() == 5,
        Coefficients::Bt2020.code_spec() == 6,
        Coefficients::Bt2020Cl.code_spec() == 7,
        Coefficients::Ictcp.code_spec() == 8,
        Coefficients::from_code_spec(code) is Some <==> 1 <= code <= 8,
        Coefficients::from_code_spec(code) matches Some(member) ==> member.code_spec() == code,
{
}

/// Ranges have the numbers that the protocol gives them, and no other number names one.
pub proof fn range_numbers(code: u32)
    ensures
        Range::Full.code_spec() == 1,
        Range::Limited.code_spec() == 2,
        Range::from_code_spec(code) is Some <==> 1 <= code <= 2,
        Range::from_code_spec(code) matches Some(member) ==> member.code_spec() == code,
{
}

/// Chroma locations have the numbers that the protocol gives them, and no other number names one.
pub proof fn chroma_location_numbers(code: u32)
    ensures
        ChromaLocation::Type0.code_spec() == 1,
        ChromaLocation::Type1.code_spec() == 2,
        ChromaLocation::Type2.code_spec() == 3,
        ChromaLocation::Type3.code_spec() == 4,
        ChromaLocation::Type4.code_spec() == 5,
        ChromaLocation::Type5.code_spec() == 6,
        ChromaLocation::from_code_spec(code) is Some <==> 1 <= code <= 6,
        ChromaLocation::from_code_spec(code) matches Some(member) ==> member.code_spec() == code,
{
}

} // verus!
