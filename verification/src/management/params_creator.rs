//! Requests to the creator of parametric image descriptions.

use vstd::prelude::*;

use crate::code_point::{code_names_one_member, CodePoint};
use crate::management::builder::{
    parametric_contents, DescriptionError, ImageDescriptionParametricBuilder, Parameters,
};
use crate::management::description::{
    ImageDescription, Luminance, MasteringLuminance, ParametricPrimaries, PrimariesEnum,
    TransferFunctionEnum,
};
use crate::management::image_description::{ImageDescriptionData, NewDescription};
use crate::management::named::{Feature, Primaries, TransferFunction};
use crate::management::state::{build_outcome, ColorManagementState, ImageDescriptionIds, Support};
use crate::management::weak::WeakHandle;
use crate::post_error::PostError;

verus! {

/// Errors of the creator of parametric image descriptions.
#[derive(Debug, Clone, Copy, PartialEq, Eq, Structural)]
pub enum ParamsCreatorError {
    IncompleteSet,
    AlreadySet,
    UnsupportedFeature,
    InvalidTf,
    InvalidLuminance,
}

/// Requests that give a parameter. Transfer functions and primaries that have a name come as
/// code points.
#[derive(Debug, Clone, Copy)]
pub enum ParamsRequest {
    SetTfNamed { tf: u32 },
    SetTfPower { eexp: u32 },
    SetPrimariesNamed { primaries: u32 },
    SetPrimaries { r_x: i32, r_y: i32, g_x: i32, g_y: i32, b_x: i32, b_y: i32, w_x: i32, w_y: i32 },
    SetMasteringDisplayPrimaries {
        r_x: i32,
        r_y: i32,
        g_x: i32,
        g_y: i32,
        b_x: i32,
        b_y: i32,
        w_x: i32,
        w_y: i32,
    },
    SetMasteringLuminance { min_lum: u32, max_lum: u32 },
    SetMaxCll { max_cll: u32 },
    SetMaxFall { max_fall: u32 },
    SetLuminances { min_lum: u32, max_lum: u32, reference_lum: u32 },
    /// Any request that gives no parameter.
    Other,
}

/// The smallest exponent of a power curve, in ten-thousandths.
pub const MIN_EXPONENT: u32 = 10000;

/// The largest exponent of a power curve, in ten-thousandths.
pub const MAX_EXPONENT: u32 = 100000;

/// How many of the units of a minimum luminance make one of a maximum or reference luminance.
pub const LUMINANCE_SCALE: u32 = 10000;

/// The error that refuses a request.
pub open spec fn refusal(error: ParamsCreatorError, message: &'static str) -> Option<
    PostError<ParamsCreatorError>,
> {
    Some(PostError { error, message })
}

/// The primaries with these coordinates.
pub open spec fn primaries_of(
    r: (i32, i32),
    g: (i32, i32),
    b: (i32, i32),
    w: (i32, i32),
) -> ParametricPrimaries {
    ParametricPrimaries { red: r, green: g, blue: b, white: w }
}

/// The feature without which a request is refused, and the message that refuses it.
pub open spec fn needed_feature(request: ParamsRequest) -> Option<(Feature, &'static str)> {
    match request {
        ParamsRequest::SetTfPower { .. } => Some(
            (Feature::SetTfPower, "Unsupported feature set_tf_power"),
        ),
        ParamsRequest::SetPrimaries { .. } => Some(
            (Feature::SetPrimaries, "Unsupported feature set_primaries"),
        ),
        ParamsRequest::SetMasteringDisplayPrimaries { .. } => Some(
            (
                Feature::SetMasteringDisplayPrimaries,
                "Unsupported feature set_mastering_display_primaries",
            ),
        ),
        ParamsRequest::SetMasteringLuminance { .. } => Some(
            (
                Feature::SetMasteringDisplayPrimaries,
                "Unsupported feature set_mastering_luminance",
            ),
        ),
        ParamsRequest::SetLuminances { .. } => Some(
            (Feature::SetLuminances, "Unsupported feature set_luminances"),
        ),
        _ => None,
    }
}

/// What is wrong with the value that a request gives, if anything.
pub open spec fn value_fault(support: Support, request: ParamsRequest) -> Option<
    PostError<ParamsCreatorError>,
> {
    match request {
        ParamsRequest::SetTfNamed { tf } => match TransferFunction::from_code_spec(tf) {
            None => refusal(ParamsCreatorError::InvalidTf, "Unknown transfer function"),
            Some(tf) if !support.tf.contains(tf) => refusal(
                ParamsCreatorError::InvalidTf,
                "Unsupported transfer function code point",
            ),
            Some(_) => None,
        },
        ParamsRequest::SetPrimariesNamed { primaries } => match Primaries::from_code_spec(
            primaries,
        ) {
            None => refusal(ParamsCreatorError::InvalidTf, "Unknown primaries"),
            Some(primaries) if !support.primaries.contains(primaries) => refusal(
                ParamsCreatorError::InvalidTf,
                "Unsupported primaries",
            ),
            Some(_) => None,
        },
        ParamsRequest::SetTfPower { eexp } if !(MIN_EXPONENT <= eexp <= MAX_EXPONENT) => refusal(
            ParamsCreatorError::InvalidTf,
            "Transfer function exponent out of range",
        ),
        ParamsRequest::SetMasteringLuminance { min_lum, max_lum } if max_lum * LUMINANCE_SCALE
            <= min_lum => refusal(ParamsCreatorError::InvalidLuminance, "MaxLUM <= MinLUM"),
        ParamsRequest::SetLuminances { min_lum, max_lum, .. } if max_lum * LUMINANCE_SCALE
            <= min_lum => refusal(ParamsCreatorError::InvalidLuminance, "MaxLUM <= MinLUM"),
        ParamsRequest::SetLuminances { min_lum, reference_lum, .. } if reference_lum
            * LUMINANCE_SCALE <= min_lum => refusal(
            ParamsCreatorError::InvalidLuminance,
            "RefLUM <= MinLUM",
        ),
        _ => None,
    }
}

/// What is wrong with a request, if anything: a feature that is missing, or else the value.
pub open spec fn fault(support: Support, request: ParamsRequest) -> Option<
    PostError<ParamsCreatorError>,
> {
    match needed_feature(request) {
        Some((feature, message)) if !support.features.contains(feature) => refusal(
            ParamsCreatorError::UnsupportedFeature,
            message,
        ),
        _ => value_fault(support, request),
    }
}

/// The parameters with the one that a request without fault gives.
pub open spec fn given(p: Parameters, request: ParamsRequest) -> Parameters {
    match request {
        ParamsRequest::SetTfNamed { tf } => match TransferFunction::from_code_spec(tf) {
            Some(tf) => Parameters { tf: Some(TransferFunctionEnum::Named(tf)), ..p },
            None => p,
        },
        ParamsRequest::SetTfPower { eexp } => Parameters {
            tf: Some(TransferFunctionEnum::Power(eexp)),
            ..p
        },
        ParamsRequest::SetPrimariesNamed { primaries } => match Primaries::from_code_spec(
            primaries,
        ) {
            Some(primaries) => Parameters {
                primaries: Some(PrimariesEnum::Named(primaries)),
                ..p
            },
            None => p,
        },
        ParamsRequest::SetPrimaries { r_x, r_y, g_x, g_y, b_x, b_y, w_x, w_y } => Parameters {
            primaries: Some(
                PrimariesEnum::Parametric(
                    primaries_of((r_x, r_y), (g_x, g_y), (b_x, b_y), (w_x, w_y)),
                ),
            ),
            ..p
        },
        ParamsRequest::SetMasteringDisplayPrimaries {
            r_x,
            r_y,
            g_x,
            g_y,
            b_x,
            b_y,
            w_x,
            w_y,
        } => Parameters {
            target_primaries: Some(primaries_of((r_x, r_y), (g_x, g_y), (b_x, b_y), (w_x, w_y))),
            ..p
        },
        ParamsRequest::SetMasteringLuminance { min_lum, max_lum } => Parameters {
            target_luminance: Some(MasteringLuminance { min: min_lum, max: max_lum }),
            ..p
        },
        ParamsRequest::SetMaxCll { max_cll } => Parameters { max_cll: Some(max_cll), ..p },
        ParamsRequest::SetMaxFall { max_fall } => Parameters { max_fall: Some(max_fall), ..p },
        ParamsRequest::SetLuminances { min_lum, max_lum, reference_lum } => Parameters {
            luminances: Some(Luminance { min: min_lum, max: max_lum, reference: reference_lum }),
            ..p
        },
        ParamsRequest::Other => p,
    }
}

/// The message that says that the parameter of a request was given before, where it was.
pub open spec fn given_before(p: Parameters, request: ParamsRequest) -> Option<&'static str> {
    match request {
        ParamsRequest::SetTfNamed { .. } if p.tf is Some => Some(
            "Transfer function was already set",
        ),
        ParamsRequest::SetTfPower { .. } if p.tf is Some => Some(
            "Transfer function was already set",
        ),
        ParamsRequest::SetPrimariesNamed { .. } if p.primaries is Some => Some(
            "Primaries were already set",
        ),
        ParamsRequest::SetPrimaries { .. } if p.primaries is Some => Some(
            "Primaries were already set",
        ),
        ParamsRequest::SetMasteringDisplayPrimaries { .. } if p.target_primaries is Some => Some(
            "Mastering Primaries were already set",
        ),
        ParamsRequest::SetMasteringLuminance { .. } if p.target_luminance is Some => Some(
            "Mastering luminances were already set",
        ),
        ParamsRequest::SetMaxCll { .. } if p.max_cll is Some => Some("Max CCL was already set"),
        ParamsRequest::SetMaxFall { .. } if p.max_fall is Some => Some("Max CCL was already set"),
        ParamsRequest::SetLuminances { .. } if p.luminances is Some => Some(
            "Luminances were already set",
        ),
        _ => None,
    }
}

/// What a creator holds after a request, and the error that is posted, if any. A creator that
/// has been used holds nothing. A request at fault changes nothing; one that gives a parameter
/// again changes it and is an error all the same.
pub open spec fn params_step(
    support: Support,
    held: Option<Parameters>,
    request: ParamsRequest,
) -> (Option<Parameters>, Option<PostError<ParamsCreatorError>>) {
    match (held, request) {
        (_, ParamsRequest::Other) => (held, None),
        (None, _) => (None, refusal(ParamsCreatorError::AlreadySet, "Creator was already used")),
        (Some(p), _) => match fault(support, request) {
            Some(posted) => (held, Some(posted)),
            None => (
                Some(given(p, request)),
                match given_before(p, request) {
                    Some(message) => refusal(ParamsCreatorError::AlreadySet, message),
                    None => None,
                },
            ),
        },
    }
}

/// What a creator holds.
pub open spec fn held(builder: Option<ImageDescriptionParametricBuilder>) -> Option<Parameters> {
    match builder {
        None => None,
        Some(b) => Some(b@),
    }
}

/// A creator holds what its builder was given, until it is used.
pub proof fn creators_hold_what_their_builder_has(builder: Option<ImageDescriptionParametricBuilder>)
    ensures
        held(builder) is Some <==> builder is Some,
        builder matches Some(b) ==> held(builder) == Some(b@),
{
}

/// Whether the luminances that a request would have compared can be brought to one unit.
pub open spec fn luminances_fit_spec(
    support: Support,
    used: bool,
    request: ParamsRequest,
) -> bool {
    match request {
        ParamsRequest::SetMasteringLuminance { min_lum, max_lum } => {
            used || !support.features.contains(Feature::SetMasteringDisplayPrimaries) || max_lum
                * LUMINANCE_SCALE <= u32::MAX
        },
        ParamsRequest::SetLuminances { min_lum, max_lum, reference_lum } => {
            used || !support.features.contains(Feature::SetLuminances) || {
                &&& max_lum * LUMINANCE_SCALE <= u32::MAX
                &&& max_lum * LUMINANCE_SCALE > min_lum ==> reference_lum * LUMINANCE_SCALE
                    <= u32::MAX
            }
        },
        _ => true,
    }
}

fn post(error: ParamsCreatorError, message: &'static str) -> (posted: Option<
    PostError<ParamsCreatorError>,
>)
    ensures
        posted == refusal(error, message),
{
    Some(PostError { error, message })
}

fn post_if(again: bool, message: &'static str) -> (posted: Option<PostError<ParamsCreatorError>>)
    ensures
        posted == if again {
            refusal(ParamsCreatorError::AlreadySet, message)
        } else {
            None
        },
{
    if again {
        post(ParamsCreatorError::AlreadySet, message)
    } else {
        None
    }
}

impl<W> ColorManagementState<W> {
    /// Whether the luminances that a request would have compared can be brought to one unit.
    pub fn luminances_fit(&self, used: bool, request: &ParamsRequest) -> (fit: bool)
        ensures
            fit == luminances_fit_spec(self.support(), used, *request),
    {
        match request {
            ParamsRequest::SetMasteringLuminance { max_lum, .. } => used
                || !self.supported_features().contains(Feature::SetMasteringDisplayPrimaries)
                || *max_lum <= u32::MAX / LUMINANCE_SCALE,
            ParamsRequest::SetLuminances { min_lum, max_lum, reference_lum } => used
                || !self.supported_features().contains(Feature::SetLuminances) || (*max_lum
                <= u32::MAX / LUMINANCE_SCALE && (*max_lum * LUMINANCE_SCALE <= *min_lum
                || *reference_lum <= u32::MAX / LUMINANCE_SCALE)),
            _ => true,
        }
    }

    /// Carries out a request to a creator, and gives the error to post, if any.
    pub fn params_creator_request(
        &self,
        builder: &mut Option<ImageDescriptionParametricBuilder>,
        request: ParamsRequest,
    ) -> (posted: Option<PostError<ParamsCreatorError>>)
        requires
            luminances_fit_spec(self.support(), *old(builder) is None, request),
        ensures
            (held(*final(builder)), posted) == params_step(
                self.support(),
                held(*old(builder)),
                request,
            ),
    {
        if let ParamsRequest::Other = request {
            return None;
        }
        match builder {
            None => post(ParamsCreatorError::AlreadySet, "Creator was already used"),
            Some(data) => self.give_parameter(data, request),
        }
    }

    /// Carries out a request to a creator that has not been used.
    fn give_parameter(
        &self,
        data: &mut ImageDescriptionParametricBuilder,
        request: ParamsRequest,
    ) -> (posted: Option<PostError<ParamsCreatorError>>)
        requires
            luminances_fit_spec(self.support(), false, request),
        ensures
            (Some(final(data)@), posted) == params_step(
                self.support(),
                Some(old(data)@),
                request,
            ),
    {
        match request {
            ParamsRequest::SetTfNamed { tf } => {
                let tf = match TransferFunction::from_code(tf) {
                    Some(tf) => tf,
                    None => return post(ParamsCreatorError::InvalidTf, "Unknown transfer function"),
                };
                if !self.supported_tf().contains(tf) {
                    return post(
                        ParamsCreatorError::InvalidTf,
                        "Unsupported transfer function code point",
                    );
                }
                post_if(
                    data.set_tf(TransferFunctionEnum::Named(tf)),
                    "Transfer function was already set",
                )
            },
            ParamsRequest::SetTfPower { eexp } => {
                if !self.supported_features().contains(Feature::SetTfPower) {
                    return post(
                        ParamsCreatorError::UnsupportedFeature,
                        "Unsupported feature set_tf_power",
                    );
                }
                if eexp < MIN_EXPONENT || eexp > MAX_EXPONENT {
                    return post(
                        ParamsCreatorError::InvalidTf,
                        "Transfer function exponent out of range",
                    );
                }
                post_if(
                    data.set_tf(TransferFunctionEnum::Power(eexp)),
                    "Transfer function was already set",
                )
            },
            ParamsRequest::SetPrimariesNamed { primaries } => {
                let primaries = match Primaries::from_code(primaries) {
                    Some(primaries) => primaries,
                    None => return post(ParamsCreatorError::InvalidTf, "Unknown primaries"),
                };
                if !self.supported_primaries().contains(primaries) {
                    return post(ParamsCreatorError::InvalidTf, "Unsupported primaries");
                }
                post_if(
                    data.set_primaries(PrimariesEnum::Named(primaries)),
                    "Primaries were already set",
                )
            },
            ParamsRequest::SetPrimaries { r_x, r_y, g_x, g_y, b_x, b_y, w_x, w_y } => {
                if !self.supported_features().contains(Feature::SetPrimaries) {
                    return post(
                        ParamsCreatorError::UnsupportedFeature,
                        "Unsupported feature set_primaries",
                    );
                }
                let primaries = ParametricPrimaries {
                    red: (r_x, r_y),
                    green: (g_x, g_y),
                    blue: (b_x, b_y),
                    white: (w_x, w_y),
                };
                post_if(
                    data.set_primaries(PrimariesEnum::Parametric(primaries)),
                    "Primaries were already set",
                )
            },
            ParamsRequest::SetMasteringDisplayPrimaries {
                r_x,
                r_y,
                g_x,
                g_y,
                b_x,
                b_y,
                w_x,
                w_y,
            } => {
                if !self.supported_features().contains(Feature::SetMasteringDisplayPrimaries) {
                    return post(
                        ParamsCreatorError::UnsupportedFeature,
                        "Unsupported feature set_mastering_display_primaries",
                    );
                }
                let primaries = ParametricPrimaries {
                    red: (r_x, r_y),
                    green: (g_x, g_y),
                    blue: (b_x, b_y),
                    white: (w_x, w_y),
                };
                post_if(
                    data.set_target_primaries(primaries),
                    "Mastering Primaries were already set",
                )
            },
            ParamsRequest::SetMasteringLuminance { min_lum, max_lum } => {
                if !self.supported_features().contains(Feature::SetMasteringDisplayPrimaries) {
                    return post(
                        ParamsCreatorError::UnsupportedFeature,
                        "Unsupported feature set_mastering_luminance",
                    );
                }
                if max_lum * LUMINANCE_SCALE <= min_lum {
                    return post(ParamsCreatorError::InvalidLuminance, "MaxLUM <= MinLUM");
                }
                post_if(
                    data.set_target_luminance(MasteringLuminance { min: min_lum, max: max_lum }),
                    "Mastering luminances were already set",
                )
            },
            ParamsRequest::SetMaxCll { max_cll } => post_if(
                data.set_max_cll(max_cll),
                "Max CCL was already set",
            ),
            ParamsRequest::SetMaxFall { max_fall } => post_if(
                data.set_max_fall(max_fall),
                "Max CCL was already set",
            ),
            ParamsRequest::SetLuminances { min_lum, max_lum, reference_lum } => {
                if !self.supported_features().contains(Feature::SetLuminances) {
                    return post(
                        ParamsCreatorError::UnsupportedFeature,
                        "Unsupported feature set_luminances",
                    );
                }
                if max_lum * LUMINANCE_SCALE <= min_lum {
                    return post(ParamsCreatorError::InvalidLuminance, "MaxLUM <= MinLUM");
                }
                if reference_lum * LUMINANCE_SCALE <= min_lum {
                    return post(ParamsCreatorError::InvalidLuminance, "RefLUM <= MinLUM");
                }
                post_if(
                    data.set_luminances(
                        Luminance { min: min_lum, max: max_lum, reference: reference_lum },
                    ),
                    "Luminances were already set",
                )
            },
            ParamsRequest::Other => None,
        }
    }
}

/// The error that a creator posts when nothing can be built.
pub open spec fn creation_refusal(error: DescriptionError) -> PostError<ParamsCreatorError> {
    PostError { error: ParamsCreatorError::IncompleteSet, message: error.message_spec() }
}

/// A creator that cannot create says that something is missing, in the words of the reason.
pub proof fn creation_is_refused_in_words(error: DescriptionError)
    ensures
        creation_refusal(error).error == ParamsCreatorError::IncompleteSet,
        creation_refusal(error).message == match error {
            DescriptionError::IncompleteSet => "incomplete parameter set",
            DescriptionError::InconsistentSet => "invalid combination of parameters",
        },
        creation_refusal(error).message == error.message_spec(),
{
}

impl<W: WeakHandle> ColorManagementState<W> where W::UserData: Default {
    /// Uses a creator up, and gives the image description that it creates, or the error to post.
    pub fn create_parametric(
        &mut self,
        ids: &mut ImageDescriptionIds,
        builder: &mut Option<ImageDescriptionParametricBuilder>,
    ) -> (created: Result<NewDescription<W::UserData>, PostError<ParamsCreatorError>>)
        requires
            old(self).wf(),
        ensures
            final(self).wf(),
            final(self).support() == old(self).support(),
            *final(builder) is None,
            match held(*old(builder)) {
                None => {
                    &&& created == Err::<NewDescription<W::UserData>, _>(
                        PostError {
                            error: ParamsCreatorError::AlreadySet,
                            message: "Creator was already used",
                        },
                    )
                    &&& final(self).known() == old(self).known()
                    &&& final(ids)@ == old(ids)@
                },
                Some(p) => exists|built: Result<ImageDescription<W::UserData>, DescriptionError>|
                    {
                        &&& #[trigger] build_outcome(
                            old(self).known(),
                            old(ids)@,
                            parametric_contents(p),
                            final(self).known(),
                            final(ids)@,
                            built,
                        )
                        &&& created == match built {
                            Ok(info) => Ok(
                                NewDescription::Ready(
                                    ImageDescriptionData { get_information: false, info },
                                ),
                            ),
                            Err(error) => Err(creation_refusal(error)),
                        }
                    },
            },
    {
        let data = match builder.take() {
            Some(data) => data,
            None => return Err(
                PostError {
                    error: ParamsCreatorError::AlreadySet,
                    message: "Creator was already used",
                },
            ),
        };
        match self.build_description_internal(ids, data.try_into()) {
            Ok(info) => Ok(
                NewDescription::Ready(ImageDescriptionData { get_information: false, info }),
            ),
            Err(error) => Err(
                PostError { error: ParamsCreatorError::IncompleteSet, message: error.message() },
            ),
        }
    }
}

/// A transfer function by name is taken where it is supported and none was given before, and it
/// is then the one that the creator holds.
pub proof fn what_becomes_of_named_tf(support: Support, p: Parameters, code: u32)
    ensures
        ({
            let (held, posted) = params_step(
                support,
                Some(p),
                (ParamsRequest::SetTfNamed { tf: code }),
            );
            let is_known = exists|tf: TransferFunction| #[trigger] tf.code_spec() == code;
            let is_supported = exists|tf: TransferFunction| #[trigger]
                support.tf.contains(tf) && tf.code_spec() == code;
            &&& posted is None <==> is_supported && p.tf is None
            &&& is_supported ==> (held matches Some(q) && q == (Parameters { tf: q.tf, ..p }) && (q.tf
                matches Some(TransferFunctionEnum::Named(tf)) && tf.code_spec() == code))
            &&& !is_supported ==> held == Some(p)
            &&& !is_known ==> posted == Some(
                PostError {
                    error: ParamsCreatorError::InvalidTf,
                    message: "Unknown transfer function",
                },
            )
            &&& is_known && !is_supported ==> posted == Some(
                PostError {
                    error: ParamsCreatorError::InvalidTf,
                    message: "Unsupported transfer function code point",
                },
            )
            &&& is_supported && p.tf is Some ==> posted == Some(
                PostError {
                    error: ParamsCreatorError::AlreadySet,
                    message: "Transfer function was already set",
                },
            )
        }),
{
    match TransferFunction::from_code_spec(code) {
        Some(tf) => {
            TransferFunction::from_code_inverts_code(code, tf);
            assert(tf.code_spec() == code);
            assert forall|other: TransferFunction| #[trigger]
                support.tf.contains(other) && other.code_spec() == code implies other == tf by {
                code_names_one_member(other, tf);
            }
        },
        None => {
            assert forall|other: TransferFunction| #[trigger] other.code_spec() != code by {
                TransferFunction::from_code_inverts_code(code, other);
            }
        },
    }
}

/// Primaries by name are taken where they are supported and none were given before, and they are
/// then the ones that the creator holds.
pub proof fn what_becomes_of_named_primaries(support: Support, p: Parameters, code: u32)
    ensures
        ({
            let (held, posted) = params_step(
                support,
                Some(p),
                (ParamsRequest::SetPrimariesNamed { primaries: code }),
            );
            let is_known = exists|n: Primaries| #[trigger] n.code_spec() == code;
            let is_supported = exists|n: Primaries| #[trigger]
                support.primaries.contains(n) && n.code_spec() == code;
            &&& posted is None <==> is_supported && p.primaries is None
            &&& is_supported ==> (held matches Some(q) && q == (Parameters {
                primaries: q.primaries,
                ..p
            }) && (q.primaries matches Some(PrimariesEnum::Named(n)) && n.code_spec() == code))
            &&& !is_supported ==> held == Some(p)
            &&& !is_known ==> posted == Some(
                PostError { error: ParamsCreatorError::InvalidTf, message: "Unknown primaries" },
            )
            &&& is_known && !is_supported ==> posted == Some(
                PostError {
                    error: ParamsCreatorError::InvalidTf,
                    message: "Unsupported primaries",
                },
            )
            &&& is_supported && p.primaries is Some ==> posted == Some(
                PostError {
                    error: ParamsCreatorError::AlreadySet,
                    message: "Primaries were already set",
                },
            )
        }),
{
    match Primaries::from_code_spec(code) {
        Some(n) => {
            Primaries::from_code_inverts_code(code, n);
            assert(n.code_spec() == code);
            assert forall|other: Primaries| #[trigger]
                support.primaries.contains(other) && other.code_spec() == code implies other
                == n by {
                code_names_one_member(other, n);
            }
        },
        None => {
            assert forall|other: Primaries| #[trigger] other.code_spec() != code by {
                Primaries::from_code_inverts_code(code, other);
            }
        },
    }
}

/// An exponent from one to ten is taken, to the last digit, where power curves are supported and
/// no transfer function was given before.
pub proof fn what_becomes_of_an_exponent(support: Support, p: Parameters, eexp: u32)
    ensures
        ({
            let (held, posted) = params_step(support, Some(p), (ParamsRequest::SetTfPower { eexp }));
            let is_supported = support.features.contains(Feature::SetTfPower);
            let in_range = 10000 <= eexp <= 100000;
            &&& posted is None <==> is_supported && in_range && p.tf is None
            &&& is_supported && in_range ==> held == Some(
                Parameters { tf: Some(TransferFunctionEnum::Power(eexp)), ..p },
            )
            &&& !(is_supported && in_range) ==> held == Some(p)
            &&& !is_supported ==> posted == Some(
                PostError {
                    error: ParamsCreatorError::UnsupportedFeature,
                    message: "Unsupported feature set_tf_power",
                },
            )
            &&& is_supported && !in_range ==> posted == Some(
                PostError {
                    error: ParamsCreatorError::InvalidTf,
                    message: "Transfer function exponent out of range",
                },
            )
            &&& is_supported && in_range && p.tf is Some ==> posted == Some(
                PostError {
                    error: ParamsCreatorError::AlreadySet,
                    message: "Transfer function was already set",
                },
            )
        }),
{
}

/// Coordinates are taken as they are, those of the primaries where they are supported, and those
/// of the mastering display where that is.
pub proof fn what_becomes_of_coordinates(
    support: Support,
    p: Parameters,
    r_x: i32,
    r_y: i32,
    g_x: i32,
    g_y: i32,
    b_x: i32,
    b_y: i32,
    w_x: i32,
    w_y: i32,
)
    ensures
        ({
            let given = ParametricPrimaries {
                red: (r_x, r_y),
                green: (g_x, g_y),
                blue: (b_x, b_y),
                white: (w_x, w_y),
            };
            let (held, posted) = params_step(
                support,
                Some(p),
                (ParamsRequest::SetPrimaries { r_x, r_y, g_x, g_y, b_x, b_y, w_x, w_y }),
            );
            let is_supported = support.features.contains(Feature::SetPrimaries);
            &&& posted is None <==> is_supported && p.primaries is None
            &&& is_supported ==> held == Some(
                Parameters { primaries: Some(PrimariesEnum::Parametric(given)), ..p },
            )
            &&& !is_supported ==> held == Some(p) && posted == Some(
                PostError {
                    error: ParamsCreatorError::UnsupportedFeature,
                    message: "Unsupported feature set_primaries",
                },
            )
            &&& is_supported && p.primaries is Some ==> posted == Some(
                PostError {
                    error: ParamsCreatorError::AlreadySet,
                    message: "Primaries were already set",
                },
            )
        }),
        ({
            let given = ParametricPrimaries {
                red: (r_x, r_y),
                green: (g_x, g_y),
                blue: (b_x, b_y),
                white: (w_x, w_y),
            };
            let (held, posted) = params_step(
                support,
                Some(p),
                (ParamsRequest::SetMasteringDisplayPrimaries {
                    r_x,
                    r_y,
                    g_x,
                    g_y,
                    b_x,
                    b_y,
                    w_x,
                    w_y,
                }),
            );
            let is_supported = support.features.contains(Feature::SetMasteringDisplayPrimaries);
            &&& posted is None <==> is_supported && p.target_primaries is None
            &&& is_supported ==> held == Some(Parameters { target_primaries: Some(given), ..p })
            &&& !is_supported ==> held == Some(p) && posted == Some(
                PostError {
                    error: ParamsCreatorError::UnsupportedFeature,
                    message: "Unsupported feature set_mastering_display_primaries",
                },
            )
            &&& is_supported && p.target_primaries is Some ==> posted == Some(
                PostError {
                    error: ParamsCreatorError::AlreadySet,
                    message: "Mastering Primaries were already set",
                },
            )
        }),
{
}

/// Luminances of the mastering display are taken as they are where that is supported and the
/// maximum is above the minimum, of which ten thousand make one of the maximum.
pub proof fn what_becomes_of_mastering_luminances(
    support: Support,
    p: Parameters,
    min_lum: u32,
    max_lum: u32,
)
    ensures
        ({
            let (held, posted) = params_step(
                support,
                Some(p),
                (ParamsRequest::SetMasteringLuminance { min_lum, max_lum }),
            );
            let is_supported = support.features.contains(Feature::SetMasteringDisplayPrimaries);
            let in_order = min_lum < 10000 * max_lum;
            &&& posted is None <==> is_supported && in_order && p.target_luminance is None
            &&& is_supported && in_order ==> held == Some(
                Parameters {
                    target_luminance: Some(MasteringLuminance { min: min_lum, max: max_lum }),
                    ..p
                },
            )
            &&& !(is_supported && in_order) ==> held == Some(p)
            &&& !is_supported ==> posted == Some(
                PostError {
                    error: ParamsCreatorError::UnsupportedFeature,
                    message: "Unsupported feature set_mastering_luminance",
                },
            )
            &&& is_supported && !in_order ==> posted == Some(
                PostError {
                    error: ParamsCreatorError::InvalidLuminance,
                    message: "MaxLUM <= MinLUM",
                },
            )
            &&& is_supported && in_order && p.target_luminance is Some ==> posted == Some(
                PostError {
                    error: ParamsCreatorError::AlreadySet,
                    message: "Mastering luminances were already set",
                },
            )
        }),
{
}

/// Luminances are taken as they are where they are supported and the maximum and the reference
/// are above the minimum, of which ten thousand make one of the others.
pub proof fn what_becomes_of_luminances(
    support: Support,
    p: Parameters,
    min_lum: u32,
    max_lum: u32,
    reference_lum: u32,
)
    ensures
        ({
            let (held, posted) = params_step(
                support,
                Some(p),
                (ParamsRequest::SetLuminances { min_lum, max_lum, reference_lum }),
            );
            let is_supported = support.features.contains(Feature::SetLuminances);
            let max_above = min_lum < 10000 * max_lum;
            let reference_above = min_lum < 10000 * reference_lum;
            &&& posted is None <==> is_supported && max_above && reference_above
                && p.luminances is None
            &&& is_supported && max_above && reference_above ==> held == Some(
                Parameters {
                    luminances: Some(
                        Luminance { min: min_lum, max: max_lum, reference: reference_lum },
                    ),
                    ..p
                },
            )
            &&& !(is_supported && max_above && reference_above) ==> held == Some(p)
            &&& !is_supported ==> posted == Some(
                PostError {
                    error: ParamsCreatorError::UnsupportedFeature,
                    message: "Unsupported feature set_luminances",
                },
            )
            &&& is_supported && !max_above ==> posted == Some(
                PostError {
                    error: ParamsCreatorError::InvalidLuminance,
                    message: "MaxLUM <= MinLUM",
                },
            )
            &&& is_supported && max_above && !reference_above ==> posted == Some(
                PostError {
                    error: ParamsCreatorError::InvalidLuminance,
                    message: "RefLUM <= MinLUM",
                },
            )
            &&& is_supported && max_above && reference_above && p.luminances is Some ==> posted
                == Some(
                PostError {
                    error: ParamsCreatorError::AlreadySet,
                    message: "Luminances were already set",
                },
            )
        }),
{
}

/// Light levels are taken as they are, whatever is supported. One that was given before is an
/// error, and is replaced all the same. Other requests do nothing.
pub proof fn what_becomes_of_light_levels(
    support: Support,
    p: Parameters,
    max_cll: u32,
    max_fall: u32,
)
    ensures
        ({
            let (held, posted) = params_step(
                support,
                Some(p),
                (ParamsRequest::SetMaxCll { max_cll }),
            );
            &&& held == Some(Parameters { max_cll: Some(max_cll), ..p })
            &&& posted == if p.max_cll is Some {
                Some(
                    PostError {
                        error: ParamsCreatorError::AlreadySet,
                        message: "Max CCL was already set",
                    },
                )
            } else {
                None
            }
        }),
        ({
            let (held, posted) = params_step(
                support,
                Some(p),
                (ParamsRequest::SetMaxFall { max_fall }),
            );
            &&& held == Some(Parameters { max_fall: Some(max_fall), ..p })
            &&& posted == if p.max_fall is Some {
                Some(
                    PostError {
                        error: ParamsCreatorError::AlreadySet,
                        message: "Max CCL was already set",
                    },
                )
            } else {
                None
            }
        }),
        params_step(support, Some(p), ParamsRequest::Other) == (
            Some(p),
            None::<PostError<ParamsCreatorError>>,
        ),
        params_step(support, None, ParamsRequest::Other) == (
            None::<Parameters>,
            None::<PostError<ParamsCreatorError>>,
        ),
{
}

/// Luminances can be compared exactly where bringing the ones that are compared to the smaller
/// unit leaves them below two to the power of 32; where nothing is compared they always can.
pub proof fn luminances_fit_where_products_do(
    support: Support,
    used: bool,
    min_lum: u32,
    max_lum: u32,
    reference_lum: u32,
)
    ensures
        ({
            let request = ParamsRequest::SetMasteringLuminance { min_lum, max_lum };
            let compared = !used && support.features.contains(
                Feature::SetMasteringDisplayPrimaries,
            );
            luminances_fit_spec(support, used, request) <==> (compared ==> 10000 * max_lum
                < 0x1_0000_0000)
        }),
        ({
            let request = ParamsRequest::SetLuminances { min_lum, max_lum, reference_lum };
            let compared = !used && support.features.contains(Feature::SetLuminances);
            luminances_fit_spec(support, used, request) <==> (compared ==> 10000 * max_lum
                < 0x1_0000_0000 && (min_lum < 10000 * max_lum ==> 10000 * reference_lum
                < 0x1_0000_0000))
        }),
{
}

/// A creator that has been used refuses every parameter.
pub proof fn used_creator_refuses_parameters(support: Support, request: ParamsRequest)
    requires
        !(request is Other),
    ensures
        params_step(support, None, request) == (
            None::<Parameters>,
            refusal(ParamsCreatorError::AlreadySet, "Creator was already used"),
        ),
{
}

/// A request that is at fault changes nothing.
pub proof fn faulty_request_changes_nothing(
    support: Support,
    held: Option<Parameters>,
    request: ParamsRequest,
)
    requires
        fault(support, request) is Some,
    ensures
        params_step(support, held, request).0 == held,
        !(request is Other) ==> params_step(support, held, request).1 is Some,
{
}

/// Whether a request is carried out without an error.
pub open spec fn accepted(support: Support, p: Parameters, request: ParamsRequest) -> bool {
    params_step(support, Some(p), request).1 is None
}

/// `q` has every parameter that `p` has.
pub open spec fn extends(q: Parameters, p: Parameters) -> bool {
    &&& p.tf is Some ==> q.tf == p.tf
    &&& p.primaries is Some ==> q.primaries == p.primaries
    &&& p.luminances is Some ==> q.luminances == p.luminances
    &&& p.target_primaries is Some ==> q.target_primaries == p.target_primaries
    &&& p.target_luminance is Some ==> q.target_luminance == p.target_luminance
    &&& p.max_cll is Some ==> q.max_cll == p.max_cll
    &&& p.max_fall is Some ==> q.max_fall == p.max_fall
}

/// What has been given stays: a request that is carried out without an error only adds.
pub proof fn accepted_request_only_adds(support: Support, p: Parameters, request: ParamsRequest)
    requires
        accepted(support, p, request),
    ensures
        params_step(support, Some(p), request).0 matches Some(q) && extends(q, p),
{
}

/// The order in which parameters are given does not matter.
pub proof fn order_of_parameters_does_not_matter(
    support: Support,
    p: Parameters,
    first: ParamsRequest,
    second: ParamsRequest,
)
    requires
        accepted(support, p, first),
        accepted(support, given(p, first), second),
    ensures
        accepted(support, p, second),
        accepted(support, given(p, second), first),
        given(given(p, first), second) == given(given(p, second), first),
        params_step(support, Some(p), first).0 == Some(given(p, first)),
{
}

/// The parameters keep to what is supported, and the luminances to their order.
pub open spec fn within_support(support: Support, p: Parameters) -> bool {
    &&& match p.tf {
        None => true,
        Some(TransferFunctionEnum::Named(tf)) => support.tf.contains(tf),
        Some(TransferFunctionEnum::Power(exponent)) => support.features.contains(
            Feature::SetTfPower,
        ) && MIN_EXPONENT <= exponent <= MAX_EXPONENT,
    }
    &&& match p.primaries {
        None => true,
        Some(PrimariesEnum::Named(primaries)) => support.primaries.contains(primaries),
        Some(PrimariesEnum::Parametric(_)) => support.features.contains(Feature::SetPrimaries),
    }
    &&& p.luminances matches Some(l) ==> support.features.contains(Feature::SetLuminances) && l.min
        < l.max * LUMINANCE_SCALE && l.min < l.reference * LUMINANCE_SCALE
    &&& p.target_primaries is Some ==> support.features.contains(
        Feature::SetMasteringDisplayPrimaries,
    )
    &&& p.target_luminance matches Some(l) ==> support.features.contains(
        Feature::SetMasteringDisplayPrimaries,
    ) && l.min < l.max * LUMINANCE_SCALE
}

/// A creator starts within what is supported, and no request takes it out.
pub proof fn creators_stay_within_support(support: Support, p: Parameters, request: ParamsRequest)
    ensures
        within_support(support, Parameters::none()),
        within_support(support, p) ==> (params_step(support, Some(p), request).0 matches Some(q)
            && within_support(support, q)),
{
}

/// A description can be created exactly when the transfer function and the primaries are given.
pub proof fn creation_needs_tf_and_primaries(p: Parameters)
    ensures
        parametric_contents(p) is Ok <==> p.tf is Some && p.primaries is Some,
        parametric_contents(p) is Err ==> parametric_contents(p)->Err_0
            == DescriptionError::IncompleteSet,
{
}

} // verus!
