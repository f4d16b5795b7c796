//! Image descriptions: what they hold, when two of them are the same, and the
//! handle by which they are shared.

use std::sync::Arc;

use vstd::prelude::*;
use vstd::std_specs::cmp::PartialEqSpec;

use crate::code_point::{code_names_one_member, CodePoint};
use crate::hashing::{fed, feed_step};
use crate::management::named::{Primaries, TransferFunction};

verus! {

/// The bytes of an ICC profile.
#[derive(Debug)]
pub struct IccData {
    data: Vec<u8>,
}

impl View for IccData {
    type V = Seq<u8>;

    closed spec fn view(&self) -> Seq<u8> {
        self.data@
    }
}

impl IccData {
    /// A profile with the given bytes.
    pub fn new(data: Vec<u8>) -> (icc: Self)
        ensures
            icc@ == data@,
    {
        IccData { data }
    }
}

impl Clone for IccData {
    fn clone(&self) -> (copy: Self)
        ensures
            copy@ == self@,
    {
        let data = self.data.clone();
        assert(data@ =~= self.data@);
        IccData { data }
    }
}

impl AsRef<[u8]> for IccData {
    fn as_ref(&self) -> (bytes: &[u8])
        ensures
            bytes@ == self@,
    {
        self.data.as_slice()
    }
}

/// Luminances of the primary color volume. `min` counts in 0.0001 cd/m^2, the others in cd/m^2.
#[derive(Debug, Copy, Clone, Hash, PartialEq, Eq, Structural)]
pub struct Luminance {
    pub min: u32,
    pub max: u32,
    pub reference: u32,
}

/// Luminances of the mastering display. `min` counts in 0.0001 cd/m^2, `max` in cd/m^2.
#[derive(Debug, Copy, Clone, Hash, PartialEq, Eq, Structural)]
pub struct MasteringLuminance {
    pub min: u32,
    pub max: u32,
}

/// Chromaticity coordinates of three primaries and a white point, each `(x, y)` in millionths.
#[derive(Debug, Clone, Copy, Eq, Hash)]
pub struct ParametricPrimaries {
    pub red: (i32, i32),
    pub green: (i32, i32),
    pub blue: (i32, i32),
    pub white: (i32, i32),
}

impl PartialEq for ParametricPrimaries {
    fn eq(&self, other: &Self) -> (same: bool) {
        self.red.0 == other.red.0 && self.red.1 == other.red.1 && self.green.0 == other.green.0
            && self.green.1 == other.green.1 && self.blue.0 == other.blue.0 && self.blue.1
            == other.blue.1 && self.white.0 == other.white.0 && self.white.1 == other.white.1
    }
}

impl vstd::std_specs::cmp::PartialEqSpecImpl for ParametricPrimaries {
    open spec fn obeys_eq_spec() -> bool {
        true
    }

    open spec fn eq_spec(&self, other: &Self) -> bool {
        *self == *other
    }
}

/// A transfer function, by name or as the exponent of a power curve in ten-thousandths.
#[derive(Debug, Clone, Copy, PartialEq, Eq, Hash, Structural)]
pub enum TransferFunctionEnum {
    Named(TransferFunction),
    Power(u32),
}

/// Primaries, by name or as coordinates.
#[derive(Debug, Clone, Copy, Eq, Hash)]
pub enum PrimariesEnum {
    Named(Primaries),
    Parametric(ParametricPrimaries),
}

impl PartialEq for PrimariesEnum {
    fn eq(&self, other: &Self) -> (same: bool) {
        match (self, other) {
            (PrimariesEnum::Named(a), PrimariesEnum::Named(b)) => *a == *b,
            (PrimariesEnum::Parametric(a), PrimariesEnum::Parametric(b)) => *a == *b,
            _ => false,
        }
    }
}

impl vstd::std_specs::cmp::PartialEqSpecImpl for PrimariesEnum {
    open spec fn obeys_eq_spec() -> bool {
        true
    }

    open spec fn eq_spec(&self, other: &Self) -> bool {
        *self == *other
    }
}

/// What an image description says about the colors of an image.
#[derive(Debug)]
pub enum ImageDescriptionContents {
    ICC(IccData),
    Parametric {
        tf: TransferFunctionEnum,
        primaries: PrimariesEnum,
        luminances: Option<Luminance>,
        target_primaries: Option<ParametricPrimaries>,
        target_luminance: Option<MasteringLuminance>,
        max_cll: Option<u32>,
        max_fall: Option<u32>,
    },
}

/// The value of an [`ImageDescriptionContents`]: two of them are interchangeable when these agree.
pub enum ContentsModel {
    Icc(Seq<u8>),
    Parametric {
        tf: TransferFunctionEnum,
        primaries: PrimariesEnum,
        luminances: Option<Luminance>,
        target_primaries: Option<ParametricPrimaries>,
        target_luminance: Option<MasteringLuminance>,
        max_cll: Option<u32>,
        max_fall: Option<u32>,
    },
}

impl View for ImageDescriptionContents {
    type V = ContentsModel;

    open spec fn view(&self) -> ContentsModel {
        match *self {
            ImageDescriptionContents::ICC(icc) => ContentsModel::Icc(icc@),
            ImageDescriptionContents::Parametric {
                tf,
                primaries,
                luminances,
                target_primaries,
                target_luminance,
                max_cll,
                max_fall,
            } => ContentsModel::Parametric {
                tf,
                primaries,
                luminances,
                target_primaries,
                target_luminance,
                max_cll,
                max_fall,
            },
        }
    }
}

impl Clone for ImageDescriptionContents {
    fn clone(&self) -> (copy: Self)
        ensures
            copy@ == self@,
    {
        match self {
            ImageDescriptionContents::ICC(icc) => ImageDescriptionContents::ICC(icc.clone()),
            ImageDescriptionContents::Parametric {
                tf,
                primaries,
                luminances,
                target_primaries,
                target_luminance,
                max_cll,
                max_fall,
            } => ImageDescriptionContents::Parametric {
                tf: *tf,
                primaries: *primaries,
                luminances: *luminances,
                target_primaries: *target_primaries,
                target_luminance: *target_luminance,
                max_cll: *max_cll,
                max_fall: *max_fall,
            },
        }
    }
}

impl PartialEq for ImageDescriptionContents {
    fn eq(&self, other: &Self) -> (same: bool) {
        match (self, other) {
            (ImageDescriptionContents::ICC(icc1), ImageDescriptionContents::ICC(icc2)) => {
                let same = icc1.data == icc2.data;
                proof {
                    if same {
                        assert(icc1.data@ =~= icc2.data@);
                    }
                }
                same
            },
            (
                ImageDescriptionContents::Parametric {
                    tf: tf1,
                    primaries: primaries1,
                    luminances: luminances1,
                    target_primaries: target_primaries1,
                    target_luminance: target_luminance1,
                    max_cll: max_cll1,
                    max_fall: max_fall1,
                },
                ImageDescriptionContents::Parametric {
                    tf: tf2,
                    primaries: primaries2,
                    luminances: luminances2,
                    target_primaries: target_primaries2,
                    target_luminance: target_luminance2,
                    max_cll: max_cll2,
                    max_fall: max_fall2,
                },
            ) => {
                *tf1 == *tf2 && *primaries1 == *primaries2 && *luminances1 == *luminances2
                    && *target_primaries1 == *target_primaries2 && *target_luminance1
                    == *target_luminance2 && *max_cll1 == *max_cll2 && *max_fall1 == *max_fall2
            },
            _ => false,
        }
    }
}

impl vstd::std_specs::cmp::PartialEqSpecImpl for ImageDescriptionContents {
    open spec fn obeys_eq_spec() -> bool {
        true
    }

    open spec fn eq_spec(&self, other: &Self) -> bool {
        self@ == other@
    }
}

impl Eq for ImageDescriptionContents {

}

/// Equality of contents is an equivalence.
pub proof fn equal_contents_is_equivalence(
    a: ImageDescriptionContents,
    b: ImageDescriptionContents,
    c: ImageDescriptionContents,
)
    ensures
        a.eq_spec(&a),
        a.eq_spec(&b) ==> b.eq_spec(&a),
        a.eq_spec(&b) && b.eq_spec(&c) ==> a.eq_spec(&c),
{
}

/// Contents are equal exactly where both are profiles with the same bytes, or both have the same
/// parameters, each of them.
pub proof fn equal_contents_agree_in_every_part(
    a: ImageDescriptionContents,
    b: ImageDescriptionContents,
)
    ensures
        a.eq_spec(&b) <==> match (a, b) {
            (ImageDescriptionContents::ICC(icc1), ImageDescriptionContents::ICC(icc2)) => icc1@
                == icc2@,
            (
                ImageDescriptionContents::Parametric {
                    tf: tf1,
                    primaries: primaries1,
                    luminances: luminances1,
                    target_primaries: target_primaries1,
                    target_luminance: target_luminance1,
                    max_cll: max_cll1,
                    max_fall: max_fall1,
                },
                ImageDescriptionContents::Parametric {
                    tf: tf2,
                    primaries: primaries2,
                    luminances: luminances2,
                    target_primaries: target_primaries2,
                    target_luminance: target_luminance2,
                    max_cll: max_cll2,
                    max_fall: max_fall2,
                },
            ) => {
                &&& tf1 == tf2
                &&& primaries1 == primaries2
                &&& luminances1 == luminances2
                &&& target_primaries1 == target_primaries2
                &&& target_luminance1 == target_luminance2
                &&& max_cll1 == max_cll2
                &&& max_fall1 == max_fall2
            },
            _ => false,
        },
{
}

/// Primaries, by coordinates or by name, are equal exactly where each part is.
pub proof fn equal_primaries_agree_in_every_part(
    a: ParametricPrimaries,
    b: ParametricPrimaries,
    n: Primaries,
    m: Primaries,
)
    ensures
        a.eq_spec(&b) <==> a.red == b.red && a.green == b.green && a.blue == b.blue && a.white
            == b.white,
        PrimariesEnum::Parametric(a).eq_spec(&PrimariesEnum::Parametric(b)) <==> a.eq_spec(&b),
        PrimariesEnum::Named(n).eq_spec(&PrimariesEnum::Named(m)) <==> n == m,
        !PrimariesEnum::Named(n).eq_spec(&PrimariesEnum::Parametric(a)),
{
}

/// Coordinates of three primaries and a white point, as a hasher is fed them.
pub type Coordinates = ((i32, i32), (i32, i32), (i32, i32), (i32, i32));

/// What a hasher is fed for coordinates.
pub open spec fn coordinates(p: ParametricPrimaries) -> Coordinates {
    (p.red, p.green, p.blue, p.white)
}

/// What a hasher is fed for a transfer function: which kind it is, then the code point or the
/// exponent.
pub open spec fn tf_key(tf: TransferFunctionEnum) -> (isize, u32) {
    match tf {
        TransferFunctionEnum::Named(name) => (0isize, name.code_spec()),
        TransferFunctionEnum::Power(exponent) => (1isize, exponent),
    }
}

/// What a hasher is fed for luminances.
pub open spec fn luminance_key(luminances: Option<Luminance>) -> Option<(u32, u32, u32)> {
    match luminances {
        None => None,
        Some(l) => Some((l.min, l.max, l.reference)),
    }
}

/// What a hasher is fed for the primaries of the mastering display.
pub open spec fn target_primaries_key(primaries: Option<ParametricPrimaries>) -> Option<
    Coordinates,
> {
    match primaries {
        None => None,
        Some(p) => Some(coordinates(p)),
    }
}

/// What a hasher is fed for the luminances of the mastering display.
pub open spec fn target_luminance_key(luminance: Option<MasteringLuminance>) -> Option<
    (u32, u32),
> {
    match luminance {
        None => None,
        Some(l) => Some((l.min, l.max)),
    }
}

fn coordinates_of(p: &ParametricPrimaries) -> (key: Coordinates)
    ensures
        key == coordinates(*p),
{
    (p.red, p.green, p.blue, p.white)
}

fn tf_key_of(tf: &TransferFunctionEnum) -> (key: (isize, u32))
    ensures
        key == tf_key(*tf),
{
    match tf {
        TransferFunctionEnum::Named(name) => (0, name.code()),
        TransferFunctionEnum::Power(exponent) => (1, *exponent),
    }
}

fn luminance_key_of(luminances: &Option<Luminance>) -> (key: Option<(u32, u32, u32)>)
    ensures
        key == luminance_key(*luminances),
{
    match luminances {
        None => None,
        Some(l) => Some((l.min, l.max, l.reference)),
    }
}

fn target_primaries_key_of(primaries: &Option<ParametricPrimaries>) -> (key: Option<Coordinates>)
    ensures
        key == target_primaries_key(*primaries),
{
    match primaries {
        None => None,
        Some(p) => Some(coordinates_of(p)),
    }
}

fn target_luminance_key_of(luminance: &Option<MasteringLuminance>) -> (key: Option<(u32, u32)>)
    ensures
        key == target_luminance_key(*luminance),
{
    match luminance {
        None => None,
        Some(l) => Some((l.min, l.max)),
    }
}

/// `step` feeds primaries: which kind they are, then the code point or the coordinates.
pub open spec fn fed_primaries<H: std::hash::Hasher>(
    primaries: PrimariesEnum,
    step: &mut H,
) -> bool {
    match primaries {
        PrimariesEnum::Named(name) => fed((0isize, name.code_spec()), step),
        PrimariesEnum::Parametric(p) => fed((1isize, coordinates(p)), step),
    }
}

/// `step` feeds the bytes of a profile.
pub open spec fn fed_profile<H: std::hash::Hasher>(data: Seq<u8>, step: &mut H) -> bool {
    exists|bytes: Vec<u8>| bytes@ == data && #[trigger] fed(bytes, step)
}

/// The `steps` feed a hasher the given contents: the bytes of a profile, or the parameters one
/// after the other. Nothing is fed that tells the two apart.
pub open spec fn fed_contents<H: std::hash::Hasher>(
    contents: ContentsModel,
    steps: Seq<&mut H>,
) -> bool {
    match contents {
        ContentsModel::Icc(data) => {
            &&& steps.len() == 1
            &&& fed_profile(data, steps[0])
        },
        ContentsModel::Parametric {
            tf,
            primaries,
            luminances,
            target_primaries,
            target_luminance,
            max_cll,
            max_fall,
        } => {
            &&& steps.len() == 7
            &&& fed(tf_key(tf), steps[0])
            &&& fed_primaries(primaries, steps[1])
            &&& fed(luminance_key(luminances), steps[2])
            &&& fed(target_primaries_key(target_primaries), steps[3])
            &&& fed(target_luminance_key(target_luminance), steps[4])
            &&& fed(max_cll, steps[5])
            &&& fed(max_fall, steps[6])
        },
    }
}

/// Equal contents feed a hasher the same values in the same order: whatever steps hash one of
/// them hash the other.
pub proof fn equal_contents_hash_alike<H: std::hash::Hasher>(
    a: ImageDescriptionContents,
    b: ImageDescriptionContents,
    steps: Seq<&mut H>,
)
    requires
        a.eq_spec(&b),
    ensures
        fed_contents(a@, steps) == fed_contents(b@, steps),
{
}

/// What is fed for a parameter tells it from every other value of that parameter.
pub proof fn keys_tell_parameters_apart(
    tf1: TransferFunctionEnum,
    tf2: TransferFunctionEnum,
    p1: ParametricPrimaries,
    p2: ParametricPrimaries,
    l1: Option<Luminance>,
    l2: Option<Luminance>,
    t1: Option<ParametricPrimaries>,
    t2: Option<ParametricPrimaries>,
    m1: Option<MasteringLuminance>,
    m2: Option<MasteringLuminance>,
)
    ensures
        tf_key(tf1) == tf_key(tf2) <==> tf1 == tf2,
        coordinates(p1) == coordinates(p2) <==> p1 == p2,
        luminance_key(l1) == luminance_key(l2) <==> l1 == l2,
        target_primaries_key(t1) == target_primaries_key(t2) <==> t1 == t2,
        target_luminance_key(m1) == target_luminance_key(m2) <==> m1 == m2,
{
    match (tf1, tf2) {
        (TransferFunctionEnum::Named(a), TransferFunctionEnum::Named(b)) => {
            if a.code_spec() == b.code_spec() {
                code_names_one_member(a, b);
            }
        },
        _ => {},
    }
}

/// `a` or `b`.
pub open spec fn pick<T>(first: bool, a: T, b: T) -> T {
    if first {
        a
    } else {
        b
    }
}

/// Each parameter is fed in a step of its own, at its place, whatever the others are: with one of
/// `b`'s parameters in the place of `a`'s, `b`'s step for it takes the place of `a`'s.
pub proof fn parameters_are_fed_at_their_places<H: std::hash::Hasher>(
    tf_a: TransferFunctionEnum,
    primaries_a: PrimariesEnum,
    luminances_a: Option<Luminance>,
    target_primaries_a: Option<ParametricPrimaries>,
    target_luminance_a: Option<MasteringLuminance>,
    max_cll_a: Option<u32>,
    max_fall_a: Option<u32>,
    steps_a: Seq<&mut H>,
    tf_b: TransferFunctionEnum,
    primaries_b: PrimariesEnum,
    luminances_b: Option<Luminance>,
    target_primaries_b: Option<ParametricPrimaries>,
    target_luminance_b: Option<MasteringLuminance>,
    max_cll_b: Option<u32>,
    max_fall_b: Option<u32>,
    steps_b: Seq<&mut H>,
    from_b: Seq<bool>,
    steps: Seq<&mut H>,
)
    requires
        fed_contents(
            (ContentsModel::Parametric {
                tf: tf_a,
                primaries: primaries_a,
                luminances: luminances_a,
                target_primaries: target_primaries_a,
                target_luminance: target_luminance_a,
                max_cll: max_cll_a,
                max_fall: max_fall_a,
            }),
            steps_a,
        ),
        fed_contents(
            (ContentsModel::Parametric {
                tf: tf_b,
                primaries: primaries_b,
                luminances: luminances_b,
                target_primaries: target_primaries_b,
                target_luminance: target_luminance_b,
                max_cll: max_cll_b,
                max_fall: max_fall_b,
            }),
            steps_b,
        ),
        steps.len() == 7,
        forall|i: int|
            0 <= i < 7 ==> #[trigger] steps[i] == pick(from_b[i], steps_b[i], steps_a[i]),
    ensures
        fed_contents(
            (ContentsModel::Parametric {
                tf: pick(from_b[0], tf_b, tf_a),
                primaries: pick(from_b[1], primaries_b, primaries_a),
                luminances: pick(from_b[2], luminances_b, luminances_a),
                target_primaries: pick(from_b[3], target_primaries_b, target_primaries_a),
                target_luminance: pick(from_b[4], target_luminance_b, target_luminance_a),
                max_cll: pick(from_b[5], max_cll_b, max_cll_a),
                max_fall: pick(from_b[6], max_fall_b, max_fall_a),
            }),
            steps,
        ),
{
    assert(steps[0] == pick(from_b[0], steps_b[0], steps_a[0]));
    assert(steps[1] == pick(from_b[1], steps_b[1], steps_a[1]));
    assert(steps[2] == pick(from_b[2], steps_b[2], steps_a[2]));
    assert(steps[3] == pick(from_b[3], steps_b[3], steps_a[3]));
    assert(steps[4] == pick(from_b[4], steps_b[4], steps_a[4]));
    assert(steps[5] == pick(from_b[5], steps_b[5], steps_a[5]));
    assert(steps[6] == pick(from_b[6], steps_b[6], steps_a[6]));
}

/// Light levels are fed as they are, and a profile as its bytes, in one step.
pub proof fn plain_parts_are_fed_as_they_are<H: std::hash::Hasher>(
    contents: ContentsModel,
    steps: Seq<&mut H>,
)
    requires
        fed_contents(contents, steps),
    ensures
        contents matches ContentsModel::Icc(data) ==> steps.len() == 1 && exists|bytes: Vec<u8>|
            bytes@ == data && #[trigger] fed(bytes, steps[0]),
        contents matches ContentsModel::Parametric { max_cll, max_fall, .. } ==> fed(
            max_cll,
            steps[5],
        ) && fed(max_fall, steps[6]),
{
}

/// Feeds primaries to a hasher, in one step.
fn feed_primaries_step<H: std::hash::Hasher>(primaries: &PrimariesEnum, state: &mut H)
    ensures
        exists|step: &mut H|
            {
                &&& *step == *old(state)
                &&& *final(step) == *final(state)
                &&& #[trigger] fed_primaries(*primaries, step)
            },
{
    match primaries {
        PrimariesEnum::Named(name) => {
            let key: (isize, u32) = (0, name.code());
            feed_step(&key, state);
            proof {
                let step = choose|step: &mut H|
                    {
                        &&& *step == *old(state)
                        &&& *final(step) == *state
                        &&& #[trigger] fed(key, step)
                    };
                assert(fed_primaries(*primaries, step));
            }
        },
        PrimariesEnum::Parametric(p) => {
            let key: (isize, Coordinates) = (1, coordinates_of(p));
            feed_step(&key, state);
            proof {
                let step = choose|step: &mut H|
                    {
                        &&& *step == *old(state)
                        &&& *final(step) == *state
                        &&& #[trigger] fed(key, step)
                    };
                assert(fed_primaries(*primaries, step));
            }
        },
    }
}

impl std::hash::Hash for ImageDescriptionContents {
    /// Feeds the bytes of a profile, or the parameters one after the other. Each step starts
    /// with the hasher that the one before it ended with.
    fn hash<H: std::hash::Hasher>(&self, state: &mut H)
        ensures
            exists|steps: Seq<&mut H>|
                {
                    &&& #[trigger] fed_contents(self@, steps)
                    &&& *steps[0] == *old(state)
                    &&& forall|i: int|
                        0 < i < steps.len() ==> *(#[trigger] steps[i]) == *final(steps[i - 1])
                    &&& *final(steps[steps.len() - 1]) == *final(state)
                },
    {
        let ghost h0 = *state;
        match self {
            ImageDescriptionContents::ICC(icc) => {
                feed_step(&icc.data, state);
                proof {
                    let s0 = choose|s: &mut H|
                        *s == h0 && *final(s) == *state && #[trigger] fed(icc.data, s);
                    let steps = seq![s0];
                    assert(fed_profile(icc@, steps[0]));
                    assert(fed_contents(self@, steps));
                }
            },
            ImageDescriptionContents::Parametric {
                tf,
                primaries,
                luminances,
                target_primaries,
                target_luminance,
                max_cll,
                max_fall,
            } => {
                feed_step(&tf_key_of(tf), state);
                let ghost h1 = *state;
                feed_primaries_step(primaries, state);
                let ghost h2 = *state;
                feed_step(&luminance_key_of(luminances), state);
                let ghost h3 = *state;
                feed_step(&target_primaries_key_of(target_primaries), state);
                let ghost h4 = *state;
                feed_step(&target_luminance_key_of(target_luminance), state);
                let ghost h5 = *state;
                feed_step(max_cll, state);
                let ghost h6 = *state;
                feed_step(max_fall, state);
                proof {
                    let s0 = choose|s: &mut H|
                        *s == h0 && *final(s) == h1 && #[trigger] fed(tf_key(*tf), s);
                    let s1 = choose|s: &mut H|
                        *s == h1 && *final(s) == h2 && #[trigger] fed_primaries(*primaries, s);
                    let s2 = choose|s: &mut H|
                        *s == h2 && *final(s) == h3 && #[trigger] fed(
                            luminance_key(*luminances),
                            s,
                        );
                    let s3 = choose|s: &mut H|
                        *s == h3 && *final(s) == h4 && #[trigger] fed(
                            target_primaries_key(*target_primaries),
                            s,
                        );
                    let s4 = choose|s: &mut H|
                        *s == h4 && *final(s) == h5 && #[trigger] fed(
                            target_luminance_key(*target_luminance),
                            s,
                        );
                    let s5 = choose|s: &mut H|
                        *s == h5 && *final(s) == h6 && #[trigger] fed(*max_cll, s);
                    let s6 = choose|s: &mut H|
                        *s == h6 && *final(s) == *state && #[trigger] fed(*max_fall, s);
                    let steps = seq![s0, s1, s2, s3, s4, s5, s6];
                    assert(fed_contents(self@, steps));
                }
            },
        }
    }
}

/// What the handles of one image description share.
#[derive(Debug)]
pub struct ImageDescriptionInternal<U> {
    id: u64,
    contents: ImageDescriptionContents,
    user_data: U,
}

/// A shared handle of an image description.
///
/// `U` is whatever the compositor wants to keep with a description. Links to a description are
/// made from the shared part.
#[derive(Debug)]
pub struct ImageDescription<U>(pub Arc<ImageDescriptionInternal<U>>);

impl<U> ImageDescription<U> {
    /// The number that tells this description from every other one.
    pub closed spec fn id_spec(&self) -> u64 {
        self.0.id
    }

    /// What the description says.
    pub closed spec fn contents_spec(&self) -> ContentsModel {
        self.0.contents@
    }

    /// What the compositor keeps with the description.
    pub closed spec fn user_data_spec(&self) -> U {
        self.0.user_data
    }

    /// The first handle of a new description.
    pub(crate) fn new(id: u64, contents: ImageDescriptionContents, user_data: U) -> (desc: Self)
        ensures
            desc.id_spec() == id,
            desc.contents_spec() == contents@,
            desc.user_data_spec() == user_data,
    {
        ImageDescription(Arc::new(ImageDescriptionInternal { id, contents, user_data }))
    }

    /// The number that tells this description from every other one.
    pub fn id(&self) -> (id: u64)
        ensures
            id == self.id_spec(),
    {
        self.0.id
    }

    /// What the description says.
    pub fn contents(&self) -> (contents: &ImageDescriptionContents)
        ensures
            contents@ == self.contents_spec(),
    {
        &self.0.contents
    }

    /// The bytes of the ICC profile, where the description has one.
    pub fn icc_profile(&self) -> (profile: Option<&[u8]>)
        ensures
            match self.contents_spec() {
                ContentsModel::Icc(data) => profile matches Some(bytes) && bytes@ == data,
                ContentsModel::Parametric { .. } => profile is None,
            },
    {
        match self.contents() {
            ImageDescriptionContents::ICC(icc) => Some(icc.as_ref()),
            ImageDescriptionContents::Parametric { .. } => None,
        }
    }

    /// What the compositor keeps with the description.
    pub fn user_data(&self) -> (user_data: &U)
        ensures
            *user_data == self.user_data_spec(),
    {
        &self.0.user_data
    }

    /// Whether both are the same description: it has one number, and says one thing.
    pub open spec fn same(&self, other: &Self) -> bool {
        &&& self.id_spec() == other.id_spec()
        &&& self.contents_spec() == other.contents_spec()
    }
}

impl<U> Clone for ImageDescription<U> {
    fn clone(&self) -> (handle: Self)
        ensures
            handle == *self,
    {
        ImageDescription(self.0.clone())
    }
}

impl<U> PartialEq for ImageDescription<U> {
    fn eq(&self, other: &Self) -> (same: bool) {
        self.0.id == other.0.id && self.0.contents == other.0.contents
    }
}

impl<U> vstd::std_specs::cmp::PartialEqSpecImpl for ImageDescription<U> {
    open spec fn obeys_eq_spec() -> bool {
        true
    }

    open spec fn eq_spec(&self, other: &Self) -> bool {
        self.same(other)
    }
}

/// Descriptions compare equal exactly where they have one number and say the same, and every
/// description equals itself.
pub proof fn equal_descriptions_say_the_same<U>(a: ImageDescription<U>, b: ImageDescription<U>)
    ensures
        a.eq_spec(&a),
        a.eq_spec(&b) <==> a.id_spec() == b.id_spec() && a.contents_spec() == b.contents_spec(),
{
}

} // verus!
