use std::collections::hash_map::DefaultHasher;
use std::hash::{Hash, Hasher};
use std::sync::{Arc, Weak};

use wayland_color::management::builder::{
    DescriptionError, IccFileReader, ImageDescriptionIccBuilder, ImageDescriptionParametricBuilder,
    READ_BUFFER_SIZE,
};
use wayland_color::management::description::{
    IccData, ImageDescription, ImageDescriptionContents, ImageDescriptionInternal, Luminance,
    MasteringLuminance, ParametricPrimaries, PrimariesEnum, TransferFunctionEnum,
};
use wayland_color::management::named::{Feature, Primaries, RenderIntent, TransferFunction};
use wayland_color::management::state::{ColorManagementState, ImageDescriptionIds};
use wayland_color::management::weak::WeakHandle;
use wayland_color::representation::named::{AlphaMode, Range};
use wayland_protocols::wp::color_management::v1::server::wp_color_manager_v1 as manager;

fn primaries(red_x: i32) -> ParametricPrimaries {
    ParametricPrimaries {
        red: (red_x, 330_000),
        green: (300_000, 600_000),
        blue: (150_000, 60_000),
        white: (312_700, 329_000),
    }
}

fn full() -> ImageDescriptionContents {
    ImageDescriptionContents::Parametric {
        tf: TransferFunctionEnum::Named(TransferFunction::St2084Pq),
        primaries: PrimariesEnum::Named(Primaries::Bt2020),
        luminances: Some(Luminance { min: 50, max: 10_000, reference: 203 }),
        target_primaries: Some(primaries(640_000)),
        target_luminance: Some(MasteringLuminance { min: 1, max: 1000 }),
        max_cll: Some(1000),
        max_fall: Some(400),
    }
}

fn plain(tf: u32) -> ImageDescriptionContents {
    ImageDescriptionContents::Parametric {
        tf: TransferFunctionEnum::Power(tf),
        primaries: PrimariesEnum::Parametric(primaries(640_000)),
        luminances: None,
        target_primaries: None,
        target_luminance: None,
        max_cll: None,
        max_fall: None,
    }
}

fn icc(bytes: &[u8]) -> ImageDescriptionContents {
    ImageDescriptionContents::ICC(IccData::new(bytes.to_vec()))
}

fn hash_of(contents: &ImageDescriptionContents) -> u64 {
    let mut hasher = DefaultHasher::new();
    contents.hash(&mut hasher);
    hasher.finish()
}

/// A link that does not keep the description it leads to.
#[derive(Debug)]
struct Link(Weak<ImageDescriptionInternal<Kept>>);

impl WeakHandle for Link {
    type UserData = Kept;

    fn downgrade(desc: &ImageDescription<Kept>) -> Self {
        Link(Arc::downgrade(&desc.0))
    }

    fn upgrade(&self) -> Option<ImageDescription<Kept>> {
        self.0.upgrade().map(ImageDescription)
    }
}

/// Says when it is dropped.
#[derive(Debug, Default)]
struct Kept {
    alive: Arc<()>,
}

fn state() -> ColorManagementState<Link> {
    ColorManagementState::new(
        vec![RenderIntent::Perceptual],
        vec![Feature::Parametric],
        vec![TransferFunction::Srgb],
        vec![Primaries::Srgb],
    )
}

#[test]
fn contents_are_compared_by_value() {
    assert!(full() == full());
    assert!(plain(22_000) == plain(22_000));
    assert!(plain(22_000) != plain(24_000));
    assert!(plain(22_000) != full());
    assert!(icc(&[1, 2, 3]) == icc(&[1, 2, 3]));
    assert!(icc(&[1, 2, 3]) != icc(&[1, 2]));
    assert!(icc(&[1, 2, 3]) != icc(&[1, 2, 4]));
    assert!(icc(&[]) != plain(22_000));
    assert!(full().clone() == full());
    assert!(icc(&[7]).clone() == icc(&[7]));
}

#[test]
fn each_parameter_counts_in_a_comparison() {
    let change = |f: &dyn Fn(&mut ImageDescriptionContents)| {
        let mut changed = full();
        f(&mut changed);
        assert!(changed != full());
        assert_ne!(hash_of(&changed), hash_of(&full()));
    };
    change(&|c| {
        if let ImageDescriptionContents::Parametric { tf, .. } = c {
            *tf = TransferFunctionEnum::Power(11);
        }
    });
    change(&|c| {
        if let ImageDescriptionContents::Parametric { primaries: p, .. } = c {
            *p = PrimariesEnum::Parametric(primaries(1));
        }
    });
    change(&|c| {
        if let ImageDescriptionContents::Parametric { luminances, .. } = c {
            *luminances = None;
        }
    });
    change(&|c| {
        if let ImageDescriptionContents::Parametric { target_primaries, .. } = c {
            *target_primaries = Some(primaries(-1));
        }
    });
    change(&|c| {
        if let ImageDescriptionContents::Parametric { target_luminance, .. } = c {
            *target_luminance = Some(MasteringLuminance { min: 1, max: 1001 });
        }
    });
    change(&|c| {
        if let ImageDescriptionContents::Parametric { max_cll, .. } = c {
            *max_cll = None;
        }
    });
    change(&|c| {
        if let ImageDescriptionContents::Parametric { max_fall, .. } = c {
            *max_fall = Some(401);
        }
    });
}

#[test]
fn equal_contents_hash_alike() {
    assert_eq!(hash_of(&full()), hash_of(&full()));
    assert_eq!(hash_of(&icc(&[1, 2, 3])), hash_of(&icc(&[1, 2, 3])));
    assert_ne!(hash_of(&icc(&[1, 2, 3])), hash_of(&icc(&[1, 2, 4])));
    assert_ne!(hash_of(&plain(22_000)), hash_of(&plain(24_000)));
    let mut bytes = DefaultHasher::new();
    vec![1u8, 2, 3].hash(&mut bytes);
    assert_eq!(hash_of(&icc(&[1, 2, 3])), bytes.finish());
}

/// Writes down what a hasher is fed.
#[derive(Debug, Default, PartialEq)]
struct Recorder {
    writes: Vec<String>,
}

impl Hasher for Recorder {
    fn finish(&self) -> u64 {
        0
    }

    fn write(&mut self, bytes: &[u8]) {
        self.writes.push(format!("bytes {:?}", bytes));
    }

    fn write_u32(&mut self, i: u32) {
        self.writes.push(format!("u32 {}", i));
    }

    fn write_i32(&mut self, i: i32) {
        self.writes.push(format!("i32 {}", i));
    }

    fn write_usize(&mut self, i: usize) {
        self.writes.push(format!("usize {}", i));
    }

    fn write_isize(&mut self, i: isize) {
        self.writes.push(format!("isize {}", i));
    }
}

fn recorded(value: &impl Hash) -> Recorder {
    let mut recorder = Recorder::default();
    value.hash(&mut recorder);
    recorder
}

#[derive(Hash)]
enum PlainTf {
    Named(manager::TransferFunction),
    Power(u32),
}

#[derive(Hash)]
struct PlainCoordinates {
    red: (i32, i32),
    green: (i32, i32),
    blue: (i32, i32),
    white: (i32, i32),
}

#[derive(Hash)]
enum PlainPrimaries {
    Named(manager::Primaries),
    Parametric(PlainCoordinates),
}

#[derive(Hash)]
struct PlainLuminance {
    min: u32,
    max: u32,
    reference: u32,
}

#[derive(Hash)]
struct PlainMasteringLuminance {
    min: u32,
    max: u32,
}

fn plain_coordinates(p: ParametricPrimaries) -> PlainCoordinates {
    PlainCoordinates { red: p.red, green: p.green, blue: p.blue, white: p.white }
}

#[test]
fn hashers_are_fed_the_parameters_in_turn() {
    let mut expected = Recorder::default();
    PlainTf::Named(manager::TransferFunction::St2084Pq).hash(&mut expected);
    PlainPrimaries::Named(manager::Primaries::Bt2020).hash(&mut expected);
    Some(PlainLuminance { min: 50, max: 10_000, reference: 203 }).hash(&mut expected);
    Some(plain_coordinates(primaries(640_000))).hash(&mut expected);
    Some(PlainMasteringLuminance { min: 1, max: 1000 }).hash(&mut expected);
    Some(1000u32).hash(&mut expected);
    Some(400u32).hash(&mut expected);
    assert_eq!(recorded(&full()), expected);
    assert_eq!(expected.writes[..4], ["isize 0", "u32 11", "isize 0", "u32 6"]);

    let mut expected = Recorder::default();
    PlainTf::Power(22_000).hash(&mut expected);
    PlainPrimaries::Parametric(plain_coordinates(primaries(-5))).hash(&mut expected);
    None::<PlainLuminance>.hash(&mut expected);
    None::<PlainCoordinates>.hash(&mut expected);
    None::<PlainMasteringLuminance>.hash(&mut expected);
    None::<u32>.hash(&mut expected);
    None::<u32>.hash(&mut expected);
    let mut contents = plain(22_000);
    if let ImageDescriptionContents::Parametric { primaries: p, .. } = &mut contents {
        *p = PrimariesEnum::Parametric(primaries(-5));
    }
    assert_eq!(recorded(&contents), expected);
}

#[test]
fn hashers_are_fed_code_points() {
    assert_eq!(recorded(&Feature::SetTfPower), recorded(&manager::Feature::SetTfPower));
    assert_eq!(recorded(&RenderIntent::Absolute), recorded(&manager::RenderIntent::Absolute));
    assert_eq!(recorded(&AlphaMode::Straight).writes, ["u32 2"]);
    assert_eq!(recorded(&Range::Full).writes, ["u32 1"]);
    assert_eq!(
        recorded(&TransferFunctionEnum::Named(TransferFunction::Hlg)),
        recorded(&PlainTf::Named(manager::TransferFunction::Hlg))
    );
    assert_eq!(
        recorded(&PrimariesEnum::Named(Primaries::Pal)),
        recorded(&PlainPrimaries::Named(manager::Primaries::Pal))
    );
}

#[test]
fn hashers_are_fed_the_bytes_of_a_profile() {
    assert_eq!(recorded(&icc(&[4, 5])), recorded(&vec![4u8, 5]));
    assert_ne!(recorded(&icc(&[4, 5])), recorded(&icc(&[4])));
}

#[test]
fn profile_bytes_can_be_read() {
    let data = IccData::new(vec![9, 8, 7]);
    assert_eq!(data.as_ref(), &[9u8, 8, 7]);
}

#[test]
fn live_description_is_shared() {
    let mut ids = ImageDescriptionIds::new();
    let mut state = state();
    let first = state.build_description(&mut ids, full());
    let second = state.build_description(&mut ids, full());
    assert_eq!(first.id(), 1);
    assert_eq!(second.id(), 1);
    assert!(first == second);
    assert!(*first.contents() == full());
    let other = state.build_description(&mut ids, plain(22_000));
    assert_eq!(other.id(), 2);
    assert!(other != first);
    assert_eq!(Arc::strong_count(&other.user_data().alive), 1);
}

#[test]
fn dead_description_is_remade() {
    let mut ids = ImageDescriptionIds::new();
    let mut state = state();
    let first = state.build_description(&mut ids, full());
    assert_eq!(first.id(), 1);
    let copy = first.clone();
    drop(first);
    assert_eq!(state.build_description(&mut ids, full()).id(), 1);
    drop(copy);
    assert_eq!(state.build_description(&mut ids, full()).id(), 2);
}

#[test]
fn destroyed_description_is_forgotten() {
    let mut ids = ImageDescriptionIds::new();
    let mut state = state();
    let first = state.build_description(&mut ids, full());
    let other = state.build_description(&mut ids, icc(&[1]));
    state.description_destroyed(&first);
    let again = state.build_description(&mut ids, full());
    assert_eq!(again.id(), 3);
    assert!(again != first);
    assert_eq!(state.build_description(&mut ids, icc(&[1])).id(), other.id());
}

#[test]
fn dead_description_lets_go_of_its_user_data() {
    let mut ids = ImageDescriptionIds::new();
    let mut state = state();
    let desc = state.build_description(&mut ids, full());
    let alive = Arc::downgrade(&desc.user_data().alive);
    let copy = state.build_description(&mut ids, full());
    drop(desc);
    assert!(alive.upgrade().is_some());
    drop(copy);
    assert!(alive.upgrade().is_none());
}

#[test]
fn what_a_link_gives_decides() {
    let mut ids = ImageDescriptionIds::new();
    let mut state = state();
    let a = state.build_with_found(&mut ids, full(), None);
    assert_eq!(a.id(), 1);
    assert_eq!(state.build_with_found(&mut ids, full(), Some(a.clone())).id(), 1);
    let a2 = state.build_with_found(&mut ids, full(), None);
    assert_eq!(a2.id(), 2);
    let b = state.build_with_found(&mut ids, icc(&[1]), Some(a.clone()));
    assert_eq!(b.id(), 3);
    let a3 = state.build_with_found(&mut ids, full(), Some(a.clone()));
    assert_eq!(a3.id(), 4);
    state.retain_with_found(&a, &vec![None, Some(b.clone())]);
    assert_eq!(state.build_with_found(&mut ids, icc(&[1]), Some(b.clone())).id(), 3);
    let a4 = state.build_with_found(&mut ids, full(), Some(a3));
    assert_eq!(a4.id(), 5);
    state.retain_with_found(&b, &vec![Some(b.clone()), Some(a4.clone())]);
    assert_eq!(state.build_with_found(&mut ids, full(), Some(a4)).id(), 5);
    assert_eq!(state.build_with_found(&mut ids, icc(&[1]), Some(b)).id(), 6);
}

#[test]
fn numbers_rise_over_all_managers() {
    let mut ids = ImageDescriptionIds::new();
    let mut a = state();
    let mut b = state();
    let first = a.build_description(&mut ids, full());
    let second = b.build_description(&mut ids, full());
    let third = a.build_description(&mut ids, icc(&[1]));
    assert_eq!((first.id(), second.id(), third.id()), (1, 2, 3));
    assert!(first != second);
    assert!(first == first.clone());
}

#[test]
fn descriptions_are_shared_whatever_is_built_between() {
    let mut ids = ImageDescriptionIds::new();
    let mut state = state();
    let first = state.build_description(&mut ids, full());
    let others: Vec<u64> =
        (0..3u8).map(|i| state.build_description(&mut ids, icc(&[i])).id()).collect();
    assert_eq!(others, vec![2, 3, 4]);
    assert!(state.build_description(&mut ids, full()) == first);
}

#[test]
fn destroyed_descriptions_do_not_come_back() {
    let mut ids = ImageDescriptionIds::new();
    let mut state = state();
    let first = state.build_description(&mut ids, full());
    state.description_destroyed(&first);
    let second = state.build_description(&mut ids, full());
    state.description_destroyed(&first);
    let third = state.build_description(&mut ids, full());
    assert_eq!(second.id(), 2);
    assert!(third == second);
    assert!(third != first);
    assert!(*third.contents() == *first.contents());
}

#[test]
fn equal_descriptions_say_the_same() {
    let a = state().build_description(&mut ImageDescriptionIds::new(), full());
    let b = state().build_description(&mut ImageDescriptionIds::new(), icc(&[1]));
    assert_eq!(a.id(), b.id());
    assert!(a != b);
}

#[test]
fn builder_errors_build_nothing() {
    let mut ids = ImageDescriptionIds::new();
    let mut state = state();
    assert!(matches!(
        state.build_description_internal(&mut ids, Err(DescriptionError::IncompleteSet)),
        Err(DescriptionError::IncompleteSet)
    ));
    assert!(matches!(
        state.build_description_internal(&mut ids, Err(DescriptionError::InconsistentSet)),
        Err(DescriptionError::InconsistentSet)
    ));
    assert_eq!(state.build_description_internal(&mut ids, Ok(full())).unwrap().id(), 1);
}

#[test]
fn errors_have_words() {
    assert_eq!(DescriptionError::IncompleteSet.message(), "incomplete parameter set");
    assert_eq!(DescriptionError::InconsistentSet.message(), "invalid combination of parameters");
}

#[test]
fn icc_builder_needs_a_profile() {
    assert!(matches!(
        ImageDescriptionIccBuilder::default().try_into(),
        Err(DescriptionError::IncompleteSet)
    ));
    let mut builder = ImageDescriptionIccBuilder::default();
    assert!(!builder.with_data(&[1, 2]));
    assert!(builder.with_data(&[3]));
    assert!(builder.try_into().unwrap() == icc(&[3]));
}

#[test]
fn icc_builder_takes_files() {
    let mut builder = ImageDescriptionIccBuilder::default();
    assert_eq!(builder.with_file::<u8>(Err(7)), Err(7));
    let mut reader = IccFileReader::new(3);
    reader.feed::<()>(&[5; READ_BUFFER_SIZE], Ok(10));
    assert!(reader.is_done());
    assert_eq!(builder.with_file::<u8>(Ok(reader)), Ok(false));
    assert_eq!(builder.with_file::<u8>(Ok(IccFileReader::new(0))), Ok(true));
    assert!(builder.try_into().unwrap() == icc(&[]));
}

#[test]
fn full_reads_give_the_file() {
    let file: Vec<u8> = (0..10_000u32).map(|i| (i % 251) as u8).collect();
    let len = 9_000;
    let mut reader = IccFileReader::new(len);
    let mut buf = [0u8; READ_BUFFER_SIZE];
    let mut pos = 0;
    while !reader.is_done() {
        let size = std::cmp::min(READ_BUFFER_SIZE, file.len() - pos);
        buf[..size].copy_from_slice(&file[pos..pos + size]);
        assert!(!reader.is_overrun());
        reader.feed::<()>(&buf, Ok(size));
        pos += size;
    }
    let mut builder = ImageDescriptionIccBuilder::default();
    assert_eq!(builder.with_file::<()>(Ok(reader)), Ok(false));
    assert!(builder.try_into().unwrap() == icc(&file[..len]));
}

#[test]
fn short_reads_add_the_whole_buffer() {
    let mut reader = IccFileReader::new(5_000);
    reader.feed::<()>(&[1; READ_BUFFER_SIZE], Ok(10));
    assert!(!reader.is_done());
    assert!(!reader.is_overrun());
    reader.feed::<()>(&[2; READ_BUFFER_SIZE], Ok(10));
    assert!(!reader.is_done());
    assert!(reader.is_overrun());
    let mut builder = ImageDescriptionIccBuilder::default();
    assert_eq!(builder.with_file::<()>(Ok(reader)), Ok(false));
    let mut expected = vec![1; READ_BUFFER_SIZE];
    expected.extend_from_slice(&[2; READ_BUFFER_SIZE]);
    assert!(builder.try_into().unwrap() == icc(&expected));
}

#[test]
fn failed_reads_end_the_reading() {
    let mut reader = IccFileReader::new(5_000);
    reader.feed::<u8>(&[1; READ_BUFFER_SIZE], Ok(READ_BUFFER_SIZE));
    assert!(!reader.is_done());
    reader.feed(&[2; READ_BUFFER_SIZE], Err(7u8));
    assert!(reader.is_done());
    let mut builder = ImageDescriptionIccBuilder::default();
    assert_eq!(builder.with_file::<()>(Ok(reader)), Ok(false));
    assert!(builder.try_into().unwrap() == icc(&[1; READ_BUFFER_SIZE]));
}

#[test]
fn parametric_builder_needs_tf_and_primaries() {
    let mut builder = ImageDescriptionParametricBuilder::default();
    assert!(!builder.set_tf(TransferFunctionEnum::Named(TransferFunction::Srgb)));
    assert!(matches!(builder.try_into(), Err(DescriptionError::IncompleteSet)));
    let mut builder = ImageDescriptionParametricBuilder::default();
    assert!(!builder.set_primaries(PrimariesEnum::Named(Primaries::Srgb)));
    assert!(matches!(builder.try_into(), Err(DescriptionError::IncompleteSet)));
}

#[test]
fn parametric_builder_says_what_was_set() {
    let mut b = ImageDescriptionParametricBuilder::default();
    assert!(!b.set_tf(TransferFunctionEnum::Power(22_000)));
    assert!(b.set_tf(TransferFunctionEnum::Named(TransferFunction::St2084Pq)));
    assert!(!b.set_primaries(PrimariesEnum::Parametric(primaries(0))));
    assert!(b.set_primaries(PrimariesEnum::Named(Primaries::Bt2020)));
    assert!(!b.set_target_primaries(primaries(0)));
    assert!(b.set_target_primaries(primaries(640_000)));
    assert!(!b.set_target_luminance(MasteringLuminance { min: 0, max: 1 }));
    assert!(b.set_target_luminance(MasteringLuminance { min: 1, max: 1000 }));
    assert!(!b.set_luminances(Luminance { min: 0, max: 1, reference: 1 }));
    assert!(b.set_luminances(Luminance { min: 50, max: 10_000, reference: 203 }));
    assert!(!b.set_max_cll(1));
    assert!(b.set_max_cll(1000));
    assert!(!b.set_max_fall(1));
    assert!(b.set_max_fall(400));
    assert!(b.try_into().unwrap() == full());
}
