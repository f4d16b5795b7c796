//! The builders that creators of image descriptions fill, and what they build.

use vstd::prelude::*;

use crate::management::description::{
    ContentsModel, IccData, ImageDescriptionContents, Luminance, MasteringLuminance,
    ParametricPrimaries, PrimariesEnum, TransferFunctionEnum,
};

verus! {

/// Why no image description can be built.
#[derive(Debug, Clone, Copy, PartialEq, Eq, Structural)]
pub enum DescriptionError {
    IncompleteSet,
    InconsistentSet,
}

impl DescriptionError {
    /// The error in words.
    pub open spec fn message_spec(self) -> &'static str {
        match self {
            DescriptionError::IncompleteSet => "incomplete parameter set",
            DescriptionError::InconsistentSet => "invalid combination of parameters",
        }
    }

    /// The error in words.
    pub fn message(self) -> (message: &'static str)
        ensures
            message == self.message_spec(),
    {
        match self {
            DescriptionError::IncompleteSet => "incomplete parameter set",
            DescriptionError::InconsistentSet => "invalid combination of parameters",
        }
    }
}

/// The size of the buffer through which a profile is read.
pub const READ_BUFFER_SIZE: usize = 4096;

/// Profiles are read four kibibytes at a time.
pub proof fn profiles_are_read_in_pages()
    ensures
        READ_BUFFER_SIZE == 4 * 1024,
{
}

/// What has been read of a profile, and whether it is all.
pub struct ReadProgress {
    pub data: Seq<u8>,
    pub done: bool,
}

/// The progress after one read into `buf`, with `data` read before and `len` bytes wanted. `size`
/// is how many bytes the read gave, unless it failed. A read that leaves something wanted adds
/// the whole buffer. One that failed adds nothing, and is the last.
pub open spec fn absorb(data: Seq<u8>, len: nat, buf: Seq<u8>, size: Option<nat>) -> ReadProgress {
    match size {
        None => ReadProgress { data, done: true },
        Some(size) => if data.len() + size >= len {
            ReadProgress { data: data + buf.take(len - data.len()), done: true }
        } else {
            ReadProgress { data: data + buf, done: false }
        },
    }
}

/// The progress after the `reads` (buffer and size) that follow on `data`, up to the one that
/// is the last.
pub open spec fn absorb_all(
    data: Seq<u8>,
    len: nat,
    reads: Seq<(Seq<u8>, Option<nat>)>,
) -> ReadProgress
    decreases reads.len(),
{
    if reads.len() == 0 {
        ReadProgress { data, done: false }
    } else {
        let step = absorb(data, len, reads[0].0, reads[0].1);
        if step.done {
            step
        } else {
            absorb_all(step.data, len, reads.drop_first())
        }
    }
}

/// A read takes nothing away of what was read before. One that leaves something wanted adds the
/// whole buffer, however little it gave; the one that completes what is wanted adds the first
/// bytes of the buffer, up to exactly the length that is wanted; one that fails adds nothing.
pub proof fn reads_only_add(data: Seq<u8>, len: nat, buf: Seq<u8>, size: nat)
    requires
        data.len() <= len,
        size <= buf.len(),
    ensures
        ({
            let after = absorb(data, len, buf, Some(size));
            &&& data.is_prefix_of(after.data)
            &&& after.done <==> data.len() + size >= len
            &&& after.done ==> after.data.len() == len
            &&& after.done ==> after.data.skip(data.len() as int).is_prefix_of(buf)
            &&& !after.done ==> after.data.skip(data.len() as int) == buf
        }),
        absorb(data, len, buf, None).data == data,
        absorb(data, len, buf, None).done,
{
    let after = absorb(data, len, buf, Some(size)).data;
    if data.len() + size >= len {
        assert(after.skip(data.len() as int) =~= buf.take(len - data.len()));
    } else {
        assert(after.skip(data.len() as int) =~= buf);
    }
}

/// Reads can be taken in one after the other or in groups.
pub proof fn reading_goes_read_by_read(
    data: Seq<u8>,
    len: nat,
    first: Seq<(Seq<u8>, Option<nat>)>,
    second: Seq<(Seq<u8>, Option<nat>)>,
)
    ensures
        ({
            let before = absorb_all(data, len, first);
            absorb_all(data, len, first + second) == if before.done {
                before
            } else {
                absorb_all(before.data, len, second)
            }
        }),
    decreases first.len(),
{
    if first.len() == 0 {
        assert(first + second =~= second);
    } else {
        let step = absorb(data, len, first[0].0, first[0].1);
        assert((first + second)[0] == first[0]);
        assert((first + second).drop_first() =~= first.drop_first() + second);
        reading_goes_read_by_read(step.data, len, first.drop_first(), second);
    }
}

/// A read that fails ends the reading: what was read before is the profile, whatever could have
/// been read after.
pub proof fn failed_read_ends_reading(
    data: Seq<u8>,
    len: nat,
    reads: Seq<(Seq<u8>, Option<nat>)>,
    buf: Seq<u8>,
    later: Seq<(Seq<u8>, Option<nat>)>,
)
    requires
        !absorb_all(data, len, reads).done,
    ensures
        absorb_all(data, len, reads.push((buf, None)) + later) == (ReadProgress {
            data: absorb_all(data, len, reads).data,
            done: true,
        }),
    decreases reads.len(),
{
    let all = reads.push((buf, None)) + later;
    if reads.len() > 0 {
        let step = absorb(data, len, reads[0].0, reads[0].1);
        assert(all[0] == reads[0]);
        assert(all.drop_first() =~= reads.drop_first().push((buf, None)) + later);
        failed_read_ends_reading(step.data, len, reads.drop_first(), buf, later);
    } else {
        assert(all[0] == (buf, None::<nat>));
    }
}

/// The read of `file` at `pos` that fills as much of the buffer as the file has bytes for.
pub open spec fn is_full_read(file: Seq<u8>, pos: int, buf: Seq<u8>, size: Option<nat>) -> bool {
    &&& buf.len() == READ_BUFFER_SIZE
    &&& size matches Some(size)
    &&& size == if file.len() - pos < READ_BUFFER_SIZE {
        file.len() - pos
    } else {
        READ_BUFFER_SIZE as int
    }
    &&& buf.take(size as int) == file.subrange(pos, pos + size)
}

/// Where each read fills the buffer as far as the file goes, and the file has `len` bytes, what
/// is read is the first `len` bytes of the file.
pub proof fn full_reads_give_the_file(
    file: Seq<u8>,
    len: nat,
    reads: Seq<(Seq<u8>, Option<nat>)>,
)
    requires
        len <= file.len(),
        len <= READ_BUFFER_SIZE * reads.len(),
        reads.len() > 0,
        forall|i: int|
            0 <= i < reads.len() && READ_BUFFER_SIZE * i <= len ==> is_full_read(
                file,
                READ_BUFFER_SIZE * i,
                #[trigger] reads[i].0,
                reads[i].1,
            ),
    ensures
        absorb_all(Seq::empty(), len, reads).done,
        absorb_all(Seq::empty(), len, reads).data == file.take(len as int),
{
    assert(file.take(0) =~= Seq::empty());
    full_reads_go_on(file, len, reads, 0);
    assert(reads.skip(0) =~= reads);
}

proof fn full_reads_go_on(
    file: Seq<u8>,
    len: nat,
    reads: Seq<(Seq<u8>, Option<nat>)>,
    k: int,
)
    requires
        len <= file.len(),
        len <= READ_BUFFER_SIZE * reads.len(),
        0 <= k < reads.len(),
        READ_BUFFER_SIZE * k <= len,
        forall|i: int|
            0 <= i < reads.len() && READ_BUFFER_SIZE * i <= len ==> is_full_read(
                file,
                READ_BUFFER_SIZE * i,
                #[trigger] reads[i].0,
                reads[i].1,
            ),
    ensures
        absorb_all(file.take(READ_BUFFER_SIZE * k), len, reads.skip(k)).done,
        absorb_all(file.take(READ_BUFFER_SIZE * k), len, reads.skip(k)).data == file.take(
            len as int,
        ),
    decreases reads.len() - k,
{
    let pos = READ_BUFFER_SIZE * k;
    let data = file.take(pos);
    let buf = reads[k].0;
    assert(is_full_read(file, pos, buf, reads[k].1));
    let size = reads[k].1->Some_0;
    assert(reads.skip(k)[0] == reads[k]);
    if pos + size >= len {
        let rest = len - pos;
        assert(buf.take(rest) =~= buf.take(size as int).take(rest));
        assert(data + buf.take(rest) =~= file.take(len as int));
    } else {
        assert(size == READ_BUFFER_SIZE);
        assert(buf =~= buf.take(size as int));
        assert(data + buf =~= file.take(READ_BUFFER_SIZE * (k + 1)));
        assert(reads.skip(k).drop_first() =~= reads.skip(k + 1));
        full_reads_go_on(file, len, reads, k + 1);
    }
}

/// Collects the bytes of a profile, read by read.
#[derive(Debug)]
pub struct IccFileReader {
    data: Vec<u8>,
    len: usize,
    done: bool,
}

impl IccFileReader {
    /// What has been read.
    pub closed spec fn data_spec(&self) -> Seq<u8> {
        self.data@
    }

    /// How many bytes are wanted.
    pub closed spec fn len_spec(&self) -> usize {
        self.len
    }

    /// Whether the last read has been seen.
    pub closed spec fn done_spec(&self) -> bool {
        self.done
    }

    /// Whether more than was wanted has been added: a short read adds the whole buffer.
    pub open spec fn overrun_spec(&self) -> bool {
        self.data_spec().len() > self.len_spec()
    }

    /// A reader that wants `len` bytes.
    pub fn new(len: usize) -> (reader: Self)
        requires
            len <= isize::MAX,
        ensures
            reader.data_spec() == Seq::<u8>::empty(),
            reader.len_spec() == len,
            !reader.done_spec(),
    {
        IccFileReader { data: Vec::with_capacity(len), len, done: false }
    }

    /// Whether the last read has been seen.
    pub fn is_done(&self) -> (done: bool)
        ensures
            done == self.done_spec(),
    {
        self.done
    }

    /// Whether more than was wanted has been added.
    pub fn is_overrun(&self) -> (overrun: bool)
        ensures
            overrun == self.overrun_spec(),
    {
        self.data.len() > self.len
    }

    /// Takes in the outcome of one read into `buf`: how many bytes it gave, or that it failed.
    pub fn feed<E>(&mut self, buf: &[u8], read: Result<usize, E>)
        requires
            buf@.len() == READ_BUFFER_SIZE,
            !old(self).done_spec(),
            read matches Ok(size) ==> size <= buf@.len() && !old(self).overrun_spec(),
        ensures
            final(self).len_spec() == old(self).len_spec(),
            (ReadProgress { data: final(self).data_spec(), done: final(self).done_spec() })
                == absorb(
                old(self).data_spec(),
                old(self).len_spec() as nat,
                buf@,
                match read {
                    Ok(size) => Some(size as nat),
                    Err(_) => None,
                },
            ),
            read is Ok && final(self).done_spec() ==> final(self).data_spec().len()
                == final(self).len_spec(),
    {
        let ghost before = self.data@;
        let size: usize = match read {
            Ok(size) => size,
            Err(_) => {
                self.done = true;
                return;
            },
        };
        let rest: usize = self.len - self.data.len();
        if size >= rest {
            let head = vstd::slice::slice_subrange(buf, 0, rest);
            self.data.extend_from_slice(head);
            self.done = true;
            assert(self.data@ =~= before + buf@.take(rest as int));
        } else {
            self.data.extend_from_slice(buf);
            assert(self.data@ =~= before + buf@);
        }
    }
}

/// Builds an image description from an ICC profile.
#[derive(Debug)]
pub struct ImageDescriptionIccBuilder {
    data: Option<Vec<u8>>,
}

impl View for ImageDescriptionIccBuilder {
    type V = Option<Seq<u8>>;

    closed spec fn view(&self) -> Option<Seq<u8>> {
        match self.data {
            None => None,
            Some(data) => Some(data@),
        }
    }
}

impl Default for ImageDescriptionIccBuilder {
    fn default() -> (builder: Self)
        ensures
            builder@ is None,
    {
        ImageDescriptionIccBuilder { data: None }
    }
}

/// What an ICC builder with this profile builds.
pub open spec fn icc_contents(profile: Option<Seq<u8>>) -> Result<ContentsModel, DescriptionError> {
    match profile {
        None => Err(DescriptionError::IncompleteSet),
        Some(data) => Ok(ContentsModel::Icc(data)),
    }
}

/// What is built holds the profile that was given, byte for byte, and without one nothing is.
pub proof fn built_profile_is_the_one_given(profile: Option<Seq<u8>>)
    ensures
        profile is Some <==> icc_contents(profile) is Ok,
        icc_contents(profile) matches Ok(contents) ==> (contents matches ContentsModel::Icc(data)
            && profile == Some(data)),
        icc_contents(profile) matches Err(error) ==> error == DescriptionError::IncompleteSet,
{
}

/// The value of what a builder built.
pub open spec fn built_model(
    built: Result<ImageDescriptionContents, DescriptionError>,
) -> Result<ContentsModel, DescriptionError> {
    match built {
        Ok(contents) => Ok(contents@),
        Err(error) => Err(error),
    }
}

impl ImageDescriptionIccBuilder {
    /// Sets the profile, and says whether there was one before.
    pub fn with_data(&mut self, data: &[u8]) -> (was_set: bool)
        ensures
            final(self)@ == Some(data@),
            was_set == old(self)@ is Some,
    {
        let was_set = self.data.is_some();
        let mut bytes: Vec<u8> = Vec::new();
        bytes.extend_from_slice(data);
        assert(bytes@ =~= data@);
        self.data = Some(bytes);
        was_set
    }

    /// Sets the profile to what was read of a file, and says whether there was one before.
    /// A file that could not be read changes nothing.
    pub fn with_file<E>(&mut self, file: Result<IccFileReader, E>) -> (was_set: Result<bool, E>)
        ensures
            match file {
                Ok(reader) => {
                    &&& was_set matches Ok(w) && w == old(self)@ is Some
                    &&& final(self)@ == Some(reader.data_spec())
                },
                Err(error) => {
                    &&& was_set matches Err(e) && e == error
                    &&& final(self)@ == old(self)@
                },
            },
    {
        match file {
            Ok(reader) => {
                let was_set = self.data.is_some();
                self.data = Some(reader.data);
                Ok(was_set)
            },
            Err(error) => Err(error),
        }
    }

    /// Builds the contents of the description.
    pub fn try_into(self) -> (built: Result<ImageDescriptionContents, DescriptionError>)
        ensures
            built_model(built) == icc_contents(self@),
    {
        match self.data {
            None => Err(DescriptionError::IncompleteSet),
            Some(data) => Ok(ImageDescriptionContents::ICC(IccData::new(data))),
        }
    }
}

/// The parameters that a parametric builder has been given.
pub struct Parameters {
    pub tf: Option<TransferFunctionEnum>,
    pub primaries: Option<PrimariesEnum>,
    pub luminances: Option<Luminance>,
    pub target_primaries: Option<ParametricPrimaries>,
    pub target_luminance: Option<MasteringLuminance>,
    pub max_cll: Option<u32>,
    pub max_fall: Option<u32>,
}

impl Parameters {
    /// Nothing given yet.
    pub open spec fn none() -> Self {
        Parameters {
            tf: None,
            primaries: None,
            luminances: None,
            target_primaries: None,
            target_luminance: None,
            max_cll: None,
            max_fall: None,
        }
    }
}

/// What a parametric builder with these parameters builds.
pub open spec fn parametric_contents(p: Parameters) -> Result<ContentsModel, DescriptionError> {
    match (p.tf, p.primaries) {
        (Some(tf), Some(primaries)) => Ok(
            ContentsModel::Parametric {
                tf,
                primaries,
                luminances: p.luminances,
                target_primaries: p.target_primaries,
                target_luminance: p.target_luminance,
                max_cll: p.max_cll,
                max_fall: p.max_fall,
            },
        ),
        _ => Err(DescriptionError::IncompleteSet),
    }
}

/// What is built says exactly what was given, parameter by parameter.
pub proof fn built_parameters_are_those_given(p: Parameters)
    ensures
        parametric_contents(p) is Ok <==> p.tf is Some && p.primaries is Some,
        parametric_contents(p) matches Err(error) ==> error == DescriptionError::IncompleteSet,
        parametric_contents(p) matches Ok(contents) ==> (contents matches
            ContentsModel::Parametric {
            tf,
            primaries,
            luminances,
            target_primaries,
            target_luminance,
            max_cll,
            max_fall,
        } && p.tf == Some(tf) && p.primaries == Some(primaries) && p.luminances == luminances
            && p.target_primaries == target_primaries && p.target_luminance == target_luminance
            && p.max_cll == max_cll && p.max_fall == max_fall),
{
}

/// Builds an image description from parameters.
#[derive(Debug)]
pub struct ImageDescriptionParametricBuilder {
    tf: Option<TransferFunctionEnum>,
    primaries: Option<PrimariesEnum>,
    luminances: Option<Luminance>,
    target_primaries: Option<ParametricPrimaries>,
    target_luminance: Option<MasteringLuminance>,
    max_cll: Option<u32>,
    max_fall: Option<u32>,
}

impl View for ImageDescriptionParametricBuilder {
    type V = Parameters;

    closed spec fn view(&self) -> Parameters {
        Parameters {
            tf: self.tf,
            primaries: self.primaries,
            luminances: self.luminances,
            target_primaries: self.target_primaries,
            target_luminance: self.target_luminance,
            max_cll: self.max_cll,
            max_fall: self.max_fall,
        }
    }
}

impl Default for ImageDescriptionParametricBuilder {
    fn default() -> (builder: Self)
        ensures
            builder@ == Parameters::none(),
    {
        ImageDescriptionParametricBuilder {
            tf: None,
            primaries: None,
            luminances: None,
            target_primaries: None,
            target_luminance: None,
            max_cll: None,
            max_fall: None,
        }
    }
}

impl ImageDescriptionParametricBuilder {
    /// Sets the transfer function, and says whether there was one before.
    pub fn set_tf(&mut self, tf: TransferFunctionEnum) -> (was_set: bool)
        ensures
            final(self)@ == (Parameters { tf: Some(tf), ..old(self)@ }),
            was_set == old(self)@.tf is Some,
    {
        let was_set = self.tf.is_some();
        self.tf = Some(tf);
        was_set
    }

    /// Sets the primaries, and says whether there were some before.
    pub fn set_primaries(&mut self, primaries: PrimariesEnum) -> (was_set: bool)
        ensures
            final(self)@ == (Parameters { primaries: Some(primaries), ..old(self)@ }),
            was_set == old(self)@.primaries is Some,
    {
        let was_set = self.primaries.is_some();
        self.primaries = Some(primaries);
        was_set
    }

    /// Sets the target primaries, and says whether there were some before.
    pub fn set_target_primaries(&mut self, target_primaries: ParametricPrimaries) -> (was_set: bool)
        ensures
            final(self)@ == (Parameters { target_primaries: Some(target_primaries), ..old(self)@ }),
            was_set == old(self)@.target_primaries is Some,
    {
        let was_set = self.target_primaries.is_some();
        self.target_primaries = Some(target_primaries);
        was_set
    }

    /// Sets the target luminances, and says whether there were some before.
    pub fn set_target_luminance(&mut self, target_luminance: MasteringLuminance) -> (was_set: bool)
        ensures
            final(self)@ == (Parameters { target_luminance: Some(target_luminance), ..old(self)@ }),
            was_set == old(self)@.target_luminance is Some,
    {
        let was_set = self.target_luminance.is_some();
        self.target_luminance = Some(target_luminance);
        was_set
    }

    /// Sets the luminances, and says whether there were some before.
    pub fn set_luminances(&mut self, luminances: Luminance) -> (was_set: bool)
        ensures
            final(self)@ == (Parameters { luminances: Some(luminances), ..old(self)@ }),
            was_set == old(self)@.luminances is Some,
    {
        let was_set = self.luminances.is_some();
        self.luminances = Some(luminances);
        was_set
    }

    /// Sets the maximum content light level, and says whether there was one before.
    pub fn set_max_cll(&mut self, max_cll: u32) -> (was_set: bool)
        ensures
            final(self)@ == (Parameters { max_cll: Some(max_cll), ..old(self)@ }),
            was_set == old(self)@.max_cll is Some,
    {
        let was_set = self.max_cll.is_some();
        self.max_cll = Some(max_cll);
        was_set
    }

    /// Sets the maximum frame-average light level, and says whether there was one before.
    pub fn set_max_fall(&mut self, max_fall: u32) -> (was_set: bool)
        ensures
            final(self)@ == (Parameters { max_fall: Some(max_fall), ..old(self)@ }),
            was_set == old(self)@.max_fall is Some,
    {
        let was_set = self.max_fall.is_some();
        self.max_fall = Some(max_fall);
        was_set
    }

    /// Builds the contents of the description.
    pub fn try_into(self) -> (built: Result<ImageDescriptionContents, DescriptionError>)
        ensures
            built_model(built) == parametric_contents(self@),
    {
        match (self.tf, self.primaries) {
            (Some(tf), Some(primaries)) => Ok(
                ImageDescriptionContents::Parametric {
                    tf,
                    primaries,
                    luminances: self.luminances,
                    target_primaries: self.target_primaries,
                    target_luminance: self.target_luminance,
                    max_cll: self.max_cll,
                    max_fall: self.max_fall,
                },
            ),
            _ => Err(DescriptionError::IncompleteSet),
        }
    }
}

} // verus!
