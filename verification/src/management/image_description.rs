//! Image description objects: how they come to be, and what a client can ask of them.

use vstd::prelude::*;

use crate::management::builder::{parametric_contents, Parameters};
use crate::management::description::{
    ContentsModel, ImageDescription, ImageDescriptionContents, Luminance, MasteringLuminance,
    ParametricPrimaries, PrimariesEnum, TransferFunctionEnum,
};
use crate::management::identity::{
    events_give_the_number_back, image_description_ready, ready_event, ReadyEvent,
};
use crate::management::named::{Primaries, TransferFunction};
use crate::post_error::PostError;

verus! {

/// What an image description object that did not fail stands for.
#[derive(Debug)]
pub struct ImageDescriptionData<U> {
    /// Whether the client may ask for information.
    pub get_information: bool,
    pub info: ImageDescription<U>,
}

/// Why an image description failed.
#[derive(Debug, Clone, Copy, PartialEq, Eq, Structural)]
pub enum Cause {
    Unsupported,
    NoOutput,
}

/// An image description object to be made for a client.
#[derive(Debug)]
pub enum NewDescription<U> {
    Ready(ImageDescriptionData<U>),
    Failed { cause: Cause, message: &'static str },
}

/// The first event of an image description object.
#[derive(Debug)]
pub enum NewDescriptionEvent {
    Ready(ReadyEvent),
    Failed { cause: Cause, message: &'static str },
}

impl<U> NewDescription<U> {
    /// What an object of the given version is sent first.
    pub open spec fn event_spec(&self, version: u32) -> NewDescriptionEvent {
        match self {
            NewDescription::Ready(data) => NewDescriptionEvent::Ready(
                ready_event(version, data.info.id_spec()),
            ),
            NewDescription::Failed { cause, message } => NewDescriptionEvent::Failed {
                cause: *cause,
                message: *message,
            },
        }
    }

    /// What an object of the given version is sent first.
    pub fn event(&self, version: u32) -> (event: NewDescriptionEvent)
        ensures
            event == self.event_spec(version),
    {
        match self {
            NewDescription::Ready(data) => NewDescriptionEvent::Ready(
                image_description_ready(version, data.info.id()),
            ),
            NewDescription::Failed { cause, message } => NewDescriptionEvent::Failed {
                cause: *cause,
                message: *message,
            },
        }
    }
}

/// Errors of image description objects.
#[derive(Debug, Clone, Copy, PartialEq, Eq, Structural)]
pub enum ImageDescriptionError {
    NotReady,
    NoInformation,
}

/// Requests to an image description object.
#[derive(Debug, Clone, Copy)]
pub enum ImageDescriptionRequest {
    Destroy,
    GetInformation,
    Other,
}

/// The error that a request to a failed image description ends in. It can only be destroyed.
pub fn failed_description_request(request: ImageDescriptionRequest) -> (posted: Option<
    PostError<ImageDescriptionError>,
>)
    ensures
        posted == match request {
            ImageDescriptionRequest::Destroy => None,
            _ => Some(
                PostError {
                    error: ImageDescriptionError::NotReady,
                    message: "Image description had failed",
                },
            ),
        },
{
    match request {
        ImageDescriptionRequest::Destroy => None,
        _ => Some(
            PostError {
                error: ImageDescriptionError::NotReady,
                message: "Image description had failed",
            },
        ),
    }
}

/// One piece of information about an image description.
#[derive(Debug, Clone, Copy)]
pub enum InfoEvent {
    IccFile { size: u32 },
    TfNamed(TransferFunction),
    TfPower(u32),
    PrimariesNamed(Primaries),
    Primaries(ParametricPrimaries),
    Luminances(Luminance),
    TargetPrimaries(ParametricPrimaries),
    TargetLuminance(MasteringLuminance),
    TargetMaxCll(u32),
    TargetMaxFall(u32),
    Done,
}

/// The file that shows the profile of a description to clients.
#[derive(Debug, Clone, Copy)]
pub enum IccFile {
    /// None has been made yet.
    Missing,
    /// It has this many bytes.
    Present { size: usize },
    /// It could not be made.
    Failed,
}

/// What says which transfer function there is.
pub open spec fn tf_event(tf: TransferFunctionEnum) -> InfoEvent {
    match tf {
        TransferFunctionEnum::Named(name) => InfoEvent::TfNamed(name),
        TransferFunctionEnum::Power(exponent) => InfoEvent::TfPower(exponent),
    }
}

/// What says which primaries there are.
pub open spec fn primaries_event(primaries: PrimariesEnum) -> InfoEvent {
    match primaries {
        PrimariesEnum::Named(name) => InfoEvent::PrimariesNamed(name),
        PrimariesEnum::Parametric(p) => InfoEvent::Primaries(p),
    }
}

/// One event, or none.
pub open spec fn at_most_one(event: Option<InfoEvent>) -> Seq<InfoEvent> {
    match event {
        Some(event) => seq![event],
        None => Seq::empty(),
    }
}

/// What says which luminances there are, if any.
pub open spec fn luminances_event(luminances: Option<Luminance>) -> Option<InfoEvent> {
    match luminances {
        Some(l) => Some(InfoEvent::Luminances(l)),
        None => None,
    }
}

/// What says which primaries the mastering display has, if they are given.
pub open spec fn target_primaries_event(primaries: Option<ParametricPrimaries>) -> Option<
    InfoEvent,
> {
    match primaries {
        Some(p) => Some(InfoEvent::TargetPrimaries(p)),
        None => None,
    }
}

/// What says which luminances the mastering display has, if they are given.
pub open spec fn target_luminance_event(luminance: Option<MasteringLuminance>) -> Option<
    InfoEvent,
> {
    match luminance {
        Some(l) => Some(InfoEvent::TargetLuminance(l)),
        None => None,
    }
}

/// What says how bright the content gets, if it is given.
pub open spec fn max_cll_event(level: Option<u32>) -> Option<InfoEvent> {
    match level {
        Some(l) => Some(InfoEvent::TargetMaxCll(l)),
        None => None,
    }
}

/// What says how bright frames get on average, if it is given.
pub open spec fn max_fall_event(level: Option<u32>) -> Option<InfoEvent> {
    match level {
        Some(l) => Some(InfoEvent::TargetMaxFall(l)),
        None => None,
    }
}

/// What a client is told of a complete set of parameters.
pub open spec fn information(
    tf: TransferFunctionEnum,
    primaries: PrimariesEnum,
    luminances: Option<Luminance>,
    target_primaries: Option<ParametricPrimaries>,
    target_luminance: Option<MasteringLuminance>,
    max_cll: Option<u32>,
    max_fall: Option<u32>,
) -> Seq<InfoEvent> {
    seq![tf_event(tf), primaries_event(primaries)] + at_most_one(luminances_event(luminances))
        + at_most_one(target_primaries_event(target_primaries)) + at_most_one(
        target_luminance_event(target_luminance),
    ) + at_most_one(max_cll_event(max_cll)) + at_most_one(max_fall_event(max_fall))
        + seq![InfoEvent::Done]
}

/// What is done about a request to an image description object.
#[derive(Debug)]
pub enum ImageDescriptionAction<'a> {
    Ignore,
    PostError(PostError<ImageDescriptionError>),
    /// Make the file that shows the profile, with these bytes, and ask again.
    CreateIccFile { data: &'a [u8] },
    /// Say on the image description that it failed.
    Fail { cause: Cause, message: &'static str },
    /// Send these on the information object.
    Send(Vec<InfoEvent>),
}

/// The value of an [`ImageDescriptionAction`].
pub enum ActionModel {
    Ignore,
    PostError(PostError<ImageDescriptionError>),
    CreateIccFile { data: Seq<u8> },
    Fail { cause: Cause, message: &'static str },
    Send(Seq<InfoEvent>),
}

impl<'a> View for ImageDescriptionAction<'a> {
    type V = ActionModel;

    open spec fn view(&self) -> ActionModel {
        match *self {
            ImageDescriptionAction::Ignore => ActionModel::Ignore,
            ImageDescriptionAction::PostError(posted) => ActionModel::PostError(posted),
            ImageDescriptionAction::CreateIccFile { data } => ActionModel::CreateIccFile {
                data: data@,
            },
            ImageDescriptionAction::Fail { cause, message } => ActionModel::Fail { cause, message },
            ImageDescriptionAction::Send(events) => ActionModel::Send(events@),
        }
    }
}

/// What is done about a request for information about `contents`.
pub open spec fn information_action(contents: ContentsModel, file: IccFile) -> ActionModel {
    match contents {
        ContentsModel::Icc(data) => match file {
            IccFile::Missing => ActionModel::CreateIccFile { data },
            IccFile::Present { size } => ActionModel::Send(
                seq![
                    InfoEvent::IccFile { size: (size as nat % 0x1_0000_0000) as u32 },
                    InfoEvent::Done,
                ],
            ),
            IccFile::Failed => ActionModel::Fail {
                cause: Cause::Unsupported,
                message: "Internal error",
            },
        },
        ContentsModel::Parametric {
            tf,
            primaries,
            luminances,
            target_primaries,
            target_luminance,
            max_cll,
            max_fall,
        } => ActionModel::Send(
            information(
                tf,
                primaries,
                luminances,
                target_primaries,
                target_luminance,
                max_cll,
                max_fall,
            ),
        ),
    }
}

fn push_some(events: &mut Vec<InfoEvent>, event: Option<InfoEvent>)
    ensures
        final(events)@ == old(events)@ + at_most_one(event),
{
    if let Some(event) = event {
        events.push(event);
    }
}

/// The events that tell a client of a complete set of parameters.
fn information_events(
    tf: &TransferFunctionEnum,
    primaries: &PrimariesEnum,
    luminances: &Option<Luminance>,
    target_primaries: &Option<ParametricPrimaries>,
    target_luminance: &Option<MasteringLuminance>,
    max_cll: &Option<u32>,
    max_fall: &Option<u32>,
) -> (events: Vec<InfoEvent>)
    ensures
        events@ == information(
            *tf,
            *primaries,
            *luminances,
            *target_primaries,
            *target_luminance,
            *max_cll,
            *max_fall,
        ),
{
    let mut events: Vec<InfoEvent> = Vec::new();
    events.push(
        match tf {
            TransferFunctionEnum::Named(name) => InfoEvent::TfNamed(*name),
            TransferFunctionEnum::Power(exponent) => InfoEvent::TfPower(*exponent),
        },
    );
    events.push(
        match primaries {
            PrimariesEnum::Named(name) => InfoEvent::PrimariesNamed(*name),
            PrimariesEnum::Parametric(p) => InfoEvent::Primaries(*p),
        },
    );
    assert(events@ =~= seq![tf_event(*tf), primaries_event(*primaries)]);
    push_some(
        &mut events,
        match luminances {
            Some(l) => Some(InfoEvent::Luminances(*l)),
            None => None,
        },
    );
    push_some(
        &mut events,
        match target_primaries {
            Some(p) => Some(InfoEvent::TargetPrimaries(*p)),
            None => None,
        },
    );
    push_some(
        &mut events,
        match target_luminance {
            Some(l) => Some(InfoEvent::TargetLuminance(*l)),
            None => None,
        },
    );
    push_some(
        &mut events,
        match max_cll {
            Some(l) => Some(InfoEvent::TargetMaxCll(*l)),
            None => None,
        },
    );
    push_some(
        &mut events,
        match max_fall {
            Some(l) => Some(InfoEvent::TargetMaxFall(*l)),
            None => None,
        },
    );
    events.push(InfoEvent::Done);
    events
}

/// The low 32 bits of a file's size.
fn low_bits(size: usize) -> (low: u32)
    ensures
        low == (size as nat % 0x1_0000_0000) as u32,
{
    let wide: u64 = size as u64;
    assert(wide as u32 == (wide % 0x1_0000_0000) as u32) by (bit_vector);
    wide as u32
}

impl<U> ImageDescriptionData<U> {
    /// What is done about a request. `file` is the file that shows the profile, where the
    /// description has one.
    pub fn request(&self, request: ImageDescriptionRequest, file: IccFile) -> (action:
        ImageDescriptionAction<'_>)
        ensures
            action@ == match request {
                ImageDescriptionRequest::GetInformation => if !self.get_information {
                    ActionModel::PostError(
                        PostError {
                            error: ImageDescriptionError::NoInformation,
                            message: "Constructor doesn't allow get_information",
                        },
                    )
                } else {
                    information_action(self.info.contents_spec(), file)
                },
                _ => ActionModel::Ignore,
            },
    {
        match request {
            ImageDescriptionRequest::GetInformation => {
                if !self.get_information {
                    return ImageDescriptionAction::PostError(
                        PostError {
                            error: ImageDescriptionError::NoInformation,
                            message: "Constructor doesn't allow get_information",
                        },
                    );
                }
                match self.info.contents() {
                    ImageDescriptionContents::ICC(icc) => match file {
                        IccFile::Missing => ImageDescriptionAction::CreateIccFile {
                            data: icc.as_ref(),
                        },
                        IccFile::Present { size } => {
                            let mut events: Vec<InfoEvent> = Vec::new();
                            events.push(InfoEvent::IccFile { size: low_bits(size) });
                            events.push(InfoEvent::Done);
                            assert(events@ =~= seq![
                                InfoEvent::IccFile { size: (size as nat % 0x1_0000_0000) as u32 },
                                InfoEvent::Done,
                            ]);
                            ImageDescriptionAction::Send(events)
                        },
                        IccFile::Failed => ImageDescriptionAction::Fail {
                            cause: Cause::Unsupported,
                            message: "Internal error",
                        },
                    },
                    ImageDescriptionContents::Parametric {
                        tf,
                        primaries,
                        luminances,
                        target_primaries,
                        target_luminance,
                        max_cll,
                        max_fall,
                    } => ImageDescriptionAction::Send(
                        information_events(
                            tf,
                            primaries,
                            luminances,
                            target_primaries,
                            target_luminance,
                            max_cll,
                            max_fall,
                        ),
                    ),
                }
            },
            _ => ImageDescriptionAction::Ignore,
        }
    }
}

/// The parameters that a client knows after one more event.
pub open spec fn hear(p: Parameters, event: InfoEvent) -> Parameters {
    match event {
        InfoEvent::TfNamed(name) => Parameters { tf: Some(TransferFunctionEnum::Named(name)), ..p },
        InfoEvent::TfPower(exponent) => Parameters {
            tf: Some(TransferFunctionEnum::Power(exponent)),
            ..p
        },
        InfoEvent::PrimariesNamed(name) => Parameters {
            primaries: Some(PrimariesEnum::Named(name)),
            ..p
        },
        InfoEvent::Primaries(coordinates) => Parameters {
            primaries: Some(PrimariesEnum::Parametric(coordinates)),
            ..p
        },
        InfoEvent::Luminances(l) => Parameters { luminances: Some(l), ..p },
        InfoEvent::TargetPrimaries(t) => Parameters { target_primaries: Some(t), ..p },
        InfoEvent::TargetLuminance(l) => Parameters { target_luminance: Some(l), ..p },
        InfoEvent::TargetMaxCll(l) => Parameters { max_cll: Some(l), ..p },
        InfoEvent::TargetMaxFall(l) => Parameters { max_fall: Some(l), ..p },
        InfoEvent::IccFile { .. } => p,
        InfoEvent::Done => p,
    }
}

/// The parameters that a client knows after some events.
pub open spec fn hear_all(p: Parameters, events: Seq<InfoEvent>) -> Parameters
    decreases events.len(),
{
    if events.len() == 0 {
        p
    } else {
        hear(hear_all(p, events.drop_last()), events.last())
    }
}

proof fn hear_one_more(p: Parameters, events: Seq<InfoEvent>, more: Option<InfoEvent>)
    ensures
        hear_all(p, events + at_most_one(more)) == match more {
            Some(event) => hear(hear_all(p, events), event),
            None => hear_all(p, events),
        },
{
    match more {
        Some(event) => {
            assert((events + at_most_one(more)).drop_last() =~= events);
        },
        None => {
            assert(events + at_most_one(more) =~= events);
        },
    }
}

/// A client that makes a description from what it is told of another one makes an equal one.
pub proof fn information_is_complete(
    tf: TransferFunctionEnum,
    primaries: PrimariesEnum,
    luminances: Option<Luminance>,
    target_primaries: Option<ParametricPrimaries>,
    target_luminance: Option<MasteringLuminance>,
    max_cll: Option<u32>,
    max_fall: Option<u32>,
)
    ensures
        parametric_contents(
            hear_all(
                Parameters::none(),
                information(
                    tf,
                    primaries,
                    luminances,
                    target_primaries,
                    target_luminance,
                    max_cll,
                    max_fall,
                ),
            ),
        ) == Ok::<_, crate::management::builder::DescriptionError>(
            (ContentsModel::Parametric {
                tf,
                primaries,
                luminances,
                target_primaries,
                target_luminance,
                max_cll,
                max_fall,
            }),
        ),
{
    let p = Parameters::none();
    let e0 = Seq::<InfoEvent>::empty();
    let e1 = e0 + at_most_one(Some(tf_event(tf)));
    let e2 = e1 + at_most_one(Some(primaries_event(primaries)));
    assert(e2 =~= seq![tf_event(tf), primaries_event(primaries)]);
    let e3 = e2 + at_most_one(luminances_event(luminances));
    let e4 = e3 + at_most_one(target_primaries_event(target_primaries));
    let e5 = e4 + at_most_one(target_luminance_event(target_luminance));
    let e6 = e5 + at_most_one(max_cll_event(max_cll));
    let e7 = e6 + at_most_one(max_fall_event(max_fall));
    hear_one_more(p, e0, Some(tf_event(tf)));
    hear_one_more(p, e1, Some(primaries_event(primaries)));
    hear_one_more(p, e2, luminances_event(luminances));
    hear_one_more(p, e3, target_primaries_event(target_primaries));
    hear_one_more(p, e4, target_luminance_event(target_luminance));
    hear_one_more(p, e5, max_cll_event(max_cll));
    hear_one_more(p, e6, max_fall_event(max_fall));
    hear_one_more(p, e7, Some(InfoEvent::Done));
}

/// The place of a piece of information among the others.
pub open spec fn info_rank(event: InfoEvent) -> int {
    match event {
        InfoEvent::IccFile { .. } => 0,
        InfoEvent::TfNamed(_) => 1,
        InfoEvent::TfPower(_) => 1,
        InfoEvent::PrimariesNamed(_) => 2,
        InfoEvent::Primaries(_) => 2,
        InfoEvent::Luminances(_) => 3,
        InfoEvent::TargetPrimaries(_) => 4,
        InfoEvent::TargetLuminance(_) => 5,
        InfoEvent::TargetMaxCll(_) => 6,
        InfoEvent::TargetMaxFall(_) => 7,
        InfoEvent::Done => 8,
    }
}

/// The event says something that is true of the parameters.
pub open spec fn says_truly(
    event: InfoEvent,
    tf: TransferFunctionEnum,
    primaries: PrimariesEnum,
    luminances: Option<Luminance>,
    target_primaries: Option<ParametricPrimaries>,
    target_luminance: Option<MasteringLuminance>,
    max_cll: Option<u32>,
    max_fall: Option<u32>,
) -> bool {
    match event {
        InfoEvent::IccFile { .. } => false,
        InfoEvent::TfNamed(name) => tf == TransferFunctionEnum::Named(name),
        InfoEvent::TfPower(exponent) => tf == TransferFunctionEnum::Power(exponent),
        InfoEvent::PrimariesNamed(name) => primaries == PrimariesEnum::Named(name),
        InfoEvent::Primaries(p) => primaries == PrimariesEnum::Parametric(p),
        InfoEvent::Luminances(l) => luminances == Some(l),
        InfoEvent::TargetPrimaries(p) => target_primaries == Some(p),
        InfoEvent::TargetLuminance(l) => target_luminance == Some(l),
        InfoEvent::TargetMaxCll(level) => max_cll == Some(level),
        InfoEvent::TargetMaxFall(level) => max_fall == Some(level),
        InfoEvent::Done => true,
    }
}

/// Whatever is true of the parameters is sent, and nothing else; each kind of information at its
/// place, and once.
pub proof fn information_is_true_and_in_order(
    event: InfoEvent,
    tf: TransferFunctionEnum,
    primaries: PrimariesEnum,
    luminances: Option<Luminance>,
    target_primaries: Option<ParametricPrimaries>,
    target_luminance: Option<MasteringLuminance>,
    max_cll: Option<u32>,
    max_fall: Option<u32>,
)
    ensures
        ({
            let events = information(
                tf,
                primaries,
                luminances,
                target_primaries,
                target_luminance,
                max_cll,
                max_fall,
            );
            &&& events.contains(event) <==> says_truly(
                event,
                tf,
                primaries,
                luminances,
                target_primaries,
                target_luminance,
                max_cll,
                max_fall,
            )
            &&& forall|i: int, j: int|
                0 <= i < j < events.len() ==> info_rank(#[trigger] events[i]) < info_rank(
                    #[trigger] events[j],
                )
        }),
{
    let s0 = seq![tf_event(tf), primaries_event(primaries)];
    let s1 = s0 + at_most_one(luminances_event(luminances));
    let s2 = s1 + at_most_one(target_primaries_event(target_primaries));
    let s3 = s2 + at_most_one(target_luminance_event(target_luminance));
    let s4 = s3 + at_most_one(max_cll_event(max_cll));
    let s5 = s4 + at_most_one(max_fall_event(max_fall));
    let s6 = s5 + at_most_one(Some(InfoEvent::Done));
    assert(s0[0] == tf_event(tf) && s0[1] == primaries_event(primaries));
    contains_one_more(s0, luminances_event(luminances), event);
    contains_one_more(s1, target_primaries_event(target_primaries), event);
    contains_one_more(s2, target_luminance_event(target_luminance), event);
    contains_one_more(s3, max_cll_event(max_cll), event);
    contains_one_more(s4, max_fall_event(max_fall), event);
    contains_one_more(s5, Some(InfoEvent::Done), event);
    assert(s0.contains(event) <==> event == tf_event(tf) || event == primaries_event(primaries));
}

proof fn contains_one_more(events: Seq<InfoEvent>, more: Option<InfoEvent>, event: InfoEvent)
    ensures
        (events + at_most_one(more)).contains(event) <==> events.contains(event) || more == Some(
            event,
        ),
{
    let all = events + at_most_one(more);
    if events.contains(event) {
        let i = choose|i: int| 0 <= i < events.len() && events[i] == event;
        assert(all[i] == event);
    }
    if more == Some(event) {
        assert(all[events.len() as int] == event);
    }
    if all.contains(event) {
        let i = choose|i: int| 0 <= i < all.len() && all[i] == event;
        if i < events.len() {
            assert(events[i] == event);
        }
    }
}

/// The file of a profile is made exactly where there is a profile and no file of it, with the
/// bytes of the profile. Where it could not be made the description fails; where it is there its
/// size is sent, and that this was all. A description without a profile needs no file: what is
/// sent of it does not depend on one.
pub proof fn profiles_are_shown_by_their_file(contents: ContentsModel, file: IccFile, other: IccFile)
    ensures
        information_action(contents, file) is CreateIccFile <==> contents is Icc
            && file is Missing,
        information_action(contents, file) matches ActionModel::CreateIccFile { data } ==> contents
            == ContentsModel::Icc(data),
        information_action(contents, file) is Fail <==> contents is Icc && file is Failed,
        information_action(contents, file) matches ActionModel::Fail { cause, message } ==> cause
            == Cause::Unsupported && message == "Internal error",
        contents is Icc ==> (file matches IccFile::Present { size } ==> (information_action(
            contents,
            file,
        ) matches ActionModel::Send(events) && events.len() == 2 && events[1] == InfoEvent::Done
            && (events[0] matches InfoEvent::IccFile { size: sent } && (size - sent)
            % 0x1_0000_0000 == 0))),
        contents is Parametric ==> information_action(contents, file) is Send
            && information_action(contents, file) == information_action(contents, other),
        contents matches ContentsModel::Parametric {
            tf,
            primaries,
            luminances,
            target_primaries,
            target_luminance,
            max_cll,
            max_fall,
        } ==> information_action(contents, file) == ActionModel::Send(
            information(
                tf,
                primaries,
                luminances,
                target_primaries,
                target_luminance,
                max_cll,
                max_fall,
            ),
        ),
{
}

/// An image description object that is ready is sent the number of its description, and one that
/// failed why it did.
pub proof fn first_events_tell_how_it_went<U>(new: NewDescription<U>, version: u32)
    ensures
        match (new, new.event_spec(version)) {
            (NewDescription::Ready(data), NewDescriptionEvent::Ready(event)) => match event {
                ReadyEvent::Ready2 { identity_hi, identity_lo } => version >= 2 && identity_hi
                    * 0x1_0000_0000 + identity_lo == data.info.id_spec(),
                ReadyEvent::Ready { identity } => version < 2 && (data.info.id_spec() - identity)
                    % 0x1_0000_0000 == 0,
            },
            (
                NewDescription::Failed { cause, message },
                NewDescriptionEvent::Failed { cause: sent_cause, message: sent_message },
            ) => cause == sent_cause && message == sent_message,
            _ => false,
        },
{
    if let NewDescription::Ready(data) = new {
        events_give_the_number_back(version, data.info.id_spec());
    }
}

/// What is sent about a description ends with `Done`, and has it nowhere else.
pub proof fn information_ends_with_done(contents: ContentsModel, file: IccFile)
    ensures
        information_action(contents, file) matches ActionModel::Send(events) ==> {
            &&& events.len() > 0
            &&& events.last() == InfoEvent::Done
            &&& forall|i: int| 0 <= i < events.len() - 1 ==> events[i] != InfoEvent::Done
        },
{
}

} // verus!
