//! The state of the color manager: what it supports, and the image descriptions it has made.

use vstd::prelude::*;

use crate::code_point::{distinct, distinct_keeps_members, SupportedSet};
use crate::management::builder::{built_model, DescriptionError};
use crate::management::description::{ContentsModel, ImageDescription, ImageDescriptionContents};
use crate::management::laws::its_own_link_decides;
use crate::management::named::{Feature, Primaries, RenderIntent, TransferFunction};
use crate::management::weak::{downgraded, upgraded, WeakHandle};

verus! {

/// The version of the color manager that is offered to clients.
pub const MANAGER_VERSION: u32 = 1;

/// The first version of the protocol is offered.
pub proof fn first_version_is_offered()
    ensures
        MANAGER_VERSION == 1,
{
}

/// Hands out the numbers of image descriptions. A process keeps one of these, since two of them
/// hand out the same numbers.
#[derive(Debug)]
pub struct ImageDescriptionIds {
    next: u64,
}

/// The number after `id`; after the last one they start again at zero.
pub open spec fn id_after(id: u64) -> u64 {
    if id == u64::MAX {
        0
    } else {
        (id + 1) as u64
    }
}

impl View for ImageDescriptionIds {
    type V = u64;

    closed spec fn view(&self) -> u64 {
        self.next
    }
}

impl ImageDescriptionIds {
    /// Starts with the number one.
    pub fn new() -> (ids: Self)
        ensures
            ids@ == 1,
    {
        ImageDescriptionIds { next: 1 }
    }

    /// Hands out the next number.
    pub(crate) fn allocate(&mut self) -> (id: u64)
        ensures
            id == old(self)@,
            final(self)@ == id_after(old(self)@),
    {
        let id: u64 = self.next;
        self.next = id.wrapping_add(1);
        id
    }
}

/// An image description that a color manager knows, and a link to it.
#[derive(Debug)]
pub struct KnownDescription<W> {
    id: u64,
    contents: ImageDescriptionContents,
    link: W,
}

/// The value of a [`KnownDescription`].
pub struct KnownModel<W> {
    pub id: u64,
    pub contents: ContentsModel,
    pub link: W,
}

impl<W> View for KnownDescription<W> {
    type V = KnownModel<W>;

    closed spec fn view(&self) -> KnownModel<W> {
        KnownModel { id: self.id, contents: self.contents@, link: self.link }
    }
}

impl<W> KnownModel<W> {
    /// `desc` is the description that is known.
    pub open spec fn names<U>(self, desc: ImageDescription<U>) -> bool {
        &&& self.id == desc.id_spec()
        &&& self.contents == desc.contents_spec()
    }

    /// Whether the description is still there, where its link gives `found`.
    pub open spec fn is_live<U>(self, found: Option<ImageDescription<U>>) -> bool {
        found matches Some(desc) && self.names(desc)
    }
}

impl<W> KnownDescription<W> {
    /// Whether `desc` is the description that is known.
    fn names<U>(&self, desc: &ImageDescription<U>) -> (yes: bool)
        ensures
            yes == self@.names(*desc),
    {
        self.id == desc.id() && self.contents == *desc.contents()
    }
}

/// Where the description with these contents stands.
pub open spec fn position<W>(known: Seq<KnownModel<W>>, contents: ContentsModel) -> Option<int>
    decreases known.len(),
{
    if known.len() == 0 {
        None
    } else {
        match position(known.drop_last(), contents) {
            Some(i) => Some(i),
            None => if known.last().contents == contents {
                Some(known.len() - 1)
            } else {
                None
            },
        }
    }
}

/// A position holds the contents looked for; without one, nothing does.
pub proof fn position_finds_contents<W>(known: Seq<KnownModel<W>>, contents: ContentsModel)
    ensures
        match position(known, contents) {
            Some(i) => 0 <= i < known.len() && known[i].contents == contents,
            None => forall|i: int|
                0 <= i < known.len() ==> (#[trigger] known[i]).contents != contents,
        },
    decreases known.len(),
{
    if known.len() > 0 {
        let init = known.drop_last();
        position_finds_contents(init, contents);
        match position(init, contents) {
            Some(i) => {
                assert(known[i] == init[i]);
            },
            None => {
                assert forall|i: int| 0 <= i < known.len() - 1 implies (
                #[trigger] known[i]).contents != contents by {
                    assert(known[i] == init[i]);
                }
            },
        }
    }
}

/// No two descriptions say the same.
pub open spec fn contents_unique<W>(known: Seq<KnownModel<W>>) -> bool {
    forall|i: int, j: int|
        0 <= i < j < known.len() ==> (#[trigger] known[i]).contents != (
        #[trigger] known[j]).contents
}

/// Every description has a number of its own, and it was handed out before `next`.
pub open spec fn ids_unique_below<W>(known: Seq<KnownModel<W>>, next: u64) -> bool {
    &&& forall|i: int| 0 <= i < known.len() ==> (#[trigger] known[i]).id < next
    &&& forall|i: int, j: int|
        0 <= i < j < known.len() ==> (#[trigger] known[i]).id != (#[trigger] known[j]).id
}

/// `desc` is a new description, made with the number `id`.
pub open spec fn is_new_description<U: Default>(
    desc: ImageDescription<U>,
    id: u64,
    contents: ContentsModel,
) -> bool {
    &&& desc.id_spec() == id
    &&& desc.contents_spec() == contents
    &&& call_ensures(U::default, (), desc.user_data_spec())
}

/// `record` is how `desc` is known: by its number and contents, and a link to it.
pub open spec fn records<W: WeakHandle>(
    record: KnownModel<W>,
    desc: ImageDescription<W::UserData>,
) -> bool {
    &&& record.names(desc)
    &&& downgraded(desc, record.link)
}

/// How asking for `contents` gives `desc`, where the link of the description that is known
/// already gives `found`. A known description that is still there is shared; one that is not
/// gives way to a new one in its place; one that is not known is added.
pub open spec fn build_step<W: WeakHandle>(
    known: Seq<KnownModel<W>>,
    next: u64,
    contents: ContentsModel,
    found: Option<ImageDescription<W::UserData>>,
    known_after: Seq<KnownModel<W>>,
    next_after: u64,
    desc: ImageDescription<W::UserData>,
) -> bool where W::UserData: Default {
    match position(known, contents) {
        Some(i) => if known[i].is_live(found) {
            &&& found == Some(desc)
            &&& known_after == known
            &&& next_after == next
        } else {
            &&& is_new_description(desc, next, contents)
            &&& known_after == known.update(i, known_after[i])
            &&& records(known_after[i], desc)
            &&& next_after == id_after(next)
        },
        None => {
            &&& is_new_description(desc, next, contents)
            &&& known_after == known.push(known_after[known.len() as int])
            &&& records(known_after[known.len() as int], desc)
            &&& next_after == id_after(next)
        },
    }
}

/// How asking for `contents` gives `desc`, with what the link gave, where there was one to ask.
pub open spec fn build_linked<W: WeakHandle>(
    known: Seq<KnownModel<W>>,
    next: u64,
    contents: ContentsModel,
    known_after: Seq<KnownModel<W>>,
    next_after: u64,
    desc: ImageDescription<W::UserData>,
) -> bool where W::UserData: Default {
    match position(known, contents) {
        Some(i) => exists|found: Option<ImageDescription<W::UserData>>|
            {
                &&& upgraded(known[i].link, found)
                &&& #[trigger] build_step(
                    known,
                    next,
                    contents,
                    found,
                    known_after,
                    next_after,
                    desc,
                )
            },
        None => build_step(known, next, contents, None, known_after, next_after, desc),
    }
}

/// How what a builder built gives a description. The builder's error changes nothing.
pub open spec fn build_outcome<W: WeakHandle>(
    known: Seq<KnownModel<W>>,
    next: u64,
    contents: Result<ContentsModel, DescriptionError>,
    known_after: Seq<KnownModel<W>>,
    next_after: u64,
    built: Result<ImageDescription<W::UserData>, DescriptionError>,
) -> bool where W::UserData: Default {
    match contents {
        Ok(contents) => {
            &&& built matches Ok(desc)
            &&& desc.contents_spec() == contents
            &&& build_linked(known, next, contents, known_after, next_after, desc)
        },
        Err(error) => {
            &&& built matches Err(e) && e == error
            &&& known_after == known
            &&& next_after == next
        },
    }
}

/// The descriptions that stay known when `gone` is destroyed, where each link gives what stands
/// in `found`: those still there, but for that one.
pub open spec fn kept<U, W>(
    known: Seq<KnownModel<W>>,
    found: Seq<Option<ImageDescription<U>>>,
    gone: ImageDescription<U>,
) -> Seq<KnownModel<W>>
    decreases known.len(),
{
    if known.len() == 0 {
        Seq::empty()
    } else {
        let before = kept(known.drop_last(), found, gone);
        if known.last().is_live(found[known.len() - 1]) && !known.last().names(gone) {
            before.push(known.last())
        } else {
            before
        }
    }
}

/// The state of the color manager. It keeps no description: it has links of type `W` to those
/// that it made, by which it finds the ones that others still have a handle of.
#[derive(Debug)]
pub struct ColorManagementState<W> {
    supported_rendering_intents: SupportedSet<RenderIntent>,
    supported_features: SupportedSet<Feature>,
    supported_tf: SupportedSet<TransferFunction>,
    supported_primaries: SupportedSet<Primaries>,
    known_image_descriptions: Vec<KnownDescription<W>>,
}

/// What a color manager supports.
pub struct Support {
    pub intents: Seq<RenderIntent>,
    pub features: Seq<Feature>,
    pub tf: Seq<TransferFunction>,
    pub primaries: Seq<Primaries>,
}

impl Support {
    /// Nothing is listed twice.
    pub open spec fn no_repetitions(self) -> bool {
        &&& self.intents.no_duplicates()
        &&& self.features.no_duplicates()
        &&& self.tf.no_duplicates()
        &&& self.primaries.no_duplicates()
    }
}

/// The values of known descriptions.
pub open spec fn models<W>(known: Seq<KnownDescription<W>>) -> Seq<KnownModel<W>> {
    known.map_values(|k: KnownDescription<W>| k@)
}

impl<W> ColorManagementState<W> {
    /// What is supported.
    pub closed spec fn support(&self) -> Support {
        Support {
            intents: self.supported_rendering_intents@,
            features: self.supported_features@,
            tf: self.supported_tf@,
            primaries: self.supported_primaries@,
        }
    }

    /// The descriptions that are known.
    pub closed spec fn known(&self) -> Seq<KnownModel<W>> {
        models(self.known_image_descriptions@)
    }

    /// No two known descriptions say the same.
    pub open spec fn wf(&self) -> bool {
        contents_unique(self.known())
    }

    /// A color manager with the given support, and no descriptions.
    pub fn new(
        supported_rendering_intents: Vec<RenderIntent>,
        supported_features: Vec<Feature>,
        supported_tf: Vec<TransferFunction>,
        supported_primaries: Vec<Primaries>,
    ) -> (state: Self)
        ensures
            state.wf(),
            state.support() == (Support {
                intents: distinct(supported_rendering_intents@),
                features: distinct(supported_features@),
                tf: distinct(supported_tf@),
                primaries: distinct(supported_primaries@),
            }),
            state.support().no_repetitions(),
            state.known() == Seq::<KnownModel<W>>::empty(),
    {
        proof {
            distinct_keeps_members(supported_rendering_intents@);
            distinct_keeps_members(supported_features@);
            distinct_keeps_members(supported_tf@);
            distinct_keeps_members(supported_primaries@);
        }
        ColorManagementState {
            supported_rendering_intents: SupportedSet::collect(supported_rendering_intents),
            supported_features: SupportedSet::collect(supported_features),
            supported_tf: SupportedSet::collect(supported_tf),
            supported_primaries: SupportedSet::collect(supported_primaries),
            known_image_descriptions: Vec::new(),
        }
    }

    /// The supported rendering intents.
    pub fn supported_rendering_intents(&self) -> (set: &SupportedSet<RenderIntent>)
        ensures
            set@ == self.support().intents,
    {
        &self.supported_rendering_intents
    }

    /// The supported features.
    pub fn supported_features(&self) -> (set: &SupportedSet<Feature>)
        ensures
            set@ == self.support().features,
    {
        &self.supported_features
    }

    /// The supported named transfer functions.
    pub fn supported_tf(&self) -> (set: &SupportedSet<TransferFunction>)
        ensures
            set@ == self.support().tf,
    {
        &self.supported_tf
    }

    /// The supported named primaries.
    pub fn supported_primaries(&self) -> (set: &SupportedSet<Primaries>)
        ensures
            set@ == self.support().primaries,
    {
        &self.supported_primaries
    }

    /// Where the description with these contents stands among the known ones.
    fn find(&self, contents: &ImageDescriptionContents) -> (found: Option<usize>)
        ensures
            match found {
                Some(i) => position(self.known(), contents@) == Some(i as int) && i
                    < self.known().len(),
                None => position(self.known(), contents@) is None,
            },
    {
        let ghost known = self.known();
        let mut i: usize = 0;
        while i < self.known_image_descriptions.len()
            invariant
                known == models(self.known_image_descriptions@),
                i <= known.len(),
                position(known.take(i as int), contents@) is None,
            decreases known.len() - i,
        {
            assert(known.take(i + 1).drop_last() =~= known.take(i as int));
            assert(known[i as int] == self.known_image_descriptions@[i as int]@);
            if self.known_image_descriptions[i].contents == *contents {
                proof {
                    position_in_longer(known, i + 1, contents@);
                }
                return Some(i);
            }
            i += 1;
        }
        assert(known.take(i as int) =~= known);
        None
    }
}

/// What stands among the first descriptions is found there.
proof fn position_in_longer<W>(known: Seq<KnownModel<W>>, n: int, contents: ContentsModel)
    requires
        0 <= n <= known.len(),
        position(known.take(n), contents) is Some,
    ensures
        position(known, contents) == position(known.take(n), contents),
    decreases known.len(),
{
    if n == known.len() {
        assert(known.take(n) =~= known);
    } else {
        assert(known.drop_last().take(n) =~= known.take(n));
        position_in_longer(known.drop_last(), n, contents);
    }
}

impl<W: WeakHandle> ColorManagementState<W> where W::UserData: Default {
    /// Makes a description, and a record of it.
    fn make(ids: &mut ImageDescriptionIds, contents: ImageDescriptionContents) -> (made: (
        ImageDescription<W::UserData>,
        KnownDescription<W>,
    ))
        ensures
            is_new_description(made.0, old(ids)@, contents@),
            records(made.1@, made.0),
            final(ids)@ == id_after(old(ids)@),
    {
        let id: u64 = ids.allocate();
        let user_data = <W::UserData as Default>::default();
        let desc = ImageDescription::new(id, contents.clone(), user_data);
        let link = W::downgrade(&desc);
        (desc, KnownDescription { id, contents, link })
    }

    /// The description with these contents. `found` is what the link of the one that is known
    /// already gives, where one is.
    pub fn build_with_found(
        &mut self,
        ids: &mut ImageDescriptionIds,
        contents: ImageDescriptionContents,
        found: Option<ImageDescription<W::UserData>>,
    ) -> (desc: ImageDescription<W::UserData>)
        requires
            old(self).wf(),
        ensures
            final(self).wf(),
            final(self).support() == old(self).support(),
            build_step(
                old(self).known(),
                old(ids)@,
                contents@,
                found,
                final(self).known(),
                final(ids)@,
                desc,
            ),
            desc.contents_spec() == contents@,
    {
        let ghost known = self.known();
        proof {
            position_finds_contents(known, contents@);
        }
        match self.find(&contents) {
            Some(i) => {
                if let Some(desc) = found {
                    if self.known_image_descriptions[i].names(&desc) {
                        return desc;
                    }
                }
                let (desc, record) = Self::make(ids, contents);
                self.known_image_descriptions.set(i, record);
                assert(self.known() =~= known.update(i as int, record@));
                desc
            },
            None => {
                let (desc, record) = Self::make(ids, contents);
                self.known_image_descriptions.push(record);
                assert(self.known() =~= known.push(record@));
                desc
            },
        }
    }

    /// The description with what a builder built, or the builder's error.
    pub fn build_description_internal(
        &mut self,
        ids: &mut ImageDescriptionIds,
        contents: Result<ImageDescriptionContents, DescriptionError>,
    ) -> (built: Result<ImageDescription<W::UserData>, DescriptionError>)
        requires
            old(self).wf(),
        ensures
            final(self).wf(),
            final(self).support() == old(self).support(),
            build_outcome(
                old(self).known(),
                old(ids)@,
                built_model(contents),
                final(self).known(),
                final(ids)@,
                built,
            ),
    {
        match contents {
            Ok(contents) => {
                let found = match self.find(&contents) {
                    Some(i) => self.known_image_descriptions[i].link.upgrade(),
                    None => None,
                };
                Ok(self.build_with_found(ids, contents, found))
            },
            Err(error) => Err(error),
        }
    }

    /// The description with these contents: the one that is known, where it is still there, or a
    /// new one.
    pub fn build_description(
        &mut self,
        ids: &mut ImageDescriptionIds,
        contents: ImageDescriptionContents,
    ) -> (desc: ImageDescription<W::UserData>)
        requires
            old(self).wf(),
        ensures
            final(self).wf(),
            final(self).support() == old(self).support(),
            desc.contents_spec() == contents@,
            build_linked(
                old(self).known(),
                old(ids)@,
                contents@,
                final(self).known(),
                final(ids)@,
                desc,
            ),
            forall|i: int|
                0 <= i < old(self).known().len() && (#[trigger] old(self).known()[i]).contents
                    == contents@ ==> exists|found: Option<ImageDescription<W::UserData>>|
                    {
                        &&& #[trigger] call_ensures(
                            W::upgrade,
                            (&old(self).known()[i].link,),
                            found,
                        )
                        &&& match found {
                            Some(d) if d.id_spec() == old(self).known()[i].id && d.contents_spec()
                                == contents@ => desc == d && final(self).known()
                                == old(self).known() && final(ids)@ == old(ids)@,
                            _ => desc.id_spec() == old(ids)@,
                        }
                    },
    {
        let ghost known = self.known();
        let ghost next = ids@;
        let desc = self.build_description_internal(ids, Ok(contents)).unwrap();
        proof {
            assert forall|i: int|
                0 <= i < known.len() && (#[trigger] known[i]).contents
                    == contents@ implies exists|found: Option<ImageDescription<W::UserData>>|
                {
                    &&& #[trigger] call_ensures(W::upgrade, (&known[i].link,), found)
                    &&& match found {
                        Some(d) if d.id_spec() == known[i].id && d.contents_spec() == contents@ =>
                            desc == d && self.known() == known && ids@ == next,
                        _ => desc.id_spec() == next,
                    }
                } by {
                its_own_link_decides(known, next, i, self.known(), ids@, desc);
            }
        }
        desc
    }
}

impl<W: WeakHandle> ColorManagementState<W> {
    /// Forgets the description `gone`, and those that are no longer there. `found` is what the
    /// link of each known description gives.
    pub fn retain_with_found(
        &mut self,
        gone: &ImageDescription<W::UserData>,
        found: &Vec<Option<ImageDescription<W::UserData>>>,
    )
        requires
            old(self).wf(),
            found@.len() == old(self).known().len(),
        ensures
            final(self).wf(),
            final(self).support() == old(self).support(),
            final(self).known() == kept(old(self).known(), found@, *gone),
    {
        let ghost known = self.known();
        let mut i: usize = 0;
        let mut all: Vec<KnownDescription<W>> = Vec::new();
        let mut rest: Vec<KnownDescription<W>> = Vec::new();
        std::mem::swap(&mut all, &mut self.known_image_descriptions);
        for record in records: all
            invariant
                known == models(records.seq()),
                found@.len() == known.len(),
                i == records.index(),
                models(rest@) == kept(known.take(i as int), found@, *gone),
        {
            let ghost before = models(rest@);
            assert(known[i as int] == record@);
            assert(known.take(i + 1).drop_last() =~= known.take(i as int));
            assert(i < found.len());
            let live = match &found[i] {
                Some(desc) => record.names(desc),
                None => false,
            };
            if live && !record.names(gone) {
                rest.push(record);
                assert(models(rest@) =~= before.push(known[i as int]));
            }
            i += 1;
        }
        assert(known.take(i as int) =~= known);
        proof {
            kept_stay_unique(known, found@, *gone);
        }
        self.known_image_descriptions = rest;
    }

    /// Forgets a description that a client has destroyed, and those that are no longer there.
    pub fn description_destroyed(&mut self, info: &ImageDescription<W::UserData>)
        requires
            old(self).wf(),
        ensures
            final(self).wf(),
            final(self).support() == old(self).support(),
            exists|found: Seq<Option<ImageDescription<W::UserData>>>|
                {
                    &&& found.len() == old(self).known().len()
                    &&& forall|j: int|
                        0 <= j < found.len() ==> upgraded(
                            old(self).known()[j].link,
                            #[trigger] found[j],
                        )
                    &&& final(self).known() == #[trigger] kept(old(self).known(), found, *info)
                },
            forall|i: int|
                0 <= i < final(self).known().len() ==> !(
                #[trigger] final(self).known()[i]).names(*info) && old(self).known().contains(
                    final(self).known()[i],
                ),
    {
        let ghost known = self.known();
        let mut found: Vec<Option<ImageDescription<W::UserData>>> = Vec::new();
        let mut i: usize = 0;
        while i < self.known_image_descriptions.len()
            invariant
                known == models(self.known_image_descriptions@),
                i <= known.len(),
                found@.len() == i,
                forall|j: int| 0 <= j < i ==> upgraded(known[j].link, #[trigger] found@[j]),
            decreases known.len() - i,
        {
            assert(known[i as int] == self.known_image_descriptions@[i as int]@);
            found.push(self.known_image_descriptions[i].link.upgrade());
            i += 1;
        }
        proof {
            kept_are_known(known, found@, *info);
        }
        self.retain_with_found(info, &found);
    }
}

/// What is kept was known, still there and not the destroyed one; and whatever was is kept.
pub proof fn kept_are_known<U, W>(
    known: Seq<KnownModel<W>>,
    found: Seq<Option<ImageDescription<U>>>,
    gone: ImageDescription<U>,
)
    requires
        found.len() >= known.len(),
    ensures
        forall|k: KnownModel<W>| #[trigger]
            kept(known, found, gone).contains(k) <==> exists|i: int|
                0 <= i < known.len() && #[trigger] known[i] == k && k.is_live(found[i])
                    && !k.names(gone),
        forall|i: int|
            0 <= i < kept(known, found, gone).len() ==> !(#[trigger] kept(
                known,
                found,
                gone,
            )[i]).names(gone) && known.contains(kept(known, found, gone)[i]),
    decreases known.len(),
{
    let all = kept(known, found, gone);
    if known.len() > 0 {
        let init = known.drop_last();
        let before = kept(init, found, gone);
        kept_are_known(init, found, gone);
        let n = known.len() - 1;
        assert forall|k: KnownModel<W>| #[trigger] all.contains(k) <==> exists|i: int|
            0 <= i < known.len() && #[trigger] known[i] == k && k.is_live(found[i])
                && !k.names(gone) by {
            if all.contains(k) {
                let j = choose|j: int| 0 <= j < all.len() && all[j] == k;
                if j < before.len() {
                    assert(before[j] == k);
                    assert(before.contains(k));
                    let i = choose|i: int|
                        0 <= i < init.len() && #[trigger] init[i] == k && k.is_live(found[i])
                            && !k.names(gone);
                    assert(known[i] == k);
                } else {
                    assert(known[n] == k);
                }
            }
            if exists|i: int|
                0 <= i < known.len() && #[trigger] known[i] == k && k.is_live(found[i])
                    && !k.names(gone) {
                let i = choose|i: int|
                    0 <= i < known.len() && #[trigger] known[i] == k && k.is_live(found[i])
                        && !k.names(gone);
                if i < n {
                    assert(init[i] == k);
                    assert(before.contains(k));
                    let j = choose|j: int| 0 <= j < before.len() && before[j] == k;
                    assert(all[j] == k);
                } else {
                    assert(all[all.len() - 1] == k);
                }
            }
        }
    }
    assert forall|j: int| 0 <= j < all.len() implies !(#[trigger] all[j]).names(gone)
        && known.contains(all[j]) by {
        assert(all.contains(all[j]));
    }
}

/// Dropping descriptions makes none of the rest the same.
pub proof fn kept_stay_unique<U, W>(
    known: Seq<KnownModel<W>>,
    found: Seq<Option<ImageDescription<U>>>,
    gone: ImageDescription<U>,
)
    requires
        found.len() >= known.len(),
        contents_unique(known),
    ensures
        contents_unique(kept(known, found, gone)),
    decreases known.len(),
{
    if known.len() > 0 {
        let init = known.drop_last();
        let before = kept(init, found, gone);
        assert forall|i: int, j: int| 0 <= i < j < init.len() implies (
        #[trigger] init[i]).contents != (#[trigger] init[j]).contents by {
            assert(init[i] == known[i] && init[j] == known[j]);
        }
        kept_stay_unique(init, found, gone);
        kept_are_known(init, found, gone);
        assert forall|k: int| 0 <= k < before.len() implies (#[trigger] before[k]).contents
            != known.last().contents by {
            assert(init.contains(before[k]));
            let i = choose|i: int| 0 <= i < init.len() && init[i] == before[k];
            assert(known[i] == init[i]);
        }
    }
}

} // verus!
