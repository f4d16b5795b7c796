//! What holds of image descriptions over several calls.

use vstd::prelude::*;

use crate::management::builder::DescriptionError;
use crate::management::description::{ContentsModel, ImageDescription};
use crate::management::state::{
    build_linked, build_outcome, build_step, contents_unique, id_after, ids_unique_below, is_new_description, kept,
    kept_are_known, position, position_finds_contents, KnownModel,
};
use crate::management::weak::{upgraded, WeakHandle};

verus! {

/// The number that is handed out after `n` others, from `start` on.
pub open spec fn id_after_all(start: u64, n: nat) -> u64
    decreases n,
{
    if n == 0 {
        start
    } else {
        id_after(id_after_all(start, (n - 1) as nat))
    }
}

proof fn ids_count_up(start: u64, n: nat)
    ensures
        id_after_all(start, n) == (start + n) % 0x1_0000_0000_0000_0000,
    decreases n,
{
    if n > 0 {
        ids_count_up(start, (n - 1) as nat);
        let before = start + n - 1;
        assert((before + 1) % 0x1_0000_0000_0000_0000 == (if before % 0x1_0000_0000_0000_0000
            == 0xffff_ffff_ffff_ffff {
            0
        } else {
            before % 0x1_0000_0000_0000_0000 + 1
        }));
    }
}

/// No number is handed out twice among as many as there are numbers.
pub proof fn ids_are_not_repeated(start: u64, n: nat, m: nat)
    requires
        n < m,
        m - n < 0x1_0000_0000_0000_0000,
    ensures
        id_after_all(start, n) != id_after_all(start, m),
{
    ids_count_up(start, n);
    ids_count_up(start, m);
    let a = start + n;
    let b = start + m;
    if a % 0x1_0000_0000_0000_0000 == b % 0x1_0000_0000_0000_0000 {
        assert(b - a == 0x1_0000_0000_0000_0000 * (b / 0x1_0000_0000_0000_0000 - a
            / 0x1_0000_0000_0000_0000));
    }
}

/// The description that a build gives is known afterwards, under its contents.
pub proof fn built_description_is_known<W: WeakHandle>(
    known: Seq<KnownModel<W>>,
    next: u64,
    contents: ContentsModel,
    found: Option<ImageDescription<W::UserData>>,
    known_after: Seq<KnownModel<W>>,
    next_after: u64,
    desc: ImageDescription<W::UserData>,
) where W::UserData: Default
    requires
        contents_unique(known),
        build_step(known, next, contents, found, known_after, next_after, desc),
    ensures
        contents_unique(known_after),
        position(known_after, contents) matches Some(i) && known_after[i].names(desc),
        desc.contents_spec() == contents,
{
    position_finds_contents(known, contents);
    position_finds_contents(known_after, contents);
    match position(known, contents) {
        Some(i) => {
            assert(known_after[i].names(desc));
        },
        None => {
            assert(known_after[known.len() as int].names(desc));
        },
    }
}

/// Whoever asks for the same contents while the link gives the description back gets that
/// description, and nothing changes.
pub proof fn live_description_is_shared<W: WeakHandle>(
    known: Seq<KnownModel<W>>,
    next: u64,
    contents: ContentsModel,
    found: Option<ImageDescription<W::UserData>>,
    known1: Seq<KnownModel<W>>,
    next1: u64,
    desc1: ImageDescription<W::UserData>,
    found1: Option<ImageDescription<W::UserData>>,
    known2: Seq<KnownModel<W>>,
    next2: u64,
    desc2: ImageDescription<W::UserData>,
) where W::UserData: Default
    requires
        contents_unique(known),
        build_step(known, next, contents, found, known1, next1, desc1),
        build_step(known1, next1, contents, found1, known2, next2, desc2),
        found1 == Some(desc1),
    ensures
        desc2 == desc1,
        known2 == known1,
        next2 == next1,
{
    built_description_is_known(known, next, contents, found, known1, next1, desc1);
}

/// A description that is no longer there is made anew, with a number that was not used before.
pub proof fn dead_description_is_remade<W: WeakHandle>(
    known: Seq<KnownModel<W>>,
    next: u64,
    contents: ContentsModel,
    found: Option<ImageDescription<W::UserData>>,
    known_after: Seq<KnownModel<W>>,
    next_after: u64,
    desc: ImageDescription<W::UserData>,
) where W::UserData: Default
    requires
        ids_unique_below(known, next),
        build_step(known, next, contents, found, known_after, next_after, desc),
        position(known, contents) matches Some(i) ==> !known[i].is_live(found),
    ensures
        is_new_description(desc, next, contents),
        forall|i: int|
            0 <= i < known.len() ==> (#[trigger] known[i]).id != desc.id_spec(),
{
}

/// Wherever the description with the wanted contents stands among the known ones, it is its own
/// link that is asked, and what the link gives decides. Where that is the description, it is
/// what the build gives, and nothing changes. Where it is not, the build gives a description with
/// the next number and the wanted contents, in the place of the one that was known, and leaves
/// the others as they are.
pub proof fn its_own_link_decides<W: WeakHandle>(
    known: Seq<KnownModel<W>>,
    next: u64,
    i: int,
    known_after: Seq<KnownModel<W>>,
    next_after: u64,
    desc: ImageDescription<W::UserData>,
) where W::UserData: Default
    requires
        contents_unique(known),
        0 <= i < known.len(),
        build_linked(known, next, known[i].contents, known_after, next_after, desc),
    ensures
        exists|found: Option<ImageDescription<W::UserData>>|
            {
                &&& #[trigger] call_ensures(W::upgrade, (&known[i].link,), found)
                &&& match found {
                    Some(d) if d.id_spec() == known[i].id && d.contents_spec()
                        == known[i].contents => desc == d && known_after == known && next_after
                        == next,
                    _ => desc.id_spec() == next && desc.contents_spec() == known[i].contents
                        && next_after == (if next == u64::MAX {
                        0
                    } else {
                        next + 1
                    }) && known_after.len() == known.len() && known_after[i].id == next
                        && known_after[i].contents == known[i].contents && call_ensures(
                        W::downgrade,
                        (&desc,),
                        known_after[i].link,
                    ) && (forall|j: int|
                        0 <= j < known.len() && j != i ==> #[trigger] known_after[j] == known[j]),
                }
            },
{
    let contents = known[i].contents;
    position_finds_contents(known, contents);
    let p = position(known, contents)->Some_0;
    if p < i {
        assert(known[p].contents != known[i].contents);
    } else if i < p {
        assert(known[i].contents != known[p].contents);
    }
    let found = choose|found: Option<ImageDescription<W::UserData>>|
        {
            &&& upgraded(known[i].link, found)
            &&& #[trigger] build_step(known, next, contents, found, known_after, next_after, desc)
        };
    assert(call_ensures(W::upgrade, (&known[i].link,), found));
}

/// A description whose link always gives it back is the one that is given to whoever asks for its
/// contents, wherever it stands among the known ones, and nothing changes.
pub proof fn description_that_comes_back_is_given<W: WeakHandle>(
    known: Seq<KnownModel<W>>,
    next: u64,
    i: int,
    there: ImageDescription<W::UserData>,
    known_after: Seq<KnownModel<W>>,
    next_after: u64,
    desc: ImageDescription<W::UserData>,
) where W::UserData: Default
    requires
        contents_unique(known),
        0 <= i < known.len(),
        there.id_spec() == known[i].id,
        there.contents_spec() == known[i].contents,
        forall|found: Option<ImageDescription<W::UserData>>| #[trigger]
            call_ensures(W::upgrade, (&known[i].link,), found) ==> found == Some(there),
        build_linked(known, next, known[i].contents, known_after, next_after, desc),
    ensures
        desc == there,
        known_after == known,
        next_after == next,
{
    its_own_link_decides(known, next, i, known_after, next_after, desc);
}

/// Contents that no known description has make a description with the next number, which is then
/// known beside the others.
pub proof fn unknown_contents_are_added<W: WeakHandle>(
    known: Seq<KnownModel<W>>,
    next: u64,
    contents: ContentsModel,
    known_after: Seq<KnownModel<W>>,
    next_after: u64,
    desc: ImageDescription<W::UserData>,
) where W::UserData: Default
    requires
        forall|i: int| 0 <= i < known.len() ==> (#[trigger] known[i]).contents != contents,
        build_linked(known, next, contents, known_after, next_after, desc),
    ensures
        desc.id_spec() == next,
        desc.contents_spec() == contents,
        call_ensures(<W::UserData as Default>::default, (), desc.user_data_spec()),
        next_after == if next == u64::MAX {
            0
        } else {
            next + 1
        },
        known_after.len() == known.len() + 1,
        known_after.drop_last() == known,
        known_after.last().id == next,
        known_after.last().contents == contents,
        call_ensures(W::downgrade, (&desc,), known_after.last().link),
{
    position_finds_contents(known, contents);
    assert(known_after.drop_last() =~= known);
}

/// A builder's error is handed on and changes nothing; what was built is given to whoever asked.
pub proof fn builds_fail_as_their_builder<W: WeakHandle>(
    known: Seq<KnownModel<W>>,
    next: u64,
    contents: Result<ContentsModel, DescriptionError>,
    known_after: Seq<KnownModel<W>>,
    next_after: u64,
    built: Result<ImageDescription<W::UserData>, DescriptionError>,
) where W::UserData: Default
    requires
        build_outcome(known, next, contents, known_after, next_after, built),
    ensures
        built is Ok <==> contents is Ok,
        contents matches Err(error) ==> built == Err::<ImageDescription<W::UserData>, _>(error)
            && known_after == known && next_after == next,
        contents matches Ok(c) ==> (built matches Ok(desc) && desc.contents_spec() == c
            && build_linked(known, next, c, known_after, next_after, desc)),
{
}

/// A description stays known through a destruction exactly where its link gives it back and it is
/// not the one that is destroyed. Nothing becomes known.
pub proof fn destruction_keeps_what_comes_back<U, W>(
    known: Seq<KnownModel<W>>,
    found: Seq<Option<ImageDescription<U>>>,
    gone: ImageDescription<U>,
    k: KnownModel<W>,
)
    requires
        found.len() == known.len(),
    ensures
        kept(known, found, gone).len() <= known.len(),
        kept(known, found, gone).contains(k) <==> exists|i: int|
            {
                &&& 0 <= i < known.len()
                &&& #[trigger] known[i] == k
                &&& found[i] matches Some(d) && d.id_spec() == k.id && d.contents_spec()
                    == k.contents
                &&& !(gone.id_spec() == k.id && gone.contents_spec() == k.contents)
            },
{
    kept_are_known(known, found, gone);
    kept_is_no_longer(known, found, gone);
    if kept(known, found, gone).contains(k) {
        let i = choose|i: int|
            0 <= i < known.len() && #[trigger] known[i] == k && k.is_live(found[i]) && !k.names(
                gone,
            );
        assert(known[i] == k);
    }
}

proof fn kept_is_no_longer<U, W>(
    known: Seq<KnownModel<W>>,
    found: Seq<Option<ImageDescription<U>>>,
    gone: ImageDescription<U>,
)
    ensures
        kept(known, found, gone).len() <= known.len(),
    decreases known.len(),
{
    if known.len() > 0 {
        kept_is_no_longer(known.drop_last(), found, gone);
    }
}

/// Building keeps the numbers of the known descriptions apart, and those yet to come apart from
/// them, up to the last number.
pub proof fn building_keeps_ids_unique<W: WeakHandle>(
    known: Seq<KnownModel<W>>,
    next: u64,
    contents: ContentsModel,
    found: Option<ImageDescription<W::UserData>>,
    known_after: Seq<KnownModel<W>>,
    next_after: u64,
    desc: ImageDescription<W::UserData>,
) where W::UserData: Default
    requires
        next < u64::MAX,
        ids_unique_below(known, next),
        build_step(known, next, contents, found, known_after, next_after, desc),
    ensures
        ids_unique_below(known_after, next_after),
        desc.id_spec() < next_after,
{
    position_finds_contents(known, contents);
}

/// Destroying keeps the numbers apart.
pub proof fn destroying_keeps_ids_unique<U, W>(
    known: Seq<KnownModel<W>>,
    found: Seq<Option<ImageDescription<U>>>,
    gone: ImageDescription<U>,
    next: u64,
)
    requires
        found.len() >= known.len(),
        ids_unique_below(known, next),
    ensures
        ids_unique_below(kept(known, found, gone), next),
    decreases known.len(),
{
    if known.len() > 0 {
        let init = known.drop_last();
        let before = kept(init, found, gone);
        assert forall|i: int, j: int| 0 <= i < j < init.len() implies (
        #[trigger] init[i]).id != (#[trigger] init[j]).id by {
            assert(init[i] == known[i] && init[j] == known[j]);
        }
        destroying_keeps_ids_unique(init, found, gone, next);
        kept_are_known(init, found, gone);
        assert forall|k: int| 0 <= k < before.len() implies (#[trigger] before[k]).id
            != known.last().id by {
            assert(init.contains(before[k]));
            let i = choose|i: int| 0 <= i < init.len() && init[i] == before[k];
            assert(known[i] == init[i]);
        }
    }
}

/// Descriptions that say different things have different numbers.
pub proof fn different_contents_have_different_ids<W: WeakHandle>(
    known: Seq<KnownModel<W>>,
    next: u64,
    contents1: ContentsModel,
    found1: Option<ImageDescription<W::UserData>>,
    known1: Seq<KnownModel<W>>,
    next1: u64,
    desc1: ImageDescription<W::UserData>,
    contents2: ContentsModel,
    found2: Option<ImageDescription<W::UserData>>,
    known2: Seq<KnownModel<W>>,
    next2: u64,
    desc2: ImageDescription<W::UserData>,
) where W::UserData: Default
    requires
        next < u64::MAX,
        contents_unique(known),
        ids_unique_below(known, next),
        build_step(known, next, contents1, found1, known1, next1, desc1),
        build_step(known1, next1, contents2, found2, known2, next2, desc2),
        contents1 != contents2,
    ensures
        desc1.id_spec() != desc2.id_spec(),
{
    built_description_is_known(known, next, contents1, found1, known1, next1, desc1);
    building_keeps_ids_unique(known, next, contents1, found1, known1, next1, desc1);
    position_finds_contents(known1, contents1);
    position_finds_contents(known1, contents2);
}

/// Once a description is destroyed, asking for its contents again makes a new one.
pub proof fn destroyed_description_is_forgotten<U, W>(
    known: Seq<KnownModel<W>>,
    found: Seq<Option<ImageDescription<U>>>,
    desc: ImageDescription<U>,
)
    requires
        found.len() == known.len(),
        contents_unique(known),
        position(known, desc.contents_spec()) matches Some(i) ==> known[i].names(desc),
    ensures
        position(kept(known, found, desc), desc.contents_spec()) is None,
{
    let contents = desc.contents_spec();
    let rest = kept(known, found, desc);
    kept_are_known(known, found, desc);
    position_finds_contents(known, contents);
    position_finds_contents(rest, contents);
    match position(rest, contents) {
        Some(k) => {
            assert(known.contains(rest[k]));
            let i = choose|i: int| 0 <= i < known.len() && known[i] == rest[k];
            let j = position(known, contents)->Some_0;
            if i < j {
                assert(known[i].contents != known[j].contents);
            } else if j < i {
                assert(known[j].contents != known[i].contents);
            }
        },
        None => {},
    }
}

} // verus!
