//! What holds of image descriptions over the life of a process: any number of color managers
//! that take their numbers from one supply.

use vstd::prelude::*;

use crate::management::description::{ContentsModel, ImageDescription};
use crate::management::laws::built_description_is_known;
use crate::management::state::{
    build_step, contents_unique, kept, kept_are_known, kept_stay_unique, position,
    position_finds_contents, KnownModel,
};
use crate::management::weak::WeakHandle;

verus! {

/// A description, and the color manager that made it.
pub struct Made<U> {
    pub manager: int,
    pub desc: ImageDescription<U>,
}

/// A moment in the life of a process.
pub struct World<U, W> {
    /// The number that is handed out next.
    pub next: u64,
    /// The descriptions that each color manager knows.
    pub known: Map<int, Seq<KnownModel<W>>>,
    /// Every description that was made so far, the first one first.
    pub made: Seq<Made<U>>,
}

/// Something that happens to image descriptions.
pub enum Event<U> {
    /// A color manager is asked for `contents` and gives `desc`. `found` is what the link of the
    /// description that it knows already gives, where it knows one.
    Build {
        manager: int,
        contents: ContentsModel,
        found: Option<ImageDescription<U>>,
        desc: ImageDescription<U>,
    },
    /// A description is destroyed. `all_found` is what the links of the descriptions that the
    /// color manager knows give.
    Destroy {
        manager: int,
        gone: ImageDescription<U>,
        all_found: Seq<Option<ImageDescription<U>>>,
    },
}

/// Whether asking for `contents` makes a description: none is known, or it is no longer there.
pub open spec fn makes_one<U, W>(
    known: Seq<KnownModel<W>>,
    contents: ContentsModel,
    found: Option<ImageDescription<U>>,
) -> bool {
    position(known, contents) matches Some(i) ==> !known[i].is_live(found)
}

/// `desc` was made by some color manager.
pub open spec fn was_made<U>(made: Seq<Made<U>>, desc: ImageDescription<U>) -> bool {
    exists|i: int| 0 <= i < made.len() && (#[trigger] made[i]).desc == desc
}

/// Nothing is known to any color manager but `manager` that was not before.
pub open spec fn others_unchanged<U, W>(
    before: World<U, W>,
    manager: int,
    after: World<U, W>,
) -> bool {
    forall|m: int| m != manager ==> #[trigger] after.known[m] == before.known[m]
}

/// How an event leads from one moment to the next. A link can only give a description that was
/// made before.
pub open spec fn happens<W: WeakHandle>(
    before: World<W::UserData, W>,
    event: Event<W::UserData>,
    after: World<W::UserData, W>,
) -> bool where W::UserData: Default {
    match event {
        Event::Build { manager, contents, found, desc } => {
            &&& found matches Some(d) ==> was_made(before.made, d)
            &&& build_step(
                before.known[manager],
                before.next,
                contents,
                found,
                after.known[manager],
                after.next,
                desc,
            )
            &&& others_unchanged(before, manager, after)
            &&& after.made == if makes_one(before.known[manager], contents, found) {
                before.made.push(Made { manager, desc })
            } else {
                before.made
            }
        },
        Event::Destroy { manager, gone, all_found } => {
            &&& all_found.len() == before.known[manager].len()
            &&& after.known[manager] == kept(before.known[manager], all_found, gone)
            &&& others_unchanged(before, manager, after)
            &&& after.next == before.next
            &&& after.made == before.made
        },
    }
}

/// At first no description is known or was made, and the numbers start at one.
pub open spec fn at_first<U, W>(world: World<U, W>) -> bool {
    &&& world.next == 1
    &&& world.made == Seq::<Made<U>>::empty()
    &&& forall|m: int| #[trigger] world.known[m] == Seq::<KnownModel<W>>::empty()
}

/// The life of a process in which the numbers have not run out: `events[i]` leads from `worlds[i]`
/// to the world after it.
pub open spec fn is_history<W: WeakHandle>(
    worlds: Seq<World<W::UserData, W>>,
    events: Seq<Event<W::UserData>>,
) -> bool where W::UserData: Default {
    &&& worlds.len() == events.len() + 1
    &&& at_first(worlds[0])
    &&& forall|i: int|
        0 <= i < events.len() ==> happens(worlds[i], #[trigger] events[i], worlds[i + 1])
    &&& forall|i: int| 0 <= i < worlds.len() ==> (#[trigger] worlds[i]).next != 0
}

/// Numbers are at least one, and below the one that is handed out next.
pub open spec fn numbers_below<U>(made: Seq<Made<U>>, next: u64) -> bool {
    forall|i: int| 0 <= i < made.len() ==> 1 <= (#[trigger] made[i]).desc.id_spec() < next
}

/// What is made gets the numbers from one on, without a gap.
pub open spec fn numbers_count_up<U>(made: Seq<Made<U>>, next: u64) -> bool {
    &&& next == made.len() + 1
    &&& forall|i: int| 0 <= i < made.len() ==> (#[trigger] made[i]).desc.id_spec() == i + 1
}

/// What is made later has a greater number.
pub open spec fn numbers_rise<U>(made: Seq<Made<U>>) -> bool {
    forall|i: int, j: int|
        0 <= i < j < made.len() ==> (#[trigger] made[i]).desc.id_spec() < (
        #[trigger] made[j]).desc.id_spec()
}

/// A color manager knows only what it made.
pub open spec fn known_were_made<U, W>(world: World<U, W>) -> bool {
    forall|m: int, k: int|
        0 <= k < world.known[m].len() ==> made_by(world.made, m, #[trigger] world.known[m][k])
}

/// The color manager made what it knows by this record.
pub open spec fn made_by<U, W>(made: Seq<Made<U>>, manager: int, record: KnownModel<W>) -> bool {
    exists|i: int|
        0 <= i < made.len() && (#[trigger] made[i]).manager == manager && record.names(made[i].desc)
}

/// Of what a color manager made with the same contents, it knows the last, if any.
pub open spec fn known_are_latest<U, W>(world: World<U, W>) -> bool {
    forall|m: int, k: int, i: int|
        #![trigger world.known[m][k], world.made[i]]
        0 <= k < world.known[m].len() && 0 <= i < world.made.len() && world.made[i].manager == m
            && world.made[i].desc.contents_spec() == world.known[m][k].contents
            ==> world.made[i].desc.id_spec() <= world.known[m][k].id
}

/// What holds at every moment.
pub open spec fn world_inv<U, W>(world: World<U, W>) -> bool {
    &&& numbers_below(world.made, world.next)
    &&& numbers_count_up(world.made, world.next)
    &&& numbers_rise(world.made)
    &&& known_were_made(world)
    &&& known_are_latest(world)
    &&& forall|m: int| contents_unique(#[trigger] world.known[m])
}

/// An event keeps what holds at every moment, as long as the numbers do not run out.
proof fn event_keeps_inv<W: WeakHandle>(
    before: World<W::UserData, W>,
    event: Event<W::UserData>,
    after: World<W::UserData, W>,
) where W::UserData: Default
    requires
        world_inv(before),
        before.next != 0,
        happens(before, event, after),
        after.next != 0,
    ensures
        world_inv(after),
        before.next <= after.next,
{
    match event {
        Event::Build { manager, contents, found, desc } => {
            let known = before.known[manager];
            let known2 = after.known[manager];
            position_finds_contents(known, contents);
            built_description_is_known(
                known,
                before.next,
                contents,
                found,
                known2,
                after.next,
                desc,
            );
            if makes_one(known, contents, found) {
                let new = Made { manager, desc };
                assert(after.made[before.made.len() as int] == new);
                position_finds_contents(known2, contents);
                assert forall|m: int, k: int| 0 <= k < after.known[m].len() implies made_by(
                    after.made,
                    m,
                    #[trigger] after.known[m][k],
                ) by {
                    let record = after.known[m][k];
                    if m == manager && record.contents == contents {
                        assert(record.names(after.made[before.made.len() as int].desc));
                    } else {
                        assert(record == before.known[m][k]);
                        assert(made_by(before.made, m, before.known[m][k]));
                        let i = choose|i: int|
                            0 <= i < before.made.len() && (#[trigger] before.made[i]).manager == m
                                && record.names(before.made[i].desc);
                        assert(after.made[i] == before.made[i]);
                    }
                }
                assert forall|m: int, k: int, i: int|
                    #![trigger after.known[m][k], after.made[i]]
                    0 <= k < after.known[m].len() && 0 <= i < after.made.len()
                        && after.made[i].manager == m && after.made[i].desc.contents_spec()
                        == after.known[m][k].contents implies after.made[i].desc.id_spec()
                    <= after.known[m][k].id by {
                    let record = after.known[m][k];
                    if i < before.made.len() {
                        assert(after.made[i] == before.made[i]);
                    }
                    if m == manager && record.contents == contents {
                        assert(record.names(desc));
                    } else {
                        assert(record == before.known[m][k]);
                    }
                }
            } else {
                assert forall|m: int| #[trigger] after.known[m] == before.known[m] by {}
            }
            assert forall|m: int| contents_unique(#[trigger] after.known[m]) by {
                assert(contents_unique(before.known[m]));
            }
        },
        Event::Destroy { manager, gone, all_found } => {
            let known = before.known[manager];
            kept_are_known(known, all_found, gone);
            kept_stay_unique(known, all_found, gone);
            assert forall|m: int, k: int| 0 <= k < after.known[m].len() implies exists|l: int|
                0 <= l < before.known[m].len() && #[trigger] before.known[m][l]
                    == #[trigger] after.known[m][k] by {
                if m == manager {
                    assert(known.contains(after.known[m][k]));
                } else {
                    assert(before.known[m][k] == after.known[m][k]);
                }
            }
            assert forall|m: int| contents_unique(#[trigger] after.known[m]) by {
                assert(contents_unique(before.known[m]));
            }
        },
    }
}

/// At every moment the numbers of what was made rise from one on, and each color manager knows
/// only what it made, the last of each contents.
pub proof fn history_keeps_numbers<W: WeakHandle>(
    worlds: Seq<World<W::UserData, W>>,
    events: Seq<Event<W::UserData>>,
    n: int,
) where W::UserData: Default
    requires
        is_history(worlds, events),
        0 <= n < worlds.len(),
    ensures
        world_inv(worlds[n]),
    decreases n,
{
    if n > 0 {
        history_keeps_numbers(worlds, events, n - 1);
        assert(happens(worlds[n - 1], events[n - 1], worlds[n - 1 + 1]));
        event_keeps_inv(worlds[n - 1], events[n - 1], worlds[n]);
    }
}

/// What was made stays made.
proof fn made_stays_made<W: WeakHandle>(
    worlds: Seq<World<W::UserData, W>>,
    events: Seq<Event<W::UserData>>,
    i: int,
    j: int,
    made: Made<W::UserData>,
) where W::UserData: Default
    requires
        is_history(worlds, events),
        0 <= i <= j < worlds.len(),
        worlds[i].made.contains(made),
    ensures
        worlds[j].made.contains(made),
    decreases j - i,
{
    if i < j {
        made_stays_made(worlds, events, i, j - 1, made);
        assert(happens(worlds[j - 1], events[j - 1], worlds[j - 1 + 1]));
        let before = worlds[j - 1].made;
        let k = choose|k: int| 0 <= k < before.len() && before[k] == made;
        assert(worlds[j].made[k] == made);
    }
}

/// What a build gives was made by the color manager that was asked, and has the contents that
/// were asked for.
pub proof fn built_was_made<W: WeakHandle>(
    worlds: Seq<World<W::UserData, W>>,
    events: Seq<Event<W::UserData>>,
    i: int,
    manager: int,
    contents: ContentsModel,
    found: Option<ImageDescription<W::UserData>>,
    desc: ImageDescription<W::UserData>,
) where W::UserData: Default
    requires
        is_history(worlds, events),
        0 <= i < events.len(),
        events[i] == (Event::Build { manager, contents, found, desc }),
    ensures
        worlds[i + 1].made.contains((Made { manager, desc })),
        desc.contents_spec() == contents,
        1 <= desc.id_spec() < worlds[i + 1].next,
{
    history_keeps_numbers(worlds, events, i);
    history_keeps_numbers(worlds, events, i + 1);
    assert(happens(worlds[i], events[i], worlds[i + 1]));
    let before = worlds[i];
    let after = worlds[i + 1];
    let made = Made { manager, desc };
    position_finds_contents(before.known[manager], contents);
    if makes_one(before.known[manager], contents, found) {
        assert(after.made[before.made.len() as int] == made);
    } else {
        let p = position(before.known[manager], contents)->Some_0;
        let record = before.known[manager][p];
        assert(made_by(before.made, manager, record));
        let i = choose|i: int|
            0 <= i < before.made.len() && (#[trigger] before.made[i]).manager == manager
                && record.names(before.made[i].desc);
        let j = choose|j: int| 0 <= j < before.made.len() && (#[trigger] before.made[j]).desc == desc;
        made_once(before, before.made[i], before.made[j]);
        assert(before.made[i] == made);
    }
    let k = choose|k: int| 0 <= k < after.made.len() && after.made[k] == made;
    assert(after.made[k].desc == desc);
}

/// Two numbers are the same exactly when the descriptions are, and then one color manager made
/// them.
proof fn made_once<U, W>(world: World<U, W>, a: Made<U>, b: Made<U>)
    requires
        world_inv(world),
        world.made.contains(a),
        world.made.contains(b),
    ensures
        a.desc.id_spec() == b.desc.id_spec() <==> a == b,
{
    let i = choose|i: int| 0 <= i < world.made.len() && world.made[i] == a;
    let j = choose|j: int| 0 <= j < world.made.len() && world.made[j] == b;
    if i < j {
        assert(world.made[i].desc.id_spec() < world.made[j].desc.id_spec());
    } else if j < i {
        assert(world.made[j].desc.id_spec() < world.made[i].desc.id_spec());
    }
}

/// Any two builds, by one color manager or by two, give the same number exactly when they give
/// the same description, and the same description exactly when it compares equal. Two color
/// managers never give equal ones. Numbers are at least one.
pub proof fn numbers_tell_descriptions_apart<W: WeakHandle>(
    worlds: Seq<World<W::UserData, W>>,
    events: Seq<Event<W::UserData>>,
    i: int,
    j: int,
    manager1: int,
    contents1: ContentsModel,
    found1: Option<ImageDescription<W::UserData>>,
    desc1: ImageDescription<W::UserData>,
    manager2: int,
    contents2: ContentsModel,
    found2: Option<ImageDescription<W::UserData>>,
    desc2: ImageDescription<W::UserData>,
) where W::UserData: Default
    requires
        is_history(worlds, events),
        0 <= i <= j < events.len(),
        events[i] == (Event::Build {
            manager: manager1,
            contents: contents1,
            found: found1,
            desc: desc1,
        }),
        events[j] == (Event::Build {
            manager: manager2,
            contents: contents2,
            found: found2,
            desc: desc2,
        }),
    ensures
        desc1.id_spec() >= 1 && desc2.id_spec() >= 1,
        desc1.id_spec() == desc2.id_spec() <==> desc1 == desc2,
        desc1.same(&desc2) <==> desc1 == desc2,
        manager1 != manager2 ==> !desc1.same(&desc2),
        contents1 != contents2 ==> !desc1.same(&desc2),
{
    let made1 = Made { manager: manager1, desc: desc1 };
    let made2 = Made { manager: manager2, desc: desc2 };
    built_was_made(worlds, events, i, manager1, contents1, found1, desc1);
    built_was_made(worlds, events, j, manager2, contents2, found2, desc2);
    made_stays_made(worlds, events, i + 1, j + 1, made1);
    history_keeps_numbers(worlds, events, j + 1);
    made_once(worlds[j + 1], made1, made2);
}

/// A description that is made has a greater number than everything that any color manager gave
/// before.
pub proof fn new_numbers_are_greater<W: WeakHandle>(
    worlds: Seq<World<W::UserData, W>>,
    events: Seq<Event<W::UserData>>,
    i: int,
    j: int,
    manager1: int,
    contents1: ContentsModel,
    found1: Option<ImageDescription<W::UserData>>,
    desc1: ImageDescription<W::UserData>,
    manager2: int,
    contents2: ContentsModel,
    found2: Option<ImageDescription<W::UserData>>,
    desc2: ImageDescription<W::UserData>,
) where W::UserData: Default
    requires
        is_history(worlds, events),
        0 <= i < j < events.len(),
        events[i] == (Event::Build {
            manager: manager1,
            contents: contents1,
            found: found1,
            desc: desc1,
        }),
        events[j] == (Event::Build {
            manager: manager2,
            contents: contents2,
            found: found2,
            desc: desc2,
        }),
        makes_one(worlds[j].known[manager2], contents2, found2),
    ensures
        desc1.id_spec() < desc2.id_spec(),
{
    let made1 = Made { manager: manager1, desc: desc1 };
    built_was_made(worlds, events, i, manager1, contents1, found1, desc1);
    made_stays_made(worlds, events, i + 1, j, made1);
    history_keeps_numbers(worlds, events, j);
    assert(happens(worlds[j], events[j], worlds[j + 1]));
    let k = choose|k: int| 0 <= k < worlds[j].made.len() && worlds[j].made[k] == made1;
    assert(worlds[j].made[k].desc.id_spec() < worlds[j].next);
}

/// The color manager knows `desc`.
pub open spec fn knows<U, W>(world: World<U, W>, manager: int, desc: ImageDescription<U>) -> bool {
    position(world.known[manager], desc.contents_spec()) matches Some(p)
        && world.known[manager][p].names(desc)
}

/// The event finds `desc` by its link, where it looks, and does not destroy it.
pub open spec fn leaves<U, W>(
    world: World<U, W>,
    event: Event<U>,
    manager: int,
    desc: ImageDescription<U>,
) -> bool {
    match event {
        Event::Build { manager: m, contents, found, .. } => m == manager && contents
            == desc.contents_spec() ==> found == Some(desc),
        Event::Destroy { manager: m, gone, all_found } => m == manager ==> {
            &&& !desc.same(&gone)
            &&& position(world.known[manager], desc.contents_spec()) matches Some(p)
                ==> all_found[p] == Some(desc)
        },
    }
}

/// An event that leaves a known description alone leaves it where it can be found, whatever else
/// is built or destroyed.
proof fn event_leaves_known<W: WeakHandle>(
    before: World<W::UserData, W>,
    event: Event<W::UserData>,
    after: World<W::UserData, W>,
    manager: int,
    desc: ImageDescription<W::UserData>,
) where W::UserData: Default
    requires
        world_inv(before),
        world_inv(after),
        happens(before, event, after),
        knows(before, manager, desc),
        leaves(before, event, manager, desc),
    ensures
        knows(after, manager, desc),
{
    let contents = desc.contents_spec();
    let known = before.known[manager];
    let known2 = after.known[manager];
    position_finds_contents(known, contents);
    position_finds_contents(known2, contents);
    let p = position(known, contents)->Some_0;
    let at = match event {
        Event::Build { manager: m, contents: c, .. } => {
            if m == manager {
                position_finds_contents(known, c);
            }
            p
        },
        Event::Destroy { manager: m, gone, all_found } => {
            if m == manager {
                kept_are_known(known, all_found, gone);
                assert(known[p].is_live(all_found[p]));
                assert(known2.contains(known[p]));
                choose|q: int| 0 <= q < known2.len() && known2[q] == known[p]
            } else {
                p
            }
        },
    };
    assert(0 <= at < known2.len() && known2[at].names(desc));
    assert(contents_unique(known2));
    let q = position(known2, contents)->Some_0;
    if q < at {
        assert(known2[q].contents != known2[at].contents);
    } else if at < q {
        assert(known2[at].contents != known2[q].contents);
    }
}

proof fn stays_known<W: WeakHandle>(
    worlds: Seq<World<W::UserData, W>>,
    events: Seq<Event<W::UserData>>,
    i: int,
    j: int,
    manager: int,
    desc: ImageDescription<W::UserData>,
) where W::UserData: Default
    requires
        is_history(worlds, events),
        0 <= i <= j < worlds.len(),
        knows(worlds[i], manager, desc),
        forall|k: int| i <= k < j ==> leaves(worlds[k], #[trigger] events[k], manager, desc),
    ensures
        knows(worlds[j], manager, desc),
    decreases j - i,
{
    if i < j {
        stays_known(worlds, events, i, j - 1, manager, desc);
        history_keeps_numbers(worlds, events, j - 1);
        history_keeps_numbers(worlds, events, j);
        assert(happens(worlds[j - 1], events[j - 1], worlds[j - 1 + 1]));
        assert(leaves(worlds[j - 1], events[j - 1], manager, desc));
        event_leaves_known(worlds[j - 1], events[j - 1], worlds[j], manager, desc);
    }
}

/// While a description is live and not destroyed, whoever asks its color manager for the same
/// contents gets that description, and whoever asks for other contents gets another one, whatever
/// was built in between.
pub proof fn descriptions_are_shared<W: WeakHandle>(
    worlds: Seq<World<W::UserData, W>>,
    events: Seq<Event<W::UserData>>,
    i: int,
    j: int,
    manager: int,
    contents1: ContentsModel,
    found1: Option<ImageDescription<W::UserData>>,
    desc1: ImageDescription<W::UserData>,
    contents2: ContentsModel,
    found2: Option<ImageDescription<W::UserData>>,
    desc2: ImageDescription<W::UserData>,
) where W::UserData: Default
    requires
        is_history(worlds, events),
        0 <= i < j < events.len(),
        events[i] == (Event::Build {
            manager,
            contents: contents1,
            found: found1,
            desc: desc1,
        }),
        events[j] == (Event::Build {
            manager,
            contents: contents2,
            found: found2,
            desc: desc2,
        }),
        forall|k: int| i < k <= j ==> leaves(worlds[k], #[trigger] events[k], manager, desc1),
    ensures
        desc1 == desc2 <==> contents1 == contents2,
        desc1.same(&desc2) <==> contents1 == contents2,
        desc2.contents_spec() == contents2,
{
    built_was_made(worlds, events, i, manager, contents1, found1, desc1);
    built_was_made(worlds, events, j, manager, contents2, found2, desc2);
    history_keeps_numbers(worlds, events, i);
    assert(happens(worlds[i], events[i], worlds[i + 1]));
    built_description_is_known(
        worlds[i].known[manager],
        worlds[i].next,
        contents1,
        found1,
        worlds[i + 1].known[manager],
        worlds[i + 1].next,
        desc1,
    );
    stays_known(worlds, events, i + 1, j, manager, desc1);
    assert(happens(worlds[j], events[j], worlds[j + 1]));
    assert(leaves(worlds[j], events[j], manager, desc1));
}

/// Once destroyed, a description does not come back to its color manager.
proof fn stays_forgotten<W: WeakHandle>(
    worlds: Seq<World<W::UserData, W>>,
    events: Seq<Event<W::UserData>>,
    i: int,
    j: int,
    manager: int,
    gone: ImageDescription<W::UserData>,
    all_found: Seq<Option<ImageDescription<W::UserData>>>,
) where W::UserData: Default
    requires
        is_history(worlds, events),
        0 <= i < j < worlds.len(),
        events[i] == (Event::Destroy { manager, gone, all_found }),
        worlds[i].made.contains((Made { manager, desc: gone })),
    ensures
        forall|k: int|
            0 <= k < worlds[j].known[manager].len() ==> (
            #[trigger] worlds[j].known[manager][k]).id != gone.id_spec(),
    decreases j - i,
{
    let made = Made { manager, desc: gone };
    let before = worlds[j - 1];
    let after = worlds[j];
    history_keeps_numbers(worlds, events, j - 1);
    assert(happens(before, events[j - 1], worlds[j - 1 + 1]));
    made_stays_made(worlds, events, i, j - 1, made);
    let known = before.known[manager];
    if j == i + 1 {
        kept_are_known(known, all_found, gone);
        assert forall|k: int| 0 <= k < after.known[manager].len() implies (
        #[trigger] after.known[manager][k]).id != gone.id_spec() by {
            let record = after.known[manager][k];
            assert(known.contains(record));
            let l = choose|l: int| 0 <= l < known.len() && known[l] == record;
            assert(before.known[manager][l] == record);
            assert(made_by(before.made, manager, record));
            let n = choose|n: int|
                0 <= n < before.made.len() && (#[trigger] before.made[n]).manager == manager
                    && record.names(before.made[n].desc);
            made_once(before, made, before.made[n]);
        }
    } else {
        stays_forgotten(worlds, events, i, j - 1, manager, gone, all_found);
        match events[j - 1] {
            Event::Build { manager: m, contents, .. } => {
                let i0 = choose|i0: int| 0 <= i0 < before.made.len() && before.made[i0] == made;
                assert(before.made[i0].desc.id_spec() < before.next);
                position_finds_contents(before.known[m], contents);
                assert forall|k: int| 0 <= k < after.known[manager].len() implies (
                #[trigger] after.known[manager][k]).id != gone.id_spec() by {
                    if k < known.len() && after.known[manager][k] == known[k] {
                        assert(before.known[manager][k].id != gone.id_spec());
                    }
                }
            },
            Event::Destroy { manager: m, gone: other, all_found: others } => {
                if m == manager {
                    kept_are_known(known, others, other);
                    assert forall|k: int| 0 <= k < after.known[manager].len() implies (
                    #[trigger] after.known[manager][k]).id != gone.id_spec() by {
                        assert(known.contains(after.known[manager][k]));
                    }
                }
            },
        }
    }
}

/// Once a description is destroyed, its color manager never gives it again: whoever asks for its
/// contents gets another description, with a greater number and the same contents.
pub proof fn destroyed_descriptions_do_not_come_back<W: WeakHandle>(
    worlds: Seq<World<W::UserData, W>>,
    events: Seq<Event<W::UserData>>,
    i: int,
    j: int,
    manager: int,
    gone: ImageDescription<W::UserData>,
    all_found: Seq<Option<ImageDescription<W::UserData>>>,
    found: Option<ImageDescription<W::UserData>>,
    desc: ImageDescription<W::UserData>,
) where W::UserData: Default
    requires
        is_history(worlds, events),
        0 <= i < j < events.len(),
        events[i] == (Event::Destroy { manager, gone, all_found }),
        worlds[i].made.contains((Made { manager, desc: gone })),
        events[j] == (Event::Build { manager, contents: gone.contents_spec(), found, desc }),
    ensures
        desc.id_spec() > gone.id_spec(),
        !desc.same(&gone),
        desc.contents_spec() == gone.contents_spec(),
{
    let contents = gone.contents_spec();
    let made = Made { manager, desc: gone };
    let world = worlds[j];
    let known = world.known[manager];
    built_was_made(worlds, events, j, manager, contents, found, desc);
    stays_forgotten(worlds, events, i, j, manager, gone, all_found);
    history_keeps_numbers(worlds, events, j);
    made_stays_made(worlds, events, i, j, made);
    assert(happens(world, events[j], worlds[j + 1]));
    position_finds_contents(known, contents);
    let i0 = choose|i0: int| 0 <= i0 < world.made.len() && world.made[i0] == made;
    assert(world.made[i0].desc.id_spec() < world.next);
    if !makes_one(known, contents, found) {
        let p = position(known, contents)->Some_0;
        assert(world.made[i0].desc.id_spec() <= world.known[manager][p].id);
    }
}

} // verus!
