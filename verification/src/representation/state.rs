//! The color representation manager: what it supports, and the objects that clients have bound.

use vstd::prelude::*;

use crate::instances::{remove_instance_id, without, InstanceId};
use crate::representation::named::{AlphaMode, ChromaLocation, Coefficients, Range};

verus! {

/// The version of the color representation manager that is offered to clients.
pub const MANAGER_VERSION: u32 = 1;

/// The first version of the protocol is offered.
pub proof fn first_version_is_offered()
    ensures
        MANAGER_VERSION == 1,
{
}

/// The state of the color representation manager.
#[derive(Debug)]
pub struct ColorRepresentationState {
    coefficients_and_ranges: Vec<(Coefficients, Range)>,
    chroma_locations: Vec<ChromaLocation>,
    alpha_modes: Vec<AlphaMode>,
    known_instances: Vec<InstanceId>,
}

/// The value of a [`ColorRepresentationState`].
pub struct RepresentationModel {
    pub coefficients_and_ranges: Seq<(Coefficients, Range)>,
    pub chroma_locations: Seq<ChromaLocation>,
    pub alpha_modes: Seq<AlphaMode>,
    pub instances: Seq<InstanceId>,
}

impl View for ColorRepresentationState {
    type V = RepresentationModel;

    closed spec fn view(&self) -> RepresentationModel {
        RepresentationModel {
            coefficients_and_ranges: self.coefficients_and_ranges@,
            chroma_locations: self.chroma_locations@,
            alpha_modes: self.alpha_modes@,
            instances: self.known_instances@,
        }
    }
}

/// What a client that binds the manager is sent.
#[derive(Debug, Clone, Copy)]
pub enum RepresentationEvent {
    SupportedCoefficientsAndRanges(Coefficients, Range),
    SupportedAlphaMode(AlphaMode),
}

/// What a client that binds the manager is sent: the coefficients and ranges, then the alpha
/// modes.
pub open spec fn bind_events(model: RepresentationModel) -> Seq<RepresentationEvent> {
    model.coefficients_and_ranges.map_values(
        |p: (Coefficients, Range)|
            RepresentationEvent::SupportedCoefficientsAndRanges(p.0, p.1),
    ) + model.alpha_modes.map_values(|m: AlphaMode| RepresentationEvent::SupportedAlphaMode(m))
}

/// A client hears of all coefficients and ranges and all alpha modes that are supported, and of
/// nothing else.
pub proof fn clients_hear_of_pairs_and_alpha_modes(
    model: RepresentationModel,
    coefficients: Coefficients,
    range: Range,
    mode: AlphaMode,
)
    ensures
        bind_events(model).contains(
            RepresentationEvent::SupportedCoefficientsAndRanges(coefficients, range),
        ) <==> model.coefficients_and_ranges.contains((coefficients, range)),
        bind_events(model).contains(RepresentationEvent::SupportedAlphaMode(mode))
            <==> model.alpha_modes.contains(mode),
{
    let pair = RepresentationEvent::SupportedCoefficientsAndRanges(coefficients, range);
    let alpha = RepresentationEvent::SupportedAlphaMode(mode);
    let pairs = model.coefficients_and_ranges;
    let events = bind_events(model);
    if pairs.contains((coefficients, range)) {
        let k = choose|k: int| 0 <= k < pairs.len() && pairs[k] == (coefficients, range);
        assert(events[k] == pair);
    }
    if model.alpha_modes.contains(mode) {
        let k = choose|k: int| 0 <= k < model.alpha_modes.len() && model.alpha_modes[k] == mode;
        assert(events[pairs.len() + k] == alpha);
    }
    if events.contains(pair) {
        let k = choose|k: int| 0 <= k < events.len() && events[k] == pair;
        assert(k < pairs.len());
        assert(pairs[k] == (coefficients, range));
    }
    if events.contains(alpha) {
        let k = choose|k: int| 0 <= k < events.len() && events[k] == alpha;
        assert(pairs.len() <= k);
        assert(model.alpha_modes[k - pairs.len()] == mode);
    }
}

/// A client hears of coefficients and ranges first, then of alpha modes, each as they are listed,
/// and of nothing else.
pub proof fn clients_hear_pairs_then_alpha_modes(model: RepresentationModel, k: int)
    ensures
        ({
            let events = bind_events(model);
            let n = model.coefficients_and_ranges.len();
            &&& events.len() == n + model.alpha_modes.len()
            &&& 0 <= k < n ==> events[k] == RepresentationEvent::SupportedCoefficientsAndRanges(
                model.coefficients_and_ranges[k].0,
                model.coefficients_and_ranges[k].1,
            )
            &&& n <= k < events.len() ==> events[k] == RepresentationEvent::SupportedAlphaMode(
                model.alpha_modes[k - n],
            )
        }),
{
}

impl ColorRepresentationState {
    /// A manager with the given support, and no objects.
    pub fn new(
        coefficients_and_ranges: Vec<(Coefficients, Range)>,
        chroma_locations: Vec<ChromaLocation>,
        alpha_modes: Vec<AlphaMode>,
    ) -> (state: Self)
        ensures
            state@ == (RepresentationModel {
                coefficients_and_ranges: coefficients_and_ranges@,
                chroma_locations: chroma_locations@,
                alpha_modes: alpha_modes@,
                instances: Seq::<InstanceId>::empty(),
            }),
    {
        ColorRepresentationState {
            coefficients_and_ranges,
            chroma_locations,
            alpha_modes,
            known_instances: Vec::new(),
        }
    }

    /// Whether these coefficients and this range are supported together.
    pub fn supports_coefficients_and_range(&self, coefficients: Coefficients, range: Range) -> (yes:
        bool)
        ensures
            yes == self@.coefficients_and_ranges.contains((coefficients, range)),
    {
        let mut i: usize = 0;
        while i < self.coefficients_and_ranges.len()
            invariant
                i <= self.coefficients_and_ranges.len(),
                forall|j: int|
                    0 <= j < i ==> self.coefficients_and_ranges@[j] != (coefficients, range),
            decreases self.coefficients_and_ranges.len() - i,
        {
            let here = self.coefficients_and_ranges[i];
            if here.0 == coefficients && here.1 == range {
                assert(self.coefficients_and_ranges@[i as int] == (coefficients, range));
                return true;
            }
            i += 1;
        }
        false
    }

    /// Whether this chroma location is supported.
    pub fn supports_chroma_location(&self, chroma_location: ChromaLocation) -> (yes: bool)
        ensures
            yes == self@.chroma_locations.contains(chroma_location),
    {
        let mut i: usize = 0;
        while i < self.chroma_locations.len()
            invariant
                i <= self.chroma_locations.len(),
                forall|j: int| 0 <= j < i ==> self.chroma_locations@[j] != chroma_location,
            decreases self.chroma_locations.len() - i,
        {
            if self.chroma_locations[i] == chroma_location {
                return true;
            }
            i += 1;
        }
        false
    }

    /// Adds the object that a client has bound, and gives what it is sent.
    pub fn bind(&mut self, instance: InstanceId) -> (events: Vec<RepresentationEvent>)
        ensures
            events@ == bind_events(old(self)@),
            final(self)@ == (RepresentationModel {
                instances: old(self)@.instances.push(instance),
                ..old(self)@
            }),
    {
        let mut events: Vec<RepresentationEvent> = Vec::new();
        let ghost pairs = self.coefficients_and_ranges@;
        let mut i: usize = 0;
        while i < self.coefficients_and_ranges.len()
            invariant
                pairs == self.coefficients_and_ranges@,
                i <= pairs.len(),
                events@ == pairs.take(i as int).map_values(
                    |p: (Coefficients, Range)|
                        RepresentationEvent::SupportedCoefficientsAndRanges(p.0, p.1),
                ),
            decreases pairs.len() - i,
        {
            let here = self.coefficients_and_ranges[i];
            events.push(RepresentationEvent::SupportedCoefficientsAndRanges(here.0, here.1));
            i += 1;
            assert(events@ =~= pairs.take(i as int).map_values(
                |p: (Coefficients, Range)|
                    RepresentationEvent::SupportedCoefficientsAndRanges(p.0, p.1),
            ));
        }
        assert(pairs.take(i as int) =~= pairs);
        let ghost before = events@;
        let ghost modes = self.alpha_modes@;
        let mut i: usize = 0;
        while i < self.alpha_modes.len()
            invariant
                modes == self.alpha_modes@,
                i <= modes.len(),
                events@ == before + modes.take(i as int).map_values(
                    |m: AlphaMode| RepresentationEvent::SupportedAlphaMode(m),
                ),
            decreases modes.len() - i,
        {
            events.push(RepresentationEvent::SupportedAlphaMode(self.alpha_modes[i]));
            i += 1;
            assert(events@ =~= before + modes.take(i as int).map_values(
                |m: AlphaMode| RepresentationEvent::SupportedAlphaMode(m),
            ));
        }
        assert(modes.take(i as int) =~= modes);
        self.known_instances.push(instance);
        events
    }

    /// Removes an object that is destroyed.
    pub fn manager_destroyed(&mut self, instance: InstanceId)
        ensures
            final(self)@ == (RepresentationModel {
                instances: without(old(self)@.instances, instance),
                ..old(self)@
            }),
    {
        remove_instance_id(&mut self.known_instances, instance);
    }
}

} // verus!
