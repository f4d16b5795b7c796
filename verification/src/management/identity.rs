//! How the number of an image description is sent to clients.

use vstd::prelude::*;

verus! {

/// The upper half of a number.
pub open spec fn id_hi(id: u64) -> u32 {
    (id / 0x1_0000_0000) as u32
}

/// The lower half of a number.
pub open spec fn id_lo(id: u64) -> u32 {
    (id % 0x1_0000_0000) as u32
}

/// The two halves make up the number.
pub proof fn halves_make_the_id(id: u64)
    ensures
        id_hi(id) * 0x1_0000_0000 + id_lo(id) == id,
{
}

fn hi(id: u64) -> (half: u32)
    ensures
        half == id_hi(id),
{
    assert(id >> 32 == id / 0x1_0000_0000) by (bit_vector);
    (id >> 32) as u32
}

fn lo(id: u64) -> (half: u32)
    ensures
        half == id_lo(id),
{
    assert(id as u32 == (id % 0x1_0000_0000) as u32) by (bit_vector);
    id as u32
}

/// Tells a client that an image description is ready.
#[derive(Debug, Clone, Copy, PartialEq, Eq, Structural)]
pub enum ReadyEvent {
    /// `ready2`, with the whole number.
    Ready2 { identity_hi: u32, identity_lo: u32 },
    /// `ready`, with the lower half.
    Ready { identity: u32 },
}

/// The event for an object of the given version.
pub open spec fn ready_event(version: u32, id: u64) -> ReadyEvent {
    if version >= 2 {
        ReadyEvent::Ready2 { identity_hi: id_hi(id), identity_lo: id_lo(id) }
    } else {
        ReadyEvent::Ready { identity: id_lo(id) }
    }
}

/// The event that says that the description numbered `id` is ready.
pub fn image_description_ready(version: u32, id: u64) -> (event: ReadyEvent)
    ensures
        event == ready_event(version, id),
{
    if version >= 2 {
        ReadyEvent::Ready2 { identity_hi: hi(id), identity_lo: lo(id) }
    } else {
        ReadyEvent::Ready { identity: lo(id) }
    }
}

/// Tells a client which image description a surface would best have.
#[derive(Debug, Clone, Copy, PartialEq, Eq, Structural)]
pub enum PreferredEvent {
    /// `preferred_changed2`, with the whole number.
    PreferredChanged2 { identity_hi: u32, identity_lo: u32 },
    /// `preferred_changed`, with the lower half.
    PreferredChanged { identity: u32 },
}

/// The event for an object of the given version.
pub open spec fn preferred_event(version: u32, id: u64) -> PreferredEvent {
    if version >= 2 {
        PreferredEvent::PreferredChanged2 { identity_hi: id_hi(id), identity_lo: id_lo(id) }
    } else {
        PreferredEvent::PreferredChanged { identity: id_lo(id) }
    }
}

/// The event that says that the description numbered `id` is preferred.
pub fn preferred_changed(version: u32, id: u64) -> (event: PreferredEvent)
    ensures
        event == preferred_event(version, id),
{
    if version >= 2 {
        PreferredEvent::PreferredChanged2 { identity_hi: hi(id), identity_lo: lo(id) }
    } else {
        PreferredEvent::PreferredChanged { identity: lo(id) }
    }
}

/// Clients of the second version can tell any two descriptions apart by what they are sent.
pub proof fn new_clients_tell_ids_apart(version: u32, a: u64, b: u64)
    requires
        version >= 2,
        a != b,
    ensures
        ready_event(version, a) != ready_event(version, b),
        preferred_event(version, a) != preferred_event(version, b),
{
}

/// What a client is sent gives the number back: the whole of it from the second version on, and
/// its lower half before.
pub proof fn events_give_the_number_back(version: u32, id: u64)
    ensures
        match ready_event(version, id) {
            ReadyEvent::Ready2 { identity_hi, identity_lo } => version >= 2 && identity_hi
                * 0x1_0000_0000 + identity_lo == id,
            ReadyEvent::Ready { identity } => version < 2 && (id - identity) % 0x1_0000_0000 == 0,
        },
        match preferred_event(version, id) {
            PreferredEvent::PreferredChanged2 { identity_hi, identity_lo } => version >= 2
                && identity_hi * 0x1_0000_0000 + identity_lo == id,
            PreferredEvent::PreferredChanged { identity } => version < 2 && (id - identity)
                % 0x1_0000_0000 == 0,
        },
{
    halves_make_the_id(id);
}

} // verus!
