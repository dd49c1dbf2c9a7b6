//! The demonstrated payload schema: an ordered triple of fixed-width
//! signed integers derived from the publisher's tick counter.

use vstd::prelude::*;

verus! {

/// Largest tick counter whose payload still fits the signed 32-bit fields:
/// field `c` is the counter times 100.
pub const MAX_TICK: u32 = 21474836;

/// One unit of data exchanged on the demonstration topic.
#[derive(Clone, Copy, Debug, PartialEq, Eq, Structural)]
pub struct Payload {
    pub a: i32,
    pub b: i32,
    pub c: i32,
}

/// The payload owed for tick number `tick` (counting from zero):
/// `(tick, tick * 10, tick * 100)`. Meaningful for ticks up to `MAX_TICK`.
pub open spec fn spec_payload_for_tick(tick: u32) -> Payload {
    Payload { a: tick as i32, b: (10 * (tick as int)) as i32, c: (100 * (tick as int)) as i32 }
}

/// The payload published on tick number `tick` (counting from zero):
/// `(tick, tick * 10, tick * 100)`.
pub fn payload_for_tick(tick: u32) -> (p: Payload)
    requires
        tick <= MAX_TICK,
    ensures
        p == spec_payload_for_tick(tick),
        p.a == tick as int,
        p.b == 10 * (tick as int),
        p.c == 100 * (tick as int),
{
    let base: i32 = tick as i32;
    Payload { a: base, b: base * 10, c: base * 100 }
}

} // verus!
