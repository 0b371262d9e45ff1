use vstd::prelude::*;

use rand::RngExt;

verus! {

/// Readings are fixed-point fractions: a value `v` stands for the rational
/// number `v / UNIT_SCALE`. A draw from a randomness source lies in
/// `[0, UNIT_SCALE)` and stands for a number in `[0, 1)`.
pub const UNIT_SCALE: u32 = 1_000_000;

/// One tenth in the same fixed point: stands for `0.1`.
pub const TENTH_UNIT: u32 = UNIT_SCALE / 10;

/// An owned capability yielding successive pseudo-random draws. Each device
/// holds its own source exclusively; reading a device advances its source.
pub trait RandomSource {
    /// Draws the next value in `[0, UNIT_SCALE)`, advancing the internal state.
    fn next_unit(&mut self) -> (r: u32)
        ensures
            r < UNIT_SCALE,
    ;
}

/// What a deterministic source is to the contracts: its list of draws and
/// the position the next draw is read from.
pub struct FixedSourceModel {
    pub values: Seq<u32>,
    pub pos: nat,
}

/// The index the next draw is read from: the position, or the front once the
/// list is exhausted.
pub open spec fn spec_draw_index(m: FixedSourceModel) -> int {
    if m.pos < m.values.len() {
        m.pos as int
    } else {
        0
    }
}

/// The next draw the source yields: the listed value modulo `UNIT_SCALE`, or
/// `0` from an empty list.
pub open spec fn spec_next_draw(m: FixedSourceModel) -> u32 {
    if m.values.len() == 0 {
        0
    } else {
        (m.values[spec_draw_index(m)] % UNIT_SCALE) as u32
    }
}

/// The source after one draw: the same list, the position one further, back
/// at the front when the list is exhausted.
pub open spec fn spec_advanced(m: FixedSourceModel) -> FixedSourceModel {
    if m.values.len() == 0 {
        m
    } else if spec_draw_index(m) + 1 < m.values.len() {
        FixedSourceModel { values: m.values, pos: (spec_draw_index(m) + 1) as nat }
    } else {
        FixedSourceModel { values: m.values, pos: 0 }
    }
}

/// A deterministic source: replays a fixed list of draws in order, cycling
/// back to the front when the list is exhausted. Each listed value is taken
/// modulo `UNIT_SCALE`, so any list is acceptable; an empty list yields `0`.
pub struct FixedSource {
    values: Vec<u32>,
    pos: usize,
}

impl View for FixedSource {
    type V = FixedSourceModel;

    closed spec fn view(&self) -> FixedSourceModel {
        FixedSourceModel { values: self.values@, pos: self.pos as nat }
    }
}

impl FixedSource {
    /// Builds a source that replays `values`, cycling, starting at the front.
    pub fn new(values: Vec<u32>) -> (s: Self)
        ensures
            s@.values == values@,
            s@.pos == 0,
    {
        FixedSource { values, pos: 0 }
    }
}

impl RandomSource for FixedSource {
    fn next_unit(&mut self) -> (r: u32)
        ensures
            r == spec_next_draw(old(self)@),
            final(self)@ == spec_advanced(old(self)@),
    {
        if self.values.len() == 0 {
            0
        } else {
            let i: usize = if self.pos < self.values.len() {
                self.pos
            } else {
                0
            };
            let v = self.values[i];
            self.pos = if i + 1 < self.values.len() {
                i + 1
            } else {
                0
            };
            v % UNIT_SCALE
        }
    }
}

/// Declares rand's thread-local generator handle so it can stand in a field.
#[verifier::external_type_specification]
#[verifier::external_body]
pub struct ExThreadRng(rand::rngs::ThreadRng);

/// Relies on `rand::rng`: returns a handle to the thread-local generator.
/// Nothing is promised of it.
#[verifier::external_body]
fn fresh_thread_rng() -> rand::rngs::ThreadRng {
    rand::rng()
}

/// Relies on `rand::Rng::random::<u32>`: returns a pseudo-random value,
/// advancing the generator. Nothing is promised of the value.
#[verifier::external_body]
fn draw_random_u32(rng: &mut rand::rngs::ThreadRng) -> u32 {
    rng.random()
}

/// The default randomness source: draws from rand's thread-local generator.
pub struct ThreadRngSource {
    rng: rand::rngs::ThreadRng,
}

impl ThreadRngSource {
    /// Builds a source backed by the calling thread's generator.
    pub fn new() -> Self {
        ThreadRngSource { rng: fresh_thread_rng() }
    }
}

impl RandomSource for ThreadRngSource {
    fn next_unit(&mut self) -> (r: u32) {
        let raw = draw_random_u32(&mut self.rng);
        raw % UNIT_SCALE
    }
}

} // verus!
