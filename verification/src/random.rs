//! A random number generator that is shared by reference.

use rand::rngs::StdRng;
use rand::{Rng, SeedableRng};
use std::ops::Range;
use std::sync::Mutex;
use vstd::prelude::*;

verus! {

/// The standard generator of the `rand` crate, carried as an opaque value.
#[verifier::external_type_specification]
#[verifier::external_body]
pub struct ExStdRng(rand::rngs::StdRng);

/// The mutex of the standard library, carried as an opaque value.
#[verifier::external_type_specification]
#[verifier::external_body]
#[verifier::reject_recursive_types(T)]
pub struct ExMutex<T: ?Sized>(std::sync::Mutex<T>);

/// Holds the state of a random number generator and hands out random
/// numbers through a shared reference: the state lies behind a lock.
pub struct RandomNumberGenerator {
    rng: Mutex<StdRng>,
    seeding: Seeding,
}

/// A kind of number that can be drawn from a range: `i32`, `u32`, `usize`.
pub trait RangeValue: Copy {
    /// The number that the value stands for.
    spec fn number(self) -> int;

    /// Draws a value from `low..high`.
    fn sample(rng: &RandomNumberGenerator, low: Self, high: Self) -> (drawn: Self)
        requires
            low.number() < high.number(),
        ensures
            low.number() <= drawn.number() < high.number(),
    ;
}

/// `Rng::random_range` on `low..high`, with the generator locked for the
/// call: a value of the half-open range.
#[verifier::external_body]
fn draw_i32(rng: &Mutex<StdRng>, low: i32, high: i32) -> (drawn: i32)
    requires
        low < high,
    ensures
        low <= drawn < high,
{
    rng.lock().unwrap().random_range(low..high)
}

impl RangeValue for i32 {
    open spec fn number(self) -> int {
        self as int
    }

    fn sample(rng: &RandomNumberGenerator, low: i32, high: i32) -> (drawn: i32) {
        draw_i32(&rng.rng, low, high)
    }
}

/// `Rng::random_range` on `low..high`, with the generator locked for the
/// call: a value of the half-open range.
#[verifier::external_body]
fn draw_u32(rng: &Mutex<StdRng>, low: u32, high: u32) -> (drawn: u32)
    requires
        low < high,
    ensures
        low <= drawn < high,
{
    rng.lock().unwrap().random_range(low..high)
}

impl RangeValue for u32 {
    open spec fn number(self) -> int {
        self as int
    }

    fn sample(rng: &RandomNumberGenerator, low: u32, high: u32) -> (drawn: u32) {
        draw_u32(&rng.rng, low, high)
    }
}

/// `Rng::random_range` on `low..high`, with the generator locked for the
/// call: a value of the half-open range.
#[verifier::external_body]
fn draw_usize(rng: &Mutex<StdRng>, low: usize, high: usize) -> (drawn: usize)
    requires
        low < high,
    ensures
        low <= drawn < high,
{
    rng.lock().unwrap().random_range(low..high)
}

impl RangeValue for usize {
    open spec fn number(self) -> int {
        self as int
    }

    fn sample(rng: &RandomNumberGenerator, low: usize, high: usize) -> (drawn: usize) {
        draw_usize(&rng.rng, low, high)
    }
}

/// `SeedableRng::from_os_rng`, its result put behind a lock: a generator
/// whose seed the operating system chose. The call gives up where the
/// system has no entropy to give.
#[verifier::external_body]
fn generator_from_os() -> Mutex<StdRng> {
    Mutex::new(StdRng::from_os_rng())
}

/// `SeedableRng::seed_from_u64`, its result put behind a lock: a generator
/// that starts from `seed`.
#[verifier::external_body]
fn generator_from_seed(seed: u64) -> Mutex<StdRng> {
    Mutex::new(StdRng::seed_from_u64(seed))
}

/// `Rng::random`, with the generator locked for the call: a random value
/// of the requested type, of which nothing is promised.
#[verifier::external_body]
fn draw_any<T>(rng: &Mutex<StdRng>) -> T where
    rand::distr::StandardUniform: rand::distr::Distribution<T>,
 {
    rng.lock().unwrap().random()
}

impl RandomNumberGenerator {
    /// A generator that starts from a state that the operating system chose.
    pub fn new() -> (generator: Self)
        ensures generator.started_from() == Seeding::System,
    {
        Self { rng: generator_from_os(), seeding: Seeding::System }
    }

    /// A generator that starts from the state that `seed` stands for.
    pub fn seeded(seed: u64) -> (generator: Self)
        ensures generator.started_from() == Seeding::Seed(seed),
    {
        Self { rng: generator_from_seed(seed), seeding: Seeding::Seed(seed) }
    }

    /// Where the generator took the state from that it started with.
    pub fn seeding(&self) -> (seeding: Seeding)
        ensures
            seeding == self.started_from(),
    {
        self.seeding
    }

    /// A random value of the requested type. Nothing is promised of it: it
    /// may be any value of the type.
    pub fn next<T>(&self) -> T where rand::distr::StandardUniform: rand::distr::Distribution<T> {
        draw_any(&self.rng)
    }
}

impl Default for RandomNumberGenerator {
    fn default() -> (generator: Self)
        ensures generator.started_from() == Seeding::System,
    { Self::new() }
}

/// Gives an application its random number generator.
pub struct RandomPlugin;

impl RandomPlugin {
    /// The generator that the application is to hold as a resource.
    pub fn build(&self) -> (generator: RandomNumberGenerator)
        ensures
            generator.started_from() == Seeding::System,
    {
        RandomNumberGenerator::new()
    }
}

/// Where a generator took the state from that it started with. Two
/// generators that started from one seed hand out the same numbers when the
/// same is asked of them.
#[derive(Clone, Copy, Debug, PartialEq, Eq, Structural)]
pub enum Seeding {
    /// A state that the operating system chose.
    System,
    /// The state that the given seed stands for.
    Seed(u64),
}

impl RandomNumberGenerator {
    /// Where the generator took the state from that it started with.
    pub closed spec fn started_from(&self) -> Seeding {
        self.seeding
    }

    /// A random number within `range`, its end left out. The range must
    /// not be empty.
    pub fn range<T: RangeValue>(&self, range: Range<T>) -> (drawn: T)
        requires
            range.start.number() < range.end.number(),
        ensures
            range.start.number() <= drawn.number() < range.end.number(),
    {
        T::sample(self, range.start, range.end)
    }
}

} // verus!
