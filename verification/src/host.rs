//! What comes from outside the library: chance, the machine, the random
//! number generator and the standard formatter.

use rand::rngs::Xoshiro256PlusPlus;
use rand::SeedableRng;
use vstd::prelude::*;

use crate::text::string_views;

verus! {

/// The generator of `rand`, carried through to the optimizer.
#[verifier::external_type_specification]
#[verifier::external_body]
pub struct ExXoshiro256PlusPlus(Xoshiro256PlusPlus);

/// The generator that `Xoshiro256PlusPlus::seed_from_u64` expands `seed` into.
pub uninterp spec fn generator_for(seed: u64) -> Xoshiro256PlusPlus;

/// The text that the standard `{:#?}` formatter prints for a list of strings.
pub uninterp spec fn pretty_debug(list: Seq<Seq<char>>) -> Seq<char>;

/// `num_cpus::get`: the number of logical cores available to the process. It
/// depends on the machine, the affinity mask and the control group, so all
/// that is claimed is what its documentation promises of every outcome: there
/// is at least one.
pub assume_specification[ num_cpus::get ]() -> (count: usize)
    ensures
        count >= 1,
;

/// `rand::random` at `u64`: a number drawn from the thread's generator. Any
/// number may come back, so nothing is claimed of it. It takes nothing that
/// could be ruled out; on a system that yields no entropy it panics.
#[verifier::external_body]
pub(crate) fn random_seed() -> (seed: u64) {
    rand::random()
}

/// `seed` is one that `random_seed` can come back with.
pub closed spec fn can_be_drawn(seed: u64) -> bool {
    call_ensures(random_seed, (), seed)
}

/// `count` is one that `num_cpus::get` can come back with.
pub closed spec fn can_be_detected(count: usize) -> bool {
    call_ensures(num_cpus::get, (), count)
}

/// Calls a function and keeps the fact that the answer came from it.
fn ask<T, O: Fn() -> T>(outside: O) -> (answer: T)
    requires
        call_requires(outside, ()),
    ensures
        call_ensures(outside, (), answer),
{
    outside()
}

/// A seed drawn at random.
pub(crate) fn draw_seed() -> (seed: u64)
    ensures
        can_be_drawn(seed),
{
    ask(random_seed)
}

/// The number of logical cores.
pub(crate) fn detect_workers() -> (count: usize)
    ensures
        can_be_detected(count),
        count >= 1,
{
    ask(num_cpus::get)
}

/// `Xoshiro256PlusPlus::seed_from_u64`: the expansion of the seed into the
/// generator's state is a function of the seed alone, which has a name here.
#[verifier::external_body]
pub(crate) fn seeded_generator(seed: u64) -> (rng: Xoshiro256PlusPlus)
    ensures
        rng == generator_for(seed),
{
    Xoshiro256PlusPlus::seed_from_u64(seed)
}

/// The standard `{:#?}` formatter on a list of strings. What it prints is a
/// function of the strings alone, which has a name here.
#[verifier::external_body]
pub(crate) fn pretty_list(list: &Vec<String>) -> (text: String)
    ensures
        text@ == pretty_debug(string_views(list@)),
{
    format!("{:#?}", list)
}

} // verus!
