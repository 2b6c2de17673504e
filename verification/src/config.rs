//! The configuration of a solve.

use vstd::prelude::*;

use crate::error::{ValueError, ValueErrorView};
use crate::host::{can_be_detected, can_be_drawn};
use crate::host::{detect_workers, draw_seed};

verus! {

/// The number of nanoseconds in a second.
pub const NANOS_PER_SEC: u32 = 1_000_000_000;

/// The number of nanoseconds in a fifth of a second.
pub const NANOS_PER_FIFTH: u32 = 200_000_000;

/// Whether the search may stop before its time is spent, where the user does not say.
pub const DEFAULT_EARLY_TERMINATION: bool = true;

/// The greatest depth of the quadtree, where the user does not say.
pub const DEFAULT_QUADTREE_DEPTH: u8 = 4;

/// The total time in seconds, where the user leaves out every time argument.
pub const DEFAULT_TOTAL_COMPUTATION_TIME: u64 = 600;

/// A length of time: whole seconds and the nanoseconds beyond them.
#[derive(Clone, Copy, Debug, PartialEq, Eq, Structural)]
pub struct TimeSpan {
    pub secs: u64,
    pub nanos: u32,
}

impl TimeSpan {
    /// Less than a second of nanoseconds.
    pub open spec fn wf(self) -> bool {
        self.nanos < NANOS_PER_SEC
    }

    /// The whole length in nanoseconds.
    pub open spec fn as_nanos(self) -> nat {
        self.secs as nat * NANOS_PER_SEC as nat + self.nanos as nat
    }

    /// A number of whole seconds.
    pub fn from_secs(secs: u64) -> (span: Self)
        ensures
            span == (TimeSpan { secs, nanos: 0 }),
            span.wf(),
            span.as_nanos() == secs * NANOS_PER_SEC,
    {
        TimeSpan { secs, nanos: 0 }
    }

    /// `fifths` fifths of a number of whole seconds, exactly.
    pub fn fifths_of_secs(secs: u64, fifths: u64) -> (span: Self)
        requires
            fifths <= 5,
        ensures
            span.wf(),
            5 * span.as_nanos() == fifths * (secs * NANOS_PER_SEC),
    {
        let whole: u64 = secs / 5;
        let rest: u64 = secs % 5;
        assert(rest * fifths <= rest * 5) by (nonlinear_arith)
            requires
                fifths <= 5,
        ;
        assert(whole * fifths <= whole * 5) by (nonlinear_arith)
            requires
                fifths <= 5,
        ;
        let parts: u64 = rest * fifths;
        let span = TimeSpan {
            secs: whole * fifths + parts / 5,
            nanos: (parts % 5) as u32 * NANOS_PER_FIFTH,
        };
        assert(whole * fifths * 5 + rest * fifths == secs * fifths) by (nonlinear_arith)
            requires
                secs == whole * 5 + rest,
        ;
        assert(fifths * (secs * NANOS_PER_SEC) == (secs * fifths) * NANOS_PER_SEC)
            by (nonlinear_arith);
        span
    }
}

/// The configuration of a solve.
#[derive(Debug)]
pub struct StripPackingConfig<F> {
    /// Whether the search may stop before its time is spent.
    pub early_termination: bool,
    /// The seed of the random number generator.
    pub seed: u64,
    /// The time for exploring.
    pub exploration_time: TimeSpan,
    /// The time for compressing.
    pub compression_time: TimeSpan,
    /// The greatest depth of the quadtree for collision detection.
    pub quadtree_depth: u8,
    /// The least distance between packed items.
    pub min_items_separation: Option<F>,
    /// The number of threads.
    pub num_workers: usize,
}

impl<F: Copy> Clone for StripPackingConfig<F> {
    fn clone(&self) -> (copy: Self)
        ensures
            copy == *self,
    {
        *self
    }
}

impl<F: Copy> Copy for StripPackingConfig<F> {

}

/// The time arguments are a total alone, or both parts alone.
pub open spec fn times_usable(
    total: Option<u64>,
    exploration: Option<u64>,
    compression: Option<u64>,
) -> bool {
    ||| total is Some && exploration is None && compression is None
    ||| total is None && exploration is Some && compression is Some
}

/// `spans` are the times for exploring and for compressing that usable time arguments, in
/// seconds, ask for: the parts as given, or four fifths and one fifth of the total.
pub open spec fn times_granted(
    total: Option<u64>,
    exploration: Option<u64>,
    compression: Option<u64>,
    spans: (TimeSpan, TimeSpan),
) -> bool {
    &&& spans.0.wf()
    &&& spans.1.wf()
    &&& match total {
        Some(t) => {
            &&& 5 * spans.0.as_nanos() == 4 * (t * NANOS_PER_SEC)
            &&& 5 * spans.1.as_nanos() == t * NANOS_PER_SEC
        },
        None => {
            &&& spans.0.as_nanos() == exploration->0 * NANOS_PER_SEC
            &&& spans.1.as_nanos() == compression->0 * NANOS_PER_SEC
        },
    }
}

/// The total that a user asks for. One that was passed stands, even where it says that there
/// is none; one that was left out is the default, unless a part is given.
pub fn total_or_default(
    total: Option<Option<u64>>,
    exploration: Option<u64>,
    compression: Option<u64>,
) -> (asked: Option<u64>)
    ensures
        total matches Some(passed) ==> asked == passed,
        total is None && exploration is None && compression is None ==> asked == Some(
            DEFAULT_TOTAL_COMPUTATION_TIME,
        ),
        total is None && exploration is None && compression is None ==> asked == Some(600u64),
        total is None && (exploration is Some || compression is Some) ==> asked is None,
{
    match (total, exploration, compression) {
        (Some(passed), _, _) => passed,
        (None, None, None) => Some(DEFAULT_TOTAL_COMPUTATION_TIME),
        (None, _, _) => None,
    }
}

/// The times for exploring and for compressing. A total is split four to one.
pub fn split_times(
    total_computation_time: Option<u64>,
    exploration_time: Option<u64>,
    compression_time: Option<u64>,
) -> (result: Result<(TimeSpan, TimeSpan), ValueError>)
    ensures
        result is Ok <==> times_usable(total_computation_time, exploration_time, compression_time),
        result matches Ok(spans) ==> times_granted(
            total_computation_time,
            exploration_time,
            compression_time,
            spans,
        ),
        result matches Err(error) ==> error@ == ValueErrorView::TimeArguments,
        result is Ok <==> (total_computation_time is Some && exploration_time is None
            && compression_time is None) || (total_computation_time is None && exploration_time is Some
            && compression_time is Some),
        result matches Ok(spans) ==> {
            &&& spans.0.nanos < 1_000_000_000
            &&& spans.1.nanos < 1_000_000_000
        },
        result matches Ok(spans) ==> total_computation_time matches Some(t) ==> {
            &&& 5 * (spans.0.secs * 1_000_000_000 + spans.0.nanos) == 4 * (t * 1_000_000_000)
            &&& 5 * (spans.1.secs * 1_000_000_000 + spans.1.nanos) == t * 1_000_000_000
        },
        result matches Ok(spans) ==> exploration_time matches Some(e) ==> spans.0.secs == e
            && spans.0.nanos == 0,
        result matches Ok(spans) ==> compression_time matches Some(c) ==> spans.1.secs == c
            && spans.1.nanos == 0,
        result matches Err(error) ==> error is TimeArguments,
{
    match (total_computation_time, exploration_time, compression_time) {
        (None, Some(exploration), Some(compression)) => Ok(
            (TimeSpan::from_secs(exploration), TimeSpan::from_secs(compression)),
        ),
        (Some(total), None, None) => Ok(
            (TimeSpan::fifths_of_secs(total, 4), TimeSpan::fifths_of_secs(total, 1)),
        ),
        _ => Err(ValueError::TimeArguments),
    }
}

impl<F> StripPackingConfig<F> {
    /// The configuration is as the arguments ask: every one of them is kept, the times are
    /// granted, and there is at least one worker where their number was left open.
    pub open spec fn answers(
        self,
        early_termination: bool,
        quadtree_depth: u8,
        min_items_separation: Option<F>,
        total_computation_time: Option<u64>,
        exploration_time: Option<u64>,
        compression_time: Option<u64>,
        num_workers: Option<usize>,
        seed: Option<u64>,
    ) -> bool {
        &&& times_granted(
            total_computation_time,
            exploration_time,
            compression_time,
            (self.exploration_time, self.compression_time),
        )
        &&& self.early_termination == early_termination
        &&& self.quadtree_depth == quadtree_depth
        &&& self.min_items_separation == min_items_separation
        &&& seed matches Some(s) ==> self.seed == s
        &&& num_workers matches Some(n) ==> self.num_workers == n
        &&& num_workers is None ==> self.num_workers >= 1
    }

    /// A configuration. Without a seed it takes `drawn_seed`; without a number of workers,
    /// `detected_workers`.
    pub fn with_fallbacks(
        early_termination: bool,
        quadtree_depth: u8,
        min_items_separation: Option<F>,
        total_computation_time: Option<u64>,
        exploration_time: Option<u64>,
        compression_time: Option<u64>,
        num_workers: Option<usize>,
        seed: Option<u64>,
        drawn_seed: u64,
        detected_workers: usize,
    ) -> (result: Result<Self, ValueError>)
        ensures
            result is Ok <==> times_usable(
                total_computation_time,
                exploration_time,
                compression_time,
            ),
            result matches Ok(config) ==> {
                &&& times_granted(
                    total_computation_time,
                    exploration_time,
                    compression_time,
                    (config.exploration_time, config.compression_time),
                )
                &&& config == (StripPackingConfig {
                    early_termination,
                    seed: match seed {
                        Some(s) => s,
                        None => drawn_seed,
                    },
                    exploration_time: config.exploration_time,
                    compression_time: config.compression_time,
                    quadtree_depth,
                    min_items_separation,
                    num_workers: match num_workers {
                        Some(n) => n,
                        None => detected_workers,
                    },
                })
            },
            result matches Err(error) ==> error@ == ValueErrorView::TimeArguments,
            result is Ok <==> (total_computation_time is Some && exploration_time is None
                && compression_time is None) || (total_computation_time is None && exploration_time
                is Some && compression_time is Some),
            result matches Ok(config) ==> {
                &&& config.exploration_time.nanos < 1_000_000_000
                &&& config.compression_time.nanos < 1_000_000_000
                &&& config.early_termination == early_termination
                &&& config.quadtree_depth == quadtree_depth
                &&& config.min_items_separation == min_items_separation
            },
            result matches Ok(config) ==> total_computation_time matches Some(t) ==> {
                &&& 5 * (config.exploration_time.secs * 1_000_000_000
                    + config.exploration_time.nanos) == 4 * (t * 1_000_000_000)
                &&& 5 * (config.compression_time.secs * 1_000_000_000
                    + config.compression_time.nanos) == t * 1_000_000_000
            },
            result matches Ok(config) ==> exploration_time matches Some(e) ==> {
                &&& config.exploration_time.secs == e
                &&& config.exploration_time.nanos == 0
            },
            result matches Ok(config) ==> compression_time matches Some(c) ==> {
                &&& config.compression_time.secs == c
                &&& config.compression_time.nanos == 0
            },
            result matches Ok(config) ==> seed matches Some(s) ==> config.seed == s,
            result matches Ok(config) ==> num_workers matches Some(n) ==> config.num_workers == n,
            result matches Ok(config) ==> seed is None ==> config.seed == drawn_seed,
            result matches Ok(config) ==> num_workers is None ==> config.num_workers
                == detected_workers,
            result matches Err(error) ==> error is TimeArguments,
    {
        match split_times(total_computation_time, exploration_time, compression_time) {
            Ok((exploration_time, compression_time)) => Ok(
                StripPackingConfig {
                    early_termination,
                    seed: match seed {
                        Some(s) => s,
                        None => drawn_seed,
                    },
                    exploration_time,
                    compression_time,
                    quadtree_depth,
                    min_items_separation,
                    num_workers: match num_workers {
                        Some(n) => n,
                        None => detected_workers,
                    },
                },
            ),
            Err(error) => Err(error),
        }
    }

    /// A configuration. Without a seed one is drawn at random; without a number of workers
    /// there is one for each logical core. What is drawn and how many cores there are is not
    /// for the caller to know; that there is at least one worker is.
    pub fn new(
        early_termination: bool,
        quadtree_depth: u8,
        min_items_separation: Option<F>,
        total_computation_time: Option<u64>,
        exploration_time: Option<u64>,
        compression_time: Option<u64>,
        num_workers: Option<usize>,
        seed: Option<u64>,
    ) -> (result: Result<Self, ValueError>)
        ensures
            result is Ok <==> times_usable(
                total_computation_time,
                exploration_time,
                compression_time,
            ),
            result matches Ok(config) ==> config.answers(
                early_termination,
                quadtree_depth,
                min_items_separation,
                total_computation_time,
                exploration_time,
                compression_time,
                num_workers,
                seed,
            ),
            result matches Err(error) ==> error@ == ValueErrorView::TimeArguments,
            result is Ok <==> (total_computation_time is Some && exploration_time is None
                && compression_time is None) || (total_computation_time is None && exploration_time
                is Some && compression_time is Some),
            result matches Ok(config) ==> {
                &&& config.exploration_time.nanos < 1_000_000_000
                &&& config.compression_time.nanos < 1_000_000_000
                &&& config.early_termination == early_termination
                &&& config.quadtree_depth == quadtree_depth
                &&& config.min_items_separation == min_items_separation
            },
            result matches Ok(config) ==> total_computation_time matches Some(t) ==> {
                &&& 5 * (config.exploration_time.secs * 1_000_000_000
                    + config.exploration_time.nanos) == 4 * (t * 1_000_000_000)
                &&& 5 * (config.compression_time.secs * 1_000_000_000
                    + config.compression_time.nanos) == t * 1_000_000_000
            },
            result matches Ok(config) ==> exploration_time matches Some(e) ==> {
                &&& config.exploration_time.secs == e
                &&& config.exploration_time.nanos == 0
            },
            result matches Ok(config) ==> compression_time matches Some(c) ==> {
                &&& config.compression_time.secs == c
                &&& config.compression_time.nanos == 0
            },
            result matches Ok(config) ==> seed matches Some(s) ==> config.seed == s,
            result matches Ok(config) ==> num_workers matches Some(n) ==> config.num_workers == n,
            result matches Ok(config) ==> seed is None ==> can_be_drawn(config.seed),
            result matches Ok(config) ==> num_workers is None ==> can_be_detected(
                config.num_workers,
            ) && config.num_workers >= 1,
            result matches Err(error) ==> error is TimeArguments,
    {
        match split_times(total_computation_time, exploration_time, compression_time) {
            Err(error) => Err(error),
            Ok(_) => {
                let drawn_seed: u64 = match seed {
                    Some(s) => s,
                    None => draw_seed(),
                };
                let detected_workers: usize = match num_workers {
                    Some(n) => n,
                    None => detect_workers(),
                };
                Self::with_fallbacks(
                    early_termination,
                    quadtree_depth,
                    min_items_separation,
                    total_computation_time,
                    exploration_time,
                    compression_time,
                    num_workers,
                    seed,
                    drawn_seed,
                    detected_workers,
                )
            },
        }
    }
}

} // verus!
