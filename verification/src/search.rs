//! The post-shutdown peak search of the equilibrium solver. Starting from the
//! equilibrium xenon level, the solver steps a flux-zero transient for at most
//! ten days and tracks the running xenon and reactivity maxima, halting at the
//! first declining xenon step. The arithmetic on concentrations runs on the
//! caller's scalar type; this module owns every decision the loop takes: what
//! is recorded, when, and when the search ends.

use vstd::prelude::*;
use crate::grid::{STEP_SECONDS, SECONDS_PER_DAY};

verus! {

/// Length of the search window, in days.
pub const SEARCH_WINDOW_DAYS: u64 = 10;

/// Number of sixty-second steps in the ten-day search window.
pub const SEARCH_CAP_STEPS: u64 = SEARCH_WINDOW_DAYS * SECONDS_PER_DAY / STEP_SECONDS;

/// What one iteration of the search observes: the freshly stepped xenon level
/// and reactivity, and the three comparisons the stepper made on them.
pub struct SearchStep<T> {
    /// Xenon concentration after this step's update.
    pub new_xenon: T,
    /// Xenon reactivity after this step's update.
    pub new_reactivity: T,
    /// Whether the new xenon level exceeds the running maximum.
    pub xenon_exceeds_max: bool,
    /// Whether the new reactivity exceeds the running maximum in magnitude.
    pub reactivity_exceeds_max: bool,
    /// Whether the new xenon level fell below the level before the step.
    pub xenon_declining: bool,
}

/// The running state of the peak search: the maxima seen so far, the step
/// indices at which they were recorded, how many steps have been committed,
/// and whether the declining-xenon exit has fired.
pub struct PeakSearch<T> {
    /// Largest xenon level seen, seeded with the equilibrium value.
    pub max_xenon: T,
    /// Largest-magnitude xenon reactivity seen, seeded with the equilibrium
    /// value.
    pub max_xe_reactivity: T,
    /// Step index at which `max_xenon` was recorded (0 for the seed).
    pub max_xenon_step: u64,
    /// Step index at which `max_xe_reactivity` was recorded (0 for the seed).
    pub max_xe_reactivity_step: u64,
    /// Number of committed steps: the simulated time is this many steps past
    /// shutdown.
    pub steps: u64,
    /// Whether a declining xenon level has ended the search.
    pub stopped: bool,
}

/// What one iteration does to the search state: each maximum is replaced
/// exactly when its comparison fired and is then stamped with the time at the
/// start of the iteration; a declining xenon level stops the search without
/// committing the step.
pub open spec fn step_spec<T>(s: PeakSearch<T>, obs: SearchStep<T>) -> PeakSearch<T> {
    PeakSearch {
        max_xenon: if obs.xenon_exceeds_max {
            obs.new_xenon
        } else {
            s.max_xenon
        },
        max_xenon_step: if obs.xenon_exceeds_max {
            s.steps
        } else {
            s.max_xenon_step
        },
        max_xe_reactivity: if obs.reactivity_exceeds_max {
            obs.new_reactivity
        } else {
            s.max_xe_reactivity
        },
        max_xe_reactivity_step: if obs.reactivity_exceeds_max {
            s.steps
        } else {
            s.max_xe_reactivity_step
        },
        steps: if obs.xenon_declining {
            s.steps
        } else {
            (s.steps + 1) as u64
        },
        stopped: obs.xenon_declining,
    }
}

/// The state after feeding a whole sequence of observations, first to last.
pub open spec fn run_spec<T>(init: PeakSearch<T>, observations: Seq<SearchStep<T>>) -> PeakSearch<T>
    decreases observations.len(),
{
    if observations.len() == 0 {
        init
    } else {
        run_spec(step_spec(init, observations[0]), observations.subrange(1, observations.len() as int))
    }
}

impl<T> PeakSearch<T> {
    /// The recorded peak times never lie past the simulated time, which stays
    /// within the ten-day window.
    pub open spec fn well_formed(self) -> bool {
        &&& self.max_xenon_step <= self.steps
        &&& self.max_xe_reactivity_step <= self.steps
        &&& self.steps <= SEARCH_CAP_STEPS
    }

    /// The search continues while the xenon peak has not been passed and the
    /// ten-day window is not exhausted.
    pub open spec fn running_spec(self) -> bool {
        !self.stopped && self.steps < SEARCH_CAP_STEPS
    }

    /// A fresh search, seeded with the equilibrium xenon level and
    /// reactivity: the maxima returned when nothing larger is ever seen.
    pub fn new(seed_xenon: T, seed_reactivity: T) -> (r: Self)
        ensures
            r.max_xenon == seed_xenon,
            r.max_xe_reactivity == seed_reactivity,
            r.max_xenon_step == 0,
            r.max_xe_reactivity_step == 0,
            r.steps == 0,
            !r.stopped,
            r.well_formed(),
            r.running_spec(),
    {
        PeakSearch {
            max_xenon: seed_xenon,
            max_xe_reactivity: seed_reactivity,
            max_xenon_step: 0,
            max_xe_reactivity_step: 0,
            steps: 0,
            stopped: false,
        }
    }

    /// Whether the search loop should take another step.
    pub fn is_running(&self) -> (b: bool)
        ensures
            b == self.running_spec(),
    {
        !self.stopped && self.steps < SEARCH_CAP_STEPS
    }

    /// Feed one iteration's observation into the search.
    pub fn step(&mut self, obs: SearchStep<T>)
        requires
            old(self).well_formed(),
            old(self).running_spec(),
        ensures
            *final(self) == step_spec(*old(self), obs),
            final(self).well_formed(),
    {
        let SearchStep {
            new_xenon,
            new_reactivity,
            xenon_exceeds_max,
            reactivity_exceeds_max,
            xenon_declining,
        } = obs;
        if xenon_exceeds_max {
            self.max_xenon = new_xenon;
            self.max_xenon_step = self.steps;
        }
        if reactivity_exceeds_max {
            self.max_xe_reactivity = new_reactivity;
            self.max_xe_reactivity_step = self.steps;
        }
        if xenon_declining {
            self.stopped = true;
        } else {
            self.steps = self.steps + 1;
        }
    }

    /// Time of the recorded xenon peak, in whole seconds after shutdown.
    pub fn max_xenon_time_seconds(&self) -> (s: u64)
        requires
            self.well_formed(),
        ensures
            s == self.max_xenon_step * STEP_SECONDS,
            s <= SEARCH_WINDOW_DAYS * SECONDS_PER_DAY,
    {
        self.max_xenon_step * STEP_SECONDS
    }

    /// Time of the recorded reactivity peak, in whole seconds after shutdown.
    pub fn max_xe_reactivity_time_seconds(&self) -> (s: u64)
        requires
            self.well_formed(),
        ensures
            s == self.max_xe_reactivity_step * STEP_SECONDS,
            s <= SEARCH_WINDOW_DAYS * SECONDS_PER_DAY,
    {
        self.max_xe_reactivity_step * STEP_SECONDS
    }
}

/// Both recorded peak times fall inside the search window: they are never
/// negative and never past the ten-day cap.
pub proof fn lemma_peak_times_in_window<T>(s: PeakSearch<T>)
    requires
        s.well_formed(),
    ensures
        0 <= s.max_xenon_step * STEP_SECONDS,
        s.max_xenon_step * STEP_SECONDS <= SEARCH_WINDOW_DAYS * SECONDS_PER_DAY,
        0 <= s.max_xe_reactivity_step * STEP_SECONDS,
        s.max_xe_reactivity_step * STEP_SECONDS <= SEARCH_WINDOW_DAYS * SECONDS_PER_DAY,
{
}

/// The search is deterministic: its outcome is a function of the seed state
/// and the observed steps alone.
pub proof fn lemma_search_deterministic<T>(
    a: PeakSearch<T>,
    b: PeakSearch<T>,
    obs_a: Seq<SearchStep<T>>,
    obs_b: Seq<SearchStep<T>>,
)
    requires
        a == b,
        obs_a == obs_b,
    ensures
        run_spec(a, obs_a) == run_spec(b, obs_b),
{
}

/// The reported xenon maximum never comes out of thin air: after any run of
/// the search it is either the seed it started from or one of the observed
/// xenon levels whose comparison fired.
pub proof fn lemma_max_xenon_provenance<T>(init: PeakSearch<T>, observations: Seq<SearchStep<T>>)
    ensures
        run_spec(init, observations).max_xenon == init.max_xenon || (exists|i: int|
            0 <= i < observations.len() && observations[i].xenon_exceeds_max && run_spec(
                init,
                observations,
            ).max_xenon == observations[i].new_xenon),
    decreases observations.len(),
{
    if observations.len() == 0 {
    } else {
        let first = observations[0];
        let rest = observations.subrange(1, observations.len() as int);
        let next = step_spec(init, first);
        lemma_max_xenon_provenance(next, rest);
        let fin = run_spec(init, observations);
        if fin.max_xenon == next.max_xenon && first.xenon_exceeds_max && next.max_xenon
            == first.new_xenon {
            assert(observations[0].xenon_exceeds_max && fin.max_xenon == observations[0].new_xenon);
        } else if fin.max_xenon != next.max_xenon {
            let i = choose|i: int|
                0 <= i < rest.len() && rest[i].xenon_exceeds_max && fin.max_xenon
                    == rest[i].new_xenon;
            assert(observations[i + 1] == rest[i]);
        }
    }
}

} // verus!
