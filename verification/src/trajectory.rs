//! The trajectory produced by the transient integrator: seven parallel series,
//! one entry per integration step.

use vstd::prelude::*;

verus! {

/// One recorded sample: the time and the six derived quantities of one
/// integration step.
pub struct Sample<T> {
    pub time: T,
    pub iodine: T,
    pub xenon: T,
    pub promethium: T,
    pub samarium: T,
    pub reactivity_xe: T,
    pub reactivity_sm: T,
}

/// Ordered sequence of samples, one per integration step. Each sample is a
/// tuple (time, iodine, xenon, promethium, samarium, reactivity_xe,
/// reactivity_sm), stored as seven parallel series. The scalar type is left
/// generic: the integrator drives this structure with its own number type.
pub struct SimulationData<T> {
    pub time: Vec<T>,
    pub iodine: Vec<T>,
    pub xenon: Vec<T>,
    pub promethium: Vec<T>,
    pub samarium: Vec<T>,
    pub reactivity_xe: Vec<T>,
    pub reactivity_sm: Vec<T>,
}

impl<T> SimulationData<T> {
    /// All seven series have one entry per recorded sample.
    pub open spec fn well_formed(self) -> bool {
        &&& self.iodine@.len() == self.time@.len()
        &&& self.xenon@.len() == self.time@.len()
        &&& self.promethium@.len() == self.time@.len()
        &&& self.samarium@.len() == self.time@.len()
        &&& self.reactivity_xe@.len() == self.time@.len()
        &&& self.reactivity_sm@.len() == self.time@.len()
    }

    /// Number of samples recorded so far.
    pub open spec fn sample_count(self) -> nat {
        self.time@.len()
    }

    /// The sample recorded at step `i`, read back across the seven series.
    pub open spec fn sample_at(self, i: int) -> Sample<T> {
        Sample {
            time: self.time@[i],
            iodine: self.iodine@[i],
            xenon: self.xenon@[i],
            promethium: self.promethium@[i],
            samarium: self.samarium@[i],
            reactivity_xe: self.reactivity_xe@[i],
            reactivity_sm: self.reactivity_sm@[i],
        }
    }

    /// The trajectory holds exactly the given samples, in order.
    pub open spec fn records(self, samples: Seq<Sample<T>>) -> bool {
        &&& self.sample_count() == samples.len()
        &&& forall|i: int| 0 <= i < samples.len() ==> samples[i] == self.sample_at(i)
    }

    /// An empty trajectory, ready to receive samples.
    pub fn new() -> (r: Self)
        ensures
            r.well_formed(),
            r.sample_count() == 0,
            r.records(Seq::<Sample<T>>::empty()),
    {
        SimulationData {
            time: Vec::new(),
            iodine: Vec::new(),
            xenon: Vec::new(),
            promethium: Vec::new(),
            samarium: Vec::new(),
            reactivity_xe: Vec::new(),
            reactivity_sm: Vec::new(),
        }
    }

    /// Record one sample at the end of the trajectory. Every series grows by
    /// exactly the given entry, so the seven series stay in lockstep.
    pub fn push_sample(
        &mut self,
        time: T,
        iodine: T,
        xenon: T,
        promethium: T,
        samarium: T,
        reactivity_xe: T,
        reactivity_sm: T,
    )
        requires
            old(self).well_formed(),
            old(self).sample_count() < usize::MAX,
        ensures
            final(self).well_formed(),
            final(self).sample_count() == old(self).sample_count() + 1,
            final(self).time@ == old(self).time@.push(time),
            final(self).iodine@ == old(self).iodine@.push(iodine),
            final(self).xenon@ == old(self).xenon@.push(xenon),
            final(self).promethium@ == old(self).promethium@.push(promethium),
            final(self).samarium@ == old(self).samarium@.push(samarium),
            final(self).reactivity_xe@ == old(self).reactivity_xe@.push(reactivity_xe),
            final(self).reactivity_sm@ == old(self).reactivity_sm@.push(reactivity_sm),
            forall|samples: Seq<Sample<T>>|
                old(self).records(samples) ==> final(self).records(
                    samples.push(
                        Sample {
                            time,
                            iodine,
                            xenon,
                            promethium,
                            samarium,
                            reactivity_xe,
                            reactivity_sm,
                        },
                    ),
                ),
    {
        self.time.push(time);
        self.iodine.push(iodine);
        self.xenon.push(xenon);
        self.promethium.push(promethium);
        self.samarium.push(samarium);
        self.reactivity_xe.push(reactivity_xe);
        self.reactivity_sm.push(reactivity_sm);
        proof {
            let smp = Sample {
                time,
                iodine,
                xenon,
                promethium,
                samarium,
                reactivity_xe,
                reactivity_sm,
            };
            assert forall|samples: Seq<Sample<T>>|
                old(self).records(samples) implies self.records(samples.push(smp)) by {
                let pushed = samples.push(smp);
                assert forall|j: int| 0 <= j < pushed.len() implies pushed[j] == self.sample_at(
                    j,
                ) by {
                    if j < samples.len() {
                        assert(samples[j] == old(self).sample_at(j));
                        assert(pushed[j] == samples[j]);
                    } else {
                        assert(pushed[j] == smp);
                    }
                }
            }
        }
    }

    /// Number of samples recorded so far.
    pub fn len(&self) -> (n: usize)
        ensures
            n == self.sample_count(),
    {
        self.time.len()
    }
}

/// The trajectory is a function of the recorded samples alone: two
/// trajectories holding the same samples agree on every series.
pub proof fn lemma_trajectory_deterministic<T>(
    a: SimulationData<T>,
    b: SimulationData<T>,
    samples: Seq<Sample<T>>,
)
    requires
        a.well_formed(),
        b.well_formed(),
        a.records(samples),
        b.records(samples),
    ensures
        a.time@ == b.time@,
        a.iodine@ == b.iodine@,
        a.xenon@ == b.xenon@,
        a.promethium@ == b.promethium@,
        a.samarium@ == b.samarium@,
        a.reactivity_xe@ == b.reactivity_xe@,
        a.reactivity_sm@ == b.reactivity_sm@,
{
    assert forall|i: int|
        0 <= i < samples.len() implies a.time@[i] == b.time@[i] && a.iodine@[i] == b.iodine@[i]
            && a.xenon@[i] == b.xenon@[i] && a.promethium@[i] == b.promethium@[i]
            && a.samarium@[i] == b.samarium@[i] && a.reactivity_xe@[i] == b.reactivity_xe@[i]
            && a.reactivity_sm@[i] == b.reactivity_sm@[i] by {
        assert(samples[i] == a.sample_at(i));
        assert(samples[i] == b.sample_at(i));
    }
    assert(a.time@ =~= b.time@);
    assert(a.iodine@ =~= b.iodine@);
    assert(a.xenon@ =~= b.xenon@);
    assert(a.promethium@ =~= b.promethium@);
    assert(a.samarium@ =~= b.samarium@);
    assert(a.reactivity_xe@ =~= b.reactivity_xe@);
    assert(a.reactivity_sm@ =~= b.reactivity_sm@);
}

} // verus!
