//! The inputs of one transient simulation request. Every parameter of the
//! request is optional: a missing or unreadable value falls back silently to
//! its documented default, and this module pins down exactly that rule.

use vstd::prelude::*;

verus! {

/// A fully resolved simulation request: duration, power fraction, prior
/// elapsed time, prior inventories of the four isotopes, and the flux.
pub struct SimulationParams<T> {
    /// Duration to simulate, in days.
    pub time: T,
    /// Power fraction of the reference flux (0 for shutdown).
    pub state: T,
    /// Prior elapsed time, in days: the start of the reported time axis.
    pub last_time: T,
    /// Prior iodine inventory.
    pub last_iodine: T,
    /// Prior xenon inventory.
    pub last_xenon: T,
    /// Prior promethium inventory.
    pub last_promethium: T,
    /// Prior samarium inventory.
    pub last_samarium: T,
    /// Neutron flux at full power.
    pub phi_0: T,
}

/// The documented default of every request parameter.
pub struct SimulationDefaults<T> {
    /// Default duration.
    pub time: T,
    /// Default power fraction.
    pub state: T,
    /// Default prior elapsed time.
    pub last_time: T,
    /// Default prior iodine inventory.
    pub last_iodine: T,
    /// Default prior xenon inventory.
    pub last_xenon: T,
    /// Default prior promethium inventory.
    pub last_promethium: T,
    /// Default prior samarium inventory.
    pub last_samarium: T,
    /// Default flux: the reference flux.
    pub phi_0: T,
}

/// What a parameter resolves to: the parsed value when the request carried
/// one, its default otherwise.
pub open spec fn resolved<T>(value: Option<T>, default: T) -> T {
    match value {
        Option::Some(v) => v,
        Option::None => default,
    }
}

/// A parameter resolves to the parsed value when there is one and to the
/// given default otherwise; no error is ever surfaced.
pub fn resolve<T>(value: Option<T>, default: T) -> (r: T)
    ensures
        r == resolved(value, default),
{
    match value {
        Option::Some(v) => v,
        Option::None => default,
    }
}

impl<T> SimulationParams<T> {
    /// Build a request from the parse results of its eight query parameters:
    /// each field takes its parsed value when one is present and its
    /// documented default otherwise.
    pub fn from_parsed(
        time: Option<T>,
        state: Option<T>,
        last_time: Option<T>,
        last_iodine: Option<T>,
        last_xenon: Option<T>,
        last_promethium: Option<T>,
        last_samarium: Option<T>,
        phi_0: Option<T>,
        defaults: SimulationDefaults<T>,
    ) -> (r: Self)
        ensures
            r.time == resolved(time, defaults.time),
            r.state == resolved(state, defaults.state),
            r.last_time == resolved(last_time, defaults.last_time),
            r.last_iodine == resolved(last_iodine, defaults.last_iodine),
            r.last_xenon == resolved(last_xenon, defaults.last_xenon),
            r.last_promethium == resolved(last_promethium, defaults.last_promethium),
            r.last_samarium == resolved(last_samarium, defaults.last_samarium),
            r.phi_0 == resolved(phi_0, defaults.phi_0),
    {
        let SimulationDefaults {
            time: d_time,
            state: d_state,
            last_time: d_last_time,
            last_iodine: d_last_iodine,
            last_xenon: d_last_xenon,
            last_promethium: d_last_promethium,
            last_samarium: d_last_samarium,
            phi_0: d_phi_0,
        } = defaults;
        SimulationParams {
            time: resolve(time, d_time),
            state: resolve(state, d_state),
            last_time: resolve(last_time, d_last_time),
            last_iodine: resolve(last_iodine, d_last_iodine),
            last_xenon: resolve(last_xenon, d_last_xenon),
            last_promethium: resolve(last_promethium, d_last_promethium),
            last_samarium: resolve(last_samarium, d_last_samarium),
            phi_0: resolve(phi_0, d_phi_0),
        }
    }
}

/// The equilibrium solver's report: infinite-time concentrations and
/// reactivities at the requested flux, and the post-shutdown peaks found by
/// the bounded search, with the times (in days) at which they occur.
pub struct EquilibriumValues<T> {
    /// Infinite-time iodine concentration.
    pub iodine_infinity: T,
    /// Infinite-time xenon concentration.
    pub xenon_infinity: T,
    /// Infinite-time promethium concentration.
    pub promethium_infinity: T,
    /// Infinite-time samarium concentration (flux-independent).
    pub samarium_infinity: T,
    /// Infinite-time xenon reactivity.
    pub xe_reactivity_infinity: T,
    /// Infinite-time samarium reactivity.
    pub sm_reactivity_infinity: T,
    /// Largest xenon level seen after shutdown.
    pub max_xenon: T,
    /// Largest-magnitude xenon reactivity seen after shutdown.
    pub max_xe_reactivity: T,
    /// Time of the xenon peak, in days after shutdown.
    pub max_xenon_time: T,
    /// Time of the reactivity peak, in days after shutdown.
    pub max_xe_reactivity_time: T,
}

} // verus!
