//! Poison-kinetics simulation engine: the structural core of a xenon/samarium
//! transient simulator.
//!
//! The numerical integration itself runs on 64-bit floating point, which this
//! library treats as an opaque scalar type `T`: the verified code owns the
//! trajectory data structure, the sampling grid, and the decision logic of the
//! post-shutdown peak search, while the caller supplies the arithmetic.

pub mod grid;
pub mod params;
pub mod search;
pub mod trajectory;

pub use params::EquilibriumValues;
pub use params::SimulationDefaults;
pub use params::SimulationParams;
pub use search::PeakSearch;
pub use search::SearchStep;
pub use trajectory::SimulationData;
