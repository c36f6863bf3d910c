use vstd::prelude::*;

verus! {

/// Why a component could not be constructed.
///
/// Every variant names a size parameter that was zero: such a value would
/// make the modular arithmetic of the component undefined, so construction
/// refuses it instead of handing out an object that cannot be used.
#[derive(Clone, Copy, Debug, PartialEq, Eq, Structural)]
pub enum ConfigError {
    /// A sampler was asked for with a period of zero ticks.
    ZeroPeriod,
    /// A population was asked for with zero instances.
    ZeroPopulation,
    /// A history buffer was asked for with room for zero entries.
    ZeroCapacity,
}

impl ConfigError {
    /// A short human readable description of the error.
    pub fn message(&self) -> (text: &'static str)
        ensures
            (*self == ConfigError::ZeroPeriod) ==> text@ == "sampler period must be at least 1"@,
            (*self == ConfigError::ZeroCapacity) ==> text@
                == "history capacity must be at least 1"@,
            (*self == ConfigError::ZeroPopulation) ==> text@
                == "population size must be at least 1"@,
    {
        match self {
            ConfigError::ZeroPeriod => "sampler period must be at least 1",
            ConfigError::ZeroCapacity => "history capacity must be at least 1",
            ConfigError::ZeroPopulation => "population size must be at least 1",
        }
    }
}

} // verus!
