use particle_trails::error::ConfigError;

#[test]
fn each_error_says_what_was_zero() {
    assert_eq!(
        ConfigError::ZeroPeriod.message(),
        "sampler period must be at least 1"
    );
    assert_eq!(
        ConfigError::ZeroCapacity.message(),
        "history capacity must be at least 1"
    );
    assert_eq!(
        ConfigError::ZeroPopulation.message(),
        "population size must be at least 1"
    );
}

#[test]
fn errors_compare_by_variant() {
    assert_eq!(ConfigError::ZeroPeriod, ConfigError::ZeroPeriod);
    assert_ne!(ConfigError::ZeroPeriod, ConfigError::ZeroCapacity);
    assert_ne!(ConfigError::ZeroCapacity, ConfigError::ZeroPopulation);
}
