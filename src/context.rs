//! The shared, read-only state of a run: its configuration and its pattern
//! table.
use vstd::prelude::*;
use crate::config::MaidConfig;
use crate::patterns::Patterns;

verus! {

/// Access to the debug switch of a run.
pub trait AsyncIOContext {
    fn is_debug(&self) -> bool;
}

/// Access to the pattern table of a run.
pub trait PatternsContext {
    fn get_patterns(&self) -> &Patterns;
}

/// Access to the whole shared state of a run.
pub trait MaidContext: AsyncIOContext + PatternsContext {
    fn get_config(&self) -> &MaidConfig;
}

/// The configuration and pattern table of a run, built once and shared by
/// every unit of work.
pub struct SimpleContext {
    config: MaidConfig,
    patterns: Patterns,
}

impl SimpleContext {
    pub closed spec fn spec_config(&self) -> MaidConfig {
        self.config
    }

    pub closed spec fn spec_patterns(&self) -> Patterns {
        self.patterns
    }

    pub fn new(config: MaidConfig, patterns: Patterns) -> (r: SimpleContext)
        ensures
            r.spec_config() == config,
            r.spec_patterns() == patterns,
    {
        SimpleContext { config, patterns }
    }

    pub fn get_config(&self) -> (r: &MaidConfig)
        ensures
            *r == self.spec_config(),
    {
        &self.config
    }

    pub fn patterns(&self) -> (r: &Patterns)
        ensures
            *r == self.spec_patterns(),
    {
        &self.patterns
    }
}

impl AsyncIOContext for SimpleContext {
    fn is_debug(&self) -> (r: bool)
        ensures
            r == self.spec_config().debug,
    {
        self.config.debug
    }
}

impl MaidContext for SimpleContext {
    fn get_config(&self) -> (r: &MaidConfig)
        ensures
            *r == self.spec_config(),
    {
        &self.config
    }
}

impl PatternsContext for SimpleContext {
    fn get_patterns(&self) -> (r: &Patterns)
        ensures
            *r == self.spec_patterns(),
    {
        &self.patterns
    }
}

} // verus!
