//! What every language provider offers to the detection and planning pipeline.
use vstd::prelude::*;
use crate::plan::BuildPlan;
use crate::project::{App, Environment, ProviderError};

verus! {

/// A detector and planner for one language ecosystem. Providers share no state,
/// only this contract: a name, a test of whether a project belongs to the
/// ecosystem, and the build plan of a project that does.
pub trait Provider {
    fn name(&self) -> &'static str;

    fn detect(&self, app: &App, env: &Environment) -> Result<bool, ProviderError>;

    fn get_build_plan(&self, app: &App, env: &Environment) -> Result<Option<BuildPlan>, ProviderError>;
}

} // verus!
