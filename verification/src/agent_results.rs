//! Results of the work of agents that run on a schedule, offered to frontends over HTTP. Only beta
//! installations offer them yet.
use vstd::prelude::*;

use crate::feature_set::FeatureSet;

verus! {

/// The output of an agent.
#[derive(Debug, Clone, PartialEq, Eq)]
pub struct AgentResult {
    pub content: String,
}

/// Whether the installation offers the route to agent results: beta installations only.
pub fn http_agent_results_v1(feature_set: FeatureSet) -> (served: bool)
    ensures
        served == (feature_set == FeatureSet::Beta),
{
    match feature_set {
        FeatureSet::Beta => true,
        FeatureSet::Stable(_) => false,
    }
}

/// The agent results there are: one joke.
pub fn agent_results() -> (results: Vec<AgentResult>)
    ensures
        results.len() == 1,
        results@[0].content@ == "Why do programmers prefer dark mode? Because light attracts bugs!"@,
{
    vec![
        AgentResult {
            content: "Why do programmers prefer dark mode? Because light attracts bugs!".to_owned(),
        },
    ]
}

} // verus!
