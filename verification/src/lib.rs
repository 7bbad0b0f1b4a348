//! Decision logic of the Pharia kernel: the parts of the engine that compute, stated with
//! contracts and proved by Verus. Everything that talks to the network, the file system or a
//! WebAssembly runtime lives outside of this crate and hands plain values to the functions here.

// Text and collections the other modules build on.
pub mod name_map;
pub mod text;

// Configuration of an installation and of its namespaces.
pub mod config;
pub mod feature_set;
pub mod namespace;
pub mod observer;
pub mod operator_config;
pub mod skill_config;

// Inference: requests, answers, streams and the backends' formats.
pub mod inference;
pub mod openai;
pub mod reasoning;
pub mod stream_relay;

// The Cognitive System Interface as skills and HTTP clients see it.
pub mod chunking;
pub mod csi;
pub mod csi_common;
pub mod csi_shell;
pub mod csi_v0_2;
pub mod csi_v0_3;
pub mod csi_v1;
pub mod language;
pub mod search;
pub mod tool;

// Skills, their registry, and the skills that tests run.
pub mod hardcoded_skills;
pub mod oci;
pub mod test_skills;

// Access, tracing and the results of agents.
pub mod agent_results;
pub mod authorization;
pub mod logging;
