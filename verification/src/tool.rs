//! The tool routes: their state, their answer for a namespace that does not exist, and the
//! description they publish.
use vstd::prelude::*;

use crate::feature_set::FeatureSet;
use crate::namespace::Namespace;

verus! {

/// Gives access to the tools of the application.
pub trait ToolProvider {
    type Tool;

    fn tool(&self) -> &Self::Tool;
}

/// The tools as state of the route handlers.
pub struct ToolState<M>(pub M);

/// The status code and body of the answer to a tool listing for a namespace that is not known.
pub fn namespace_not_found(namespace: &Namespace) -> (r: (u16, String))
    ensures
        r.0 == 404,
        r.1@ == "Namespace '"@ + namespace.name() + "' not found"@,
{
    let mut body = String::from_str("Namespace '");
    body.append(namespace.as_str());
    body.append("' not found");
    (404, body)
}

/// Which description of the tool routes an installation publishes.
#[derive(Debug, Clone, Copy, PartialEq, Eq, Structural)]
pub enum ToolApiDoc {
    Beta,
    Stable,
}

/// The description of the tool routes for a feature set: the beta one for beta installations.
pub fn openapi_tools_v1(feature_set: FeatureSet) -> (doc: ToolApiDoc)
    ensures
        doc == (if feature_set == FeatureSet::Beta {
            ToolApiDoc::Beta
        } else {
            ToolApiDoc::Stable
        }),
{
    match feature_set {
        FeatureSet::Beta => ToolApiDoc::Beta,
        FeatureSet::Stable(_) => ToolApiDoc::Stable,
    }
}

} // verus!
