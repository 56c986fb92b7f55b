//! The shared project record that one pipeline run threads through the
//! agent: the description set upstream, the latest generated source, and the
//! endpoint schema discovered during unit testing.

use crate::routes::RouteObject;
use vstd::prelude::*;

verus! {

/// The mutable record shared across one pipeline run. The agent overwrites
/// `backend_code` on every successful generation and `api_endpoint_schema`
/// once per unit-testing pass; it never writes `project_description`.
pub struct FactSheet {
    pub project_description: String,
    pub backend_code: Option<String>,
    pub api_endpoint_schema: Option<Vec<RouteObject>>,
}

impl FactSheet {
    /// A fresh record for a project description: no code generated yet, no
    /// schema discovered yet.
    pub fn new(project_description: String) -> (r: FactSheet)
        ensures
            r.project_description == project_description,
            r.backend_code is None,
            r.api_endpoint_schema is None,
    {
        FactSheet { project_description, backend_code: None, api_endpoint_schema: None }
    }
}

} // verus!
