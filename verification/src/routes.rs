//! The HTTP paths the surrounding server mounts, as associated constants,
//! so the route table and its documentation cannot drift apart.

use vstd::prelude::*;

verus! {

/// API route paths.
pub struct Routes;

impl Routes {
    /// Endpoint-based webhook routing: `/i/{endpoint_id}`.
    pub const ENDPOINT_WEBHOOK: &'static str = "/i/{endpoint_id}";

    /// Internal configuration reload endpoint.
    pub const INTERNAL_CONFIG_RELOAD: &'static str = "/internal/config/reload";

    /// OpenAPI UI endpoint.
    pub const DEV_OPENAPI_UI: &'static str = "/dev/openapi-ui/scalar";

    /// OpenAPI JSON specification endpoint.
    pub const DEV_OPENAPI_JSON: &'static str = "/dev/openapi.json";

    /// Root endpoint.
    pub const ROOT: &'static str = "/";
}

} // verus!
