//! Custom CA certificates trusted by app builds.
use vstd::prelude::*;

verus! {

/// Query parameters for listing CA certificates.
pub struct ListCaCertificatesQuery {
    /// Only the certificates of this team, when given.
    pub team_id: Option<String>,
}

} // verus!
