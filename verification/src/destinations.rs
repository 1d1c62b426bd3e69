//! Deployment destinations (named Docker networks).
use vstd::prelude::*;

verus! {

/// Query parameters for listing destinations.
pub struct ListDestinationsQuery {
    /// Only the destinations of this team, when given.
    pub team_id: Option<String>,
}

} // verus!
