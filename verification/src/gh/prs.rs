//! Pull requests as the remote listing reports them.

use vstd::prelude::*;

verus! {

/// The summary of one pull request. The two times are kept as the remote
/// service writes them.
#[derive(Clone, Debug, PartialEq, Eq)]
pub struct PullRequestEntry {
    pub id: i64,
    pub title: String,
    pub author: String,
    pub created_at: String,
    pub updated_at: String,
    pub state: String,
}

} // verus!
