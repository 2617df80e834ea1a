//! Projects, which group sources, datasets and buckets.

use vstd::prelude::*;

verus! {

/// The name of a project.
pub struct ProjectName(pub String);

/// A project id.
pub struct Id(pub String);

} // verus!
