//! Buckets: the containers raw emails are uploaded into.

use vstd::prelude::*;

use crate::text::join_full_name;
use crate::time::Timestamp;
use crate::user::Username;

verus! {

/// A bucket id.
pub struct Id(pub String);

/// A bucket name, unique within its owner.
pub struct Name(pub String);

/// A fully qualified bucket name: `<owner>/<name>`.
pub struct FullName(pub String);

/// How a bucket may be named in a request: by id or by full name.
pub enum Identifier {
    Id(Id),
    FullName(FullName),
}

/// A bucket as the service returns it.
pub struct Bucket {
    pub id: Id,
    pub name: Name,
    pub owner: Username,
    pub created_at: Timestamp,
}

impl Bucket {
    /// The `<owner>/<name>` form under which the service addresses this
    /// bucket.
    pub fn full_name(&self) -> (r: FullName)
        ensures
            r.0@ == self.owner.0@ + "/"@ + self.name.0@,
    {
        FullName(join_full_name(&self.owner.0, &self.name.0))
    }
}

} // verus!
