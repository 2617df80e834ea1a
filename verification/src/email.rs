//! Emails held in buckets.

use vstd::prelude::*;

verus! {

/// The mailbox an email was taken from.
pub struct Mailbox(pub String);

/// A raw MIME payload.
pub struct MimeContent(pub String);

/// An email id.
pub struct Id(pub String);

} // verus!
