//! Users and their permissions.

use vstd::prelude::*;

use crate::error::Error;
use crate::project::ProjectName;
use crate::text::{all_hex_digits, all_username_chars, spec_all_hex_digits,
    spec_all_username_chars};
use crate::time::Timestamp;

verus! {

/// A user id: a hexadecimal string.
pub struct Id(pub String);

impl View for Id {
    type V = Seq<char>;

    open spec fn view(&self) -> Seq<char> {
        self.0@
    }
}

impl Id {
    /// Accepts exactly the strings made of hexadecimal digits.
    pub fn parse(s: &str) -> (r: Result<Id, Error>)
        ensures
            r is Ok <==> spec_all_hex_digits(s@),
            (r matches Ok(id) ==> id@ == s@),
            (r matches Err(e) ==> (e matches Error::BadUserIdentifier { identifier } && identifier@
                == s@)),
    {
        if all_hex_digits(s) {
            Ok(Id(s.to_owned()))
        } else {
            Err(Error::BadUserIdentifier { identifier: s.to_owned() })
        }
    }
}

/// A username: ASCII letters, digits, underscores and hyphens.
pub struct Username(pub String);

impl View for Username {
    type V = Seq<char>;

    open spec fn view(&self) -> Seq<char> {
        self.0@
    }
}

impl Username {
    /// Accepts exactly the strings made of username characters.
    pub fn parse(s: &str) -> (r: Result<Username, Error>)
        ensures
            r is Ok <==> spec_all_username_chars(s@),
            (r matches Ok(name) ==> name@ == s@),
            (r matches Err(e) ==> (e matches Error::BadUserIdentifier { identifier }
                && identifier@ == s@)),
    {
        if all_username_chars(s) {
            Ok(Username(s.to_owned()))
        } else {
            Err(Error::BadUserIdentifier { identifier: s.to_owned() })
        }
    }
}

/// A user's email address; any string is accepted.
pub struct Email(pub String);

impl Email {
    pub fn parse(s: &str) -> (r: Result<Email, Error>)
        ensures
            (r matches Ok(email) && email.0@ == s@),
    {
        Ok(Email(s.to_owned()))
    }
}

/// How a user may be named in a request: only by id.
pub enum Identifier {
    Id(Id),
}

impl Identifier {
    /// Accepts exactly the strings made of hexadecimal digits; usernames
    /// and emails are not accepted here.
    pub fn parse(s: &str) -> (r: Result<Identifier, Error>)
        ensures
            r is Ok <==> spec_all_hex_digits(s@),
            (r matches Ok(ident) ==> (ident matches Identifier::Id(id) && id@ == s@)),
            (r matches Err(e) ==> (e matches Error::BadUserIdentifier { identifier } && identifier@
                == s@)),
    {
        if all_hex_digits(s) {
            Ok(Identifier::Id(Id(s.to_owned())))
        } else {
            Err(Error::BadUserIdentifier { identifier: s.to_owned() })
        }
    }
}

/// A permission that holds across the whole tenant.
pub struct GlobalPermission(pub String);

/// A permission scoped to one project.
pub enum ProjectPermission {
    CommentsAdmin,
    DatasetsAdmin,
    DatasetsWrite,
    DatasetsReview,
    DatasetsRead,
    DatasetsExport,
    SourcesAdmin,
    SourcesTranslate,
    SourcesRead,
    SourcesReadSensitive,
    StreamsAdmin,
    StreamsConsume,
    StreamsRead,
    StreamsWrite,
    UsersRead,
    UsersWrite,
    BucketsRead,
    BucketsWrite,
    BucketsAppend,
    FilesWrite,
    ApplianceConfigRead,
    ApplianceConfigWrite,
    IntegrationsRead,
    IntegrationsWrite,
    Unknown(String),
}

/// A user as the service returns it. Permission lists keep each project
/// at most once.
pub struct User {
    pub id: Id,
    pub username: Username,
    pub email: Email,
    pub created_at: Timestamp,
    pub global_permissions: Vec<GlobalPermission>,
    pub project_permissions: Vec<(ProjectName, Vec<ProjectPermission>)>,
    pub sso_global_permissions: Vec<GlobalPermission>,
    pub verified: bool,
}

/// A user as the caller creates one.
pub struct NewUser {
    pub username: Username,
    pub email: Email,
    pub global_permissions: Vec<GlobalPermission>,
    pub project_permissions: Vec<(ProjectName, Vec<ProjectPermission>)>,
}

/// A permission change applied to an existing user.
pub struct ModifiedPermissions {
    pub project_permissions: Vec<(ProjectName, Vec<ProjectPermission>)>,
    pub global_permissions: Vec<GlobalPermission>,
}

} // verus!
