//! Mailbox integrations that feed sources automatically.

use vstd::prelude::*;

use crate::email::Mailbox;
use crate::error::Error;
use crate::project::ProjectName;
use crate::text::{count_char, spec_count_char};
use crate::time::Timestamp;
use crate::user::Email;

verus! {

/// An integration as the caller creates or updates one.
pub struct NewIntegration {
    pub title: Option<Title>,
    pub enabled: Option<bool>,
    pub configuration: Configuration,
}

/// An integration as the service returns it.
pub struct Integration {
    pub id: Id,
    pub owner: ProjectName,
    pub name: FullName,
    pub title: Title,
    pub integration_type: IntegrationType,
    pub created_at: Timestamp,
    pub updated_at: Timestamp,
    pub enabled: bool,
    pub disabled_reason: Option<DisabledReason>,
    pub configuration: Configuration,
}

/// A fully qualified integration name: `<owner>/<name>`.
pub struct FullName(pub String);

impl FullName {
    /// Accepts exactly the strings with one `/`, separating owner from
    /// name.
    pub fn parse(s: &str) -> (r: Result<FullName, Error>)
        ensures
            r is Ok <==> spec_count_char(s@, '/') == 1,
            (r matches Ok(name) ==> name.0@ == s@),
            (r matches Err(e) ==> (e matches Error::BadIntegrationIdentifier { identifier }
                && identifier@ == s@)),
    {
        if count_char(s, '/') == 1 {
            Ok(FullName(s.to_owned()))
        } else {
            Err(Error::BadIntegrationIdentifier { identifier: s.to_owned() })
        }
    }
}

/// An integration id.
pub struct Id(pub String);

/// A display title for an integration.
pub struct Title(pub String);

/// The kind of remote mail system an integration connects to.
pub enum IntegrationType {
    ExchangeOnline,
}

/// Why an integration was switched off.
pub enum DisabledReason {
    User,
    Quota,
    SyncError,
}

/// The configuration of an integration.
pub struct Configuration {
    pub connection: Option<Connection>,
    pub mailboxes: Vec<Mailbox>,
}

/// How the integration signs in to the remote mail system.
pub struct Connection {
    pub access: AccessType,
    pub ews_endpoint: Option<String>,
    pub build_version: Option<String>,
}

/// The credential kinds a connection can use.
pub enum AccessType {
    UserAccess(UserAccessConfig),
}

/// Access through a named mail user.
pub struct UserAccessConfig {
    pub email: Email,
}

} // verus!
