//! The error taxonomy of the client.
//!
//! Transport failures are retryable; HTTP 4xx statuses (other than 429),
//! payload errors and domain validation errors are fatal.

use vstd::prelude::*;

verus! {

/// Every failure the client surfaces. Transport and server-side failures
/// carry the message of the underlying HTTP error as plain text; domain
/// validation failures carry the offending input.
pub enum Error {
    /// The service answered with a non-2xx status and an error payload.
    Api { status_code: u16, message: String },
    /// The configured endpoint is not a valid base address.
    BadEndpoint { endpoint: String },
    /// The API token is not usable in a request header.
    BadToken { token: String },
    /// Expected `<owner>/<name>` or a source id.
    BadSourceIdentifier { identifier: String },
    /// Expected `<owner>/<name>` or a dataset id.
    BadDatasetIdentifier { identifier: String },
    /// Expected `<owner>/<name>` naming an integration.
    BadIntegrationIdentifier { identifier: String },
    /// Expected `<owner>/<dataset>/<stream>`.
    BadStreamName { identifier: String },
    /// Expected an unsigned number naming a stream model version.
    BadStreamModelVersion { version: String },
    /// Expected a user id in hexadecimal.
    BadUserIdentifier { identifier: String },
    /// Expected a valid project name.
    BadProjectIdentifier { identifier: String },
    /// Unknown project permission name.
    BadProjectPermission { permission: String },
    /// Unknown global permission name.
    BadGlobalPermission { permission: String },
    /// Expected `<owner>/<name>` or a bucket id.
    BadBucketIdentifier { identifier: String },
    /// Expected `<owner>/<name>` naming a bucket.
    BadBucketName { name: String },
    /// Unknown bucket type.
    BadBucketType { bucket_type: String },
    /// Unknown quota kind.
    BadTenantQuotaKind { tenant_quota_kind: String },
    /// The response body was not the JSON the endpoint promises.
    BadJsonResponse { message: String },
    /// The status code and the response payload disagree.
    BadProtocol { status_code: u16, message: String },
    /// The HTTP client itself could not be initialised.
    BuildHttpClient { message: String },
    /// The HTTP request failed below the protocol: connection, TLS, timeout.
    ReqwestError { message: String },
    /// Any other failure, kept as a message.
    Unknown { message: String },
}

impl Error {
    /// Whether the retry policy may try the failed call again: transport
    /// errors and 5xx statuses are transient, as is 429 (rate limiting);
    /// everything else is fatal.
    pub open spec fn spec_retryable(&self) -> bool {
        match self {
            Error::ReqwestError { .. } => true,
            Error::Api { status_code, .. } => {
                (500 <= *status_code && *status_code <= 599) || *status_code == 429
            },
            _ => false,
        }
    }

    /// Run-time counterpart of [`Error::spec_retryable`].
    pub fn is_retryable(&self) -> (r: bool)
        ensures
            r == self.spec_retryable(),
    {
        match self {
            Error::ReqwestError { .. } => true,
            Error::Api { status_code, .. } => {
                (500 <= *status_code && *status_code <= 599) || *status_code == 429
            },
            _ => false,
        }
    }
}

impl Clone for Error {
    fn clone(&self) -> (r: Self)
        ensures
            r == *self,
    {
        match self {
            Error::Api { status_code, message } => Error::Api {
                status_code: *status_code,
                message: message.clone(),
            },
            Error::BadEndpoint { endpoint } => Error::BadEndpoint { endpoint: endpoint.clone() },
            Error::BadToken { token } => Error::BadToken { token: token.clone() },
            Error::BadSourceIdentifier { identifier } => Error::BadSourceIdentifier {
                identifier: identifier.clone(),
            },
            Error::BadDatasetIdentifier { identifier } => Error::BadDatasetIdentifier {
                identifier: identifier.clone(),
            },
            Error::BadIntegrationIdentifier { identifier } => Error::BadIntegrationIdentifier {
                identifier: identifier.clone(),
            },
            Error::BadStreamName { identifier } => Error::BadStreamName {
                identifier: identifier.clone(),
            },
            Error::BadStreamModelVersion { version } => Error::BadStreamModelVersion {
                version: version.clone(),
            },
            Error::BadUserIdentifier { identifier } => Error::BadUserIdentifier {
                identifier: identifier.clone(),
            },
            Error::BadProjectIdentifier { identifier } => Error::BadProjectIdentifier {
                identifier: identifier.clone(),
            },
            Error::BadProjectPermission { permission } => Error::BadProjectPermission {
                permission: permission.clone(),
            },
            Error::BadGlobalPermission { permission } => Error::BadGlobalPermission {
                permission: permission.clone(),
            },
            Error::BadBucketIdentifier { identifier } => Error::BadBucketIdentifier {
                identifier: identifier.clone(),
            },
            Error::BadBucketName { name } => Error::BadBucketName { name: name.clone() },
            Error::BadBucketType { bucket_type } => Error::BadBucketType {
                bucket_type: bucket_type.clone(),
            },
            Error::BadTenantQuotaKind { tenant_quota_kind } => Error::BadTenantQuotaKind {
                tenant_quota_kind: tenant_quota_kind.clone(),
            },
            Error::BadJsonResponse { message } => Error::BadJsonResponse {
                message: message.clone(),
            },
            Error::BadProtocol { status_code, message } => Error::BadProtocol {
                status_code: *status_code,
                message: message.clone(),
            },
            Error::BuildHttpClient { message } => Error::BuildHttpClient {
                message: message.clone(),
            },
            Error::ReqwestError { message } => Error::ReqwestError { message: message.clone() },
            Error::Unknown { message } => Error::Unknown { message: message.clone() },
        }
    }
}

} // verus!
