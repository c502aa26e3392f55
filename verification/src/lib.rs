//! Authentication, authorization and error reporting for a Redfish-style
//! management service.
//!
//! The crate decides who is calling from the headers of a request, weighs
//! the caller's privileges against what an operation requires, and renders
//! diagnostics into the protocol's error envelope.
use vstd::prelude::*;

pub mod auth;
pub mod basic;
pub mod message;
pub mod privilege;
pub mod session;

verus! {

/// The version of the Redfish schema that the crate speaks.
pub const REDFISH_VERSION: &'static str = "2022.3";

/// The version of OData that the data model follows.
pub const ODATA_VERSION: &'static str = "4.0";

/// Where the JSON schema files are published.
pub const SCHEMA_BASE_URL: &'static str = "https://redfish.dmtf.org/schemas/v1";

/// Metadata about a model.
pub trait Metadata<'a> {
    /// Location of the JSON schema that describes the model.
    const JSON_SCHEMA: &'a str;
}

} // verus!
