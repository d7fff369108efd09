//! Keeps a pool of endpoints for one service name in step with periodic name
//! resolution, and reports how healthy that pool looks.
use vstd::prelude::*;

pub mod address;
pub mod endpoint_template;
pub mod laws;
pub mod reconcile;
pub mod status;
pub mod url_parts;

pub use address::IpAddress;
pub use endpoint_template::{
    EndpointDescriptor, EndpointOptions, EndpointTemplate, Error as EndpointTemplateError,
};
pub use reconcile::{Plan, Reconciler};
pub use status::{DnsStatus, Health};
pub use url_parts::{UrlHost, UrlParts};

verus! {

} // verus!
