//! The request bodies and methods of the hosted API.
use vstd::prelude::*;

use crate::model::{ServiceKind, ServiceSecretBinding};

verus! {

/// The HTTP method of a hosted API request.
#[derive(Debug, Clone, Copy, PartialEq, Eq, Structural)]
pub enum HttpMethod {
    Get,
    Post,
    Put,
    Delete,
}

impl HttpMethod {
    /// The method as it is displayed: `GET`, `POST`, `PUT` or `DELETE`.
    pub open spec fn label_text(self) -> Seq<char> {
        match self {
            HttpMethod::Get => "GET"@,
            HttpMethod::Post => "POST"@,
            HttpMethod::Put => "PUT"@,
            HttpMethod::Delete => "DELETE"@,
        }
    }

    /// The method as it is displayed: `GET`, `POST`, `PUT` or `DELETE`.
    pub fn label(self) -> (r: &'static str)
        ensures
            r@ == self.label_text(),
    {
        match self {
            HttpMethod::Get => "GET",
            HttpMethod::Post => "POST",
            HttpMethod::Put => "PUT",
            HttpMethod::Delete => "DELETE",
        }
    }
}

/// A service or sandbox to apply on a hosted machine.
#[derive(Debug, Clone, PartialEq, Eq)]
pub struct ServiceApplyRequest {
    pub name: String,
    pub kind: ServiceKind,
    pub host_group: Option<String>,
    pub command: Vec<String>,
    pub secret_bindings: Vec<ServiceSecretBinding>,
}

/// A secret to store for a hosted machine.
#[derive(Debug, Clone, PartialEq, Eq)]
pub struct SecretPutRequest {
    pub name: String,
    pub value: String,
}

} // verus!
