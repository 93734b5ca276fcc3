//! Failures of the infrastructure under the pipeline. They stand apart from the
//! error envelope: each is fatal to the startup or the invocation in which it
//! occurs, none is retried, and the client learns nothing of its detail.

use crate::error::{HttpResponse, HttpResponseView, INTERNAL_SERVER_ERROR};
use crate::text::concatenate;
use vstd::prelude::*;

verus! {

/// A failure of the infrastructure, with its detail for the operator's log.
#[derive(Debug, PartialEq, Eq)]
pub enum InfraError {
    /// No connection could be leased from the pool.
    PoolAcquisition { detail: String },
    /// The certificate for the database's TLS could not be loaded.
    CertificateLoad { detail: String },
    /// The cookie key could not be decoded.
    CookieKeyDecode { detail: String },
}

impl InfraError {
    /// What failed.
    pub open spec fn kind_spec(self) -> Seq<char> {
        match self {
            InfraError::PoolAcquisition { .. } => "pool acquisition failed"@,
            InfraError::CertificateLoad { .. } => "certificate load failed"@,
            InfraError::CookieKeyDecode { .. } => "cookie key decode failed"@,
        }
    }

    /// The detail of the failure.
    pub open spec fn detail_spec(self) -> Seq<char> {
        match self {
            InfraError::PoolAcquisition { detail } => detail@,
            InfraError::CertificateLoad { detail } => detail@,
            InfraError::CookieKeyDecode { detail } => detail@,
        }
    }

    /// What failed.
    pub fn kind(&self) -> (r: &'static str)
        ensures
            r@ == self.kind_spec(),
    {
        match self {
            InfraError::PoolAcquisition { .. } => "pool acquisition failed",
            InfraError::CertificateLoad { .. } => "certificate load failed",
            InfraError::CookieKeyDecode { .. } => "cookie key decode failed",
        }
    }

    /// The detail of the failure.
    pub fn detail(&self) -> (r: &str)
        ensures
            r@ == self.detail_spec(),
    {
        match self {
            InfraError::PoolAcquisition { detail } => detail.as_str(),
            InfraError::CertificateLoad { detail } => detail.as_str(),
            InfraError::CookieKeyDecode { detail } => detail.as_str(),
        }
    }

    /// The line for the operator's log: what failed, and the detail in full.
    pub fn to_string(&self) -> (r: String)
        ensures
            r@ == self.kind_spec() + ": "@ + self.detail_spec(),
    {
        let mut line = concatenate(self.kind(), ": ");
        line.append(self.detail());
        line
    }

    /// What the client is answered: a plain-text 500 that is the same for every
    /// failure.
    pub fn to_response(&self) -> (r: HttpResponse)
        ensures
            r@ == (HttpResponseView {
                status: INTERNAL_SERVER_ERROR,
                content_type: "text/plain; charset=utf-8"@,
                body: "Internal Server Error"@,
            }),
    {
        HttpResponse {
            status: INTERNAL_SERVER_ERROR,
            content_type: "text/plain; charset=utf-8",
            body: "Internal Server Error".to_owned(),
        }
    }
}

} // verus!
