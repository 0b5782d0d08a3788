//! The hand-off to the certificate service.
//!
//! The service keeps certificates by alias. Asked for one, it hands out the
//! certificate it has under the alias if that is still good, and issues a
//! new one, signed by the edge CA, if there is none or the old one is about
//! to expire. When a certificate is about to expire is for the service to
//! say. This module states what the service is asked and what is made of
//! its answer; the call itself is the caller's.

use vstd::prelude::*;
use crate::alias::CertificateAlias;
use crate::cert::{CertificateSpec, CertificateSpecView, SanEntries, SanEntrySet};
use crate::response::IssuanceError;

verus! {

/// The certificate authority that signs module certificates, as plain text.
pub struct EdgeCaView {
    pub cert_id: Seq<char>,
    pub key_id: Seq<char>,
    pub device_id: Seq<char>,
}

/// The certificate authority that signs module certificates: where its
/// certificate and its key are kept, and the device that owns it.
#[derive(Debug)]
pub struct EdgeCaRef {
    pub cert_id: String,
    pub key_id: String,
    pub device_id: String,
}

impl View for EdgeCaRef {
    type V = EdgeCaView;

    open spec fn view(&self) -> EdgeCaView {
        EdgeCaView { cert_id: self.cert_id@, key_id: self.key_id@, device_id: self.device_id@ }
    }
}

impl Clone for EdgeCaRef {
    fn clone(&self) -> (r: Self)
        ensures
            r@ == self@,
    {
        EdgeCaRef {
            cert_id: self.cert_id.clone(),
            key_id: self.key_id.clone(),
            device_id: self.device_id.clone(),
        }
    }
}

/// What the certificate service is asked, as plain text.
pub struct IssuanceRequestView {
    pub alias: Seq<char>,
    pub common_name: Seq<char>,
    pub sans: SanEntries,
    pub signer: EdgeCaView,
}

/// What the certificate service is asked: the certificate under `alias`,
/// issued anew by `signer` with this common name and these alternative
/// names where the service holds none that is still good.
#[derive(Debug)]
pub struct IssuanceRequest {
    pub alias: CertificateAlias,
    pub common_name: String,
    pub sans: SanEntrySet,
    pub signer: EdgeCaRef,
}

impl View for IssuanceRequest {
    type V = IssuanceRequestView;

    open spec fn view(&self) -> IssuanceRequestView {
        IssuanceRequestView {
            alias: self.alias@,
            common_name: self.common_name@,
            sans: self.sans@,
            signer: self.signer@,
        }
    }
}

/// The request that asks for the certificate that `spec` describes.
pub open spec fn issuance_of(spec: CertificateSpecView, signer: EdgeCaView) -> IssuanceRequestView {
    IssuanceRequestView {
        alias: spec.alias,
        common_name: spec.common_name,
        sans: spec.sans,
        signer,
    }
}

/// Makes the request for the certificate that `spec` describes. Nothing of
/// the description is changed on the way.
pub fn prepare_issuance(spec: CertificateSpec, edge_ca: EdgeCaRef) -> (request: IssuanceRequest)
    ensures
        request@ == issuance_of(spec@, edge_ca@),
{
    IssuanceRequest {
        alias: spec.alias,
        common_name: spec.common_name,
        sans: spec.sans,
        signer: edge_ca,
    }
}

/// A certificate with its key and the time at which it expires, as plain
/// text.
pub struct CertificateResponseView {
    pub certificate: Seq<char>,
    pub private_key: Seq<char>,
    pub expiration: Seq<char>,
}

/// A certificate with its key and the time at which it expires.
#[derive(Debug, PartialEq, Eq)]
pub struct CertificateResponse {
    pub certificate: String,
    pub private_key: String,
    pub expiration: String,
}

impl View for CertificateResponse {
    type V = CertificateResponseView;

    open spec fn view(&self) -> CertificateResponseView {
        CertificateResponseView {
            certificate: self.certificate@,
            private_key: self.private_key@,
            expiration: self.expiration@,
        }
    }
}

/// How the call to the certificate service ended.
#[derive(Debug)]
pub enum ServiceOutcome {
    /// The service held a certificate under the alias that is still good,
    /// and handed it out.
    Existing(CertificateResponse),
    /// The service held none under the alias, or one that is about to
    /// expire, and issued this one.
    Issued(CertificateResponse),
    /// The service was reached and did not issue.
    Rejected,
    /// The service was not reached.
    Unreachable,
}

/// What is made of the service's answer.
pub open spec fn concluded(outcome: ServiceOutcome) -> Result<
    CertificateResponseView,
    IssuanceError,
> {
    match outcome {
        ServiceOutcome::Existing(material) => Ok(material@),
        ServiceOutcome::Issued(material) => Ok(material@),
        ServiceOutcome::Rejected => Err(IssuanceError::SigningFailed),
        ServiceOutcome::Unreachable => Err(IssuanceError::Unavailable),
    }
}

/// A certificate that the service already held is handed out unchanged, and
/// it makes no difference to the caller whether a certificate was held or
/// issued: requests that the service answers with the same certificate are
/// answered alike.
pub proof fn lemma_reuse_hands_out_what_is_held(material: CertificateResponse)
    ensures
        concluded(ServiceOutcome::Existing(material)) == Ok::<CertificateResponseView, IssuanceError>(
            material@,
        ),
        concluded(ServiceOutcome::Existing(material)) == concluded(
            ServiceOutcome::Issued(material),
        ),
{
}

/// Turns the service's answer into the result of the request. What the
/// service handed out is passed on as it is, and a failure is passed on
/// once: the call is not made again.
pub fn conclude(outcome: ServiceOutcome) -> (r: Result<CertificateResponse, IssuanceError>)
    ensures
        match concluded(outcome) {
            Ok(expected) => r matches Ok(response) && response@ == expected,
            Err(reason) => r matches Err(e) && e == reason,
        },
{
    match outcome {
        ServiceOutcome::Existing(material) => Ok(material),
        ServiceOutcome::Issued(material) => Ok(material),
        ServiceOutcome::Rejected => Err(IssuanceError::SigningFailed),
        ServiceOutcome::Unreachable => Err(IssuanceError::Unavailable),
    }
}

} // verus!
