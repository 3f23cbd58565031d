//! Notices that certificate data changed, for views that show certificates.
use crate::models::Certificate;
use vstd::prelude::*;

verus! {

/// A change to the stored certificates.
#[derive(Debug)]
pub enum CertificateDataEvent {
    /// A certificate was saved.
    Saved { certificate: Certificate },
    /// The certificate with this id was deleted.
    Deleted { certificate_id: i64 },
}

impl Clone for CertificateDataEvent {
    fn clone(&self) -> (r: Self)
        ensures
            r == *self,
    {
        match self {
            CertificateDataEvent::Saved { certificate } => CertificateDataEvent::Saved {
                certificate: certificate.clone(),
            },
            CertificateDataEvent::Deleted { certificate_id } => CertificateDataEvent::Deleted {
                certificate_id: *certificate_id,
            },
        }
    }
}

/// The source that certificate changes are announced from.
#[derive(Debug, Clone, Copy)]
pub struct CertificateDataNotifier;

} // verus!
