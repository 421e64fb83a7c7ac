//! Encoding of the coarse consent signal onto the six consent fields.

use crate::event::Consent;
use vstd::prelude::*;

verus! {

/// The six consent-related protocol fields.
pub struct ConsentFields {
    /// Consent status (`gcs`).
    pub status: String,
    /// Consent detail (`gcd`).
    pub detail: String,
    /// Non-personalised ads flag (`npa`).
    pub npa: String,
    /// Service-consent code (`dma_cps`).
    pub dma_cps: String,
    /// Region-consent flag (`dma`).
    pub dma: String,
    /// Cookie-deprecation label (`pscdl`).
    pub pscdl: String,
}

pub struct ConsentView {
    pub status: Seq<char>,
    pub detail: Seq<char>,
    pub npa: Seq<char>,
    pub dma_cps: Seq<char>,
    pub dma: Seq<char>,
    pub pscdl: Seq<char>,
}

impl View for ConsentFields {
    type V = ConsentView;

    open spec fn view(&self) -> ConsentView {
        ConsentView {
            status: self.status@,
            detail: self.detail@,
            npa: self.npa@,
            dma_cps: self.dma_cps@,
            dma: self.dma@,
            pscdl: self.pscdl@,
        }
    }
}

pub open spec fn is_granted(c: Option<Consent>) -> bool {
    c == Some(Consent::Granted)
}

/// The fields when consent is fully granted.
pub open spec fn granted_view() -> ConsentView {
    ConsentView {
        status: "G111"@,
        detail: "13t3t3t2t5l1"@,
        npa: "0"@,
        dma_cps: "syphamo"@,
        dma: "1"@,
        pscdl: "noapi"@,
    }
}

/// The fields for every other consent state, absent included.
pub open spec fn restricted_view() -> ConsentView {
    ConsentView {
        status: "G101"@,
        detail: "13p3t3p2p5l1"@,
        npa: "1"@,
        dma_cps: "-"@,
        dma: "1"@,
        pscdl: "denied"@,
    }
}

pub open spec fn consent_view_of(c: Option<Consent>) -> ConsentView {
    if is_granted(c) {
        granted_view()
    } else {
        restricted_view()
    }
}

/// Maps the consent signal onto the six consent fields: the granted tuple
/// exactly when consent is granted, the restricted tuple otherwise.
pub fn encode_consent(consent: Option<Consent>) -> (r: ConsentFields)
    ensures
        r@ == consent_view_of(consent),
        is_granted(consent) ==> r@ == granted_view(),
        !is_granted(consent) ==> r@ == restricted_view(),
{
    let granted = match consent {
        Some(Consent::Granted) => true,
        _ => false,
    };
    if granted {
        ConsentFields {
            status: "G111".to_string(),
            detail: "13t3t3t2t5l1".to_string(),
            npa: "0".to_string(),
            dma_cps: "syphamo".to_string(),
            dma: "1".to_string(),
            pscdl: "noapi".to_string(),
        }
    } else {
        ConsentFields {
            status: "G101".to_string(),
            detail: "13p3t3p2p5l1".to_string(),
            npa: "1".to_string(),
            dma_cps: "-".to_string(),
            dma: "1".to_string(),
            pscdl: "denied".to_string(),
        }
    }
}

} // verus!
