//! Guest termination.

use vstd::prelude::*;

use crate::{GhcbMsrError, GhcbMsrInfo, GhcbMsrRequest, GhcbMsrResp};

verus! {

/// The reason for a [`TerminationReq`].
#[derive(Debug, Clone, Copy, PartialEq, Eq, Structural)]
pub enum TerminationReason {
    /// General termination request.
    GeneralTermination,
    /// SEV-ES/GHCB Protocol range is not supported.
    GhcbProtRangeNotSupported,
    /// SEV-SNP features not supported.
    SevSnpNotSupported,
}

/// The reason code of each termination reason.
pub open spec fn spec_reason_value(reason: TerminationReason) -> u8 {
    match reason {
        TerminationReason::GeneralTermination => 1,
        TerminationReason::GhcbProtRangeNotSupported => 2,
        TerminationReason::SevSnpNotSupported => 3,
    }
}

impl TerminationReason {
    /// The reason code of this termination reason.
    pub fn value(self) -> (r: u8)
        ensures
            r == spec_reason_value(self),
    {
        match self {
            TerminationReason::GeneralTermination => 1,
            TerminationReason::GhcbProtRangeNotSupported => 2,
            TerminationReason::SevSnpNotSupported => 3,
        }
    }
}

/// A request from the guest to be terminated.
#[derive(Debug, Clone, Copy, PartialEq, Eq, Structural)]
pub struct TerminationReq {
    data: u64,
}

impl TerminationReq {
    /// Pack the code-set identifier into payload bits [0:4) and the
    /// reason code into the bits from 4 up.
    pub fn new(code_set: u8, reason: TerminationReason) -> (r: Self)
        ensures
            r.spec_data() == ((spec_reason_value(reason) as u64) << 4) | (code_set as u64),
            r.spec_info() == GhcbMsrInfo::TERM_REQ,
    {
        let code_set: u64 = code_set as u64;
        let reason: u64 = reason.value() as u64;
        Self { data: (reason << 4) | code_set }
    }
}

impl GhcbMsrRequest for TerminationReq {
    type Resp = TerminationResp;

    closed spec fn spec_info(&self) -> GhcbMsrInfo {
        GhcbMsrInfo::TERM_REQ
    }

    closed spec fn spec_data(&self) -> u64 {
        self.data
    }

    fn data(&self) -> u64 {
        self.data
    }

    fn info(&self) -> GhcbMsrInfo {
        GhcbMsrInfo::TERM_REQ
    }

    fn response(&self, resp: u64) -> Result<Self::Resp, GhcbMsrError> {
        <Self::Resp as GhcbMsrResp>::try_from(resp)
    }
}

/// The response type paired with [`TerminationReq`]. A compliant
/// hypervisor never returns control after a termination request, so no
/// value of this type can ever be produced.
#[derive(Debug, Clone, Copy, PartialEq, Eq, Structural)]
pub struct TerminationResp {}

impl GhcbMsrResp for TerminationResp {
    /// No raw value decodes successfully: if control came back at all,
    /// the hypervisor failed to honor the termination request.
    open spec fn spec_decode_ok(raw: u64, resp: Self) -> bool {
        false
    }

    open spec fn spec_decode_err(raw: u64, e: GhcbMsrError) -> bool {
        e == GhcbMsrError::ShouldNotReturn
    }

    fn try_from(raw: u64) -> Result<Self, GhcbMsrError> {
        Err(GhcbMsrError::ShouldNotReturn)
    }
}

} // verus!
