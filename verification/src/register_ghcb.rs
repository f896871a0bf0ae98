//! GHCB registration.

use vstd::prelude::*;

use crate::{
    parse_msr, spec_msr_data, spec_msr_info, spec_tag_check_err, spec_tag_value, GhcbMsrError,
    GhcbMsrInfo, GhcbMsrRequest, GhcbMsrResp,
};

verus! {

/// A request from the guest to indicate to the hypervisor the GFN
/// (`GFN << 12 = GPA`) of the GHCB page for the vCPU invoking the
/// transition.
#[derive(Debug, Clone, Copy, PartialEq, Eq, Structural)]
pub struct RegisterGhcbReq {
    data: u64,
}

impl RegisterGhcbReq {
    pub fn new(gfn: u64) -> (r: Self)
        ensures
            r.spec_data() == gfn,
            r.spec_info() == GhcbMsrInfo::REG_GHCB_GPA_REQ,
    {
        Self { data: gfn }
    }
}

impl GhcbMsrRequest for RegisterGhcbReq {
    type Resp = RegisterGhcbResp;

    closed spec fn spec_info(&self) -> GhcbMsrInfo {
        GhcbMsrInfo::REG_GHCB_GPA_REQ
    }

    closed spec fn spec_data(&self) -> u64 {
        self.data
    }

    /// Success additionally requires the echoed GFN to equal the one
    /// this request asked to register.
    open spec fn spec_resp_ok(&self, raw: u64, resp: Self::Resp) -> bool {
        &&& <Self::Resp as GhcbMsrResp>::spec_decode_ok(raw, resp)
        &&& resp.gfn == self.spec_data()
    }

    /// Beside the generic decode failures, a well-formed response that
    /// echoes a different GFN fails with `MismatchedData` carrying the
    /// GFN the hypervisor actually registered.
    open spec fn spec_resp_err(&self, raw: u64, e: GhcbMsrError) -> bool {
        ||| <Self::Resp as GhcbMsrResp>::spec_decode_err(raw, e)
        ||| (e == GhcbMsrError::MismatchedData(spec_msr_data(raw)) && spec_msr_info(raw)
            == spec_tag_value(GhcbMsrInfo::REG_GHCB_GPA_RESP) && spec_msr_data(raw)
            != self.spec_data())
    }

    fn data(&self) -> u64 {
        self.data
    }

    fn info(&self) -> GhcbMsrInfo {
        GhcbMsrInfo::REG_GHCB_GPA_REQ
    }

    fn response(&self, resp: u64) -> Result<Self::Resp, GhcbMsrError> {
        let resp = match <Self::Resp as GhcbMsrResp>::try_from(resp) {
            Ok(r) => r,
            Err(e) => {
                return Err(e);
            },
        };
        if resp.gfn != self.data {
            return Err(GhcbMsrError::MismatchedData(resp.gfn));
        }
        Ok(resp)
    }
}

/// A response from the hypervisor after a request to register a GHCB
/// GFN.
#[derive(Debug, Clone, Copy, PartialEq, Eq, Structural)]
pub struct RegisterGhcbResp {
    /// The registered GHCB GFN.
    pub gfn: u64,
}

impl GhcbMsrResp for RegisterGhcbResp {
    /// The raw value carries the registration response tag; the full
    /// GHCBData segment is the GFN the hypervisor registered.
    open spec fn spec_decode_ok(raw: u64, resp: Self) -> bool {
        &&& spec_msr_info(raw) == spec_tag_value(GhcbMsrInfo::REG_GHCB_GPA_RESP)
        &&& resp.gfn == spec_msr_data(raw)
    }

    open spec fn spec_decode_err(raw: u64, e: GhcbMsrError) -> bool {
        spec_tag_check_err(raw, spec_tag_value(GhcbMsrInfo::REG_GHCB_GPA_RESP), e)
    }

    fn try_from(raw: u64) -> Result<Self, GhcbMsrError> {
        let (info, data) = parse_msr(raw);
        let info = match GhcbMsrInfo::try_from(info) {
            Ok(tag) => tag,
            Err(e) => {
                return Err(e);
            },
        };
        if info != GhcbMsrInfo::REG_GHCB_GPA_RESP {
            return Err(GhcbMsrError::MismatchedInfo);
        }
        Ok(Self { gfn: data })
    }
}

} // verus!
