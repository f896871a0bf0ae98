//! Hypervisor GHCB GPA preference.

use vstd::prelude::*;

use crate::{
    parse_msr, spec_msr_data, spec_msr_info, spec_tag_check_err, spec_tag_value, GhcbMsrError,
    GhcbMsrInfo, GhcbMsrRequest, GhcbMsrResp,
};

verus! {

/// A request from the guest asking the hypervisor for a preferred GPA
/// to use for the GHCB.
#[derive(Debug, Clone, Copy, PartialEq, Eq, Structural)]
pub struct PrefGhcbGpaReq {
    data: u64,
    info: GhcbMsrInfo,
}

impl PrefGhcbGpaReq {
    pub fn new() -> (r: Self)
        ensures
            r.spec_data() == 0,
            r.spec_info() == GhcbMsrInfo::PREF_GHCB_GPA_REQ,
    {
        Self { data: 0, info: GhcbMsrInfo::PREF_GHCB_GPA_REQ }
    }
}

impl GhcbMsrRequest for PrefGhcbGpaReq {
    type Resp = PrefGhcbGpaResp;

    closed spec fn spec_info(&self) -> GhcbMsrInfo {
        self.info
    }

    closed spec fn spec_data(&self) -> u64 {
        self.data
    }

    fn data(&self) -> u64 {
        self.data
    }

    fn info(&self) -> GhcbMsrInfo {
        self.info
    }

    fn response(&self, resp: u64) -> Result<Self::Resp, GhcbMsrError> {
        <Self::Resp as GhcbMsrResp>::try_from(resp)
    }
}

/// A response from the hypervisor indicating the preferred GFN for the
/// GHCB (GPA = GFN << 12).
#[derive(Debug, Clone, Copy, PartialEq, Eq, Structural)]
pub struct PrefGhcbGpaResp {
    /// The preferred GFN.
    pub gfn: u64,
}

impl GhcbMsrResp for PrefGhcbGpaResp {
    /// The raw value carries the preferred-GPA response tag; the full
    /// GHCBData segment is the preferred guest frame number.
    open spec fn spec_decode_ok(raw: u64, resp: Self) -> bool {
        &&& spec_msr_info(raw) == spec_tag_value(GhcbMsrInfo::PREF_GHCB_GPA_RESP)
        &&& resp.gfn == spec_msr_data(raw)
    }

    open spec fn spec_decode_err(raw: u64, e: GhcbMsrError) -> bool {
        spec_tag_check_err(raw, spec_tag_value(GhcbMsrInfo::PREF_GHCB_GPA_RESP), e)
    }

    fn try_from(raw: u64) -> Result<Self, GhcbMsrError> {
        let (info, data) = parse_msr(raw);
        let info = match GhcbMsrInfo::try_from(info) {
            Ok(tag) => tag,
            Err(e) => {
                return Err(e);
            },
        };
        if info != GhcbMsrInfo::PREF_GHCB_GPA_RESP {
            return Err(GhcbMsrError::MismatchedInfo);
        }
        Ok(Self { gfn: data })
    }
}

} // verus!
