//! Hypervisor feature support.

use vstd::prelude::*;

use crate::{
    parse_msr, spec_msr_data, spec_msr_info, spec_tag_check_err, spec_tag_value, GhcbMsrError,
    GhcbMsrInfo, GhcbMsrRequest, GhcbMsrResp,
};

verus! {

/// A request from the guest to retrieve the hypervisor's feature
/// bitmap.
#[derive(Debug, Clone, Copy, PartialEq, Eq, Structural)]
pub struct FeatureSupportReq {
    data: u64,
}

impl FeatureSupportReq {
    pub fn new() -> (r: Self)
        ensures
            r.spec_data() == 0,
            r.spec_info() == GhcbMsrInfo::FEAT_SUPPORT_REQ,
    {
        Self { data: 0 }
    }
}

impl GhcbMsrRequest for FeatureSupportReq {
    type Resp = FeatureSupportResp;

    closed spec fn spec_info(&self) -> GhcbMsrInfo {
        GhcbMsrInfo::FEAT_SUPPORT_REQ
    }

    closed spec fn spec_data(&self) -> u64 {
        self.data
    }

    fn data(&self) -> u64 {
        self.data
    }

    fn info(&self) -> GhcbMsrInfo {
        GhcbMsrInfo::FEAT_SUPPORT_REQ
    }

    fn response(&self, resp: u64) -> Result<Self::Resp, GhcbMsrError> {
        <Self::Resp as GhcbMsrResp>::try_from(resp)
    }
}

/// A response from the hypervisor containing its feature bitmap.
#[derive(Debug, Clone, Copy, PartialEq, Eq, Structural)]
pub struct FeatureSupportResp {
    /// The feature bitmap.
    pub features: u64,
}

impl GhcbMsrResp for FeatureSupportResp {
    /// The raw value carries the feature-support response tag; the
    /// full GHCBData segment is the feature bitmap.
    open spec fn spec_decode_ok(raw: u64, resp: Self) -> bool {
        &&& spec_msr_info(raw) == spec_tag_value(GhcbMsrInfo::FEAT_SUPPORT_RESP)
        &&& resp.features == spec_msr_data(raw)
    }

    open spec fn spec_decode_err(raw: u64, e: GhcbMsrError) -> bool {
        spec_tag_check_err(raw, spec_tag_value(GhcbMsrInfo::FEAT_SUPPORT_RESP), e)
    }

    fn try_from(raw: u64) -> Result<Self, GhcbMsrError> {
        let (info, data) = parse_msr(raw);
        let info = match GhcbMsrInfo::try_from(info) {
            Ok(tag) => tag,
            Err(e) => {
                return Err(e);
            },
        };
        if info != GhcbMsrInfo::FEAT_SUPPORT_RESP {
            return Err(GhcbMsrError::MismatchedInfo);
        }
        Ok(Self { features: data })
    }
}

} // verus!
