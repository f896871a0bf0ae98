//! VMPL switching.

use vstd::prelude::*;

use crate::{
    parse_msr, spec_msr_data, spec_msr_info, spec_tag_check_err, spec_tag_value, GhcbMsrError,
    GhcbMsrInfo, GhcbMsrRequest, GhcbMsrResp,
};

verus! {

/// A request to the hypervisor to run the vCPU using the VMSA
/// associated with the requested VMPL level.
#[derive(Debug, Clone, Copy, PartialEq, Eq, Structural)]
pub struct RunVmplReq {
    data: u64,
    info: GhcbMsrInfo,
}

impl RunVmplReq {
    /// Pack the target VMPL level into the payload bits from 20 up.
    pub fn new(vmpl: u8) -> (r: Self)
        ensures
            r.spec_data() == (vmpl as u64) << 20,
            r.spec_info() == GhcbMsrInfo::RUN_VMPL_REQ,
    {
        Self { data: (vmpl as u64) << 20, info: GhcbMsrInfo::RUN_VMPL_REQ }
    }
}

impl GhcbMsrRequest for RunVmplReq {
    type Resp = RunVmplResp;

    closed spec fn spec_info(&self) -> GhcbMsrInfo {
        self.info
    }

    closed spec fn spec_data(&self) -> u64 {
        self.data
    }

    fn data(&self) -> u64 {
        self.data
    }

    fn info(&self) -> GhcbMsrInfo {
        self.info
    }

    fn response(&self, resp: u64) -> Result<Self::Resp, GhcbMsrError> {
        <Self::Resp as GhcbMsrResp>::try_from(resp)
    }
}

/// A response from the hypervisor after requesting running at a
/// specified VMPL.
#[derive(Debug, Clone, Copy, PartialEq, Eq, Structural)]
pub struct RunVmplResp {
    /// Non-zero if the hypervisor was unable to run the vCPU at the
    /// requested VMPL.
    pub error_code: u32,
}

impl GhcbMsrResp for RunVmplResp {
    /// The raw value carries the VMPL-run response tag, the low 20
    /// bits of the GHCBData segment are zero, and the error code sits
    /// at payload bits [20:52).
    open spec fn spec_decode_ok(raw: u64, resp: Self) -> bool {
        &&& spec_msr_info(raw) == spec_tag_value(GhcbMsrInfo::RUN_VMPL_RESP)
        &&& spec_msr_data(raw) & 0xfffff == 0
        &&& resp.error_code == (spec_msr_data(raw) >> 20) as u32
    }

    open spec fn spec_decode_err(raw: u64, e: GhcbMsrError) -> bool {
        ||| spec_tag_check_err(raw, spec_tag_value(GhcbMsrInfo::RUN_VMPL_RESP), e)
        ||| (e == GhcbMsrError::InvalidData && spec_msr_info(raw) == spec_tag_value(
            GhcbMsrInfo::RUN_VMPL_RESP,
        ) && spec_msr_data(raw) & 0xfffff != 0)
    }

    fn try_from(raw: u64) -> Result<Self, GhcbMsrError> {
        let (info, data) = parse_msr(raw);
        let info = match GhcbMsrInfo::try_from(info) {
            Ok(tag) => tag,
            Err(e) => {
                return Err(e);
            },
        };
        if info != GhcbMsrInfo::RUN_VMPL_RESP {
            return Err(GhcbMsrError::MismatchedInfo);
        }
        if data & 0xfffff != 0 {
            return Err(GhcbMsrError::InvalidData);
        }
        let error_code = (data >> 20) as u32;
        Ok(Self { error_code })
    }
}

} // verus!
