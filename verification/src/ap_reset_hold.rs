//! INIT-SIPI-SIPI sequence synchronization.

use vstd::prelude::*;

use crate::{
    parse_msr, spec_msr_data, spec_msr_info, spec_tag_check_err, spec_tag_value, GhcbMsrError,
    GhcbMsrInfo, GhcbMsrRequest, GhcbMsrResp,
};

verus! {

/// A request from the guest for the AP to be placed in a HLT loop
/// awaiting an INIT-SIPI-SIPI request.
#[derive(Debug, Clone, Copy, PartialEq, Eq, Structural)]
pub struct ApResetHoldReq {
    data: u64,
    info: GhcbMsrInfo,
}

impl ApResetHoldReq {
    pub fn new() -> (r: Self)
        ensures
            r.spec_data() == 0,
            r.spec_info() == GhcbMsrInfo::AP_RESET_HOLD_REQ,
    {
        Self { data: 0, info: GhcbMsrInfo::AP_RESET_HOLD_REQ }
    }
}

impl GhcbMsrRequest for ApResetHoldReq {
    type Resp = ApResetHoldResp;

    closed spec fn spec_info(&self) -> GhcbMsrInfo {
        self.info
    }

    closed spec fn spec_data(&self) -> u64 {
        self.data
    }

    fn data(&self) -> u64 {
        self.data
    }

    fn info(&self) -> GhcbMsrInfo {
        self.info
    }

    fn response(&self, resp: u64) -> Result<Self::Resp, GhcbMsrError> {
        <Self::Resp as GhcbMsrResp>::try_from(resp)
    }
}

/// A response from the hypervisor after an INIT-SIPI-SIPI sequence has
/// been received for the targeted AP to take it out of HLT. A pure
/// acknowledgment: its existence, not its content, is the signal.
#[derive(Debug, Clone, Copy, PartialEq, Eq, Structural)]
pub struct ApResetHoldResp {}

impl GhcbMsrResp for ApResetHoldResp {
    /// The raw value carries the AP-reset-hold response tag and a
    /// nonzero GHCBData segment: a zero payload means the hold was not
    /// actually released.
    open spec fn spec_decode_ok(raw: u64, resp: Self) -> bool {
        &&& spec_msr_info(raw) == spec_tag_value(GhcbMsrInfo::AP_RESET_HOLD_RESP)
        &&& spec_msr_data(raw) != 0
    }

    open spec fn spec_decode_err(raw: u64, e: GhcbMsrError) -> bool {
        ||| spec_tag_check_err(raw, spec_tag_value(GhcbMsrInfo::AP_RESET_HOLD_RESP), e)
        ||| (e == GhcbMsrError::InvalidData && spec_msr_info(raw) == spec_tag_value(
            GhcbMsrInfo::AP_RESET_HOLD_RESP,
        ) && spec_msr_data(raw) == 0)
    }

    fn try_from(raw: u64) -> Result<Self, GhcbMsrError> {
        let (info, data) = parse_msr(raw);
        let info = match GhcbMsrInfo::try_from(info) {
            Ok(tag) => tag,
            Err(e) => {
                return Err(e);
            },
        };
        if info != GhcbMsrInfo::AP_RESET_HOLD_RESP {
            return Err(GhcbMsrError::MismatchedInfo);
        }
        if data == 0 {
            return Err(GhcbMsrError::InvalidData);
        }
        Ok(Self {})
    }
}

} // verus!
