//! SEV capability information.

use vstd::prelude::*;

use crate::{
    parse_msr, spec_msr_data, spec_msr_info, spec_tag_check_err, spec_tag_value, GhcbMsrError,
    GhcbMsrInfo, GhcbMsrRequest, GhcbMsrResp,
};

verus! {

/// A request for the hypervisor to provide SEV information needed to
/// perform protocol negotiation.
#[derive(Debug, Clone, Copy, PartialEq, Eq, Structural)]
pub struct SevInfoReq {
    data: u64,
}

impl SevInfoReq {
    pub fn new() -> (r: Self)
        ensures
            r.spec_data() == 0,
            r.spec_info() == GhcbMsrInfo::SEV_INFO_REQ,
    {
        Self { data: 0 }
    }
}

impl GhcbMsrRequest for SevInfoReq {
    type Resp = SevInfoResp;

    closed spec fn spec_info(&self) -> GhcbMsrInfo {
        GhcbMsrInfo::SEV_INFO_REQ
    }

    closed spec fn spec_data(&self) -> u64 {
        self.data
    }

    fn data(&self) -> u64 {
        self.data
    }

    fn info(&self) -> GhcbMsrInfo {
        GhcbMsrInfo::SEV_INFO_REQ
    }

    fn response(&self, resp: u64) -> Result<Self::Resp, GhcbMsrError> {
        <Self::Resp as GhcbMsrResp>::try_from(resp)
    }
}

/// A response from the hypervisor indicating its capabilities.
#[derive(Debug, Clone, Copy, PartialEq, Eq, Structural)]
pub struct SevInfoResp {
    /// Maximum GHCB protocol version supported.
    pub max_ver: u16,
    /// Minimum GHCB protocol version supported.
    pub min_ver: u16,
    /// Required by the guest when entering long mode to mark the GHCB
    /// page as decrypted.
    pub enc_bit_no: u8,
}

impl GhcbMsrResp for SevInfoResp {
    /// The raw value carries the SEV-info response tag, and the fields
    /// sit at bits [12:20), [20:36) and [36:52) of the GHCBData
    /// segment.
    open spec fn spec_decode_ok(raw: u64, resp: Self) -> bool {
        &&& spec_msr_info(raw) == spec_tag_value(GhcbMsrInfo::SEV_INFO_RESP)
        &&& resp.enc_bit_no == ((spec_msr_data(raw) >> 12) & 0xff) as u8
        &&& resp.min_ver == ((spec_msr_data(raw) >> 20) & 0xffff) as u16
        &&& resp.max_ver == ((spec_msr_data(raw) >> 36) & 0xffff) as u16
    }

    open spec fn spec_decode_err(raw: u64, e: GhcbMsrError) -> bool {
        spec_tag_check_err(raw, spec_tag_value(GhcbMsrInfo::SEV_INFO_RESP), e)
    }

    fn try_from(raw: u64) -> Result<Self, GhcbMsrError> {
        let (info, data) = parse_msr(raw);
        let info = match GhcbMsrInfo::try_from(info) {
            Ok(tag) => tag,
            Err(e) => {
                return Err(e);
            },
        };
        if info != GhcbMsrInfo::SEV_INFO_RESP {
            return Err(GhcbMsrError::MismatchedInfo);
        }
        let enc_bit_no = ((data >> 12) & 0xff) as u8;
        let min_ver = ((data >> 20) & 0xffff) as u16;
        let max_ver = ((data >> 36) & 0xffff) as u16;
        Ok(Self { max_ver, min_ver, enc_bit_no })
    }
}

} // verus!
