//! Page state changes.

use vstd::prelude::*;

use crate::{
    parse_msr, spec_msr_data, spec_msr_info, spec_tag_check_err, spec_tag_value, GhcbMsrError,
    GhcbMsrInfo, GhcbMsrRequest, GhcbMsrResp,
};

verus! {

/// The state that the page will be set to after a successful
/// [`PageStateReq`].
#[derive(Debug, Clone, Copy, PartialEq, Eq, Structural)]
pub enum PageOp {
    Private,
    Shared,
}

/// The operation code of each page state change.
pub open spec fn spec_op_value(op: PageOp) -> u8 {
    match op {
        PageOp::Private => 1,
        PageOp::Shared => 2,
    }
}

impl PageOp {
    /// The operation code of this page state change.
    pub fn value(self) -> (r: u8)
        ensures
            r == spec_op_value(self),
    {
        match self {
            PageOp::Private => 1,
            PageOp::Shared => 2,
        }
    }
}

/// A request from the guest to change the state of a page specified
/// with a GFN.
#[derive(Debug, Clone, Copy, PartialEq, Eq, Structural)]
pub struct PageStateReq {
    data: u64,
}

impl PageStateReq {
    /// Pack the GFN into payload bits [0:40) and the operation code
    /// into the bits from 40 up.
    pub fn new(gfn: u64, op: PageOp) -> (r: Self)
        ensures
            r.spec_data() == ((spec_op_value(op) as u64) << 40) | gfn,
            r.spec_info() == GhcbMsrInfo::STATE_CHANGE_REQ,
    {
        let op: u64 = op.value() as u64;
        Self { data: (op << 40) | gfn }
    }
}

impl GhcbMsrRequest for PageStateReq {
    type Resp = PageStateResp;

    closed spec fn spec_info(&self) -> GhcbMsrInfo {
        GhcbMsrInfo::STATE_CHANGE_REQ
    }

    closed spec fn spec_data(&self) -> u64 {
        self.data
    }

    fn data(&self) -> u64 {
        self.data
    }

    fn info(&self) -> GhcbMsrInfo {
        GhcbMsrInfo::STATE_CHANGE_REQ
    }

    fn response(&self, resp: u64) -> Result<Self::Resp, GhcbMsrError> {
        <Self::Resp as GhcbMsrResp>::try_from(resp)
    }
}

/// A response from the hypervisor indicating whether the page had its
/// state changed.
#[derive(Debug, Clone, Copy, PartialEq, Eq, Structural)]
pub struct PageStateResp {
    /// The error code. A non-zero value indicates an error occurred
    /// and the page did not change state.
    pub error_code: u32,
}

impl GhcbMsrResp for PageStateResp {
    /// The raw value carries the state-change response tag, the low 20
    /// bits of the GHCBData segment are zero, and the error code sits
    /// at payload bits [20:52).
    open spec fn spec_decode_ok(raw: u64, resp: Self) -> bool {
        &&& spec_msr_info(raw) == spec_tag_value(GhcbMsrInfo::STATE_CHANGE_RESP)
        &&& spec_msr_data(raw) & 0xfffff == 0
        &&& resp.error_code == (spec_msr_data(raw) >> 20) as u32
    }

    open spec fn spec_decode_err(raw: u64, e: GhcbMsrError) -> bool {
        ||| spec_tag_check_err(raw, spec_tag_value(GhcbMsrInfo::STATE_CHANGE_RESP), e)
        ||| (e == GhcbMsrError::InvalidData && spec_msr_info(raw) == spec_tag_value(
            GhcbMsrInfo::STATE_CHANGE_RESP,
        ) && spec_msr_data(raw) & 0xfffff != 0)
    }

    fn try_from(raw: u64) -> Result<Self, GhcbMsrError> {
        let (info, data) = parse_msr(raw);
        let info = match GhcbMsrInfo::try_from(info) {
            Ok(tag) => tag,
            Err(e) => {
                return Err(e);
            },
        };
        if info != GhcbMsrInfo::STATE_CHANGE_RESP {
            return Err(GhcbMsrError::MismatchedInfo);
        }
        if data & 0xfffff != 0 {
            return Err(GhcbMsrError::InvalidData);
        }
        let error_code = (data >> 20) as u32;
        Ok(Self { error_code })
    }
}

} // verus!
