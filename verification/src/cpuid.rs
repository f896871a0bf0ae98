//! CPUID retrieval.

use vstd::prelude::*;

use crate::{
    parse_msr, spec_msr_data, spec_msr_info, spec_tag_check_err, spec_tag_value, GhcbMsrError,
    GhcbMsrInfo, GhcbMsrRequest, GhcbMsrResp,
};

verus! {

/// Requested register value for a [`CpuidReq`].
#[derive(Debug, Clone, Copy, PartialEq, Eq, Structural)]
pub enum CpuidReg {
    EAX,
    EBX,
    ECX,
    EDX,
}

/// The 2-bit selector code of each CPUID register.
pub open spec fn spec_reg_value(reg: CpuidReg) -> u8 {
    match reg {
        CpuidReg::EAX => 0,
        CpuidReg::EBX => 1,
        CpuidReg::ECX => 2,
        CpuidReg::EDX => 3,
    }
}

impl CpuidReg {
    /// The 2-bit selector code of this register.
    pub fn value(self) -> (r: u8)
        ensures
            r == spec_reg_value(self),
    {
        match self {
            CpuidReg::EAX => 0,
            CpuidReg::EBX => 1,
            CpuidReg::ECX => 2,
            CpuidReg::EDX => 3,
        }
    }

    /// The register a 2-bit selector code names.
    pub fn from_value(val: u8) -> (r: CpuidReg)
        requires
            val < 4,
        ensures
            spec_reg_value(r) == val,
    {
        match val {
            0 => CpuidReg::EAX,
            1 => CpuidReg::EBX,
            2 => CpuidReg::ECX,
            _ => CpuidReg::EDX,
        }
    }
}

/// A request from the guest to retrieve a CPUID function register
/// value from the hypervisor. Needed by the guest before the GHCB can
/// be set up. Only one register can be obtained at a time.
#[derive(Debug, Clone, Copy, PartialEq, Eq, Structural)]
pub struct CpuidReq {
    data: u64,
}

impl CpuidReq {
    /// Pack the function number into payload bits [20:52) and the
    /// register selector into payload bits [18:20).
    pub fn new(cpuid_function: u32, reg: CpuidReg) -> (r: Self)
        ensures
            r.spec_data() == ((cpuid_function as u64) << 20) | ((spec_reg_value(reg) as u64)
                << 18),
            r.spec_info() == GhcbMsrInfo::CPUID_REQ,
    {
        let func: u64 = cpuid_function as u64;
        let reg: u64 = reg.value() as u64;
        Self { data: (func << 20) | (reg << 18) }
    }
}

impl GhcbMsrRequest for CpuidReq {
    type Resp = CpuidResp;

    closed spec fn spec_info(&self) -> GhcbMsrInfo {
        GhcbMsrInfo::CPUID_REQ
    }

    closed spec fn spec_data(&self) -> u64 {
        self.data
    }

    fn data(&self) -> u64 {
        self.data
    }

    fn info(&self) -> GhcbMsrInfo {
        GhcbMsrInfo::CPUID_REQ
    }

    fn response(&self, resp: u64) -> Result<Self::Resp, GhcbMsrError> {
        <Self::Resp as GhcbMsrResp>::try_from(resp)
    }
}

/// A response from the hypervisor to a CPUID request.
#[derive(Debug, Clone, Copy, PartialEq, Eq, Structural)]
pub struct CpuidResp {
    /// CPUID function register value.
    pub function: u32,
    /// Returned CPUID register value.
    pub reg: CpuidReg,
}

impl GhcbMsrResp for CpuidResp {
    /// The raw value carries the CPUID response tag, the low byte of
    /// the GHCBData segment is zero, the function number sits at
    /// payload bits [20:52) truncated to 32 bits, and the register
    /// selector at payload bits [18:20).
    open spec fn spec_decode_ok(raw: u64, resp: Self) -> bool {
        &&& spec_msr_info(raw) == spec_tag_value(GhcbMsrInfo::CPUID_RESP)
        &&& spec_msr_data(raw) & 0xff == 0
        &&& resp.function == ((spec_msr_data(raw) >> 20) & 0xffffffff) as u32
        &&& spec_reg_value(resp.reg) == (spec_msr_data(raw) >> 18) & 0b11
    }

    open spec fn spec_decode_err(raw: u64, e: GhcbMsrError) -> bool {
        ||| spec_tag_check_err(raw, spec_tag_value(GhcbMsrInfo::CPUID_RESP), e)
        ||| (e == GhcbMsrError::InvalidData && spec_msr_info(raw) == spec_tag_value(
            GhcbMsrInfo::CPUID_RESP,
        ) && spec_msr_data(raw) & 0xff != 0)
    }

    fn try_from(raw: u64) -> Result<Self, GhcbMsrError> {
        let (info, data) = parse_msr(raw);
        let info = match GhcbMsrInfo::try_from(info) {
            Ok(tag) => tag,
            Err(e) => {
                return Err(e);
            },
        };
        if info != GhcbMsrInfo::CPUID_RESP {
            return Err(GhcbMsrError::MismatchedInfo);
        }
        if data & 0xff != 0 {
            return Err(GhcbMsrError::InvalidData);
        }
        let function = ((data >> 20) & 0xffffffff) as u32;
        assert((data >> 18) & 0b11 < 4) by (bit_vector);
        let reg = CpuidReg::from_value(((data >> 18) & 0b11) as u8);
        Ok(Self { function, reg })
    }
}

} // verus!
