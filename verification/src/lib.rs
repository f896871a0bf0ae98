//! Strongly typed, error-checked primitives for the guest side of the
//! GHCB MSR protocol: a guest packs a request into a single 64-bit
//! model-specific register value, hands control to the hypervisor, and
//! parses the raw value the hypervisor wrote back.
//!
//! The crate is only concerned with building correct request values and
//! with parsing and error-checking the responses. Reading and writing
//! the register itself, and triggering the transition to the
//! hypervisor, are left to the caller.
//!
//! Every request type implements [`GhcbMsrRequest`]; its
//! [`GhcbMsrRequest::response()`] method parses the matching response,
//! adding request-relative checks where the protocol calls for them.
//! The request and response types are tied through the
//! [`GhcbMsrRequest::Resp`] associated type.

use vstd::prelude::*;

pub mod sev_info;

pub mod cpuid;

pub mod ap_reset_hold;

pub mod pref_ghcb;

pub mod register_ghcb;

pub mod page_state;

pub mod run_vmpl;

pub mod feature_support;

pub mod termination;

verus! {

/// Mask selecting the low 12 bits of the register value: the GHCBInfo
/// segment, which carries the message tag.
pub const INFO_MASK: u64 = 0xfff;

/// Mask selecting the 52 payload bits of the GHCBData segment.
pub const DATA_MASK: u64 = 0xf_ffff_ffff_ffff;

/// Potential errors encountered when parsing the hypervisor's response.
#[derive(Debug, Clone, Copy, PartialEq, Eq, Structural)]
pub enum GhcbMsrError {
    /// Invalid (unknown) response code.
    InvalidInfo,
    /// The response code does not match our request.
    MismatchedInfo,
    /// Format of the data section is invalid.
    InvalidData,
    /// The data in the response does not match our request. This can
    /// happen if the registered GPA echoed by the hypervisor does not
    /// match the one in the corresponding registration request. Carries
    /// the unexpected value for diagnostics.
    MismatchedData(u64),
    /// The guest requested termination and the hypervisor did not
    /// comply.
    ShouldNotReturn,
}

/// Request/response codes for the MSR protocol: the closed set of
/// valid GHCBInfo tags. These are returned by the
/// [`GhcbMsrRequest::info()`] method of the request types; their
/// numeric values are given by [`GhcbMsrInfo::value()`].
#[derive(Clone, Copy, Debug, PartialEq, Eq, Structural)]
#[allow(non_camel_case_types)]
pub enum GhcbMsrInfo {
    GHCB_GPA,
    SEV_INFO_RESP,
    SEV_INFO_REQ,
    CPUID_REQ,
    CPUID_RESP,
    AP_RESET_HOLD_REQ,
    AP_RESET_HOLD_RESP,
    PREF_GHCB_GPA_REQ,
    PREF_GHCB_GPA_RESP,
    REG_GHCB_GPA_REQ,
    REG_GHCB_GPA_RESP,
    STATE_CHANGE_REQ,
    STATE_CHANGE_RESP,
    RUN_VMPL_REQ,
    RUN_VMPL_RESP,
    FEAT_SUPPORT_REQ,
    FEAT_SUPPORT_RESP,
    TERM_REQ,
}

/// The numeric 12-bit code of each tag.
pub open spec fn spec_tag_value(tag: GhcbMsrInfo) -> u16 {
    match tag {
        GhcbMsrInfo::GHCB_GPA => 0x00,
        GhcbMsrInfo::SEV_INFO_RESP => 0x01,
        GhcbMsrInfo::SEV_INFO_REQ => 0x02,
        GhcbMsrInfo::CPUID_REQ => 0x04,
        GhcbMsrInfo::CPUID_RESP => 0x05,
        GhcbMsrInfo::AP_RESET_HOLD_REQ => 0x06,
        GhcbMsrInfo::AP_RESET_HOLD_RESP => 0x07,
        GhcbMsrInfo::PREF_GHCB_GPA_REQ => 0x10,
        GhcbMsrInfo::PREF_GHCB_GPA_RESP => 0x11,
        GhcbMsrInfo::REG_GHCB_GPA_REQ => 0x12,
        GhcbMsrInfo::REG_GHCB_GPA_RESP => 0x13,
        GhcbMsrInfo::STATE_CHANGE_REQ => 0x14,
        GhcbMsrInfo::STATE_CHANGE_RESP => 0x15,
        GhcbMsrInfo::RUN_VMPL_REQ => 0x16,
        GhcbMsrInfo::RUN_VMPL_RESP => 0x17,
        GhcbMsrInfo::FEAT_SUPPORT_REQ => 0x80,
        GhcbMsrInfo::FEAT_SUPPORT_RESP => 0x81,
        GhcbMsrInfo::TERM_REQ => 0x100,
    }
}

/// Whether `val` is the numeric code of some defined tag.
pub open spec fn spec_is_known_tag(val: u16) -> bool {
    exists|tag: GhcbMsrInfo| spec_tag_value(tag) == val
}

impl GhcbMsrInfo {
    /// The numeric 12-bit code of this tag.
    pub fn value(self) -> (r: u16)
        ensures
            r == spec_tag_value(self),
    {
        match self {
            GhcbMsrInfo::GHCB_GPA => 0x00,
            GhcbMsrInfo::SEV_INFO_RESP => 0x01,
            GhcbMsrInfo::SEV_INFO_REQ => 0x02,
            GhcbMsrInfo::CPUID_REQ => 0x04,
            GhcbMsrInfo::CPUID_RESP => 0x05,
            GhcbMsrInfo::AP_RESET_HOLD_REQ => 0x06,
            GhcbMsrInfo::AP_RESET_HOLD_RESP => 0x07,
            GhcbMsrInfo::PREF_GHCB_GPA_REQ => 0x10,
            GhcbMsrInfo::PREF_GHCB_GPA_RESP => 0x11,
            GhcbMsrInfo::REG_GHCB_GPA_REQ => 0x12,
            GhcbMsrInfo::REG_GHCB_GPA_RESP => 0x13,
            GhcbMsrInfo::STATE_CHANGE_REQ => 0x14,
            GhcbMsrInfo::STATE_CHANGE_RESP => 0x15,
            GhcbMsrInfo::RUN_VMPL_REQ => 0x16,
            GhcbMsrInfo::RUN_VMPL_RESP => 0x17,
            GhcbMsrInfo::FEAT_SUPPORT_REQ => 0x80,
            GhcbMsrInfo::FEAT_SUPPORT_RESP => 0x81,
            GhcbMsrInfo::TERM_REQ => 0x100,
        }
    }

    /// Resolve a raw numeric code to the tag it names, by exact
    /// equality. Any value outside the closed set fails with
    /// [`GhcbMsrError::InvalidInfo`]: no fallback, no coercion.
    pub fn try_from(val: u16) -> (r: Result<GhcbMsrInfo, GhcbMsrError>)
        ensures
            match r {
                Ok(tag) => spec_tag_value(tag) == val,
                Err(e) => e == GhcbMsrError::InvalidInfo && !spec_is_known_tag(val),
            },
    {
        match val {
            0x00 => Ok(GhcbMsrInfo::GHCB_GPA),
            0x01 => Ok(GhcbMsrInfo::SEV_INFO_RESP),
            0x02 => Ok(GhcbMsrInfo::SEV_INFO_REQ),
            0x04 => Ok(GhcbMsrInfo::CPUID_REQ),
            0x05 => Ok(GhcbMsrInfo::CPUID_RESP),
            0x06 => Ok(GhcbMsrInfo::AP_RESET_HOLD_REQ),
            0x07 => Ok(GhcbMsrInfo::AP_RESET_HOLD_RESP),
            0x10 => Ok(GhcbMsrInfo::PREF_GHCB_GPA_REQ),
            0x11 => Ok(GhcbMsrInfo::PREF_GHCB_GPA_RESP),
            0x12 => Ok(GhcbMsrInfo::REG_GHCB_GPA_REQ),
            0x13 => Ok(GhcbMsrInfo::REG_GHCB_GPA_RESP),
            0x14 => Ok(GhcbMsrInfo::STATE_CHANGE_REQ),
            0x15 => Ok(GhcbMsrInfo::STATE_CHANGE_RESP),
            0x16 => Ok(GhcbMsrInfo::RUN_VMPL_REQ),
            0x17 => Ok(GhcbMsrInfo::RUN_VMPL_RESP),
            0x80 => Ok(GhcbMsrInfo::FEAT_SUPPORT_REQ),
            0x81 => Ok(GhcbMsrInfo::FEAT_SUPPORT_RESP),
            0x100 => Ok(GhcbMsrInfo::TERM_REQ),
            _ => {
                proof {
                    assert(forall|tag: GhcbMsrInfo| #[trigger] spec_tag_value(tag) != val);
                }
                Err(GhcbMsrError::InvalidInfo)
            },
        }
    }
}

/// Every tag's numeric code fits in the 12-bit GHCBInfo segment.
pub proof fn lemma_tag_value_fits(tag: GhcbMsrInfo)
    ensures
        spec_tag_value(tag) <= INFO_MASK,
{
}

/// Distinct tags have distinct numeric codes: resolving a code can
/// name at most one tag.
pub proof fn lemma_tag_value_injective(a: GhcbMsrInfo, b: GhcbMsrInfo)
    ensures
        spec_tag_value(a) == spec_tag_value(b) ==> a == b,
{
}

/// The GHCBInfo segment (low 12 bits) of a raw register value.
pub open spec fn spec_msr_info(msr: u64) -> u16 {
    (msr & INFO_MASK) as u16
}

/// The GHCBData segment (high 52 bits) of a raw register value.
pub open spec fn spec_msr_data(msr: u64) -> u64 {
    msr >> 12
}

/// The packed register value for a payload and a tag code:
/// `(data << 12) | info`, with the payload masked to 52 bits and the
/// tag code masked to 12 bits.
pub open spec fn spec_pack_msr(data: u64, info: u16) -> u64 {
    ((data & DATA_MASK) << 12) | ((info as u64) & INFO_MASK)
}

/// Split a raw register value into its (GHCBInfo, GHCBData) segments.
pub fn parse_msr(msr: u64) -> (r: (u16, u64))
    ensures
        r.0 == spec_msr_info(msr),
        r.1 == spec_msr_data(msr),
{
    ((msr & INFO_MASK) as u16, msr >> 12)
}

/// Splitting a packed value yields the tag code unchanged and the
/// payload masked to its 52 bits, for every payload and every code
/// fitting 12 bits.
pub proof fn lemma_pack_split(data: u64, info: u16)
    requires
        info <= INFO_MASK,
    ensures
        spec_msr_info(spec_pack_msr(data, info)) == info,
        spec_msr_data(spec_pack_msr(data, info)) == data & DATA_MASK,
{
    assert(info <= 0xfffu16 ==> {
        &&& ((((data & 0xf_ffff_ffff_ffffu64) << 12u64) | ((info as u64) & 0xfffu64))
            & 0xfffu64) as u16 == info
        &&& ((((data & 0xf_ffff_ffff_ffffu64) << 12u64) | ((info as u64) & 0xfffu64))
            >> 12u64) == data & 0xf_ffff_ffff_ffffu64
    }) by (bit_vector);
}

/// Splitting a packed value recovers exactly the payload and the tag
/// code that went in, for every payload fitting 52 bits and every code
/// fitting 12 bits.
pub proof fn lemma_pack_round_trip(data: u64, info: u16)
    requires
        data <= DATA_MASK,
        info <= INFO_MASK,
    ensures
        spec_msr_info(spec_pack_msr(data, info)) == info,
        spec_msr_data(spec_pack_msr(data, info)) == data,
{
    lemma_pack_split(data, info);
    assert(data <= 0xf_ffff_ffff_ffffu64 ==> data & 0xf_ffff_ffff_ffffu64 == data)
        by (bit_vector);
}

/// Packing any payload fitting 52 bits with any defined tag and
/// splitting the result recovers exactly that tag's code and that
/// payload.
pub proof fn lemma_tag_pack_round_trip(data: u64, tag: GhcbMsrInfo)
    requires
        data <= DATA_MASK,
    ensures
        spec_msr_info(spec_pack_msr(data, spec_tag_value(tag))) == spec_tag_value(tag),
        spec_msr_data(spec_pack_msr(data, spec_tag_value(tag))) == data,
{
    lemma_tag_value_fits(tag);
    lemma_pack_round_trip(data, spec_tag_value(tag));
}

/// An error code taken from payload bits [20:52) is preserved exactly:
/// the GHCBData segment of any raw value fits 52 bits, so its bits
/// from 20 up fit 32 bits and the narrowing to `u32` loses nothing.
pub proof fn lemma_error_code_exact(raw: u64)
    ensures
        ((spec_msr_data(raw) >> 20) as u32) == spec_msr_data(raw) >> 20,
{
    assert(((raw >> 12) >> 20) as u32 == (raw >> 12) >> 20) by (bit_vector);
}

/// How a decode that checks only the tag may fail: `InvalidInfo`
/// exactly when the GHCBInfo segment names no defined tag, and
/// `MismatchedInfo` exactly when it names a defined tag other than the
/// one this response type accepts.
pub open spec fn spec_tag_check_err(raw: u64, expected: u16, e: GhcbMsrError) -> bool {
    ||| (e == GhcbMsrError::InvalidInfo && !spec_is_known_tag(spec_msr_info(raw)))
    ||| (e == GhcbMsrError::MismatchedInfo && spec_is_known_tag(spec_msr_info(raw))
        && spec_msr_info(raw) != expected)
}

/// Trait implemented by all GHCB MSR responses. The two spec functions
/// pin, per response type, exactly which raw values decode successfully
/// to which fields and which error every other raw value produces.
pub trait GhcbMsrResp: Sized {
    /// What a successful decode of `raw` into `resp` means for this
    /// response type.
    spec fn spec_decode_ok(raw: u64, resp: Self) -> bool;

    /// Which error a failed decode of `raw` produces for this response
    /// type.
    spec fn spec_decode_err(raw: u64, e: GhcbMsrError) -> bool;

    /// Decode and validate a raw register value into this response
    /// type.
    fn try_from(raw: u64) -> (r: Result<Self, GhcbMsrError>)
        ensures
            match r {
                Ok(resp) => Self::spec_decode_ok(raw, resp),
                Err(e) => Self::spec_decode_err(raw, e),
            },
    ;
}

/// Trait implemented by all GHCB MSR requests.
pub trait GhcbMsrRequest: Sized {
    /// The response type paired with this request type.
    type Resp: GhcbMsrResp;

    /// The tag this request carries.
    spec fn spec_info(&self) -> GhcbMsrInfo;

    /// The GHCBData payload this request carries.
    spec fn spec_data(&self) -> u64;

    /// What a successful parse of `raw` into `resp`, relative to this
    /// request, means.
    open spec fn spec_resp_ok(&self, raw: u64, resp: Self::Resp) -> bool {
        Self::Resp::spec_decode_ok(raw, resp)
    }

    /// Which error a failed parse of `raw`, relative to this request,
    /// produces.
    open spec fn spec_resp_err(&self, raw: u64, e: GhcbMsrError) -> bool {
        Self::Resp::spec_decode_err(raw, e)
    }

    /// The GHCBInfo segment of the MSR.
    fn info(&self) -> (r: GhcbMsrInfo)
        ensures
            r == self.spec_info(),
    ;

    /// The GHCBData segment of the MSR.
    fn data(&self) -> (r: u64)
        ensures
            r == self.spec_data(),
    ;

    /// Parse a response from the hypervisor, with additional checks
    /// based on the request that originated it. Most pairs delegate to
    /// the response type's own validating decode; pairs that echo a
    /// value the guest sent add a request-relative check on top.
    fn response(&self, resp: u64) -> (r: Result<Self::Resp, GhcbMsrError>)
        ensures
            match r {
                Ok(res) => self.spec_resp_ok(resp, res),
                Err(e) => self.spec_resp_err(resp, e),
            },
    ;

    /// The numeric value of the request that should be written to the
    /// MSR: the payload and the tag code packed by the universal
    /// 52/12-bit split. Splitting it back yields this request's tag
    /// code and its payload masked to 52 bits.
    fn msr(&self) -> (r: u64)
        ensures
            r == spec_pack_msr(self.spec_data(), spec_tag_value(self.spec_info())),
            spec_msr_info(r) == spec_tag_value(self.spec_info()),
            spec_msr_data(r) == self.spec_data() & DATA_MASK,
    {
        proof {
            lemma_tag_value_fits(self.spec_info());
            lemma_pack_split(self.spec_data(), spec_tag_value(self.spec_info()));
        }
        ((self.data() & DATA_MASK) << 12) | ((self.info().value() as u64) & INFO_MASK)
    }
}

} // verus!
