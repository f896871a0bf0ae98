use ghcb_msr_protocol::ap_reset_hold::ApResetHoldReq;
use ghcb_msr_protocol::cpuid::{CpuidReg, CpuidReq};
use ghcb_msr_protocol::feature_support::FeatureSupportReq;
use ghcb_msr_protocol::page_state::{PageOp, PageStateReq};
use ghcb_msr_protocol::pref_ghcb::PrefGhcbGpaReq;
use ghcb_msr_protocol::register_ghcb::RegisterGhcbReq;
use ghcb_msr_protocol::run_vmpl::RunVmplReq;
use ghcb_msr_protocol::sev_info::SevInfoReq;
use ghcb_msr_protocol::termination::{TerminationReason, TerminationReq};
use ghcb_msr_protocol::{parse_msr, GhcbMsrInfo, GhcbMsrRequest};

#[test]
fn empty_requests_pack_to_their_bare_tag() {
    assert_eq!(SevInfoReq::new().msr(), 0x02);
    assert_eq!(ApResetHoldReq::new().msr(), 0x06);
    assert_eq!(PrefGhcbGpaReq::new().msr(), 0x10);
    assert_eq!(FeatureSupportReq::new().msr(), 0x80);
}

#[test]
fn cpuid_request_packs_function_and_register() {
    let req = CpuidReq::new(0x8000_0001, CpuidReg::ECX);
    assert_eq!(req.data(), (0x8000_0001u64 << 20) | (2 << 18));
    assert_eq!(req.info(), GhcbMsrInfo::CPUID_REQ);
    assert_eq!(req.msr(), (((0x8000_0001u64 << 20) | (2 << 18)) << 12) | 0x04);
}

#[test]
fn register_ghcb_request_carries_the_gfn() {
    let req = RegisterGhcbReq::new(0x1234);
    assert_eq!(req.data(), 0x1234);
    assert_eq!(req.msr(), (0x1234 << 12) | 0x12);
    assert_eq!(parse_msr(req.msr()), (0x12, 0x1234));
}

#[test]
fn page_state_request_packs_gfn_and_operation() {
    let private = PageStateReq::new(0xabcde, PageOp::Private);
    assert_eq!(private.data(), (1 << 40) | 0xabcde);
    assert_eq!(private.msr(), (((1u64 << 40) | 0xabcde) << 12) | 0x14);
    let shared = PageStateReq::new(7, PageOp::Shared);
    assert_eq!(shared.data(), (2 << 40) | 7);
}

#[test]
fn run_vmpl_request_packs_the_level() {
    let req = RunVmplReq::new(2);
    assert_eq!(req.data(), 2 << 20);
    assert_eq!(req.msr(), ((2u64 << 20) << 12) | 0x16);
}

#[test]
fn termination_request_packs_code_set_and_reason() {
    let req = TerminationReq::new(1, TerminationReason::SevSnpNotSupported);
    assert_eq!(req.data(), (3 << 4) | 1);
    assert_eq!(req.msr(), (((3u64 << 4) | 1) << 12) | 0x100);
    let general = TerminationReq::new(0, TerminationReason::GeneralTermination);
    assert_eq!(general.data(), 1 << 4);
}

#[test]
fn oversized_payload_is_truncated_to_fifty_two_bits() {
    let req = RegisterGhcbReq::new(u64::MAX);
    assert_eq!(req.data(), u64::MAX);
    assert_eq!(req.msr(), 0xffff_ffff_ffff_f012);
    assert_eq!(parse_msr(req.msr()).1, 0xf_ffff_ffff_ffff);
}

#[test]
fn cpuid_register_codes_round_trip() {
    let regs = [
        (CpuidReg::EAX, 0u8),
        (CpuidReg::EBX, 1),
        (CpuidReg::ECX, 2),
        (CpuidReg::EDX, 3),
    ];
    for (reg, code) in regs {
        assert_eq!(reg.value(), code);
        assert_eq!(CpuidReg::from_value(code), reg);
    }
}
