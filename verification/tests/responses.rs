use ghcb_msr_protocol::ap_reset_hold::{ApResetHoldReq, ApResetHoldResp};
use ghcb_msr_protocol::cpuid::{CpuidReg, CpuidReq};
use ghcb_msr_protocol::feature_support::FeatureSupportReq;
use ghcb_msr_protocol::page_state::{PageOp, PageStateReq, PageStateResp};
use ghcb_msr_protocol::pref_ghcb::PrefGhcbGpaReq;
use ghcb_msr_protocol::register_ghcb::RegisterGhcbReq;
use ghcb_msr_protocol::run_vmpl::{RunVmplReq, RunVmplResp};
use ghcb_msr_protocol::sev_info::{SevInfoReq, SevInfoResp};
use ghcb_msr_protocol::termination::{TerminationReason, TerminationReq, TerminationResp};
use ghcb_msr_protocol::{GhcbMsrError, GhcbMsrRequest, GhcbMsrResp};

#[should_panic]
#[test]
fn it_works() {
    let req = SevInfoReq::new();
    let _ = req.response(0).unwrap();
}

#[test]
fn sev_info_response_extracts_versions_and_bit_position() {
    // enc_bit_no = 0x33 at data bits [12:20), min_ver = 1 at [20:36),
    // max_ver = 2 at [36:52), tag 0x01 in the low twelve bits.
    let data = (0x33u64 << 12) | (1 << 20) | (2 << 36);
    let raw = (data << 12) | 0x01;
    let resp = SevInfoReq::new().response(raw).unwrap();
    assert_eq!(resp.enc_bit_no, 0x33);
    assert_eq!(resp.min_ver, 1);
    assert_eq!(resp.max_ver, 2);
}

#[test]
fn unknown_tag_fails_with_invalid_info() {
    let raw = (5u64 << 12) | 0x03;
    assert_eq!(SevInfoReq::new().response(raw), Err(GhcbMsrError::InvalidInfo));
    assert_eq!(
        <PageStateResp as GhcbMsrResp>::try_from(0xfff),
        Err(GhcbMsrError::InvalidInfo)
    );
}

#[test]
fn valid_tag_of_another_pair_fails_with_mismatched_info() {
    // A well-formed CPUID response handed to the SEV-info parser, and
    // the other way round.
    let cpuid_raw = (0x8000_0001u64 << 32) | 0x05;
    assert_eq!(
        <SevInfoResp as GhcbMsrResp>::try_from(cpuid_raw),
        Err(GhcbMsrError::MismatchedInfo)
    );
    let sev_raw = (1u64 << 32) | 0x01;
    assert_eq!(
        CpuidReq::new(0, CpuidReg::EAX).response(sev_raw),
        Err(GhcbMsrError::MismatchedInfo)
    );
    assert_eq!(
        PrefGhcbGpaReq::new().response((0x77u64 << 12) | 0x13),
        Err(GhcbMsrError::MismatchedInfo)
    );
}

#[test]
fn cpuid_response_recovers_function_and_register() {
    let data = (0x8000_0001u64 << 20) | (2 << 18);
    let raw = (data << 12) | 0x05;
    let resp = CpuidReq::new(0x8000_0001, CpuidReg::ECX).response(raw).unwrap();
    assert_eq!(resp.function, 0x8000_0001);
    assert_eq!(resp.reg, CpuidReg::ECX);
}

#[test]
fn cpuid_response_rejects_nonzero_low_byte() {
    let data = (0x8000_0001u64 << 20) | (2 << 18) | 0x40;
    let raw = (data << 12) | 0x05;
    assert_eq!(
        CpuidReq::new(0x8000_0001, CpuidReg::ECX).response(raw),
        Err(GhcbMsrError::InvalidData)
    );
}

#[test]
fn ap_reset_hold_rejects_zero_data() {
    assert_eq!(
        ApResetHoldReq::new().response(0x07),
        Err(GhcbMsrError::InvalidData)
    );
    assert_eq!(
        <ApResetHoldResp as GhcbMsrResp>::try_from(0x07),
        Err(GhcbMsrError::InvalidData)
    );
}

#[test]
fn ap_reset_hold_accepts_any_nonzero_data() {
    assert!(ApResetHoldReq::new().response((1 << 12) | 0x07).is_ok());
    assert!(ApResetHoldReq::new().response((0xdead << 12) | 0x07).is_ok());
}

#[test]
fn preferred_gpa_response_returns_the_full_data_field() {
    let resp = PrefGhcbGpaReq::new().response((0xabcdef << 12) | 0x11).unwrap();
    assert_eq!(resp.gfn, 0xabcdef);
}

#[test]
fn registration_echoing_the_sent_gfn_succeeds() {
    let req = RegisterGhcbReq::new(0x1234);
    let resp = req.response((0x1234 << 12) | 0x13).unwrap();
    assert_eq!(resp.gfn, 0x1234);
}

#[test]
fn registration_echoing_another_gfn_fails_with_mismatched_data() {
    let req = RegisterGhcbReq::new(0x1234);
    assert_eq!(
        req.response((0x1235 << 12) | 0x13),
        Err(GhcbMsrError::MismatchedData(0x1235))
    );
}

#[test]
fn page_state_response_rejects_any_nonzero_reserved_bit() {
    for low in [1u64, 0x2, 0x400, 0x80000, 0xfffff] {
        let raw = (low << 12) | 0x15;
        assert_eq!(
            PageStateReq::new(0, PageOp::Private).response(raw),
            Err(GhcbMsrError::InvalidData)
        );
    }
}

#[test]
fn page_state_response_preserves_the_error_code_exactly() {
    let raw = ((0xdead_beefu64 << 20) << 12) | 0x15;
    let resp = PageStateReq::new(0, PageOp::Shared).response(raw).unwrap();
    assert_eq!(resp.error_code, 0xdead_beef);
    let ok = PageStateReq::new(0, PageOp::Shared).response(0x15).unwrap();
    assert_eq!(ok.error_code, 0);
}

#[test]
fn run_vmpl_response_rejects_any_nonzero_reserved_bit() {
    for low in [1u64, 0x10, 0xfffff] {
        let raw = (low << 12) | 0x17;
        assert_eq!(
            RunVmplReq::new(0).response(raw),
            Err(GhcbMsrError::InvalidData)
        );
    }
    assert_eq!(
        <RunVmplResp as GhcbMsrResp>::try_from((0x3u64 << 12) | 0x17),
        Err(GhcbMsrError::InvalidData)
    );
}

#[test]
fn run_vmpl_response_preserves_the_error_code_exactly() {
    let raw = ((0x42u64 << 20) << 12) | 0x17;
    let resp = RunVmplReq::new(2).response(raw).unwrap();
    assert_eq!(resp.error_code, 0x42);
}

#[test]
fn feature_support_response_returns_the_bitmap() {
    let resp = FeatureSupportReq::new().response((0b1011 << 12) | 0x81).unwrap();
    assert_eq!(resp.features, 0b1011);
}

#[test]
fn termination_decode_always_fails_with_should_not_return() {
    let req = TerminationReq::new(0, TerminationReason::GeneralTermination);
    for raw in [0u64, 0x100, (0x55 << 12) | 0x100, u64::MAX] {
        assert_eq!(req.response(raw), Err(GhcbMsrError::ShouldNotReturn));
        assert_eq!(
            <TerminationResp as GhcbMsrResp>::try_from(raw),
            Err(GhcbMsrError::ShouldNotReturn)
        );
    }
}
