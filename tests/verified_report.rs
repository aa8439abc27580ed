use attestation::{Measurements, MeasurementsError};
use dcap_qvl::quote::{EnclaveReport, Report, TDReport10, TDReport15};
use dcap_qvl::tcb_info::{TcbStatus, TcbStatusWithAdvisory};
use dcap_qvl::verify::VerifiedReport;

fn report_with(body: Report) -> VerifiedReport {
    VerifiedReport {
        status: "UpToDate".to_string(),
        advisory_ids: Vec::new(),
        report: body,
        ppid: Vec::new(),
        qe_status: TcbStatusWithAdvisory::new(TcbStatus::UpToDate, Vec::new()),
        platform_status: TcbStatusWithAdvisory::new(TcbStatus::UpToDate, Vec::new()),
    }
}

fn td10() -> TDReport10 {
    TDReport10 {
        tee_tcb_svn: [0; 16],
        mr_seam: [0x11; 48],
        mr_signer_seam: [0x12; 48],
        seam_attributes: [0; 8],
        td_attributes: [0; 8],
        xfam: [0; 8],
        mr_td: [0xa0; 48],
        mr_config_id: [0x13; 48],
        mr_owner: [0x14; 48],
        mr_owner_config: [0x15; 48],
        rt_mr0: [0xb0; 48],
        rt_mr1: [0xb1; 48],
        rt_mr2: [0xb2; 48],
        rt_mr3: [0xb3; 48],
        report_data: [0; 64],
    }
}

#[test]
fn verified_td10_report_gives_its_registers() {
    let m = Measurements::from_verified_report(&report_with(Report::TD10(td10()))).unwrap();
    assert_eq!(m.mrtd, [0xa0; 48]);
    assert_eq!(m.rtmr0, [0xb0; 48]);
    assert_eq!(m.rtmr1, [0xb1; 48]);
    assert_eq!(m.rtmr2, [0xb2; 48]);
}

#[test]
fn verified_sgx_report_is_rejected() {
    let sgx = EnclaveReport {
        cpu_svn: [0; 16],
        misc_select: 0,
        reserved1: [0; 28],
        attributes: [0; 16],
        mr_enclave: [1; 32],
        reserved2: [0; 32],
        mr_signer: [2; 32],
        reserved3: [0; 96],
        isv_prod_id: 0,
        isv_svn: 0,
        reserved4: [0; 60],
        report_data: [0; 64],
    };
    let r = Measurements::from_verified_report(&report_with(Report::SgxEnclave(sgx)));
    assert_eq!(r.err(), Some(MeasurementsError::NoTd10Report));
}

#[test]
fn verified_td15_report_gives_its_td10_registers() {
    let td15 = TDReport15 { base: td10(), tee_tcb_svn2: [0; 16], mr_service_td: [0x99; 48] };
    let m = Measurements::from_verified_report(&report_with(Report::TD15(td15))).unwrap();
    assert_eq!(m.mrtd, [0xa0; 48]);
    assert_eq!(m.rtmr0, [0xb0; 48]);
    assert_eq!(m.rtmr1, [0xb1; 48]);
    assert_eq!(m.rtmr2, [0xb2; 48]);
}
