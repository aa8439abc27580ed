use crate::error::MeasurementsError;
use crate::measurements::Measurements;
use vstd::prelude::*;

verus! {

/// dcap_qvl's verified quote report, carried through as an opaque value.
#[verifier::external_type_specification]
#[verifier::external_body]
pub struct ExVerifiedReport(dcap_qvl::verify::VerifiedReport);

/// The four measurement registers of a TD10 report body, as the platform
/// reported them.
#[derive(Debug, Clone, Copy)]
pub struct Td10Registers {
    pub mr_td: [u8; 48],
    pub rt_mr0: [u8; 48],
    pub rt_mr1: [u8; 48],
    pub rt_mr2: [u8; 48],
}

/// The body of a verified quote report, as far as measurement extraction
/// reads it: a TD10 measurement block, or a format this scheme does not
/// support.
#[derive(Debug, Clone, Copy)]
pub enum ReportBody {
    Td10(Td10Registers),
    Unsupported,
}

/// The measurements that a report body carries.
pub open spec fn extracted(body: ReportBody) -> Result<Measurements, MeasurementsError> {
    match body {
        ReportBody::Td10(td) => Ok(
            Measurements { mrtd: td.mr_td, rtmr0: td.rt_mr0, rtmr1: td.rt_mr1, rtmr2: td.rt_mr2 },
        ),
        ReportBody::Unsupported => Err(MeasurementsError::NoTd10Report),
    }
}

/// The body that `report_body` reads from a verified report: it depends on the
/// report alone.
pub uninterp spec fn body_of(report: dcap_qvl::verify::VerifiedReport) -> ReportBody;

/// Relies on dcap_qvl::quote::Report::as_td10 to find the TD10 measurement
/// block of the verified report's body, which depends on the report alone;
/// the registers are copied out as they are. `as_td10` also gives the TD10
/// block that a TD 1.5 body (`TD15`, `TD15Ex`) embeds, so such reports are
/// read as TD10; an SGX enclave body has none and reads as `Unsupported`.
#[verifier::external_body]
fn report_body(report: &dcap_qvl::verify::VerifiedReport) -> (r: ReportBody)
    ensures
        r == body_of(*report),
{
    match report.report.as_td10() {
        Some(td) => ReportBody::Td10(
            Td10Registers { mr_td: td.mr_td, rt_mr0: td.rt_mr0, rt_mr1: td.rt_mr1, rt_mr2: td.rt_mr2 },
        ),
        None => ReportBody::Unsupported,
    }
}

impl Measurements {
    /// The measurements of a report body: its TD10 registers copied verbatim,
    /// or `NoTd10Report` when the body is in another format.
    pub fn from_report_body(body: ReportBody) -> (r: Result<Measurements, MeasurementsError>)
        ensures
            r == extracted(body),
    {
        match body {
            ReportBody::Td10(td) => Ok(
                Measurements { mrtd: td.mr_td, rtmr0: td.rt_mr0, rtmr1: td.rt_mr1, rtmr2: td.rt_mr2 },
            ),
            ReportBody::Unsupported => Err(MeasurementsError::NoTd10Report),
        }
    }

    /// The measurements of an already verified quote report: those of its
    /// body. Fails with `NoTd10Report`, and with no other error, when the body
    /// has no TD10 measurement block.
    pub fn from_verified_report(report: &dcap_qvl::verify::VerifiedReport) -> (r: Result<
        Measurements,
        MeasurementsError,
    >)
        ensures
            r == extracted(body_of(*report)),
    {
        let body = report_body(report);
        Measurements::from_report_body(body)
    }
}

} // verus!
