//! Trusted-measurement baselines for TDX attestation: the register values that
//! a genuine TEE instance must report, in binary and in hex form, and their
//! extraction from a verified quote report.

pub mod error;
pub mod hex;
pub mod measurements;
pub mod report;

pub use error::MeasurementsError;
pub use hex::HexBytes;
pub use measurements::{FullMeasurements, FullMeasurementsHex, Measurements, MeasurementsHex};
pub use report::{ReportBody, Td10Registers};
