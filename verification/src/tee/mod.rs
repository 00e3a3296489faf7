//! Confidential-compute support: pre-launch measurement derivation,
//! attestation-quote checking, SEV-SNP parameters, and the boot-component
//! pipeline.

pub mod attestation;
pub mod measurement;
pub mod pipeline;
pub mod sev_snp;

pub use attestation::AttestationVerifier;
pub use measurement::MeasurementCalculator;
pub use pipeline::BuildPipeline;
