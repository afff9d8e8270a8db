//! Verify-only core for governance certificates and claim provenance.
//!
//! The library re-checks a factory run's paperwork with no trust in its
//! producer: the certificate self-hash over its canonical JSON, the Ed25519
//! engine signature, stage artifact hashes, the signed inter-stage manifest
//! chain, the platform seal verdict, and the corpus / SBOM / agentic-posture
//! bindings; and it checks claim citations against an extraction corpus.

pub mod text;
pub mod digest;
pub mod json;
pub mod certificate;
pub mod inter_stage_manifest;
pub mod canonical;
pub mod crypto;
pub mod bindings;
pub mod posture;
pub mod jws;
pub mod platform;
pub mod knowledge;
pub mod corpus;
pub mod source_path;
pub mod sorted_map;
pub mod citation;
pub mod validation;
pub mod report;
