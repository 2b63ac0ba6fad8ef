//! A streaming reader model for Variant Call Format text.

pub mod failure;
pub mod genotypes;
pub mod header;
pub mod record;
pub mod stream;
pub mod text;
pub mod value;
pub mod vcf;
