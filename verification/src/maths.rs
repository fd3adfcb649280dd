//! Numerical building blocks: the Picard iteration driver and root-finding vocabulary.

pub mod picard;
pub mod rootfind;
