//! Static instruction semantics for x86 code and the bookkeeping of an
//! example-driven register analysis, with their contracts proved by Verus.

pub mod assoc;
pub mod data_representation;
pub mod decoder;
pub mod exmaple_analysis;
pub mod instruction_db;
pub mod text;
