//! Selector-driven recipe extraction: site resolution, selector registry,
//! field extractors and recipe assembly, with their contracts.

pub mod extract;
pub mod recipe;
pub mod registry;
pub mod site;
pub mod text;
