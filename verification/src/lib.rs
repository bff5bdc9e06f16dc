pub mod json;
pub mod text;
pub mod helix;
pub mod embed;
pub mod memory;
pub mod startup;
