pub mod configtree;
pub mod modules;
pub mod style;
pub mod utils;
