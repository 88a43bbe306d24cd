pub mod bits;
pub mod drivers;
pub mod hal;
pub mod text;
pub mod casing;
pub mod cli;
pub mod metadata;
pub mod registry;
pub mod config;
pub mod transport;
pub mod deprecated;
pub mod codegen;
