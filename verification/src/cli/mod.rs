pub mod scanner;
pub mod scheme;
pub mod diff;
pub mod sync_engine;
pub mod layout;
pub mod templates;
pub mod ops;
