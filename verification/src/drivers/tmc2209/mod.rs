pub mod registers;
pub mod structs;
pub mod tmc2209;
