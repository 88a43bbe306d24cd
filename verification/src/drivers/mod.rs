pub mod regfields;
pub mod tmc2209;
pub mod tmc2160;
pub mod motor;
pub mod stepper;
pub mod driver;
pub mod led;
