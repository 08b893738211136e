//! The configuration model: RTUs, devices, conditions and rules.
pub mod conditions;
pub mod model_error;
pub mod rtu;
pub mod rules;
pub mod validation;
pub mod validators;

pub use model_error::ModelError;
pub use rtu::connection::Connection;
pub use rtu::device::Device;
pub use rtu::RTU;
