//! What a device may be able to do. Each capability is a narrow interface
//! of its own, and a device offers any subset of them.

pub mod alarm;
pub mod alert;
pub mod battery;
pub mod heartrate;
pub mod steps;
