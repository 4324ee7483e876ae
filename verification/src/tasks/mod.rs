//! The decisions of the tasks that run the sensor. A task performs what its part here asks for
//! and hands back what came of it.

pub mod air;
pub mod ble;
pub mod environment;
pub mod mems;
pub mod setup;
pub mod soc_refresh;
pub mod window;
