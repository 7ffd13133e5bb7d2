pub mod common;
pub mod delay;
pub mod executor;
pub mod hat_macros;
pub mod futures;
pub mod mutex;
pub mod no_std;
pub mod peripherals;
pub mod std_runtime;
pub mod systick;
pub mod task;
pub mod time;
pub mod time_manager;
pub mod yield_future;
pub mod zbus;
