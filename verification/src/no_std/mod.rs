pub mod alloc_rust;
pub mod arc;
pub mod alloc_rtos;
pub mod rtos;
