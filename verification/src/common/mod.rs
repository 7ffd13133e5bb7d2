pub mod result;
pub mod task;
pub mod lazy;
pub mod executor;
