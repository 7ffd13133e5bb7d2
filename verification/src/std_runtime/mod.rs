pub mod timer;
pub mod peripheral;
pub mod blocking_channel;
