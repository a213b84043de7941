pub mod cpu;
pub mod gpu;
pub mod memory;
pub mod sensors;
