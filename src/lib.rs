pub mod cpu;
pub mod device;
pub mod instructions;
pub mod memory;
pub mod prelude;
pub mod registers;
pub mod screen_device;
pub mod types;
