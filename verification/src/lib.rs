pub mod cpu;
pub mod flags;
pub mod isa;
pub mod ram;
