pub mod clint;
pub mod plic;
