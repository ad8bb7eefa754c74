pub mod bus;
pub mod bus_fe310;
pub mod bus_qemu_virt;
