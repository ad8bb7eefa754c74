pub mod fe310_g002;
pub mod fu540_c000;
pub mod intc;
pub mod memory;
pub mod timer;
pub mod uart;
pub mod virtio;
