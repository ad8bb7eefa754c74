use vstd::prelude::*;

verus! {

/// The boards that the emulator models.
#[derive(Clone, Copy, Debug, PartialEq, Eq, Structural)]
pub enum Machine {
    /// SiFive FE310 (HiFive1).
    SiFiveE,
    /// SiFive FU540 (HiFive Unleashed).
    SiFiveU,
    /// The `virt` board of QEMU.
    QemuVirt,
}

} // verus!
