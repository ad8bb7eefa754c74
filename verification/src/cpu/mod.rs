pub mod cpu;
pub mod cpu_csr;
pub mod cpu_instruction;
pub mod cpu_instruction_comp;
pub mod laws;
pub mod mmu;
pub mod trap;
