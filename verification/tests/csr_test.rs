use riscv_emu::cpu::cpu::Privilege;
use riscv_emu::cpu::cpu_csr::{
    Csr, CSR_CYCLE, CSR_FCSR, CSR_FFLAGS, CSR_FRM, CSR_MEPC, CSR_MIE, CSR_MIP, CSR_MISA,
    CSR_MSCRATCH, CSR_MSTATUS, CSR_MTVEC, CSR_SIE, CSR_SIP, CSR_SPTBR, CSR_SSCRATCH, CSR_SSTATUS,
    CSR_TIME, CSR_USCRATCH, MISA_RESET,
};
use riscv_emu::cpu::trap::{Exception, Trap};

#[test]
fn csr_file_resets_to_zero_but_misa() {
    let mut csr = Csr::new();
    assert_eq!(csr.read_direct(CSR_MISA), MISA_RESET);
    assert_eq!(csr.read_direct(CSR_MISA), 0x8000_0000_8014_312f);
    assert_eq!(csr.read_direct(CSR_MSTATUS), 0);
    assert_eq!(csr.read_direct(CSR_MTVEC), 0);
    assert_eq!(csr.read_direct(0xfff), 0);
}

#[test]
fn csr_tick_advances_time_and_wraps() {
    let mut csr = Csr::new();
    csr.tick();
    csr.tick();
    assert_eq!(csr.read_direct(CSR_TIME), 2);
    csr.write_direct(CSR_TIME, u64::MAX);
    csr.tick();
    assert_eq!(csr.read_direct(CSR_TIME), 0);
    assert_eq!(csr.read_direct(CSR_CYCLE), 0);
}

#[test]
fn csr_write_succeeds_at_sufficient_privilege() {
    let mut csr = Csr::new();
    assert_eq!(csr.write(CSR_MTVEC, 0x1000, 0x2000, &Privilege::Machine), Ok(false));
    assert_eq!(csr.read(CSR_MTVEC, 0x2000, &Privilege::Machine), Ok(0x1000));
    assert_eq!(csr.write(CSR_SSCRATCH, 7, 0, &Privilege::Supervisor), Ok(false));
    assert_eq!(csr.write(CSR_SSCRATCH, 8, 0, &Privilege::Machine), Ok(false));
    assert_eq!(csr.read(CSR_SSCRATCH, 0, &Privilege::Supervisor), Ok(8));
    assert_eq!(csr.write(CSR_USCRATCH, 9, 0, &Privilege::User), Ok(false));
    assert_eq!(csr.read(CSR_USCRATCH, 0, &Privilege::User), Ok(9));
}

#[test]
fn csr_write_below_privilege_is_illegal_and_changes_nothing() {
    let mut csr = Csr::new();
    csr.write_direct(CSR_MSCRATCH, 0x55);
    let before = csr.csr;
    let expected = Trap { exception: Exception::IllegalInstruction, value: 0x8000_0004 };
    assert_eq!(csr.write(CSR_MSCRATCH, 1, 0x8000_0004, &Privilege::Supervisor), Err(expected));
    assert_eq!(csr.write(CSR_MSCRATCH, 1, 0x8000_0004, &Privilege::User), Err(expected));
    assert_eq!(csr.write(CSR_SSCRATCH, 1, 0x8000_0004, &Privilege::User), Err(expected));
    assert_eq!(csr.read(CSR_MSCRATCH, 0x8000_0004, &Privilege::Supervisor), Err(expected));
    assert!(csr.csr == before);
    assert_eq!(csr.read_direct(CSR_MSCRATCH), 0x55);
}

#[test]
fn csr_privilege_is_bits_nine_and_eight_of_the_number() {
    let mut csr = Csr::new();
    for addr in 0..4096u16 {
        let needed = ((addr >> 8) & 3) as u8;
        for (level, p) in [
            (0u8, Privilege::User),
            (1, Privilege::Supervisor),
            (2, Privilege::Hypervisor),
            (3, Privilege::Machine),
        ] {
            let outcome = csr.read(addr, 0x40, &p);
            assert_eq!(outcome.is_ok(), needed <= level);
            if needed > level {
                assert_eq!(
                    outcome,
                    Err(Trap { exception: Exception::IllegalInstruction, value: 0x40 })
                );
            }
        }
    }
}

#[test]
fn csr_write_to_satp_asks_for_a_mode_update() {
    let mut csr = Csr::new();
    assert_eq!(csr.write(CSR_SPTBR, 0x8000_0000_0008_0000, 0, &Privilege::Supervisor), Ok(true));
    assert_eq!(csr.read_direct(CSR_SPTBR), 0x8000_0000_0008_0000);
    assert_eq!(csr.write(CSR_MEPC, 4, 0, &Privilege::Machine), Ok(false));
}

#[test]
fn sstatus_is_a_masked_view_of_mstatus() {
    let mut csr = Csr::new();
    csr.write_direct(CSR_MSTATUS, 0xffff_ffff_ffff_ffff);
    assert_eq!(csr.read_direct(CSR_SSTATUS), 0x0005_e133);
    csr.write_direct(CSR_SSTATUS, 0);
    assert_eq!(csr.read_direct(CSR_MSTATUS), 0xffff_ffff_fffa_1ecc);
    assert_eq!(csr.read_direct(CSR_SSTATUS), 0);
    csr.write_direct(CSR_MSTATUS, 0x1800);
    csr.write_direct(CSR_SSTATUS, 0xffff_ffff_ffff_ffff);
    assert_eq!(csr.read_direct(CSR_MSTATUS), 0x0005_f933);
}

#[test]
fn sie_and_sip_are_masked_views_of_mie_and_mip() {
    let mut csr = Csr::new();
    csr.write_direct(CSR_MIE, 0xfff);
    csr.write_direct(CSR_MIP, 0xaaa);
    assert_eq!(csr.read_direct(CSR_SIE), 0x333);
    assert_eq!(csr.read_direct(CSR_SIP), 0x222);
    csr.write_direct(CSR_SIE, 0x001);
    assert_eq!(csr.read_direct(CSR_MIE), 0xccd);
    csr.write_direct(CSR_SIP, 0xfff);
    assert_eq!(csr.read_direct(CSR_MIP), 0xbbb);
}

#[test]
fn fflags_and_frm_are_fields_of_fcsr() {
    let mut csr = Csr::new();
    csr.write_direct(CSR_FCSR, 0xff);
    assert_eq!(csr.read_direct(CSR_FFLAGS), 0x1f);
    assert_eq!(csr.read_direct(CSR_FRM), 0x7);
    csr.write_direct(CSR_FFLAGS, 0x02);
    assert_eq!(csr.read_direct(CSR_FCSR), 0xe2);
    csr.write_direct(CSR_FRM, 0x5);
    assert_eq!(csr.read_direct(CSR_FCSR), 0xa2);
    assert_eq!(csr.read_direct(CSR_FRM), 0x5);
    assert_eq!(csr.read_direct(CSR_FFLAGS), 0x02);
}

#[test]
fn read_modify_write_clears_then_sets() {
    let mut csr = Csr::new();
    csr.write_direct(CSR_MIP, 0x0f0);
    csr.read_modify_write_direct(CSR_MIP, 0x800, 0x030);
    assert_eq!(csr.read_direct(CSR_MIP), 0x8c0);
    csr.read_modify_write_direct(CSR_SIP, 0x202, 0);
    assert_eq!(csr.read_direct(CSR_MIP), 0xac2);
    csr.read_modify_write_direct(CSR_MIP, 0x1, 0x1);
    assert_eq!(csr.read_direct(CSR_MIP), 0xac3);
}
