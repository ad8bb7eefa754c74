use vstd::prelude::*;

use crate::cpu::cpu::{
    priority_rank, spec_status_register, CpuView, Xlen, SUPERVISOR_DELEGABLE,
};
use crate::cpu::cpu_csr::{csr_value, CSR_MIDELEG, CSR_MIE, CSR_MIP, CSR_SIDELEG};
use crate::cpu::cpu_instruction::{
    spec_decode, spec_enc_b, spec_enc_i, spec_enc_j, spec_enc_r, spec_enc_s, spec_enc_u,
    spec_parse_type_i, spec_parse_type_j, spec_parse_type_r, AluOp, AmoOp, BranchOp, CsrOp,
    Instruction, Width,
};
use crate::cpu::cpu_instruction_comp::{
    spec_c_reg_hi, spec_c_reg_lo, spec_c_short_hi, spec_c_short_lo, spec_c_uimm6, spec_decompress,
    spec_opecode_0, spec_opecode_1, spec_opecode_2,
};
use crate::cpu::mmu::{spec_translates, AddressingMode, MemoryAccessType, MmuView};
use crate::cpu::trap::{Interrupt, Trap};

verus! {

/// The interrupt that a hart takes is the first candidate in the order of
/// arbitration: it is a candidate, and no candidate comes before it. Where
/// the hart takes none, there is no candidate.
pub proof fn lemma_selected_is_first_candidate(s: CpuView, other: Interrupt)
    ensures
        match s.selected() {
            Some(chosen) => s.candidate(chosen) && (s.candidate(other) ==> priority_rank(chosen)
                <= priority_rank(other)),
            None => !s.candidate(other),
        },
{
}

/// An interrupt that is taken is handled at a level that is not below the
/// current one.
pub proof fn lemma_selected_is_not_below(s: CpuView)
    ensures
        s.selected() matches Some(chosen) ==> s.next_privilege(chosen.code(), true).level()
            >= s.privilege.level(),
{
    reveal(CpuView::candidate);
}

/// An interrupt whose bit is set in both `mie` and `mip` has its enable
/// bit set in `mie`, and in the supervisor's view of it if it can be
/// delegated; and it is not delegated to user level where no bit of the
/// supervisor delegation register is set.
proof fn lemma_enable_bits(mie: u64, mip: u64, mdeleg: u64, sdeleg: u64, code: u32, mask: u64)
    by (bit_vector)
    requires
        (code == 0 && mask == 0x001) || (code == 1 && mask == 0x002) || (code == 3 && mask
            == 0x008) || (code == 4 && mask == 0x010) || (code == 5 && mask == 0x020) || (code
            == 7 && mask == 0x080) || (code == 8 && mask == 0x100) || (code == 9 && mask
            == 0x200) || (code == 11 && mask == 0x800),
        mie & mip & 0xfff & mask != 0,
    ensures
        (mie >> code) & 0x1 != 0,
        ((mdeleg & 0xffff_ffff_ffff_f777) >> code) & 0x1 != 0 ==> ((mie & 0x333) >> code) & 0x1
            != 0,
        sdeleg & 0xffff_ffff_ffff_f111 & 0xfff == 0 ==> ((sdeleg & 0xffff_ffff_ffff_f111)
            >> code) & 0x1 == 0,
{
}

/// Among the interrupts that are pending and enabled and whose handling
/// level is not below the current level, the one that is taken comes first
/// in the order of arbitration. This holds while the interrupts of the
/// current level are enabled in its status register and no interrupt is
/// delegated to user level.
pub proof fn lemma_selected_has_highest_priority(s: CpuView, other: Interrupt)
    requires
        (csr_value(s.csr, spec_status_register(s.privilege)) >> (s.privilege.level() as u32))
            & 0x1 != 0,
        csr_value(s.csr, CSR_SIDELEG) & SUPERVISOR_DELEGABLE & 0xfff == 0,
        s.pending(other),
        s.next_privilege(other.code(), true).level() >= s.privilege.level(),
    ensures
        s.selected() matches Some(chosen) && priority_rank(chosen) <= priority_rank(other),
{
    reveal(CpuView::candidate);
    lemma_enable_bits(
        csr_value(s.csr, CSR_MIE),
        csr_value(s.csr, CSR_MIP),
        csr_value(s.csr, CSR_MIDELEG),
        csr_value(s.csr, CSR_SIDELEG),
        other.code() as u32,
        other.mask(),
    );
    assert(s.accepts(other));
    lemma_selected_is_first_candidate(s, other);
}

/// Every instruction word that an encoder makes for one of the opcodes of
/// the base instruction set has its low two bits set.
proof fn lemma_encoders_make_full_words()
    by (bit_vector)
    ensures
        forall|f7: u32, rs2: u32, rs1: u32, f3: u32, rd: u32, op: u32|
            op & 0x3 == 0x3 ==> #[trigger] spec_enc_r(f7, rs2, rs1, f3, rd, op) & 0x3 == 0x3,
        forall|imm: u32, rs1: u32, f3: u32, rd: u32, op: u32|
            op & 0x3 == 0x3 ==> #[trigger] spec_enc_i(imm, rs1, f3, rd, op) & 0x3 == 0x3,
        forall|imm: u32, rs2: u32, rs1: u32, f3: u32, op: u32|
            op & 0x3 == 0x3 ==> #[trigger] spec_enc_s(imm, rs2, rs1, f3, op) & 0x3 == 0x3,
        forall|imm: u32, rs2: u32, rs1: u32, f3: u32, op: u32|
            op & 0x3 == 0x3 ==> #[trigger] spec_enc_b(imm, rs2, rs1, f3, op) & 0x3 == 0x3,
        forall|imm: u32, rd: u32, op: u32|
            op & 0x3 == 0x3 ==> #[trigger] spec_enc_u(imm, rd, op) & 0x3 == 0x3,
        forall|imm: u32, rd: u32, op: u32|
            op & 0x3 == 0x3 ==> #[trigger] spec_enc_j(imm, rd, op) & 0x3 == 0x3,
{
}

/// The expansion of a 16-bit instruction is a 32-bit instruction word: its
/// low two bits are set.
pub proof fn lemma_expansion_is_full_word(xlen: Xlen, word: u16)
    ensures
        spec_decompress(xlen, word) matches Ok(expanded) ==> expanded & 0x3 == 0x3,
{
    lemma_encoders_make_full_words();
    assert(0x03u32 & 0x3 == 0x3 && 0x07u32 & 0x3 == 0x3 && 0x13u32 & 0x3 == 0x3 && 0x1bu32 & 0x3
        == 0x3 && 0x23u32 & 0x3 == 0x3 && 0x27u32 & 0x3 == 0x3 && 0x33u32 & 0x3 == 0x3 && 0x37u32
        & 0x3 == 0x3 && 0x3bu32 & 0x3 == 0x3 && 0x63u32 & 0x3 == 0x3 && 0x67u32 & 0x3 == 0x3
        && 0x6fu32 & 0x3 == 0x3 && 0x0010_0073u32 & 0x3 == 0x3) by (bit_vector);
}

/// The opcode and function fields of an encoded word are the ones it was
/// made of, where the fields that lie below them have their widths.
proof fn lemma_encoders_keep_fields()
    by (bit_vector)
    ensures
        forall|f7: u32, rs2: u32, rs1: u32, f3: u32, rd: u32, op: u32|
            f7 < 128 && rs2 < 32 && rs1 < 32 && f3 < 8 && rd < 32 && op < 128 ==> (
            #[trigger] spec_enc_r(f7, rs2, rs1, f3, rd, op)) & 0x7f == op && (spec_enc_r(
                f7,
                rs2,
                rs1,
                f3,
                rd,
                op,
            ) >> 12) & 0x7 == f3 && spec_enc_r(f7, rs2, rs1, f3, rd, op) >> 25 == f7,
        forall|imm: u32, rs1: u32, f3: u32, rd: u32, op: u32|
            rs1 < 32 && f3 < 8 && rd < 32 && op < 128 ==> (#[trigger] spec_enc_i(
                imm,
                rs1,
                f3,
                rd,
                op,
            )) & 0x7f == op && (spec_enc_i(imm, rs1, f3, rd, op) >> 12) & 0x7 == f3 && spec_enc_i(
                imm,
                rs1,
                f3,
                rd,
                op,
            ) >> 26 == (imm & 0xfff) >> 6 && spec_enc_i(imm, rs1, f3, rd, op) >> 25 == (imm
                & 0xfff) >> 5,
        forall|imm: u32, rs2: u32, rs1: u32, f3: u32, op: u32|
            rs2 < 32 && rs1 < 32 && f3 < 8 && op < 128 ==> (#[trigger] spec_enc_s(
                imm,
                rs2,
                rs1,
                f3,
                op,
            )) & 0x7f == op && (spec_enc_s(imm, rs2, rs1, f3, op) >> 12) & 0x7 == f3,
        forall|imm: u32, rs2: u32, rs1: u32, f3: u32, op: u32|
            rs2 < 32 && rs1 < 32 && f3 < 8 && op < 128 ==> (#[trigger] spec_enc_b(
                imm,
                rs2,
                rs1,
                f3,
                op,
            )) & 0x7f == op && (spec_enc_b(imm, rs2, rs1, f3, op) >> 12) & 0x7 == f3,
        forall|imm: u32, rd: u32, op: u32|
            rd < 32 && op < 128 ==> (#[trigger] spec_enc_u(imm, rd, op)) & 0x7f == op,
        forall|imm: u32, rd: u32, op: u32|
            rd < 32 && op < 128 ==> (#[trigger] spec_enc_j(imm, rd, op)) & 0x7f == op,
{
}

/// The registers that a 16-bit instruction names are registers, and its
/// shift amounts have six bits.
proof fn lemma_compressed_fields_in_range()
    by (bit_vector)
    ensures
        forall|w: u32| #[trigger] spec_c_reg_hi(w) < 32,
        forall|w: u32| #[trigger] spec_c_reg_lo(w) < 32,
        forall|w: u32| #[trigger] spec_c_short_hi(w) < 32,
        forall|w: u32| #[trigger] spec_c_short_lo(w) < 32,
        forall|w: u32|
            ((#[trigger] spec_c_uimm6(w)) & 0xfff) >> 6 == 0 && ((0x400 | spec_c_uimm6(w)) & 0xfff)
                >> 6 == 0x10,
{
}

/// The expansion of a 16-bit instruction of quadrant 0 is a word that
/// encodes an instruction.
proof fn lemma_quadrant_0_decodes(xlen: Xlen, word: u16)
    ensures
        spec_opecode_0(xlen, word) matches Ok(expanded) ==> spec_decode(expanded) is Some,
{
    lemma_encoders_keep_fields();
    lemma_compressed_fields_in_range();
}

/// The expansion of a 16-bit instruction of quadrant 1 is a word that
/// encodes an instruction.
proof fn lemma_quadrant_1_decodes(xlen: Xlen, word: u16)
    ensures
        spec_opecode_1(xlen, word) matches Ok(expanded) ==> spec_decode(expanded) is Some,
{
    lemma_encoders_keep_fields();
    lemma_compressed_fields_in_range();
    assert(0x0000_0013u32 & 0x7f == 0x13 && (0x0000_0013u32 >> 12) & 0x7 == 0) by (bit_vector);
}

/// The expansion of a 16-bit instruction of quadrant 2 is a word that
/// encodes an instruction.
proof fn lemma_quadrant_2_decodes(xlen: Xlen, word: u16)
    ensures
        spec_opecode_2(xlen, word) matches Ok(expanded) ==> spec_decode(expanded) is Some,
{
    lemma_encoders_keep_fields();
    lemma_compressed_fields_in_range();
    assert(0x0010_0073u32 & 0x7f == 0x73 && (0x0010_0073u32 >> 12) & 0x7 == 0 && 0x0010_0073u32
        >> 20 == 1 && (0x0010_0073u32 >> 20) >> 5 == 0) by (bit_vector);
}

/// The expansion of a 16-bit instruction is a word that encodes an
/// instruction: what is not refused as a reserved encoding is executed and
/// does not raise an illegal instruction for its encoding.
pub proof fn lemma_expansion_decodes(xlen: Xlen, word: u16)
    ensures
        spec_decompress(xlen, word) matches Ok(expanded) ==> spec_decode(expanded) is Some,
{
    lemma_quadrant_0_decodes(xlen, word);
    lemma_quadrant_1_decodes(xlen, word);
    lemma_quadrant_2_decodes(xlen, word);
}

/// A hart executes a 16-bit instruction as its expansion. Let `short` be
/// a state in which the fetch at the program counter gives a 16-bit
/// instruction whose expansion is `expanded`, and `full` a state in which
/// it gives the word `expanded` itself, the two states being the same once
/// the instruction is fetched. Then both execute the word `expanded` at the
/// same address, from states that differ only in the address of the next
/// instruction: the program counter plus 2, or plus 4.
pub proof fn lemma_compressed_as_expanded(short: CpuView, full: CpuView, word: u32, expanded: u32)
    requires
        short.mmu.fetch32(short.pc).1 == Ok::<u32, Trap>(word),
        word & 0x3 != 0x3,
        spec_decompress(short.xlen, (word & 0xffff) as u16) == Ok::<u32, ()>(expanded),
        full.mmu.fetch32(full.pc).1 == Ok::<u32, Trap>(expanded),
        full.with_mmu(full.mmu.fetch32(full.pc).0) == short.with_mmu(
            short.mmu.fetch32(short.pc).0,
        ),
    ensures
        short.tick_execute() == short.fetch().0.retire(short.pc, expanded),
        full.tick_execute() == full.fetch().0.retire(short.pc, expanded),
        short.fetch().0 == full.fetch().0.with_pc(short.pc.wrapping_add(2)),
        full.fetch().0.pc == short.pc.wrapping_add(4),
{
    lemma_expansion_is_full_word(short.xlen, (word & 0xffff) as u16);
}

/// Whether two outcomes of an instruction whose register rd is `rd`,
/// executed from states whose program counters were `pc_a` and `pc_b`, are the
/// same apart from the address of the next instruction: the results are
/// the same; the states are the same but for the program counter and the
/// register rd; and the program counters are the same, or each is the one
/// that its state began with.
pub open spec fn same_apart_from_next_pc(
    a: (CpuView, Result<(), Trap>),
    b: (CpuView, Result<(), Trap>),
    pc_a: u64,
    pc_b: u64,
    rd: u8,
) -> bool {
    &&& a.1 == b.1
    &&& a.0.with_pc(0).with_x(rd, 0) == b.0.with_pc(0).with_x(rd, 0)
    &&& a.0.pc == b.0.pc || (a.0.pc == pc_a && b.0.pc == pc_b)
}

/// What a load does is the same apart from the address of the next
/// instruction.
proof fn lemma_load_apart_from_next_pc(
    s: CpuView,
    pc_a: u64,
    pc_b: u64,
    width: Width,
    signed: bool,
    word: u32,
)
    ensures
        same_apart_from_next_pc(
            s.with_pc(pc_a).load(width, signed, word),
            s.with_pc(pc_b).load(width, signed, word),
            pc_a,
            pc_b,
            spec_parse_type_i(word).rd,
        ),
        s.with_pc(pc_a).load(width, signed, word).0.x == s.with_pc(pc_b).load(
            width, signed, word,
        ).0.x,
{
}

/// What a store does is the same apart from the address of the next
/// instruction.
proof fn lemma_store_apart_from_next_pc(
    s: CpuView,
    pc_a: u64,
    pc_b: u64,
    width: Width,
    word: u32,
)
    ensures
        same_apart_from_next_pc(
            s.with_pc(pc_a).store(width, word),
            s.with_pc(pc_b).store(width, word),
            pc_a,
            pc_b,
            spec_parse_type_i(word).rd,
        ),
        s.with_pc(pc_a).store(width, word).0.x == s.with_pc(pc_b).store(
            width, word,
        ).0.x,
{
}

/// What a floating-point load does is the same apart from the address of the next
/// instruction.
proof fn lemma_float_load_apart_from_next_pc(
    s: CpuView,
    pc_a: u64,
    pc_b: u64,
    width: Width,
    word: u32,
)
    ensures
        same_apart_from_next_pc(
            s.with_pc(pc_a).float_load(width, word),
            s.with_pc(pc_b).float_load(width, word),
            pc_a,
            pc_b,
            spec_parse_type_i(word).rd,
        ),
        s.with_pc(pc_a).float_load(width, word).0.x == s.with_pc(pc_b).float_load(
            width, word,
        ).0.x,
{
}

/// What a floating-point store does is the same apart from the address of the next
/// instruction.
proof fn lemma_float_store_apart_from_next_pc(
    s: CpuView,
    pc_a: u64,
    pc_b: u64,
    width: Width,
    word: u32,
)
    ensures
        same_apart_from_next_pc(
            s.with_pc(pc_a).float_store(width, word),
            s.with_pc(pc_b).float_store(width, word),
            pc_a,
            pc_b,
            spec_parse_type_i(word).rd,
        ),
        s.with_pc(pc_a).float_store(width, word).0.x == s.with_pc(pc_b).float_store(
            width, word,
        ).0.x,
{
}

/// What a CSR instruction does is the same apart from the address of the next
/// instruction.
proof fn lemma_csr_access_apart_from_next_pc(
    s: CpuView,
    pc_a: u64,
    pc_b: u64,
    op: CsrOp,
    addr: u64,
    word: u32,
)
    ensures
        same_apart_from_next_pc(
            s.with_pc(pc_a).csr_access(op, addr, word),
            s.with_pc(pc_b).csr_access(op, addr, word),
            pc_a,
            pc_b,
            spec_parse_type_i(word).rd,
        ),
        s.with_pc(pc_a).csr_access(op, addr, word).0.x == s.with_pc(pc_b).csr_access(
            op, addr, word,
        ).0.x,
{
}

/// What a load-reserved does is the same apart from the address of the next
/// instruction.
proof fn lemma_load_reserved_apart_from_next_pc(
    s: CpuView,
    pc_a: u64,
    pc_b: u64,
    width: Width,
    word: u32,
)
    ensures
        same_apart_from_next_pc(
            s.with_pc(pc_a).load_reserved(width, word),
            s.with_pc(pc_b).load_reserved(width, word),
            pc_a,
            pc_b,
            spec_parse_type_i(word).rd,
        ),
        s.with_pc(pc_a).load_reserved(width, word).0.x == s.with_pc(pc_b).load_reserved(
            width, word,
        ).0.x,
{
}

/// What a store-conditional does is the same apart from the address of the next
/// instruction.
proof fn lemma_store_conditional_apart_from_next_pc(
    s: CpuView,
    pc_a: u64,
    pc_b: u64,
    width: Width,
    word: u32,
)
    ensures
        same_apart_from_next_pc(
            s.with_pc(pc_a).store_conditional(width, word),
            s.with_pc(pc_b).store_conditional(width, word),
            pc_a,
            pc_b,
            spec_parse_type_i(word).rd,
        ),
        s.with_pc(pc_a).store_conditional(width, word).0.x == s.with_pc(pc_b).store_conditional(
            width, word,
        ).0.x,
{
}

/// What an AMO does is the same apart from the address of the next
/// instruction.
proof fn lemma_amo_apart_from_next_pc(
    s: CpuView,
    pc_a: u64,
    pc_b: u64,
    op: AmoOp,
    width: Width,
    word: u32,
)
    ensures
        same_apart_from_next_pc(
            s.with_pc(pc_a).amo(op, width, word),
            s.with_pc(pc_b).amo(op, width, word),
            pc_a,
            pc_b,
            spec_parse_type_i(word).rd,
        ),
        s.with_pc(pc_a).amo(op, width, word).0.x == s.with_pc(pc_b).amo(
            op, width, word,
        ).0.x,
{
}

/// What SRET does is the same apart from the address of the next
/// instruction.
proof fn lemma_sret_apart_from_next_pc(
    s: CpuView,
    pc_a: u64,
    pc_b: u64,
    addr: u64,
    word: u32,
)
    ensures
        same_apart_from_next_pc(
            s.with_pc(pc_a).sret(addr),
            s.with_pc(pc_b).sret(addr),
            pc_a,
            pc_b,
            spec_parse_type_i(word).rd,
        ),
        s.with_pc(pc_a).sret(addr).0.x == s.with_pc(pc_b).sret(
            addr,
        ).0.x,
{
}

/// What MRET does is the same apart from the address of the next
/// instruction.
proof fn lemma_mret_apart_from_next_pc(
    s: CpuView,
    pc_a: u64,
    pc_b: u64,
    addr: u64,
    word: u32,
)
    ensures
        same_apart_from_next_pc(
            s.with_pc(pc_a).mret(addr),
            s.with_pc(pc_b).mret(addr),
            pc_a,
            pc_b,
            spec_parse_type_i(word).rd,
        ),
        s.with_pc(pc_a).mret(addr).0.x == s.with_pc(pc_b).mret(
            addr,
        ).0.x,
{
}

/// What an operation on a register and an immediate does is the same apart from the address of the next
/// instruction.
proof fn lemma_op_imm_apart_from_next_pc(
    s: CpuView,
    pc_a: u64,
    pc_b: u64,
    op: AluOp,
    word: u32,
)
    ensures
        same_apart_from_next_pc(
            (s.with_pc(pc_a).op_imm(op, word), Ok(())),
            (s.with_pc(pc_b).op_imm(op, word), Ok(())),
            pc_a,
            pc_b,
            spec_parse_type_i(word).rd,
        ),
        s.with_pc(pc_a).op_imm(op, word).x == s.with_pc(pc_b).op_imm(op, word).x,
{
}

/// What an operation on two registers does is the same apart from the address of the next
/// instruction.
proof fn lemma_op_reg_apart_from_next_pc(
    s: CpuView,
    pc_a: u64,
    pc_b: u64,
    op: AluOp,
    word: u32,
)
    ensures
        same_apart_from_next_pc(
            (s.with_pc(pc_a).op_reg(op, word), Ok(())),
            (s.with_pc(pc_b).op_reg(op, word), Ok(())),
            pc_a,
            pc_b,
            spec_parse_type_i(word).rd,
        ),
        s.with_pc(pc_a).op_reg(op, word).x == s.with_pc(pc_b).op_reg(op, word).x,
{
}

/// What LUI does is the same apart from the address of the next
/// instruction.
proof fn lemma_lui_apart_from_next_pc(
    s: CpuView,
    pc_a: u64,
    pc_b: u64,
    word: u32,
)
    ensures
        same_apart_from_next_pc(
            (s.with_pc(pc_a).lui(word), Ok(())),
            (s.with_pc(pc_b).lui(word), Ok(())),
            pc_a,
            pc_b,
            spec_parse_type_i(word).rd,
        ),
        s.with_pc(pc_a).lui(word).x == s.with_pc(pc_b).lui(word).x,
{
}

/// What AUIPC does is the same apart from the address of the next
/// instruction.
proof fn lemma_auipc_apart_from_next_pc(
    s: CpuView,
    pc_a: u64,
    pc_b: u64,
    addr: u64,
    word: u32,
)
    ensures
        same_apart_from_next_pc(
            (s.with_pc(pc_a).auipc(addr, word), Ok(())),
            (s.with_pc(pc_b).auipc(addr, word), Ok(())),
            pc_a,
            pc_b,
            spec_parse_type_i(word).rd,
        ),
        s.with_pc(pc_a).auipc(addr, word).x == s.with_pc(pc_b).auipc(addr, word).x,
{
}

/// What a branch does is the same apart from the address of the next
/// instruction.
proof fn lemma_branch_apart_from_next_pc(
    s: CpuView,
    pc_a: u64,
    pc_b: u64,
    op: BranchOp,
    addr: u64,
    word: u32,
)
    ensures
        same_apart_from_next_pc(
            (s.with_pc(pc_a).branch(op, addr, word), Ok(())),
            (s.with_pc(pc_b).branch(op, addr, word), Ok(())),
            pc_a,
            pc_b,
            spec_parse_type_i(word).rd,
        ),
        s.with_pc(pc_a).branch(op, addr, word).x == s.with_pc(pc_b).branch(op, addr, word).x,
{
}

/// What FMV.W.X does is the same apart from the address of the next
/// instruction.
proof fn lemma_fmv_w_x_apart_from_next_pc(
    s: CpuView,
    pc_a: u64,
    pc_b: u64,
    word: u32,
)
    ensures
        same_apart_from_next_pc(
            (s.with_pc(pc_a).fmv_w_x(word), Ok(())),
            (s.with_pc(pc_b).fmv_w_x(word), Ok(())),
            pc_a,
            pc_b,
            spec_parse_type_i(word).rd,
        ),
        s.with_pc(pc_a).fmv_w_x(word).x == s.with_pc(pc_b).fmv_w_x(word).x,
{
}

/// What a jump that links does is the same apart from the address of the
/// next instruction, which it leaves in the register rd.
proof fn lemma_jumps_apart_from_next_pc(s: CpuView, pc_a: u64, pc_b: u64, addr: u64, word: u32)
    requires
        s.wf(),
    ensures
        same_apart_from_next_pc(
            (s.with_pc(pc_a).jal(addr, word), Ok(())),
            (s.with_pc(pc_b).jal(addr, word), Ok(())),
            pc_a,
            pc_b,
            spec_parse_type_i(word).rd,
        ),
        same_apart_from_next_pc(
            (s.with_pc(pc_a).jalr(word), Ok(())),
            (s.with_pc(pc_b).jalr(word), Ok(())),
            pc_a,
            pc_b,
            spec_parse_type_i(word).rd,
        ),
{
    let rd = spec_parse_type_i(word).rd;
    crate::cpu::cpu_instruction::lemma_field_bounds(word);
    assert(spec_parse_type_j(word).rd == rd);
    assert(s.with_pc(pc_a).jal(addr, word).with_pc(0).with_x(rd, 0).x =~= s.with_pc(pc_b).jal(
        addr,
        word,
    ).with_pc(0).with_x(rd, 0).x);
    assert(s.with_pc(pc_a).jalr(word).with_pc(0).with_x(rd, 0).x =~= s.with_pc(pc_b).jalr(
        word,
    ).with_pc(0).with_x(rd, 0).x);
}

/// What a decoded instruction does depends on the address of the next
/// instruction only in what it leaves in the program counter and, for a
/// jump that links, in the link register.
#[verifier::rlimit(60)]
#[verifier::spinoff_prover]
pub proof fn lemma_execute_apart_from_next_pc(
    s: CpuView,
    pc_a: u64,
    pc_b: u64,
    instruction: Instruction,
    addr: u64,
    word: u32,
)
    requires
        s.wf(),
    ensures
        same_apart_from_next_pc(
            s.with_pc(pc_a).execute(instruction, addr, word),
            s.with_pc(pc_b).execute(instruction, addr, word),
            pc_a,
            pc_b,
            spec_parse_type_i(word).rd,
        ),
        instruction != Instruction::Jal && instruction != Instruction::Jalr ==> s.with_pc(
            pc_a,
        ).execute(instruction, addr, word).0.x == s.with_pc(pc_b).execute(
            instruction,
            addr,
            word,
        ).0.x,
{
    match instruction {
        Instruction::Load { width, signed } => {
            lemma_load_apart_from_next_pc(s, pc_a, pc_b, width, signed, word);
        },
        Instruction::Store { width } => {
            lemma_store_apart_from_next_pc(s, pc_a, pc_b, width, word);
        },
        Instruction::FloatLoad { width } => {
            lemma_float_load_apart_from_next_pc(s, pc_a, pc_b, width, word);
        },
        Instruction::FloatStore { width } => {
            lemma_float_store_apart_from_next_pc(s, pc_a, pc_b, width, word);
        },
        Instruction::OpImm { alu } => {
            lemma_op_imm_apart_from_next_pc(s, pc_a, pc_b, alu, word);
        },
        Instruction::Op { alu } => {
            lemma_op_reg_apart_from_next_pc(s, pc_a, pc_b, alu, word);
        },
        Instruction::Lui => {
            lemma_lui_apart_from_next_pc(s, pc_a, pc_b, word);
        },
        Instruction::Auipc => {
            lemma_auipc_apart_from_next_pc(s, pc_a, pc_b, addr, word);
        },
        Instruction::Jal => {
            lemma_jumps_apart_from_next_pc(s, pc_a, pc_b, addr, word);
        },
        Instruction::Jalr => {
            lemma_jumps_apart_from_next_pc(s, pc_a, pc_b, addr, word);
        },
        Instruction::Branch { branch } => {
            lemma_branch_apart_from_next_pc(s, pc_a, pc_b, branch, addr, word);
        },
        Instruction::Csr { csr } => {
            lemma_csr_access_apart_from_next_pc(s, pc_a, pc_b, csr, addr, word);
        },
        Instruction::LoadReserved { width } => {
            lemma_load_reserved_apart_from_next_pc(s, pc_a, pc_b, width, word);
        },
        Instruction::StoreConditional { width } => {
            lemma_store_conditional_apart_from_next_pc(s, pc_a, pc_b, width, word);
        },
        Instruction::Amo { amo, width } => {
            lemma_amo_apart_from_next_pc(s, pc_a, pc_b, amo, width, word);
        },
        Instruction::Sret => {
            lemma_sret_apart_from_next_pc(s, pc_a, pc_b, addr, word);
        },
        Instruction::Mret => {
            lemma_mret_apart_from_next_pc(s, pc_a, pc_b, addr, word);
        },
        Instruction::FmvWX => {
            lemma_fmv_w_x_apart_from_next_pc(s, pc_a, pc_b, word);
        },
        Instruction::Fence => {},
        Instruction::Ecall => {},
        Instruction::Ebreak => {},
        Instruction::Wfi => {},
        Instruction::SfenceVma => {},
    }
}

/// What an instruction word does depends on the address of the next
/// instruction only in what it leaves in the program counter and, for a
/// jump that links, in the link register. Executed from two states that
/// differ only in the program counter, the same word at the same address
/// gives the same result; it leaves the same state but for the program
/// counter and the register rd; the program counters are the same, or each
/// is the one that the state began with; and the registers rd are the same
/// unless the instruction is JAL or JALR.
pub proof fn lemma_effect_apart_from_next_pc(s: CpuView, pc_a: u64, pc_b: u64, addr: u64, word: u32)
    requires
        s.wf(),
    ensures
        same_apart_from_next_pc(
            s.with_pc(pc_a).retire(addr, word),
            s.with_pc(pc_b).retire(addr, word),
            pc_a,
            pc_b,
            spec_parse_type_i(word).rd,
        ),
        spec_decode(word) != Some(Instruction::Jal) && spec_decode(word) != Some(
            Instruction::Jalr,
        ) ==> s.with_pc(pc_a).retire(addr, word).0.x == s.with_pc(pc_b).retire(addr, word).0.x,
{
    let decoded = spec_decode(word);
    match decoded {
        Some(instruction) => {
            lemma_execute_apart_from_next_pc(s, pc_a, pc_b, instruction, addr, word);
        },
        None => {},
    }
}

/// Loading bytes one by one changes nothing of the translation unit but the bus.
pub proof fn lemma_load_bytes_changes_bus_only(
    m: MmuView,
    v_addr: u64,
    n: nat,
    access: MemoryAccessType,
)
    ensures
        m.load_bytes(v_addr, n, access).0 == m.with_bus(m.load_bytes(v_addr, n, access).0.bus),
    decreases n,
{
    if n > 0 {
        lemma_load_bytes_changes_bus_only(m, v_addr, (n - 1) as nat, access);
    }
}

/// Storing bytes one by one changes nothing of the translation unit but the bus.
pub proof fn lemma_store_bytes_changes_bus_only(m: MmuView, v_addr: u64, data: u64, n: nat)
    ensures
        m.store_bytes(v_addr, data, n).0 == m.with_bus(m.store_bytes(v_addr, data, n).0.bus),
    decreases n,
{
    if n > 0 {
        lemma_store_bytes_changes_bus_only(m, v_addr, data, (n - 1) as nat);
    }
}

/// A load, a store and a fetch change nothing of the translation unit but
/// the bus: the mode, the root table and the reservations stay.
pub proof fn lemma_access_changes_bus_only(m: MmuView, width: Width, v_addr: u64, data: u64)
    ensures
        m.read(width, v_addr).0 == m.with_bus(m.read(width, v_addr).0.bus),
        m.write(width, v_addr, data).0 == m.with_bus(m.write(width, v_addr, data).0.bus),
        m.fetch32(v_addr).0 == m.with_bus(m.fetch32(v_addr).0.bus),
{
    lemma_load_bytes_changes_bus_only(m, v_addr, 2, MemoryAccessType::Read);
    lemma_load_bytes_changes_bus_only(m, v_addr, 4, MemoryAccessType::Read);
    lemma_load_bytes_changes_bus_only(m, v_addr, 8, MemoryAccessType::Read);
    lemma_load_bytes_changes_bus_only(m, v_addr, 4, MemoryAccessType::Fetch);
    lemma_store_bytes_changes_bus_only(m, v_addr, (data as u16) as u64, 2);
    lemma_store_bytes_changes_bus_only(m, v_addr, (data as u32) as u64, 4);
    lemma_store_bytes_changes_bus_only(m, v_addr, data, 8);
}

/// A load-reserved that succeeds reserves the physical address that its
/// address translates to, where it still translates after the load.
pub proof fn lemma_load_reserved_reserves(s: CpuView, width: Width, word: u32, p_addr: u64)
    requires
        s.load_reserved(width, word).1 is Ok,
        s.mmu.read(width, s.reg(spec_parse_type_r(word).rs1) as u64).0.translate(
            s.mmu.effective(s.reg(spec_parse_type_r(word).rs1) as u64),
            MemoryAccessType::Read,
        ).1 == Ok::<u64, ()>(p_addr),
    ensures
        s.load_reserved(width, word).0.mmu.reserved.contains(p_addr),
{
    let addr = s.reg(spec_parse_type_r(word).rs1) as u64;
    lemma_access_changes_bus_only(s.mmu, width, addr, 0);
}

/// A reservation stays until a store-conditional to its address succeeds:
/// every other instruction, whether it ends in a trap or not, leaves a
/// reserved address reserved.
pub proof fn lemma_reservation_kept(
    s: CpuView,
    instruction: Instruction,
    addr: u64,
    word: u32,
    reserved: u64,
)
    requires
        s.mmu.reserved.contains(reserved),
    ensures
        s.execute(instruction, addr, word).0.mmu.reserved.contains(reserved)
            || (instruction is StoreConditional && s.mmu.translate(
            s.mmu.effective(s.reg(spec_parse_type_r(word).rs1) as u64),
            MemoryAccessType::Write,
        ).1 == Ok::<u64, ()>(reserved) && s.execute(instruction, addr, word).1 is Ok),
{
    let i = spec_parse_type_i(word);
    let r = spec_parse_type_r(word);
    let st = crate::cpu::cpu_instruction::spec_parse_type_s(word);
    match instruction {
        Instruction::Load { width, signed } => {
            lemma_access_changes_bus_only(
                s.mmu,
                width,
                s.reg(i.rs1).wrapping_add(i.imm) as u64,
                0,
            );
        },
        Instruction::FloatLoad { width } => {
            lemma_access_changes_bus_only(
                s.mmu,
                width,
                s.reg(i.rs1).wrapping_add(i.imm) as u64,
                0,
            );
        },
        Instruction::Store { width } => {
            lemma_access_changes_bus_only(
                s.mmu,
                width,
                s.reg(st.rs1).wrapping_add(st.imm) as u64,
                s.reg(st.rs2) as u64,
            );
        },
        Instruction::FloatStore { width } => {
            lemma_access_changes_bus_only(
                s.mmu,
                width,
                s.reg(st.rs1).wrapping_add(st.imm) as u64,
                s.f[st.rs2 as int],
            );
        },
        Instruction::LoadReserved { width } => {
            lemma_access_changes_bus_only(s.mmu, width, s.reg(r.rs1) as u64, 0);
        },
        Instruction::StoreConditional { width } => {
            let a = s.reg(r.rs1) as u64;
            let looked_up = s.mmu.with_bus(
                s.mmu.translate(s.mmu.effective(a), MemoryAccessType::Write).0,
            );
            lemma_access_changes_bus_only(looked_up, width, a, s.reg(r.rs2) as u64);
        },
        Instruction::Amo { amo, width } => {
            let a = s.reg(r.rs1) as u64;
            lemma_access_changes_bus_only(s.mmu, width, a, 0);
            let t = s.mmu.read(width, a);
            if t.1 is Ok {
                let new = if width == Width::Double {
                    crate::cpu::cpu_instruction::spec_amo_double(amo, t.1->Ok_0, s.reg(r.rs2))
                } else {
                    crate::cpu::cpu_instruction::spec_amo_word(
                        amo,
                        t.1->Ok_0 as u32,
                        s.reg(r.rs2),
                    ) as u64
                };
                lemma_access_changes_bus_only(t.0, width, a, new);
            }
        },
        _ => {},
    }
}

/// The fetch of an instruction, the taking of a trap and the machine's
/// part of a tick keep every reservation.
pub proof fn lemma_tick_keeps_reservations(
    s: CpuView,
    exception_pc: u64,
    trap_code: u8,
    trap_value: u64,
    is_interrupt: bool,
    bus: crate::bus::bus::BusView,
    irqs: Seq<bool>,
)
    ensures
        s.fetch().0.mmu.reserved == s.mmu.reserved,
        s.trapped(exception_pc, trap_code, trap_value, is_interrupt).mmu.reserved
            == s.mmu.reserved,
        s.finish(bus, irqs).mmu.reserved == s.mmu.reserved,
{
    lemma_access_changes_bus_only(s.mmu, Width::Word, s.pc, 0);
}

/// A store-conditional whose address translates to a reserved physical
/// address either stores or traps: where the store succeeds, the register
/// rs2 is in memory, the register rd is 0, and the reservation is given up;
/// where it fails, the trap is that of the store. A store-conditional whose
/// address translates to a physical address that is not reserved stores
/// nothing and leaves 1 in the register rd.
pub proof fn lemma_store_conditional(s: CpuView, width: Width, word: u32, p_addr: u64)
    requires
        s.wf(),
        s.mmu.translate(
            s.mmu.effective(s.reg(spec_parse_type_r(word).rs1) as u64),
            MemoryAccessType::Write,
        ).1 == Ok::<u64, ()>(p_addr),
    ensures
        ({
            let o = spec_parse_type_r(word);
            let addr = s.reg(o.rs1) as u64;
            let looked_up = s.mmu.with_bus(
                s.mmu.translate(s.mmu.effective(addr), MemoryAccessType::Write).0,
            );
            let stored = looked_up.write(width, addr, s.reg(o.rs2) as u64);
            let after = s.store_conditional(width, word);
            if s.mmu.reserved.contains(p_addr) {
                &&& after.1 == stored.1
                &&& after.0.mmu.bus == stored.0.bus
                &&& after.1 is Ok ==> after.0.x[o.rd as int] == 0
                    && !after.0.mmu.reserved.contains(p_addr)
            } else {
                after == (s.with_mmu(looked_up).with_x(o.rd, 1), Ok::<(), Trap>(()))
            }
        }),
{
    crate::cpu::cpu_instruction::lemma_field_bounds(word);
}

/// Without translation, in machine mode or in Bare mode, a load-reserved
/// followed by a store-conditional to the same address succeeds: whatever
/// instructions ran in between, as long as none of them was a successful
/// store-conditional to that address, the address is still reserved when
/// the store-conditional runs, and where its store succeeds it leaves 0 in
/// the register rd.
pub proof fn lemma_reserved_store_conditional_succeeds(s: CpuView, width: Width, word: u32)
    requires
        s.wf(),
        !spec_translates(s.mmu.addressing_mode, s.mmu.privilege),
        s.mmu.addressing_mode == AddressingMode::Bare || s.mmu.addressing_mode
            == AddressingMode::Sv32 || s.mmu.addressing_mode == AddressingMode::Sv39,
        s.mmu.reserved.contains(s.mmu.effective(s.reg(spec_parse_type_r(word).rs1) as u64)),
    ensures
        ({
            let o = spec_parse_type_r(word);
            let addr = s.reg(o.rs1) as u64;
            let after = s.store_conditional(width, word);
            &&& after.1 == s.mmu.write(width, addr, s.reg(o.rs2) as u64).1
            &&& after.0.mmu.bus == s.mmu.write(width, addr, s.reg(o.rs2) as u64).0.bus
            &&& after.1 is Ok ==> after.0.x[o.rd as int] == 0
        }),
{
    let addr = s.reg(spec_parse_type_r(word).rs1) as u64;
    lemma_store_conditional(s, width, word, s.mmu.effective(addr));
}

} // verus!
