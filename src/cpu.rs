use vstd::prelude::*;

use crate::gpu::{SCREEN_HEIGHT, SCREEN_WIDTH};
use crate::interrupts::{
    any_pending, InterruptFlags, JOYPAD_VECTOR, LCDSTAT_VECTOR, SERIAL_VECTOR, TIMER_VECTOR, VBLANK_VECTOR,
};
use crate::instructions::{
    bit_index, decode_base, decode_prefixed, rst_address, ADDHLTarget, ArithmeticTarget, BitPosition, IncDecTarget, Indirect, Instruction,
    JumpTest, LoadByteSource, LoadByteTarget, LoadType, LoadWordTarget, PreFixTarget, StackTarget,
};
use crate::mem::{cell, is_ram, MemBus};
use crate::registers::{flags_of, FlagReg, Registers};

verus! {

pub open spec fn alu_add(a: u8, n: u8) -> (u8, FlagReg) {
    let sum = a + n;
    (
        (sum % 256) as u8,
        FlagReg {
            zero: sum % 256 == 0,
            substract: false,
            half_carry: a % 16 + n % 16 > 15,
            carry: sum > 255,
        },
    )
}

pub open spec fn alu_adc(a: u8, n: u8, c: bool) -> (u8, FlagReg) {
    let ci: int = if c { 1 } else { 0 };
    let sum = a + n + ci;
    (
        (sum % 256) as u8,
        FlagReg {
            zero: sum % 256 == 0,
            substract: false,
            half_carry: a % 16 + n % 16 + ci > 15,
            carry: sum > 255,
        },
    )
}

pub open spec fn alu_sub(a: u8, n: u8) -> (u8, FlagReg) {
    let diff = a - n;
    (
        ((diff + 256) % 256) as u8,
        FlagReg { zero: a == n, substract: true, half_carry: a % 16 < n % 16, carry: a < n },
    )
}

pub open spec fn alu_sbc(a: u8, n: u8, c: bool) -> (u8, FlagReg) {
    let ci: int = if c { 1 } else { 0 };
    let diff = a - n - ci;
    (
        ((diff + 512) % 256) as u8,
        FlagReg {
            zero: (diff + 512) % 256 == 0,
            substract: true,
            half_carry: a % 16 < n % 16 + ci,
            carry: a < n + ci,
        },
    )
}


pub open spec fn carry_in(c: bool) -> int {
    if c {
        1
    } else {
        0
    }
}

/// The decimal adjust of A after a BCD addition or subtraction.
pub open spec fn daa(a: u8, f: FlagReg) -> (u8, FlagReg) {
    let raised = !f.substract && (f.carry || a > 0x99);
    let r: int = if !f.substract {
        let r1: int = if raised { a + 0x60 } else { a as int };
        if f.half_carry || a % 16 > 9 {
            r1 + 6
        } else {
            r1
        }
    } else if f.carry {
        a + (if f.half_carry { 0x9Aint } else { 0xA0int })
    } else if f.half_carry {
        a + 0xFA
    } else {
        a as int
    };
    let c = raised || (f.substract && f.carry);
    ((r % 256) as u8, FlagReg { zero: r % 256 == 0, substract: f.substract, half_carry: false, carry: c })
}

/// The flags after a rotate or shift: zero from the result, carry the bit
/// shifted out.
pub open spec fn shift_flags(r: int, out: bool) -> FlagReg {
    FlagReg { zero: r == 0, substract: false, half_carry: false, carry: out }
}

pub open spec fn rlc(v: u8) -> int {
    (v * 2) % 256 + v / 128
}

pub open spec fn rrc(v: u8) -> int {
    v / 2 + (v % 2) * 128
}

pub open spec fn rl(v: u8, c: bool) -> int {
    (v * 2) % 256 + carry_in(c)
}

pub open spec fn rr(v: u8, c: bool) -> int {
    v / 2 + carry_in(c) * 128
}

pub open spec fn sla(v: u8) -> int {
    (v * 2) % 256
}

pub open spec fn sra(v: u8) -> int {
    v / 2 + (v / 128) * 128
}

pub open spec fn srl(v: u8) -> int {
    v as int / 2
}

pub open spec fn swap_nibbles(v: u8) -> int {
    (v % 16) * 16 + v / 16
}

pub open spec fn pow2_bit(b: int) -> int {
    crate::gpu::pow2_8(b)
}

/// Whether bit `b` of `v` is set.
pub open spec fn bit_is_set(v: u8, b: int) -> bool {
    (v as int / pow2_bit(b)) % 2 == 1
}

/// Whether a jump condition holds under the flags.
pub open spec fn condition_holds(t: JumpTest, f: FlagReg) -> bool {
    match t {
        JumpTest::NotZero => !f.zero,
        JumpTest::Zero => f.zero,
        JumpTest::NotCarry => !f.carry,
        JumpTest::Carry => f.carry,
        JumpTest::Always => true,
    }
}

/// An operand byte read as a signed offset.
pub open spec fn signed(b: int) -> int {
    if b < 128 {
        b
    } else {
        b - 256
    }
}

/// A 16-bit address, wrapped.
pub open spec fn wrap16(x: int) -> int {
    ((x % 65536) + 65536) % 65536
}

/// How many bytes an instruction takes, its opcode included.
pub open spec fn instr_length(i: Instruction) -> int {
    match i {
        Instruction::ADD(t) => if t == ArithmeticTarget::D8 { 2 } else { 1 },
        Instruction::ADC(t) => if t == ArithmeticTarget::D8 { 2 } else { 1 },
        Instruction::SUB(t) => if t == ArithmeticTarget::D8 { 2 } else { 1 },
        Instruction::SBC(t) => if t == ArithmeticTarget::D8 { 2 } else { 1 },
        Instruction::AND(t) => if t == ArithmeticTarget::D8 { 2 } else { 1 },
        Instruction::OR(t) => if t == ArithmeticTarget::D8 { 2 } else { 1 },
        Instruction::XOR(t) => if t == ArithmeticTarget::D8 { 2 } else { 1 },
        Instruction::CP(t) => if t == ArithmeticTarget::D8 { 2 } else { 1 },
        Instruction::ADDSP => 2,
        Instruction::BIT(_, _) => 2,
        Instruction::RES(_, _) => 2,
        Instruction::SET(_, _) => 2,
        Instruction::SRL(_) => 2,
        Instruction::RR(_) => 2,
        Instruction::RL(_) => 2,
        Instruction::RRC(_) => 2,
        Instruction::RLC(_) => 2,
        Instruction::SRA(_) => 2,
        Instruction::SLA(_) => 2,
        Instruction::SWAP(_) => 2,
        Instruction::JP(_) => 3,
        Instruction::JR(_) => 2,
        Instruction::CALL(_) => 3,
        Instruction::STOP => 2,
        Instruction::LD(lt) => match lt {
            LoadType::Byte(_, s) => if s == LoadByteSource::D8 { 2 } else { 1 },
            LoadType::Word(_) => 3,
            LoadType::AFromIndirect(x) => if x == Indirect::WordIndirect { 3 } else { 1 },
            LoadType::IndirectFromA(x) => if x == Indirect::WordIndirect { 3 } else { 1 },
            LoadType::ByteAddressFromA => 2,
            LoadType::AFromByteAddress => 2,
            LoadType::SPFromHL => 1,
            LoadType::IndirectFromSP => 3,
            LoadType::HLFromSPN => 2,
        },
        _ => 1,
    }
}

/// Whether a conditional instruction's condition holds; true for the others.
pub open spec fn branch_taken(o: CPU, i: Instruction) -> bool {
    match i {
        Instruction::JP(t) => condition_holds(t, o.registers.f),
        Instruction::JR(t) => condition_holds(t, o.registers.f),
        Instruction::CALL(t) => condition_holds(t, o.registers.f),
        Instruction::RET(t) => condition_holds(t, o.registers.f),
        _ => true,
    }
}

/// Where the program counter goes after the instruction at `o.pc`.
pub open spec fn next_pc(o: CPU, i: Instruction) -> int {
    let pc = o.pc as int;
    match i {
        Instruction::JP(_) => if branch_taken(o, i) { o.word_at(pc + 1) } else { wrap16(pc + 3) },
        Instruction::JR(_) => if branch_taken(o, i) {
            wrap16(pc + 2 + signed(o.byte_at(pc + 1)))
        } else {
            wrap16(pc + 2)
        },
        Instruction::JPI => o.registers.hl(),
        Instruction::CALL(_) => if branch_taken(o, i) { o.word_at(pc + 1) } else { wrap16(pc + 3) },
        Instruction::RET(_) => if branch_taken(o, i) { o.word_at(o.sp as int) } else { wrap16(pc + 1) },
        Instruction::RETI => o.word_at(o.sp as int),
        Instruction::RST(l) => rst_address(l),
        _ => wrap16(pc + instr_length(i)),
    }
}

/// The dots an instruction takes; a conditional one takes more when its
/// condition holds.
pub open spec fn instr_cycles(i: Instruction, taken: bool) -> int {
    match i {
        Instruction::INC(t) => if t == IncDecTarget::HLI {
            12
        } else if t == IncDecTarget::BC || t == IncDecTarget::DE || t == IncDecTarget::HL || t
            == IncDecTarget::SP {
            8
        } else {
            4
        },
        Instruction::DEC(t) => if t == IncDecTarget::HLI {
            12
        } else if t == IncDecTarget::BC || t == IncDecTarget::DE || t == IncDecTarget::HL || t
            == IncDecTarget::SP {
            8
        } else {
            4
        },
        Instruction::ADD(t) => operand_cycles(t),
        Instruction::ADC(t) => operand_cycles(t),
        Instruction::SUB(t) => operand_cycles(t),
        Instruction::SBC(t) => operand_cycles(t),
        Instruction::AND(t) => operand_cycles(t),
        Instruction::OR(t) => operand_cycles(t),
        Instruction::XOR(t) => operand_cycles(t),
        Instruction::CP(t) => operand_cycles(t),
        Instruction::ADDHL(_) => 8,
        Instruction::ADDSP => 16,
        Instruction::BIT(t, _) => if t == PreFixTarget::HLI { 12 } else { 8 },
        Instruction::RES(t, _) => prefix_cycles(t),
        Instruction::SET(t, _) => prefix_cycles(t),
        Instruction::SRL(t) => prefix_cycles(t),
        Instruction::RR(t) => prefix_cycles(t),
        Instruction::RL(t) => prefix_cycles(t),
        Instruction::RRC(t) => prefix_cycles(t),
        Instruction::RLC(t) => prefix_cycles(t),
        Instruction::SRA(t) => prefix_cycles(t),
        Instruction::SLA(t) => prefix_cycles(t),
        Instruction::SWAP(t) => prefix_cycles(t),
        Instruction::JP(t) => if t == JumpTest::Always || taken { 16 } else { 12 },
        Instruction::JR(_) => if taken { 12 } else { 8 },
        Instruction::CALL(_) => if taken { 24 } else { 12 },
        Instruction::RET(t) => if t == JumpTest::Always { 16 } else if taken { 20 } else { 8 },
        Instruction::RETI => 16,
        Instruction::RST(_) => 16,
        Instruction::PUSH(_) => 16,
        Instruction::POP(_) => 12,
        Instruction::LD(lt) => match lt {
            LoadType::Byte(t, s) => if t == LoadByteTarget::HLI && s == LoadByteSource::D8 {
                12
            } else if t == LoadByteTarget::HLI || s == LoadByteSource::HLI || s == LoadByteSource::D8 {
                8
            } else {
                4
            },
            LoadType::Word(_) => 12,
            LoadType::AFromIndirect(x) => if x == Indirect::WordIndirect { 16 } else { 8 },
            LoadType::IndirectFromA(x) => if x == Indirect::WordIndirect { 16 } else { 8 },
            LoadType::ByteAddressFromA => 12,
            LoadType::AFromByteAddress => 12,
            LoadType::SPFromHL => 8,
            LoadType::IndirectFromSP => 20,
            LoadType::HLFromSPN => 12,
        },
        _ => 4,
    }
}

pub open spec fn operand_cycles(t: ArithmeticTarget) -> int {
    if t == ArithmeticTarget::HLI || t == ArithmeticTarget::D8 {
        8
    } else {
        4
    }
}

pub open spec fn prefix_cycles(t: PreFixTarget) -> int {
    if t == PreFixTarget::HLI {
        16
    } else {
        8
    }
}

/// The operand byte of an accumulator instruction.
pub open spec fn operand(o: CPU, t: ArithmeticTarget) -> u8 {
    match t {
        ArithmeticTarget::A => o.registers.a,
        ArithmeticTarget::B => o.registers.b,
        ArithmeticTarget::C => o.registers.c,
        ArithmeticTarget::D => o.registers.d,
        ArithmeticTarget::E => o.registers.e,
        ArithmeticTarget::H => o.registers.h,
        ArithmeticTarget::L => o.registers.l,
        ArithmeticTarget::HLI => o.byte_at(o.registers.hl()) as u8,
        ArithmeticTarget::D8 => o.byte_at(o.pc + 1) as u8,
    }
}

/// The operand of an accumulator instruction.
pub open spec fn alu_target(i: Instruction) -> ArithmeticTarget {
    match i {
        Instruction::ADD(t) => t,
        Instruction::ADC(t) => t,
        Instruction::SUB(t) => t,
        Instruction::SBC(t) => t,
        Instruction::AND(t) => t,
        Instruction::OR(t) => t,
        Instruction::XOR(t) => t,
        Instruction::CP(t) => t,
        _ => ArithmeticTarget::A,
    }
}

/// The accumulator and flags after an accumulator instruction on `a` and `n`
/// with carry `c`.
pub open spec fn alu_op(i: Instruction, a: u8, n: u8, c: bool) -> (u8, FlagReg) {
    match i {
        Instruction::ADD(_) => alu_add(a, n),
        Instruction::ADC(_) => alu_adc(a, n, c),
        Instruction::SUB(_) => alu_sub(a, n),
        Instruction::SBC(_) => alu_sbc(a, n, c),
        Instruction::AND(_) => (a & n, FlagReg { zero: a & n == 0, substract: false, half_carry: true, carry: false }),
        Instruction::OR(_) => (a | n, FlagReg { zero: a | n == 0, substract: false, half_carry: false, carry: false }),
        Instruction::XOR(_) => (a ^ n, FlagReg { zero: a ^ n == 0, substract: false, half_carry: false, carry: false }),
        _ => (a, alu_sub(a, n).1),
    }
}

/// The accumulator and flags after an accumulator instruction.
pub open spec fn alu_result(o: CPU, i: Instruction) -> (u8, FlagReg) {
    alu_op(i, o.registers.a, operand(o, alu_target(i)), o.registers.f.carry)
}

pub open spec fn is_alu(i: Instruction) -> bool {
    i is ADD || i is ADC || i is SUB || i is SBC || i is AND || i is OR || i is XOR || i is CP
}

/// An instruction that does not branch goes on to the next one.
pub proof fn lemma_simple_next_pc(o: CPU, i: Instruction)
    requires
        !(i is JP || i is JR || i is JPI || i is CALL || i is RET || i is RETI || i is RST),
    ensures
        next_pc(o, i) == wrap16(o.pc + instr_length(i)),
{
}

/// The byte that a prefixed instruction acts on.
pub open spec fn prefix_read(o: CPU, t: PreFixTarget) -> u8 {
    match t {
        PreFixTarget::A => o.registers.a,
        PreFixTarget::B => o.registers.b,
        PreFixTarget::C => o.registers.c,
        PreFixTarget::D => o.registers.d,
        PreFixTarget::E => o.registers.e,
        PreFixTarget::H => o.registers.h,
        PreFixTarget::L => o.registers.l,
        PreFixTarget::HLI => o.byte_at(o.registers.hl()) as u8,
    }
}

/// The registers with the register target `t` set to `v`; unchanged for (HL).
pub open spec fn with_prefix(r: Registers, t: PreFixTarget, v: u8) -> Registers {
    match t {
        PreFixTarget::A => Registers { a: v, ..r },
        PreFixTarget::B => Registers { b: v, ..r },
        PreFixTarget::C => Registers { c: v, ..r },
        PreFixTarget::D => Registers { d: v, ..r },
        PreFixTarget::E => Registers { e: v, ..r },
        PreFixTarget::H => Registers { h: v, ..r },
        PreFixTarget::L => Registers { l: v, ..r },
        PreFixTarget::HLI => r,
    }
}

/// The target of a prefixed instruction.
pub open spec fn prefix_target_of(i: Instruction) -> PreFixTarget {
    match i {
        Instruction::BIT(t, _) => t,
        Instruction::RES(t, _) => t,
        Instruction::SET(t, _) => t,
        Instruction::SRL(t) => t,
        Instruction::RR(t) => t,
        Instruction::RL(t) => t,
        Instruction::RRC(t) => t,
        Instruction::RLC(t) => t,
        Instruction::SRA(t) => t,
        Instruction::SLA(t) => t,
        Instruction::SWAP(t) => t,
        _ => PreFixTarget::A,
    }
}

pub open spec fn is_prefixed(i: Instruction) -> bool {
    i is BIT || i is RES || i is SET || i is SRL || i is RR || i is RL || i is RRC || i is RLC || i is SRA
        || i is SLA || i is SWAP
}

/// The value and flags that a prefixed instruction leaves, from the byte `v`
/// it acts on and the flags `f` before it.
pub open spec fn prefix_result(i: Instruction, v: u8, f: FlagReg) -> (u8, FlagReg) {
    match i {
        Instruction::SRL(_) => (srl(v) as u8, shift_flags(srl(v), v % 2 == 1)),
        Instruction::RR(_) => (rr(v, f.carry) as u8, shift_flags(rr(v, f.carry), v % 2 == 1)),
        Instruction::RL(_) => (rl(v, f.carry) as u8, shift_flags(rl(v, f.carry), v >= 128)),
        Instruction::RRC(_) => (rrc(v) as u8, shift_flags(rrc(v), v % 2 == 1)),
        Instruction::RLC(_) => (rlc(v) as u8, shift_flags(rlc(v), v >= 128)),
        Instruction::SRA(_) => (sra(v) as u8, shift_flags(sra(v), v % 2 == 1)),
        Instruction::SLA(_) => (sla(v) as u8, shift_flags(sla(v), v >= 128)),
        Instruction::SWAP(_) => (swap_nibbles(v) as u8, shift_flags(swap_nibbles(v), false)),
        Instruction::BIT(_, b) => (
            v,
            FlagReg {
                zero: !bit_is_set(v, bit_index(b)),
                substract: false,
                half_carry: true,
                carry: f.carry,
            },
        ),
        Instruction::RES(_, b) => (
            (v - (if bit_is_set(v, bit_index(b)) { pow2_bit(bit_index(b)) } else { 0 })) as u8,
            f,
        ),
        Instruction::SET(_, b) => (
            (v + (if bit_is_set(v, bit_index(b)) { 0 } else { pow2_bit(bit_index(b)) })) as u8,
            f,
        ),
        _ => (v, f),
    }
}

/// The value and flags after INC or DEC of the byte `v`.
pub open spec fn incdec8(v: u8, inc: bool, f: FlagReg) -> (u8, FlagReg) {
    let r = if inc { (v + 1) % 256 } else { (v + 255) % 256 };
    (
        r as u8,
        FlagReg {
            zero: r == 0,
            substract: !inc,
            half_carry: if inc { v % 16 == 15 } else { v % 16 == 0 },
            carry: f.carry,
        },
    )
}

/// A 16-bit value plus or minus one, wrapped.
pub open spec fn step16(v: int, inc: bool) -> int {
    if inc {
        (v + 1) % 65536
    } else {
        (v + 65535) % 65536
    }
}

/// The registers after INC or DEC of `t`; SP is not a register here.
pub open spec fn incdec_registers(o: CPU, t: IncDecTarget, inc: bool) -> Registers {
    incdec_regs(o.registers, t, inc, o.byte_at(o.registers.hl()) as u8)
}

/// The registers after INC or DEC of `t`, where (HL) holds `m`.
pub open spec fn incdec_regs(r: Registers, t: IncDecTarget, inc: bool, m: u8) -> Registers {
    match t {
        IncDecTarget::A => Registers { a: incdec8(r.a, inc, r.f).0, f: incdec8(r.a, inc, r.f).1, ..r },
        IncDecTarget::B => Registers { b: incdec8(r.b, inc, r.f).0, f: incdec8(r.b, inc, r.f).1, ..r },
        IncDecTarget::C => Registers { c: incdec8(r.c, inc, r.f).0, f: incdec8(r.c, inc, r.f).1, ..r },
        IncDecTarget::D => Registers { d: incdec8(r.d, inc, r.f).0, f: incdec8(r.d, inc, r.f).1, ..r },
        IncDecTarget::E => Registers { e: incdec8(r.e, inc, r.f).0, f: incdec8(r.e, inc, r.f).1, ..r },
        IncDecTarget::H => Registers { h: incdec8(r.h, inc, r.f).0, f: incdec8(r.h, inc, r.f).1, ..r },
        IncDecTarget::L => Registers { l: incdec8(r.l, inc, r.f).0, f: incdec8(r.l, inc, r.f).1, ..r },
        IncDecTarget::HLI => Registers { f: incdec8(m, inc, r.f).1, ..r },
        IncDecTarget::BC => Registers {
            b: (step16(r.bc(), inc) / 256) as u8,
            c: (step16(r.bc(), inc) % 256) as u8,
            ..r
        },
        IncDecTarget::DE => Registers {
            d: (step16(r.de(), inc) / 256) as u8,
            e: (step16(r.de(), inc) % 256) as u8,
            ..r
        },
        IncDecTarget::HL => Registers {
            h: (step16(r.hl(), inc) / 256) as u8,
            l: (step16(r.hl(), inc) % 256) as u8,
            ..r
        },
        IncDecTarget::SP => r,
    }
}

/// The accumulator and flags after RLCA, RRCA, RLA, RRA, DAA, CPL, SCF or CCF.
pub open spec fn accumulator_result(i: Instruction, a: u8, f: FlagReg) -> (u8, FlagReg) {
    match i {
        Instruction::RLCA => (rlc(a) as u8, shift_flags(1, a >= 128)),
        Instruction::RRCA => (rrc(a) as u8, shift_flags(1, a % 2 == 1)),
        Instruction::RLA => (rl(a, f.carry) as u8, shift_flags(1, a >= 128)),
        Instruction::RRA => (rr(a, f.carry) as u8, shift_flags(1, a % 2 == 1)),
        Instruction::DAA => daa(a, f),
        Instruction::CPL => ((255 - a) as u8, FlagReg { substract: true, half_carry: true, ..f }),
        Instruction::SCF => (a, FlagReg { substract: false, half_carry: false, carry: true, ..f }),
        _ => (a, FlagReg { substract: false, half_carry: false, carry: !f.carry, ..f }),
    }
}

pub open spec fn is_accumulator_op(i: Instruction) -> bool {
    i is RLCA || i is RRCA || i is RLA || i is RRA || i is DAA || i is CPL || i is SCF || i is CCF
}

/// The byte that an 8-bit load reads.
pub open spec fn load_source_value(o: CPU, s: LoadByteSource) -> u8 {
    match s {
        LoadByteSource::A => o.registers.a,
        LoadByteSource::B => o.registers.b,
        LoadByteSource::C => o.registers.c,
        LoadByteSource::D => o.registers.d,
        LoadByteSource::E => o.registers.e,
        LoadByteSource::H => o.registers.h,
        LoadByteSource::L => o.registers.l,
        LoadByteSource::HLI => o.byte_at(o.registers.hl()) as u8,
        LoadByteSource::D8 => o.byte_at(o.pc + 1) as u8,
    }
}

/// The registers with the register target `t` of an 8-bit load set to `v`.
pub open spec fn with_load_target(r: Registers, t: LoadByteTarget, v: u8) -> Registers {
    match t {
        LoadByteTarget::A => Registers { a: v, ..r },
        LoadByteTarget::B => Registers { b: v, ..r },
        LoadByteTarget::C => Registers { c: v, ..r },
        LoadByteTarget::D => Registers { d: v, ..r },
        LoadByteTarget::E => Registers { e: v, ..r },
        LoadByteTarget::H => Registers { h: v, ..r },
        LoadByteTarget::L => Registers { l: v, ..r },
        LoadByteTarget::HLI => r,
    }
}

/// SP plus a signed offset byte, and the flags of ADD SP and LD HL,SP+r8:
/// half-carry and carry from the unsigned addition of the low nibble and byte.
pub open spec fn sp_offset(sp: u16, n: u8) -> (u16, FlagReg) {
    (
        wrap16(sp + signed(n as int)) as u16,
        FlagReg {
            zero: false,
            substract: false,
            half_carry: sp % 16 + n % 16 > 15,
            carry: sp % 256 + n > 255,
        },
    )
}

/// The registers with the pair `t` of a 16-bit load set to `w`; SP is not a
/// register here.
pub open spec fn with_word_target(r: Registers, t: LoadWordTarget, w: int) -> Registers {
    match t {
        LoadWordTarget::BC => Registers { b: (w / 256) as u8, c: (w % 256) as u8, ..r },
        LoadWordTarget::DE => Registers { d: (w / 256) as u8, e: (w % 256) as u8, ..r },
        LoadWordTarget::HL => Registers { h: (w / 256) as u8, l: (w % 256) as u8, ..r },
        LoadWordTarget::SP => r,
    }
}

/// The value of a register pair as PUSH and POP see it.
pub open spec fn stack_value(r: Registers, t: StackTarget) -> int {
    match t {
        StackTarget::AF => r.af(),
        StackTarget::BC => r.bc(),
        StackTarget::DE => r.de(),
        StackTarget::HL => r.hl(),
    }
}

/// The interrupt source served first: the lowest set bit of IE and IF.
pub open spec fn first_pending(e: InterruptFlags, f: InterruptFlags) -> int {
    if e.vblank && f.vblank {
        0
    } else if e.lcdstat && f.lcdstat {
        1
    } else if e.timer && f.timer {
        2
    } else if e.serial && f.serial {
        3
    } else {
        4
    }
}

/// Whether source `j` (0 VBlank, 1 LCDStat, 2 Timer, 3 Serial, 4 Joypad) is
/// both enabled and requested.
pub open spec fn source_pending(e: InterruptFlags, f: InterruptFlags, j: int) -> bool {
    if j == 0 {
        e.vblank && f.vblank
    } else if j == 1 {
        e.lcdstat && f.lcdstat
    } else if j == 2 {
        e.timer && f.timer
    } else if j == 3 {
        e.serial && f.serial
    } else {
        j == 4 && e.joypad && f.joypad
    }
}

/// When some enabled source is requested, the source served is requested and
/// enabled, and no source before it in the order VBlank, LCDStat, Timer,
/// Serial, Joypad is; taking it out leaves the others as they were.
pub proof fn lemma_interrupt_priority(e: InterruptFlags, f: InterruptFlags)
    requires
        any_pending(e, f),
    ensures
        0 <= first_pending(e, f) <= 4,
        source_pending(e, f, first_pending(e, f)),
        forall|j: int| 0 <= j < first_pending(e, f) ==> !source_pending(e, f, j),
        forall|j: int|
            0 <= j <= 4 && j != first_pending(e, f) ==> source_pending(e, without(f, first_pending(e, f)), j)
                == source_pending(e, f, j),
        !source_pending(e, without(f, first_pending(e, f)), first_pending(e, f)),
{
}

/// The address an interrupt source is served at.
pub open spec fn vector_of(k: int) -> int {
    0x40 + 8 * k
}

/// The set with source `k` taken out.
pub open spec fn without(f: InterruptFlags, k: int) -> InterruptFlags {
    InterruptFlags {
        vblank: f.vblank && k != 0,
        lcdstat: f.lcdstat && k != 1,
        timer: f.timer && k != 2,
        serial: f.serial && k != 3,
        joypad: f.joypad && k != 4,
    }
}

/// The instruction at the program counter, when it decodes.
pub open spec fn fetched(o: CPU) -> Option<Instruction> {
    if o.byte_at(o.pc as int) == 0xCB {
        Some(decode_prefixed(o.byte_at(o.pc + 1)))
    } else {
        decode_base(o.byte_at(o.pc as int))
    }
}

/// HL set to `v`.
pub open spec fn with_hl(r: Registers, v: int) -> Registers {
    Registers { h: (v / 256) as u8, l: (v % 256) as u8, ..r }
}

/// The address of an indirect load from the state `o`.
pub open spec fn indirect_addr(o: CPU, x: Indirect) -> int {
    match x {
        Indirect::BCIndirect => o.registers.bc(),
        Indirect::DEIndirect => o.registers.de(),
        Indirect::HLIndirectPlus => o.registers.hl(),
        Indirect::HLIndirectMinus => o.registers.hl(),
        Indirect::WordIndirect => o.word_at(o.pc + 1),
        Indirect::LastByteIndirect => 0xFF00 + o.registers.c,
    }
}

/// The registers after an indirect load moved HL on, for (HL+) and (HL-).
pub open spec fn hl_moved(r: Registers, x: Indirect) -> Registers {
    match x {
        Indirect::HLIndirectPlus => with_hl(r, step16(r.hl(), true)),
        Indirect::HLIndirectMinus => with_hl(r, step16(r.hl(), false)),
        _ => r,
    }
}

/// The registers after POP of `w` into the pair `t`; POP AF keeps bits 7..4 of F.
pub open spec fn with_stack(r: Registers, t: StackTarget, w: int) -> Registers {
    match t {
        StackTarget::AF => Registers { a: (w / 256) as u8, f: flags_of(w % 256), ..r },
        StackTarget::BC => Registers { b: (w / 256) as u8, c: (w % 256) as u8, ..r },
        StackTarget::DE => Registers { d: (w / 256) as u8, e: (w % 256) as u8, ..r },
        StackTarget::HL => with_hl(r, w),
    }
}

/// The bus `n` after `o` took a push of `value` with SP at `sp`: the high
/// byte written at SP - 1, then the low byte at SP - 2.
pub open spec fn pushed_word(o: MemBus, n: MemBus, sp: int, value: int) -> bool {
    exists|m: MemBus|
        #[trigger] m.written(&o, wrap16(sp - 1), (value / 256) as u8) && n.written(
            &m,
            wrap16(sp - 2),
            (value % 256) as u8,
        )
}

/// The value ADD HL,rr adds.
pub open spec fn addhl_value(o: CPU, t: ADDHLTarget) -> int {
    match t {
        ADDHLTarget::BC => o.registers.bc(),
        ADDHLTarget::DE => o.registers.de(),
        ADDHLTarget::HL => o.registers.hl(),
        ADDHLTarget::SP => o.sp as int,
    }
}

/// The state `n` after a load of the LD family from `o`.
pub open spec fn load_done(o: CPU, n: CPU, lt: LoadType) -> bool {
    let n8 = o.byte_at(o.pc + 1);
    let w = o.word_at(o.pc + 1);
    match lt {
        LoadType::Byte(t, s) => if t == LoadByteTarget::HLI {
            n.registers == o.registers && n.sp == o.sp && n.bus.written(&o.bus, o.registers.hl(), load_source_value(o, s))
        } else {
            n.registers == with_load_target(o.registers, t, load_source_value(o, s)) && n.sp == o.sp && n.bus == o.bus
        },
        LoadType::Word(t) => n.registers == with_word_target(o.registers, t, w) && n.sp == (if t
            == LoadWordTarget::SP {
            w
        } else {
            o.sp as int
        }) && n.bus == o.bus,
        LoadType::AFromIndirect(x) => n.registers == (Registers {
            a: o.byte_at(indirect_addr(o, x)) as u8,
            ..hl_moved(o.registers, x)
        }) && n.sp == o.sp && n.bus == o.bus,
        LoadType::IndirectFromA(x) => n.registers == hl_moved(o.registers, x) && n.sp == o.sp && n.bus.written(
            &o.bus,
            indirect_addr(o, x),
            o.registers.a,
        ),
        LoadType::ByteAddressFromA => n.registers == o.registers && n.sp == o.sp && n.bus.written(
            &o.bus,
            0xFF00 + n8,
            o.registers.a,
        ),
        LoadType::AFromByteAddress => n.registers == (Registers {
            a: o.byte_at(0xFF00 + n8) as u8,
            ..o.registers
        }) && n.sp == o.sp && n.bus == o.bus,
        LoadType::SPFromHL => n.registers == o.registers && n.sp == o.registers.hl() && n.bus == o.bus,
        LoadType::IndirectFromSP => n.registers == o.registers && n.sp == o.sp && exists|m: MemBus|
            #[trigger] m.written(&o.bus, w, (o.sp % 256) as u8) && n.bus.written(&m, wrap16(w + 1), (o.sp / 256) as u8),
        LoadType::HLFromSPN => n.registers == (Registers {
            f: sp_offset(o.sp, n8 as u8).1,
            ..with_hl(o.registers, sp_offset(o.sp, n8 as u8).0 as int)
        }) && n.sp == o.sp && n.bus == o.bus,
    }
}

/// The state `n` after INC or DEC of `t` from `o`.
pub open spec fn incdec_done(o: CPU, n: CPU, t: IncDecTarget, inc: bool) -> bool {
    &&& n.registers == incdec_registers(o, t, inc)
    &&& n.sp == (if t == IncDecTarget::SP { step16(o.sp as int, inc) } else { o.sp as int })
    &&& (t != IncDecTarget::HLI ==> n.bus == o.bus)
    &&& (t == IncDecTarget::HLI ==> n.bus.written(
        &o.bus,
        o.registers.hl(),
        incdec8(o.byte_at(o.registers.hl()) as u8, inc, o.registers.f).0,
    ))
}

/// The state `n` after a prefixed instruction from `o`.
pub open spec fn prefix_done(o: CPU, n: CPU, i: Instruction) -> bool {
    let t = prefix_target_of(i);
    let res = prefix_result(i, prefix_read(o, t), o.registers.f);
    &&& n.registers == with_prefix(Registers { f: res.1, ..o.registers }, t, res.0)
    &&& n.sp == o.sp
    &&& (t != PreFixTarget::HLI || i is BIT ==> n.bus == o.bus)
    &&& (t == PreFixTarget::HLI && !(i is BIT) ==> n.bus.written(&o.bus, o.registers.hl(), res.0))
}

/// The registers, SP and bus are those of `o`.
pub open spec fn state_kept(o: CPU, n: CPU) -> bool {
    n.registers == o.registers && n.sp == o.sp && n.bus == o.bus
}

/// The state `n` after executing `i` from `o`, the program counter not yet moved.
pub open spec fn executed(o: CPU, n: CPU, i: Instruction) -> bool {
    let pc = o.pc as int;
    let taken = branch_taken(o, i);
    &&& n.wf()
    &&& n.pc == o.pc
    &&& n.is_halted == (o.is_halted || i == Instruction::HALT)
    &&& n.interrupts_enabled == (if i == Instruction::DI {
        false
    } else if i == Instruction::EI || i == Instruction::RETI {
        true
    } else {
        o.interrupts_enabled
    })
    &&& (is_alu(i) ==> n.registers == (Registers {
        a: alu_result(o, i).0,
        f: alu_result(o, i).1,
        ..o.registers
    }) && n.sp == o.sp && n.bus == o.bus)
    &&& (is_accumulator_op(i) ==> n.registers == (Registers {
        a: accumulator_result(i, o.registers.a, o.registers.f).0,
        f: accumulator_result(i, o.registers.a, o.registers.f).1,
        ..o.registers
    }) && n.sp == o.sp && n.bus == o.bus)
    &&& (is_prefixed(i) ==> prefix_done(o, n, i))
    &&& (i matches Instruction::INC(t) ==> incdec_done(o, n, t, true))
    &&& (i matches Instruction::DEC(t) ==> incdec_done(o, n, t, false))
    &&& (i matches Instruction::ADDHL(t) ==> n.registers == (Registers {
        f: FlagReg {
            zero: o.registers.f.zero,
            substract: false,
            half_carry: o.registers.hl() % 4096 + addhl_value(o, t) % 4096 > 4095,
            carry: o.registers.hl() + addhl_value(o, t) > 65535,
        },
        ..with_hl(o.registers, (o.registers.hl() + addhl_value(o, t)) % 65536)
    }) && n.sp == o.sp && n.bus == o.bus)
    &&& (i is ADDSP ==> n.sp == sp_offset(o.sp, o.byte_at(pc + 1) as u8).0 && n.registers == (Registers {
        f: sp_offset(o.sp, o.byte_at(pc + 1) as u8).1,
        ..o.registers
    }) && n.bus == o.bus)
    &&& (i matches Instruction::LD(lt) ==> load_done(o, n, lt))
    &&& (i matches Instruction::PUSH(t) ==> n.registers == o.registers && n.sp == wrap16(o.sp - 2) && pushed_word(
        o.bus,
        n.bus,
        o.sp as int,
        stack_value(o.registers, t),
    ))
    &&& (i matches Instruction::POP(t) ==> n.registers == with_stack(o.registers, t, o.word_at(o.sp as int))
        && n.sp == wrap16(o.sp + 2) && n.bus == o.bus)
    &&& (i is CALL ==> n.registers == o.registers && (taken ==> n.sp == wrap16(o.sp - 2) && pushed_word(
        o.bus,
        n.bus,
        o.sp as int,
        wrap16(pc + 3),
    )) && (!taken ==> n.sp == o.sp && n.bus == o.bus))
    &&& (i is RET ==> n.registers == o.registers && n.bus == o.bus && n.sp == (if taken {
        wrap16(o.sp + 2)
    } else {
        o.sp as int
    }))
    &&& (i is RETI ==> n.registers == o.registers && n.bus == o.bus && n.sp == wrap16(o.sp + 2))
    &&& (i is RST ==> n.registers == o.registers && n.sp == wrap16(o.sp - 2) && pushed_word(
        o.bus,
        n.bus,
        o.sp as int,
        wrap16(pc + 1),
    ))
    &&& (i is JP || i is JR || i is JPI || i is NOP || i is STOP || i is HALT || i is DI || i is EI
        ==> state_kept(o, n))
}

/// The state `f` after serving the first requested and enabled interrupt of
/// `s`: the program counter pushed, that source's request taken out of IF,
/// the master enable cleared and the source's vector entered.
pub open spec fn served(s: CPU, f: CPU) -> bool {
    let k = first_pending(s.bus.interrupt_enable, s.bus.interrupt_flag);
    &&& f.wf()
    &&& 0 <= k <= 4
    &&& f.pc == vector_of(k)
    &&& !f.interrupts_enabled
    &&& f.sp == wrap16(s.sp - 2)
    &&& f.registers == s.registers
    &&& f.is_halted == s.is_halted
    &&& exists|m: MemBus|
        #[trigger] pushed_word(s.bus, m, s.sp as int, s.pc as int) && f.bus == (MemBus {
            interrupt_flag: without(m.interrupt_flag, k),
            ..m
        })
}

/// The end of a step from `s`: with the master enable set and an enabled
/// interrupt requested, one interrupt served and the bus advanced 20 dots;
/// otherwise nothing more.
pub open spec fn finished(s: CPU, f: CPU) -> bool {
    if s.interrupts_enabled && s.bus.pending() {
        exists|d: CPU| #[trigger] served(s, d) && f.bus.stepped_from(&d.bus, 20) && f == (CPU { bus: f.bus, ..d })
    } else {
        f == s
    }
}

/// A step from `o` that executes `i` into `m`, advances the bus into `b` by
/// the dots `i` takes, commits the next program counter, leaves the halt
/// when an enabled interrupt is requested, and ends in `f`.
pub open spec fn step_through(o: CPU, m: CPU, b: MemBus, f: CPU, i: Instruction) -> bool {
    &&& executed(o, m, i)
    &&& b.stepped_from(&m.bus, instr_cycles(i, branch_taken(o, i)))
    &&& finished(CPU { pc: next_pc(o, i) as u16, bus: b, is_halted: m.is_halted && !b.pending(), ..m }, f)
}

/// A step from the halted state `o` that idles four dots into `b` and ends in `f`.
pub open spec fn idle_through(o: CPU, b: MemBus, f: CPU) -> bool {
    &&& b.stepped_from(&o.bus, 4)
    &&& finished(CPU { bus: b, is_halted: !b.pending(), ..o }, f)
}

/// The processor: registers, program counter, stack pointer, the bus it
/// drives, and the halt and interrupt-master-enable states.
pub struct CPU {
    pub registers: Registers,
    pub pc: u16,
    pub sp: u16,
    pub bus: MemBus,
    pub is_halted: bool,
    pub interrupts_enabled: bool,
}

impl CPU {
    pub open spec fn wf(&self) -> bool {
        self.bus.wf()
    }

    /// The byte at `a`, wrapped.
    pub open spec fn byte_at(&self, a: int) -> int {
        self.bus.peek(wrap16(a))
    }

    /// The little-endian word at `a`.
    pub open spec fn word_at(&self, a: int) -> int {
        self.byte_at(a) + 256 * self.byte_at(a + 1)
    }

    /// `self` is `o` with the flags replaced by `f`.
    pub open spec fn flags_set(&self, o: &CPU, f: FlagReg) -> bool {
        &&& self.registers == (Registers { f: f, ..o.registers })
        &&& self.pc == o.pc
        &&& self.sp == o.sp
        &&& self.bus == o.bus
        &&& self.is_halted == o.is_halted
        &&& self.interrupts_enabled == o.interrupts_enabled
    }

    pub fn new(bootrombuffer: Option<Vec<u8>>, gamerombuffer: Vec<u8>) -> (r: CPU)
        requires
            bootrombuffer matches Some(b) ==> b@.len() == crate::mem::BOOT_ROM_SIZE,
            gamerombuffer@.len() >= 2 * crate::mem::ROM_BANK_SIZE,
        ensures
            r.wf(),
            r.pc == 0,
            r.sp == 0,
            r.bus.bootrom == bootrombuffer,
            forall|a: int| 0 <= a < 0x8000 && !(a <= 0xFF && bootrombuffer is Some) ==> #[trigger] r.bus.peek(a)
                == gamerombuffer@[a],
            !r.is_halted,
            r.interrupts_enabled,
    {
        CPU {
            registers: Registers::new(),
            pc: 0x0,
            sp: 0x0,
            bus: MemBus::new(bootrombuffer, gamerombuffer),
            is_halted: false,
            interrupts_enabled: true,
        }
    }

    /// A + n, setting the flags.
    fn add(&mut self, n: u8) -> (r: u8)
        ensures
            (r, final(self).registers.f) == alu_add(old(self).registers.a, n),
            final(self).flags_set(old(self), final(self).registers.f),
    {
        let a = self.registers.a;
        let sum: u16 = a as u16 + n as u16;
        let value = (sum % 256) as u8;
        self.registers.f = FlagReg {
            zero: value == 0,
            substract: false,
            half_carry: a % 16 + n % 16 > 15,
            carry: sum > 255,
        };
        value
    }

    /// A + n + carry, setting the flags.
    fn add_with_carry(&mut self, n: u8) -> (r: u8)
        ensures
            (r, final(self).registers.f) == alu_adc(old(self).registers.a, n, old(self).registers.f.carry),
            final(self).flags_set(old(self), final(self).registers.f),
    {
        let a = self.registers.a;
        let c: u16 = if self.registers.f.carry {
            1
        } else {
            0
        };
        let sum: u16 = a as u16 + n as u16 + c;
        let value = (sum % 256) as u8;
        self.registers.f = FlagReg {
            zero: value == 0,
            substract: false,
            half_carry: (a % 16) as u16 + (n % 16) as u16 + c > 15,
            carry: sum > 255,
        };
        value
    }

    /// A - n, setting the flags.
    fn sub(&mut self, n: u8) -> (r: u8)
        ensures
            (r, final(self).registers.f) == alu_sub(old(self).registers.a, n),
            final(self).flags_set(old(self), final(self).registers.f),
    {
        let a = self.registers.a;
        let value = a.wrapping_sub(n);
        self.registers.f = FlagReg {
            zero: a == n,
            substract: true,
            half_carry: a % 16 < n % 16,
            carry: a < n,
        };
        value
    }

    /// A - n - carry, setting the flags.
    fn sub_with_carry(&mut self, n: u8) -> (r: u8)
        ensures
            (r, final(self).registers.f) == alu_sbc(old(self).registers.a, n, old(self).registers.f.carry),
            final(self).flags_set(old(self), final(self).registers.f),
    {
        let a = self.registers.a;
        let c: u16 = if self.registers.f.carry {
            1
        } else {
            0
        };
        let value = ((a as u16 + 512 - n as u16 - c) % 256) as u8;
        self.registers.f = FlagReg {
            zero: value == 0,
            substract: true,
            half_carry: ((a % 16) as u16) < (n % 16) as u16 + c,
            carry: (a as u16) < n as u16 + c,
        };
        value
    }

    /// Tests bit `bit_position` of `value`: zero when it is clear.
    fn bit_test(&mut self, value: u8, bit_position: BitPosition)
        ensures
            final(self).flags_set(
                old(self),
                FlagReg {
                    zero: !bit_is_set(value, bit_index(bit_position)),
                    substract: false,
                    half_carry: true,
                    carry: old(self).registers.f.carry,
                },
            ),
    {
        let b = bit_position.index();
        let div = pow2(b);
        self.registers.f.zero = (value / div) % 2 == 0;
        self.registers.f.substract = false;
        self.registers.f.half_carry = true;
    }

    /// `value` with bit `bit_position` clear.
    fn reset_bit(&self, value: u8, bit_position: BitPosition) -> (r: u8)
        ensures
            r == value - (if bit_is_set(value, bit_index(bit_position)) {
                pow2_bit(bit_index(bit_position))
            } else {
                0
            }),
    {
        let div = pow2(bit_position.index());
        if (value / div) % 2 == 1 {
            proof {
                lemma_bit_le(value, div);
            }
            value - div
        } else {
            value
        }
    }

    /// `value` with bit `bit_position` set.
    fn set_bit(&self, value: u8, bit_position: BitPosition) -> (r: u8)
        ensures
            r == value + (if bit_is_set(value, bit_index(bit_position)) {
                0
            } else {
                pow2_bit(bit_index(bit_position))
            }),
    {
        let div = pow2(bit_position.index());
        if (value / div) % 2 == 1 {
            value
        } else {
            proof {
                lemma_bit_room(value, div);
            }
            value + div
        }
    }

    /// SRL: a logical shift right.
    fn shift_right_logical(&mut self, value: u8) -> (r: u8)
        ensures
            r == srl(value),
            final(self).flags_set(old(self), shift_flags(r as int, value % 2 == 1)),
    {
        let r = value / 2;
        self.registers.f = FlagReg { zero: r == 0, substract: false, half_carry: false, carry: value % 2 == 1 };
        r
    }

    /// RR: a rotate right through the carry.
    fn rotate_right_through_carry_set_zero(&mut self, value: u8) -> (r: u8)
        ensures
            r == rr(value, old(self).registers.f.carry),
            final(self).flags_set(old(self), shift_flags(r as int, value % 2 == 1)),
    {
        let c: u8 = if self.registers.f.carry {
            128
        } else {
            0
        };
        let r = value / 2 + c;
        self.registers.f = FlagReg { zero: r == 0, substract: false, half_carry: false, carry: value % 2 == 1 };
        r
    }

    /// RL: a rotate left through the carry.
    fn rotate_left_through_carry_set_zero(&mut self, value: u8) -> (r: u8)
        ensures
            r == rl(value, old(self).registers.f.carry),
            final(self).flags_set(old(self), shift_flags(r as int, value >= 128)),
    {
        let c: u8 = if self.registers.f.carry {
            1
        } else {
            0
        };
        let r = ((value as u16 * 2) % 256) as u8 + c;
        self.registers.f = FlagReg { zero: r == 0, substract: false, half_carry: false, carry: value >= 128 };
        r
    }

    /// RRC: a circular rotate right.
    fn rotate_right_set_zero(&mut self, value: u8) -> (r: u8)
        ensures
            r == rrc(value),
            final(self).flags_set(old(self), shift_flags(r as int, value % 2 == 1)),
    {
        let r = value / 2 + (value % 2) * 128;
        self.registers.f = FlagReg { zero: r == 0, substract: false, half_carry: false, carry: value % 2 == 1 };
        r
    }

    /// RLC: a circular rotate left.
    fn rotate_left_set_zero(&mut self, value: u8) -> (r: u8)
        ensures
            r == rlc(value),
            final(self).flags_set(old(self), shift_flags(r as int, value >= 128)),
    {
        let r = ((value as u16 * 2) % 256) as u8 + value / 128;
        self.registers.f = FlagReg { zero: r == 0, substract: false, half_carry: false, carry: value >= 128 };
        r
    }

    /// SRA: a shift right that keeps bit 7.
    fn shift_right_arithmetic(&mut self, value: u8) -> (r: u8)
        ensures
            r == sra(value),
            final(self).flags_set(old(self), shift_flags(r as int, value % 2 == 1)),
    {
        let r = value / 2 + (value / 128) * 128;
        self.registers.f = FlagReg { zero: r == 0, substract: false, half_carry: false, carry: value % 2 == 1 };
        r
    }

    /// SLA: a shift left with 0 in.
    fn shift_left_arithmetic(&mut self, value: u8) -> (r: u8)
        ensures
            r == sla(value),
            final(self).flags_set(old(self), shift_flags(r as int, value >= 128)),
    {
        let r = ((value as u16 * 2) % 256) as u8;
        self.registers.f = FlagReg { zero: r == 0, substract: false, half_carry: false, carry: value >= 128 };
        r
    }

    /// SWAP: exchanges the nibbles.
    fn swap(&mut self, value: u8) -> (r: u8)
        ensures
            r == swap_nibbles(value),
            final(self).flags_set(old(self), shift_flags(r as int, false)),
    {
        let r = (value % 16) * 16 + value / 16;
        self.registers.f = FlagReg { zero: r == 0, substract: false, half_carry: false, carry: false };
        r
    }

    /// The byte after the opcode.
    fn read_next_byte(&self) -> (r: u8)
        requires
            self.wf(),
        ensures
            r == self.byte_at(self.pc + 1),
    {
        self.bus.read_byte(self.pc.wrapping_add(1))
    }

    /// The little-endian word after the opcode.
    fn read_next_word(&self) -> (r: u16)
        requires
            self.wf(),
        ensures
            r == self.word_at(self.pc + 1),
    {
        let lo = self.bus.read_byte(self.pc.wrapping_add(1));
        let hi = self.bus.read_byte(self.pc.wrapping_add(2));
        (hi as u16) * 256 + lo as u16
    }

    /// The operand byte of an accumulator instruction.
    fn arith_operand(&self, t: ArithmeticTarget) -> (r: u8)
        requires
            self.wf(),
        ensures
            r == operand(*self, t),
    {
        match t {
            ArithmeticTarget::A => self.registers.a,
            ArithmeticTarget::B => self.registers.b,
            ArithmeticTarget::C => self.registers.c,
            ArithmeticTarget::D => self.registers.d,
            ArithmeticTarget::E => self.registers.e,
            ArithmeticTarget::H => self.registers.h,
            ArithmeticTarget::L => self.registers.l,
            ArithmeticTarget::HLI => self.bus.read_byte(self.registers.get_hl()),
            ArithmeticTarget::D8 => self.read_next_byte(),
        }
    }

    /// Pushes a word: the high byte at SP - 1, the low byte at SP - 2.
    #[verifier::spinoff_prover]
    #[verifier::rlimit(50)]
    fn push(&mut self, value: u16)
        requires
            old(self).wf(),
        ensures
            final(self).wf(),
            final(self).sp == wrap16(old(self).sp - 2),
            final(self).registers == old(self).registers,
            final(self).pc == old(self).pc,
            final(self).is_halted == old(self).is_halted,
            final(self).interrupts_enabled == old(self).interrupts_enabled,
            final(self).pushed(old(self), value),
            is_ram(wrap16(old(self).sp - 1)) && is_ram(wrap16(old(self).sp - 2)) ==> final(self).bus.io_unchanged(
                &old(self).bus,
            ),
            pushed_word(old(self).bus, final(self).bus, old(self).sp as int, value as int),
            wrap16(old(self).sp - 1) != 0xFF0F && wrap16(old(self).sp - 2) != 0xFF0F
                ==> final(self).bus.interrupt_flag == old(self).bus.interrupt_flag,
    {
        let hi_addr = self.sp.wrapping_sub(1);
        self.bus.write_byte(hi_addr, (value / 256) as u8);
        let ghost m = self.bus;
        let lo_addr = hi_addr.wrapping_sub(1);
        self.bus.write_byte(lo_addr, (value % 256) as u8);
        self.sp = lo_addr;
        assert(m.written(&old(self).bus, wrap16(old(self).sp - 1), (value / 256) as u8));
    }

    /// After a push of `value` onto the stack of `o`, when both stack bytes
    /// are RAM, they hold the value and the rest of RAM reads as before.
    pub open spec fn pushed(&self, o: &CPU, value: u16) -> bool {
        let hi_a = wrap16(o.sp - 1);
        let lo_a = wrap16(o.sp - 2);
        is_ram(hi_a) && is_ram(lo_a) ==> {
            &&& self.bus.peek(hi_a) == value / 256
            &&& self.bus.peek(lo_a) == value % 256
            &&& forall|b: int|
                is_ram(b) && cell(b) != cell(hi_a) && cell(b) != cell(lo_a) ==> #[trigger] self.bus.peek(b)
                    == o.bus.peek(b)
        }
    }

    /// Pops a word: the low byte at SP, the high byte at SP + 1.
    fn pop(&mut self) -> (r: u16)
        requires
            old(self).wf(),
        ensures
            r == old(self).word_at(old(self).sp as int),
            final(self).sp == wrap16(old(self).sp + 2),
            final(self).registers == old(self).registers,
            final(self).pc == old(self).pc,
            final(self).bus == old(self).bus,
            final(self).is_halted == old(self).is_halted,
            final(self).interrupts_enabled == old(self).interrupts_enabled,
    {
        let lsb = self.bus.read_byte(self.sp) as u16;
        self.sp = self.sp.wrapping_add(1);
        let msb = self.bus.read_byte(self.sp) as u16;
        self.sp = self.sp.wrapping_add(1);
        msb * 256 + lsb
    }

    /// JP: the target word when the condition holds, else the next instruction.
    fn jump(&self, jump: bool) -> (r: u16)
        requires
            self.wf(),
        ensures
            jump ==> r == self.word_at(self.pc + 1),
            !jump ==> r == wrap16(self.pc + 3),
    {
        if jump {
            self.read_next_word()
        } else {
            self.pc.wrapping_add(3)
        }
    }

    /// JR: the next instruction moved by the signed offset when the condition
    /// holds, else the next instruction.
    fn jump_rel(&self, should_jump: bool) -> (r: u16)
        requires
            self.wf(),
        ensures
            should_jump ==> r == wrap16(self.pc + 2 + signed(self.byte_at(self.pc + 1))),
            !should_jump ==> r == wrap16(self.pc + 2),
    {
        let next_step = self.pc.wrapping_add(2);
        if should_jump {
            let offset = self.read_next_byte();
            if offset < 128 {
                next_step.wrapping_add(offset as u16)
            } else {
                next_step.wrapping_sub(256 - offset as u16)
            }
        } else {
            next_step
        }
    }

    /// CALL: pushes the address of the next instruction and jumps when the
    /// condition holds.
    #[verifier::spinoff_prover]
    #[verifier::rlimit(50)]
    fn call(&mut self, jump: bool) -> (r: u16)
        requires
            old(self).wf(),
        ensures
            final(self).wf(),
            jump ==> r == old(self).word_at(old(self).pc + 1) && final(self).sp == wrap16(old(self).sp - 2)
                && final(self).pushed(old(self), wrap16(old(self).pc + 3) as u16) && pushed_word(
                old(self).bus,
                final(self).bus,
                old(self).sp as int,
                wrap16(old(self).pc + 3),
            ),
            !jump ==> r == wrap16(old(self).pc + 3) && *final(self) == *old(self),
            final(self).registers == old(self).registers,
            final(self).pc == old(self).pc,
            final(self).is_halted == old(self).is_halted,
            final(self).interrupts_enabled == old(self).interrupts_enabled,
    {
        let nextpc = self.pc.wrapping_add(3);
        if jump {
            let target = self.read_next_word();
            self.push(nextpc);
            target
        } else {
            nextpc
        }
    }

    /// RET: pops the return address when the condition holds.
    fn ret(&mut self, jump: bool) -> (r: u16)
        requires
            old(self).wf(),
        ensures
            jump ==> r == old(self).word_at(old(self).sp as int) && final(self).sp == wrap16(old(self).sp + 2),
            !jump ==> r == wrap16(old(self).pc + 1) && final(self).sp == old(self).sp,
            final(self).registers == old(self).registers,
            final(self).pc == old(self).pc,
            final(self).bus == old(self).bus,
            final(self).is_halted == old(self).is_halted,
            final(self).interrupts_enabled == old(self).interrupts_enabled,
    {
        if jump {
            self.pop()
        } else {
            self.pc.wrapping_add(1)
        }
    }

    /// An accumulator instruction: ADD, ADC, SUB, SBC, AND, OR, XOR or CP.
    #[verifier::spinoff_prover]
    #[verifier::rlimit(50)]
    fn execute_alu(&mut self, i: Instruction) -> (r: u16)
        requires
            old(self).wf(),
            is_alu(i),
        ensures
            final(self).registers == (Registers {
                a: alu_result(*old(self), i).0,
                f: alu_result(*old(self), i).1,
                ..old(self).registers
            }),
            final(self).pc == old(self).pc,
            final(self).sp == old(self).sp,
            final(self).bus == old(self).bus,
            final(self).is_halted == old(self).is_halted,
            final(self).interrupts_enabled == old(self).interrupts_enabled,
            r == next_pc(*old(self), i),
    {
        let t = match i {
            Instruction::ADD(t) => t,
            Instruction::ADC(t) => t,
            Instruction::SUB(t) => t,
            Instruction::SBC(t) => t,
            Instruction::AND(t) => t,
            Instruction::OR(t) => t,
            Instruction::XOR(t) => t,
            Instruction::CP(t) => t,
            _ => ArithmeticTarget::A,
        };
        let n = self.arith_operand(t);
        assert(t == alu_target(i));
        match i {
            Instruction::ADD(_) => {
                self.registers.a = self.add(n);
            },
            Instruction::ADC(_) => {
                self.registers.a = self.add_with_carry(n);
            },
            Instruction::SUB(_) => {
                self.registers.a = self.sub(n);
            },
            Instruction::SBC(_) => {
                self.registers.a = self.sub_with_carry(n);
            },
            Instruction::AND(_) => {
                let r = self.registers.a & n;
                self.registers.f = FlagReg { zero: r == 0, substract: false, half_carry: true, carry: false };
                self.registers.a = r;
            },
            Instruction::OR(_) => {
                let r = self.registers.a | n;
                self.registers.f = FlagReg { zero: r == 0, substract: false, half_carry: false, carry: false };
                self.registers.a = r;
            },
            Instruction::XOR(_) => {
                let r = self.registers.a ^ n;
                self.registers.f = FlagReg { zero: r == 0, substract: false, half_carry: false, carry: false };
                self.registers.a = r;
            },
            _ => {
                let a = self.registers.a;
                let _ = self.sub(n);
                self.registers.a = a;
            },
        }
        proof {
            lemma_simple_next_pc(*old(self), i);
        }
        match t {
            ArithmeticTarget::D8 => self.pc.wrapping_add(2),
            _ => self.pc.wrapping_add(1),
        }
    }

    /// The operation of a prefixed instruction on the byte `v`: sets the flags
    /// and returns the value to store back.
    fn prefix_op(&mut self, i: Instruction, v: u8) -> (r: u8)
        requires
            is_prefixed(i),
        ensures
            r == prefix_result(i, v, old(self).registers.f).0,
            final(self).flags_set(old(self), prefix_result(i, v, old(self).registers.f).1),
    {
        match i {
            Instruction::BIT(_, b) => {
                self.bit_test(v, b);
                v
            },
            Instruction::RES(_, b) => self.reset_bit(v, b),
            Instruction::SET(_, b) => self.set_bit(v, b),
            Instruction::SRL(_) => self.shift_right_logical(v),
            Instruction::RR(_) => self.rotate_right_through_carry_set_zero(v),
            Instruction::RL(_) => self.rotate_left_through_carry_set_zero(v),
            Instruction::RRC(_) => self.rotate_right_set_zero(v),
            Instruction::RLC(_) => self.rotate_left_set_zero(v),
            Instruction::SRA(_) => self.shift_right_arithmetic(v),
            Instruction::SLA(_) => self.shift_left_arithmetic(v),
            _ => self.swap(v),
        }
    }

    /// The byte a prefixed instruction acts on.
    fn read_prefix_target(&self, t: PreFixTarget) -> (r: u8)
        requires
            self.wf(),
        ensures
            r == prefix_read(*self, t),
    {
        match t {
            PreFixTarget::A => self.registers.a,
            PreFixTarget::B => self.registers.b,
            PreFixTarget::C => self.registers.c,
            PreFixTarget::D => self.registers.d,
            PreFixTarget::E => self.registers.e,
            PreFixTarget::H => self.registers.h,
            PreFixTarget::L => self.registers.l,
            PreFixTarget::HLI => self.bus.read_byte(self.registers.get_hl()),
        }
    }

    /// Stores the result of a prefixed instruction into its target.
    fn write_prefix_target(&mut self, t: PreFixTarget, v: u8)
        requires
            old(self).wf(),
        ensures
            final(self).wf(),
            final(self).registers == with_prefix(old(self).registers, t, v),
            t != PreFixTarget::HLI ==> final(self).bus == old(self).bus,
            t == PreFixTarget::HLI ==> final(self).bus.written(&old(self).bus, old(self).registers.hl(), v),
            final(self).pc == old(self).pc,
            final(self).sp == old(self).sp,
            final(self).is_halted == old(self).is_halted,
            final(self).interrupts_enabled == old(self).interrupts_enabled,
    {
        match t {
            PreFixTarget::A => self.registers.a = v,
            PreFixTarget::B => self.registers.b = v,
            PreFixTarget::C => self.registers.c = v,
            PreFixTarget::D => self.registers.d = v,
            PreFixTarget::E => self.registers.e = v,
            PreFixTarget::H => self.registers.h = v,
            PreFixTarget::L => self.registers.l = v,
            PreFixTarget::HLI => {
                let hl = self.registers.get_hl();
                self.bus.write_byte(hl, v);
            },
        }
    }

    /// A CB-prefixed instruction: a rotate, shift, swap, or bit test, reset or set.
    #[verifier::spinoff_prover]
    #[verifier::rlimit(50)]
    fn execute_prefix(&mut self, i: Instruction) -> (r: u16)
        requires
            old(self).wf(),
            is_prefixed(i),
        ensures
            final(self).wf(),
            r == next_pc(*old(self), i),
            prefix_done(*old(self), *final(self), i),
            final(self).pc == old(self).pc,
            final(self).sp == old(self).sp,
            final(self).is_halted == old(self).is_halted,
            final(self).interrupts_enabled == old(self).interrupts_enabled,
    {
        let t = match i {
            Instruction::BIT(t, _) => t,
            Instruction::RES(t, _) => t,
            Instruction::SET(t, _) => t,
            Instruction::SRL(t) => t,
            Instruction::RR(t) => t,
            Instruction::RL(t) => t,
            Instruction::RRC(t) => t,
            Instruction::RLC(t) => t,
            Instruction::SRA(t) => t,
            Instruction::SLA(t) => t,
            Instruction::SWAP(t) => t,
            _ => PreFixTarget::A,
        };
        assert(t == prefix_target_of(i));
        let v = self.read_prefix_target(t);
        let r = self.prefix_op(i, v);
        let is_bit = match i {
            Instruction::BIT(_, _) => true,
            _ => false,
        };
        if !is_bit {
            self.write_prefix_target(t, r);
        } else {
            assert(with_prefix(self.registers, t, r) == self.registers);
        }
        proof {
            lemma_simple_next_pc(*old(self), i);
        }
        self.pc.wrapping_add(2)
    }

    /// INC or DEC of the byte at (HL).
    #[verifier::spinoff_prover]
    #[verifier::rlimit(50)]
    fn incdec_memory(&mut self, inc: bool)
        requires
            old(self).wf(),
        ensures
            final(self).wf(),
            final(self).registers == incdec_regs(
                old(self).registers,
                IncDecTarget::HLI,
                inc,
                old(self).byte_at(old(self).registers.hl()) as u8,
            ),
            final(self).bus.written(
                &old(self).bus,
                old(self).registers.hl(),
                incdec8(old(self).byte_at(old(self).registers.hl()) as u8, inc, old(self).registers.f).0,
            ),
            final(self).sp == old(self).sp,
            final(self).pc == old(self).pc,
            final(self).is_halted == old(self).is_halted,
            final(self).interrupts_enabled == old(self).interrupts_enabled,
    {
        let hl = self.registers.get_hl();
        let m = self.bus.read_byte(hl);
        assert(wrap16(hl as int) == hl);
        let (v, f) = incdec_byte(m, inc, self.registers.f);
        self.bus.write_byte(hl, v);
        self.registers.f = f;
    }

    /// INC or DEC of a register, of the byte at (HL), or of a register pair.
    #[verifier::spinoff_prover]
    #[verifier::rlimit(50)]
    fn execute_incdec(&mut self, t: IncDecTarget, inc: bool)
        requires
            old(self).wf(),
        ensures
            final(self).wf(),
            incdec_done(*old(self), *final(self), t, inc),
            final(self).pc == old(self).pc,
            final(self).is_halted == old(self).is_halted,
            final(self).interrupts_enabled == old(self).interrupts_enabled,
    {
        match t {
            IncDecTarget::HLI => {
                self.incdec_memory(inc);
            },
            IncDecTarget::SP => {
                self.sp = step_word(self.sp, inc);
            },
            _ => {
                self.registers = incdec_register_file(self.registers, t, inc);
            },
        }
    }

    /// RLCA, RRCA, RLA, RRA, DAA, CPL, SCF or CCF.
    fn execute_accumulator(&mut self, i: Instruction)
        requires
            is_accumulator_op(i),
        ensures
            final(self).registers == (Registers {
                a: accumulator_result(i, old(self).registers.a, old(self).registers.f).0,
                f: accumulator_result(i, old(self).registers.a, old(self).registers.f).1,
                ..old(self).registers
            }),
            final(self).pc == old(self).pc,
            final(self).sp == old(self).sp,
            final(self).bus == old(self).bus,
            final(self).is_halted == old(self).is_halted,
            final(self).interrupts_enabled == old(self).interrupts_enabled,
    {
        let a = self.registers.a;
        let f = self.registers.f;
        match i {
            Instruction::RLCA => {
                self.registers.a = self.rotate_left_set_zero(a);
                self.registers.f.zero = false;
            },
            Instruction::RRCA => {
                self.registers.a = self.rotate_right_set_zero(a);
                self.registers.f.zero = false;
            },
            Instruction::RLA => {
                self.registers.a = self.rotate_left_through_carry_set_zero(a);
                self.registers.f.zero = false;
            },
            Instruction::RRA => {
                self.registers.a = self.rotate_right_through_carry_set_zero(a);
                self.registers.f.zero = false;
            },
            Instruction::DAA => {
                let (r, nf) = decimal_adjust(a, f);
                self.registers.a = r;
                self.registers.f = nf;
            },
            Instruction::CPL => {
                self.registers.a = 255 - a;
                self.registers.f.substract = true;
                self.registers.f.half_carry = true;
            },
            Instruction::SCF => {
                self.registers.f.substract = false;
                self.registers.f.half_carry = false;
                self.registers.f.carry = true;
            },
            _ => {
                self.registers.f.substract = false;
                self.registers.f.half_carry = false;
                self.registers.f.carry = !f.carry;
            },
        }
    }

    /// Whether the condition of a jump, call or return holds.
    fn condition(&self, t: JumpTest) -> (r: bool)
        ensures
            r == condition_holds(t, self.registers.f),
    {
        match t {
            JumpTest::NotZero => !self.registers.f.zero,
            JumpTest::Zero => self.registers.f.zero,
            JumpTest::NotCarry => !self.registers.f.carry,
            JumpTest::Carry => self.registers.f.carry,
            JumpTest::Always => true,
        }
    }

    /// The address of an indirect load; (HL+) and (HL-) move HL on.
    fn indirect_address(&mut self, x: Indirect) -> (r: u16)
        requires
            old(self).wf(),
        ensures
            x == Indirect::BCIndirect ==> r == old(self).registers.bc(),
            x == Indirect::DEIndirect ==> r == old(self).registers.de(),
            x == Indirect::HLIndirectPlus || x == Indirect::HLIndirectMinus ==> r == old(self).registers.hl(),
            x == Indirect::WordIndirect ==> r == old(self).word_at(old(self).pc + 1),
            x == Indirect::LastByteIndirect ==> r == 0xFF00 + old(self).registers.c,
            x == Indirect::HLIndirectPlus ==> final(self).registers.hl() == step16(old(self).registers.hl(), true),
            x == Indirect::HLIndirectMinus ==> final(self).registers.hl() == step16(old(self).registers.hl(), false),
            x != Indirect::HLIndirectPlus && x != Indirect::HLIndirectMinus ==> final(self).registers
                == old(self).registers,
            r == indirect_addr(*old(self), x),
            final(self).registers == hl_moved(old(self).registers, x),
            final(self).registers.a == old(self).registers.a,
            final(self).registers.f == old(self).registers.f,
            final(self).pc == old(self).pc,
            final(self).sp == old(self).sp,
            final(self).bus == old(self).bus,
            final(self).is_halted == old(self).is_halted,
            final(self).interrupts_enabled == old(self).interrupts_enabled,
    {
        match x {
            Indirect::BCIndirect => self.registers.get_bc(),
            Indirect::DEIndirect => self.registers.get_de(),
            Indirect::HLIndirectPlus => {
                let hl = self.registers.get_hl();
                self.registers.set_hl(hl.wrapping_add(1));
                hl
            },
            Indirect::HLIndirectMinus => {
                let hl = self.registers.get_hl();
                self.registers.set_hl(hl.wrapping_sub(1));
                hl
            },
            Indirect::WordIndirect => self.read_next_word(),
            Indirect::LastByteIndirect => 0xFF00 + self.registers.c as u16,
        }
    }

    /// An 8-bit load between registers, (HL) and an immediate byte.
    #[verifier::spinoff_prover]
    #[verifier::rlimit(50)]
    fn load_byte(&mut self, t: LoadByteTarget, s: LoadByteSource)
        requires
            old(self).wf(),
        ensures
            final(self).wf(),
            t != LoadByteTarget::HLI ==> final(self).registers == with_load_target(
                old(self).registers,
                t,
                load_source_value(*old(self), s),
            ) && final(self).bus == old(self).bus,
            t == LoadByteTarget::HLI ==> final(self).registers == old(self).registers,
            t == LoadByteTarget::HLI ==> final(self).bus.written(
                &old(self).bus,
                old(self).registers.hl(),
                load_source_value(*old(self), s),
            ),
            final(self).pc == old(self).pc,
            final(self).sp == old(self).sp,
            final(self).is_halted == old(self).is_halted,
            final(self).interrupts_enabled == old(self).interrupts_enabled,
    {
        let v = match s {
            LoadByteSource::A => self.registers.a,
            LoadByteSource::B => self.registers.b,
            LoadByteSource::C => self.registers.c,
            LoadByteSource::D => self.registers.d,
            LoadByteSource::E => self.registers.e,
            LoadByteSource::H => self.registers.h,
            LoadByteSource::L => self.registers.l,
            LoadByteSource::D8 => self.read_next_byte(),
            LoadByteSource::HLI => self.bus.read_byte(self.registers.get_hl()),
        };
        match t {
            LoadByteTarget::A => self.registers.a = v,
            LoadByteTarget::B => self.registers.b = v,
            LoadByteTarget::C => self.registers.c = v,
            LoadByteTarget::D => self.registers.d = v,
            LoadByteTarget::E => self.registers.e = v,
            LoadByteTarget::H => self.registers.h = v,
            LoadByteTarget::L => self.registers.l = v,
            LoadByteTarget::HLI => {
                let hl = self.registers.get_hl();
                self.bus.write_byte(hl, v);
            },
        }
    }

    /// LD rr,d16.
    #[verifier::spinoff_prover]
    #[verifier::rlimit(50)]
    fn load_word(&mut self, load_type: LoadType)
        requires
            old(self).wf(),
            load_type is Word,
        ensures
            final(self).wf(),
            load_done(*old(self), *final(self), load_type),
            final(self).pc == old(self).pc,
            final(self).is_halted == old(self).is_halted,
            final(self).interrupts_enabled == old(self).interrupts_enabled,
    {
        let word = self.read_next_word();
        match load_type {
            LoadType::Word(LoadWordTarget::BC) => self.registers.set_bc(word),
            LoadType::Word(LoadWordTarget::DE) => self.registers.set_de(word),
            LoadType::Word(LoadWordTarget::HL) => self.registers.set_hl(word),
            _ => self.sp = word,
        }
    }

    /// LD A,(..) through BC, DE, HL+, HL-, a16 or 0xFF00 + C.
    #[verifier::spinoff_prover]
    #[verifier::rlimit(50)]
    fn load_from_indirect(&mut self, load_type: LoadType)
        requires
            old(self).wf(),
            load_type is AFromIndirect,
        ensures
            final(self).wf(),
            load_done(*old(self), *final(self), load_type),
            final(self).pc == old(self).pc,
            final(self).is_halted == old(self).is_halted,
            final(self).interrupts_enabled == old(self).interrupts_enabled,
    {
        if let LoadType::AFromIndirect(x) = load_type {
            let address = self.indirect_address(x);
            self.registers.a = self.bus.read_byte(address);
        }
    }

    /// LD (..),A through BC, DE, HL+, HL-, a16 or 0xFF00 + C.
    #[verifier::spinoff_prover]
    #[verifier::rlimit(50)]
    fn store_to_indirect(&mut self, load_type: LoadType)
        requires
            old(self).wf(),
            load_type is IndirectFromA,
        ensures
            final(self).wf(),
            load_done(*old(self), *final(self), load_type),
            final(self).pc == old(self).pc,
            final(self).is_halted == old(self).is_halted,
            final(self).interrupts_enabled == old(self).interrupts_enabled,
    {
        if let LoadType::IndirectFromA(x) = load_type {
            let address = self.indirect_address(x);
            let a = self.registers.a;
            self.bus.write_byte(address, a);
        }
    }

    /// LDH (a8),A and LDH A,(a8), at 0xFF00 + a8.
    #[verifier::spinoff_prover]
    #[verifier::rlimit(50)]
    fn load_high(&mut self, load_type: LoadType)
        requires
            old(self).wf(),
            load_type is ByteAddressFromA || load_type is AFromByteAddress,
        ensures
            final(self).wf(),
            load_done(*old(self), *final(self), load_type),
            final(self).pc == old(self).pc,
            final(self).is_halted == old(self).is_halted,
            final(self).interrupts_enabled == old(self).interrupts_enabled,
    {
        let offset = self.read_next_byte() as u16;
        match load_type {
            LoadType::ByteAddressFromA => {
                let a = self.registers.a;
                self.bus.write_byte(0xFF00 + offset, a);
            },
            _ => {
                self.registers.a = self.bus.read_byte(0xFF00 + offset);
            },
        }
    }

    /// LD (a16),SP: the low byte of SP, then the high byte.
    #[verifier::spinoff_prover]
    #[verifier::rlimit(50)]
    fn store_sp(&mut self, load_type: LoadType)
        requires
            old(self).wf(),
            load_type is IndirectFromSP,
        ensures
            final(self).wf(),
            load_done(*old(self), *final(self), load_type),
            final(self).pc == old(self).pc,
            final(self).is_halted == old(self).is_halted,
            final(self).interrupts_enabled == old(self).interrupts_enabled,
    {
        let address = self.read_next_word();
        let sp = self.sp;
        self.bus.write_byte(address, (sp % 256) as u8);
        let ghost m = self.bus;
        self.bus.write_byte(address.wrapping_add(1), (sp / 256) as u8);
        assert(m.written(&old(self).bus, old(self).word_at(old(self).pc + 1), (old(self).sp % 256) as u8));
    }

    /// LD SP,HL and LD HL,SP+r8.
    #[verifier::spinoff_prover]
    #[verifier::rlimit(50)]
    fn load_sp_offset(&mut self, load_type: LoadType)
        requires
            old(self).wf(),
            load_type is SPFromHL || load_type is HLFromSPN,
        ensures
            final(self).wf(),
            load_done(*old(self), *final(self), load_type),
            final(self).pc == old(self).pc,
            final(self).is_halted == old(self).is_halted,
            final(self).interrupts_enabled == old(self).interrupts_enabled,
    {
        match load_type {
            LoadType::SPFromHL => {
                self.sp = self.registers.get_hl();
            },
            _ => {
                let n = self.read_next_byte();
                let (result, f) = add_signed_offset(self.sp, n);
                self.registers.set_hl(result);
                self.registers.f = f;
            },
        }
    }

    /// A load of the LD family.
    #[verifier::spinoff_prover]
    #[verifier::rlimit(50)]
    fn execute_load(&mut self, load_type: LoadType)
        requires
            old(self).wf(),
        ensures
            final(self).wf(),
            load_done(*old(self), *final(self), load_type),
            final(self).pc == old(self).pc,
            final(self).is_halted == old(self).is_halted,
            final(self).interrupts_enabled == old(self).interrupts_enabled,
    {
        match load_type {
            LoadType::Byte(t, s) => {
                self.load_byte(t, s);
            },
            LoadType::Word(_) => self.load_word(load_type),
            LoadType::AFromIndirect(_) => self.load_from_indirect(load_type),
            LoadType::IndirectFromA(_) => self.store_to_indirect(load_type),
            LoadType::ByteAddressFromA | LoadType::AFromByteAddress => self.load_high(load_type),
            LoadType::IndirectFromSP => self.store_sp(load_type),
            _ => self.load_sp_offset(load_type),
        }
    }

    /// PUSH or POP of a register pair; POP AF clears the low nibble of F.
    #[verifier::spinoff_prover]
    #[verifier::rlimit(50)]
    fn execute_stack(&mut self, i: Instruction)
        requires
            old(self).wf(),
            i is PUSH || i is POP,
        ensures
            final(self).wf(),
            i is PUSH ==> final(self).sp == wrap16(old(self).sp - 2) && final(self).registers == old(self).registers,
            i is POP ==> final(self).sp == wrap16(old(self).sp + 2) && final(self).bus == old(self).bus,
            i matches Instruction::PUSH(t) ==> final(self).pushed(old(self), stack_value(old(self).registers, t) as u16)
                && pushed_word(old(self).bus, final(self).bus, old(self).sp as int, stack_value(old(self).registers, t)),
            i matches Instruction::POP(t) ==> t != StackTarget::AF ==> stack_value(final(self).registers, t)
                == old(self).word_at(old(self).sp as int),
            i matches Instruction::POP(t) ==> final(self).registers == with_stack(
                old(self).registers,
                t,
                old(self).word_at(old(self).sp as int),
            ),
            i matches Instruction::POP(t) ==> t == StackTarget::AF ==> final(self).registers.af()
                == old(self).word_at(old(self).sp as int) - old(self).word_at(old(self).sp as int) % 16,
            final(self).pc == old(self).pc,
            final(self).is_halted == old(self).is_halted,
            final(self).interrupts_enabled == old(self).interrupts_enabled,
    {
        match i {
            Instruction::PUSH(t) => {
                let value = match t {
                    StackTarget::AF => self.registers.get_af(),
                    StackTarget::BC => self.registers.get_bc(),
                    StackTarget::DE => self.registers.get_de(),
                    StackTarget::HL => self.registers.get_hl(),
                };
                self.push(value);
            },
            Instruction::POP(t) => {
                let value = self.pop();
                match t {
                    StackTarget::AF => {
                        self.registers.set_af(value);
                        proof {
                            crate::registers::lemma_af_write_read(old(self).registers, value);
                        }
                    },
                    StackTarget::BC => self.registers.set_bc(value),
                    StackTarget::DE => self.registers.set_de(value),
                    StackTarget::HL => self.registers.set_hl(value),
                }
            },
            _ => {},
        }
    }

    /// ADD HL,rr: N clear, half-carry from bit 11, carry from bit 15, Z kept.
    fn add_hl(&mut self, value: u16)
        ensures
            final(self).registers == (Registers {
                f: FlagReg {
                    zero: old(self).registers.f.zero,
                    substract: false,
                    half_carry: old(self).registers.hl() % 4096 + value % 4096 > 4095,
                    carry: old(self).registers.hl() + value > 65535,
                },
                ..with_hl(old(self).registers, (old(self).registers.hl() + value) % 65536)
            }),
            final(self).pc == old(self).pc,
            final(self).sp == old(self).sp,
            final(self).bus == old(self).bus,
            final(self).is_halted == old(self).is_halted,
            final(self).interrupts_enabled == old(self).interrupts_enabled,
    {
        let hl = self.registers.get_hl();
        let sum: u32 = hl as u32 + value as u32;
        self.registers.f.substract = false;
        self.registers.f.half_carry = hl % 4096 + value % 4096 > 4095;
        self.registers.f.carry = sum > 65535;
        self.registers.set_hl((sum % 65536) as u16);
    }

    /// The accumulator, rotate, shift and bit instructions.
    #[verifier::spinoff_prover]
    #[verifier::rlimit(50)]
    fn execute_logic(&mut self, i: Instruction) -> (r: u16)
        requires
            old(self).wf(),
            is_alu(i) || is_prefixed(i) || is_accumulator_op(i),
        ensures
            r == next_pc(*old(self), i),
            executed(*old(self), *final(self), i),
    {
        let ghost o = *old(self);
        proof {
            lemma_simple_next_pc(o, i);
        }
        match i {
            Instruction::ADD(_) | Instruction::ADC(_) | Instruction::SUB(_) | Instruction::SBC(_)
            | Instruction::AND(_) | Instruction::OR(_) | Instruction::XOR(_) | Instruction::CP(_) => {
                self.execute_alu(i)
            },
            Instruction::RLCA | Instruction::RRCA | Instruction::RLA | Instruction::RRA | Instruction::DAA
            | Instruction::CPL | Instruction::SCF | Instruction::CCF => {
                let pc = self.pc;
                self.execute_accumulator(i);
                pc.wrapping_add(1)
            },
            _ => self.execute_prefix(i),
        }
    }

    /// INC and DEC.
    #[verifier::spinoff_prover]
    #[verifier::rlimit(50)]
    fn execute_step_by_one(&mut self, i: Instruction) -> (r: u16)
        requires
            old(self).wf(),
            i is INC || i is DEC,
        ensures
            r == next_pc(*old(self), i),
            executed(*old(self), *final(self), i),
    {
        let ghost o = *old(self);
        proof {
            lemma_simple_next_pc(o, i);
        }
        let pc = self.pc;
        match i {
            Instruction::INC(t) => self.execute_incdec(t, true),
            Instruction::DEC(t) => self.execute_incdec(t, false),
            _ => {},
        }
        pc.wrapping_add(1)
    }

    /// ADD HL,rr and ADD SP,r8.
    #[verifier::spinoff_prover]
    #[verifier::rlimit(50)]
    fn execute_add_wide(&mut self, i: Instruction) -> (r: u16)
        requires
            old(self).wf(),
            i is ADDHL || i is ADDSP,
        ensures
            r == next_pc(*old(self), i),
            executed(*old(self), *final(self), i),
    {
        let ghost o = *old(self);
        proof {
            lemma_simple_next_pc(o, i);
        }
        let pc = self.pc;
        match i {
            Instruction::ADDHL(t) => {
                let value = match t {
                    ADDHLTarget::BC => self.registers.get_bc(),
                    ADDHLTarget::DE => self.registers.get_de(),
                    ADDHLTarget::HL => self.registers.get_hl(),
                    ADDHLTarget::SP => self.sp,
                };
                assert(value == addhl_value(o, t));
                self.add_hl(value);
                pc.wrapping_add(1)
            },
            _ => {
                let n = self.read_next_byte();
                let (result, f) = add_signed_offset(self.sp, n);
                self.sp = result;
                self.registers.f = f;
                pc.wrapping_add(2)
            },
        }
    }

    /// The loads, PUSH and POP.
    #[verifier::spinoff_prover]
    #[verifier::rlimit(50)]
    fn execute_transfer(&mut self, i: Instruction) -> (r: u16)
        requires
            old(self).wf(),
            i is LD || i is PUSH || i is POP,
        ensures
            r == next_pc(*old(self), i),
            executed(*old(self), *final(self), i),
    {
        let ghost o = *old(self);
        proof {
            lemma_simple_next_pc(o, i);
        }
        let pc = self.pc;
        match i {
            Instruction::LD(load_type) => {
                self.execute_load(load_type);
                pc.wrapping_add(load_length(&load_type))
            },
            _ => {
                self.execute_stack(i);
                pc.wrapping_add(1)
            },
        }
    }

    /// The jumps, calls, returns and restarts.
    #[verifier::spinoff_prover]
    #[verifier::rlimit(50)]
    fn execute_flow(&mut self, i: Instruction, taken: bool) -> (r: u16)
        requires
            old(self).wf(),
            i is JP || i is JR || i is JPI || i is CALL || i is RET || i is RETI || i is RST,
            taken == branch_taken(*old(self), i),
        ensures
            r == next_pc(*old(self), i),
            executed(*old(self), *final(self), i),
    {
        let pc = self.pc;
        match i {
            Instruction::JP(_) => self.jump(taken),
            Instruction::JR(_) => self.jump_rel(taken),
            Instruction::JPI => self.registers.get_hl(),
            Instruction::CALL(_) => self.call(taken),
            Instruction::RET(_) => self.ret(taken),
            Instruction::RETI => {
                let target = self.ret(true);
                self.interrupts_enabled = true;
                target
            },
            Instruction::RST(location) => {
                self.push(pc.wrapping_add(1));
                location.to_hex()
            },
            _ => pc,
        }
    }

    /// HALT, DI, EI, STOP and NOP.
    #[verifier::spinoff_prover]
    #[verifier::rlimit(50)]
    fn execute_control(&mut self, i: Instruction) -> (r: u16)
        requires
            old(self).wf(),
            i is HALT || i is DI || i is EI || i is STOP || i is NOP,
        ensures
            r == next_pc(*old(self), i),
            executed(*old(self), *final(self), i),
    {
        let ghost o = *old(self);
        proof {
            lemma_simple_next_pc(o, i);
        }
        let pc = self.pc;
        match i {
            Instruction::HALT => {
                self.is_halted = true;
                pc.wrapping_add(1)
            },
            Instruction::DI => {
                self.interrupts_enabled = false;
                pc.wrapping_add(1)
            },
            Instruction::EI => {
                self.interrupts_enabled = true;
                pc.wrapping_add(1)
            },
            Instruction::STOP => pc.wrapping_add(2),
            _ => pc.wrapping_add(1),
        }
    }


    /// Executes one decoded instruction and returns where the program counter
    /// goes next and how many dots it took.
    #[verifier::spinoff_prover]
    #[verifier::rlimit(100)]
    fn execute(&mut self, instruction: Instruction) -> (r: (u16, u8))
        requires
            old(self).wf(),
        ensures
            r.0 == next_pc(*old(self), instruction),
            r.1 == instr_cycles(instruction, branch_taken(*old(self), instruction)),
            executed(*old(self), *final(self), instruction),
    {
        let taken = match instruction {
            Instruction::JP(t) => self.condition(t),
            Instruction::JR(t) => self.condition(t),
            Instruction::CALL(t) => self.condition(t),
            Instruction::RET(t) => self.condition(t),
            _ => true,
        };
        let cycles = instruction_cycles(&instruction, taken);
        let next = match instruction {
            Instruction::ADD(_) | Instruction::ADC(_) | Instruction::SUB(_) | Instruction::SBC(_)
            | Instruction::AND(_) | Instruction::OR(_) | Instruction::XOR(_) | Instruction::CP(_)
            | Instruction::BIT(_, _) | Instruction::RES(_, _) | Instruction::SET(_, _) | Instruction::SRL(_)
            | Instruction::RR(_) | Instruction::RL(_) | Instruction::RRC(_) | Instruction::RLC(_)
            | Instruction::SRA(_) | Instruction::SLA(_) | Instruction::SWAP(_) | Instruction::RLCA
            | Instruction::RRCA | Instruction::RLA | Instruction::RRA | Instruction::DAA | Instruction::CPL
            | Instruction::SCF | Instruction::CCF => self.execute_logic(instruction),
            Instruction::INC(_) | Instruction::DEC(_) => self.execute_step_by_one(instruction),
            Instruction::ADDHL(_) | Instruction::ADDSP => self.execute_add_wide(instruction),
            Instruction::LD(_) | Instruction::PUSH(_) | Instruction::POP(_) => self.execute_transfer(instruction),
            Instruction::JP(_) | Instruction::JR(_) | Instruction::JPI | Instruction::CALL(_) | Instruction::RET(_)
            | Instruction::RETI | Instruction::RST(_) => self.execute_flow(instruction, taken),
            _ => self.execute_control(instruction),
        };
        (next, cycles)
    }

    /// Serves the first requested and enabled interrupt, in the order VBlank,
    /// LCDStat, Timer, Serial, Joypad, when the master enable is set: clears
    /// the master enable and the source's request, pushes the program counter
    /// and jumps to the source's vector. Returns whether it served one.
    #[verifier::spinoff_prover]
    #[verifier::rlimit(50)]
    pub fn handle_interrupts(&mut self) -> (r: bool)
        requires
            old(self).wf(),
        ensures
            final(self).wf(),
            r == (old(self).interrupts_enabled && old(self).bus.pending()),
            !r ==> *final(self) == *old(self),
            r ==> {
                let k = first_pending(old(self).bus.interrupt_enable, old(self).bus.interrupt_flag);
                &&& 0 <= k <= 4
                &&& final(self).pc == vector_of(k)
                &&& !final(self).interrupts_enabled
                &&& final(self).sp == wrap16(old(self).sp - 2)
                &&& final(self).pushed(old(self), old(self).pc)
                &&& (wrap16(old(self).sp - 1) != 0xFF0F && wrap16(old(self).sp - 2) != 0xFF0F
                    ==> final(self).bus.interrupt_flag == without(old(self).bus.interrupt_flag, k))
                &&& final(self).registers == old(self).registers
            },
            r ==> served(*old(self), *final(self)),
    {
        if !self.interrupts_enabled || !self.bus.has_interrupt() {
            return false;
        }
        let e = self.bus.interrupt_enable;
        let f = self.bus.interrupt_flag;
        let (k, vector): (u8, u16) = if e.vblank && f.vblank {
            (0, VBLANK_VECTOR)
        } else if e.lcdstat && f.lcdstat {
            (1, LCDSTAT_VECTOR)
        } else if e.timer && f.timer {
            (2, TIMER_VECTOR)
        } else if e.serial && f.serial {
            (3, SERIAL_VECTOR)
        } else {
            (4, JOYPAD_VECTOR)
        };
        self.interrupt(vector);
        let ghost mid = self.bus;
        match k {
            0 => self.bus.interrupt_flag.vblank = false,
            1 => self.bus.interrupt_flag.lcdstat = false,
            2 => self.bus.interrupt_flag.timer = false,
            3 => self.bus.interrupt_flag.serial = false,
            _ => self.bus.interrupt_flag.joypad = false,
        }
        proof {
            assert forall|b: int| is_ram(b) implies #[trigger] self.bus.peek(b) == mid.peek(b) by {}
            assert(k as int == first_pending(e, f));
            assert(self.bus == (MemBus { interrupt_flag: without(mid.interrupt_flag, k as int), ..mid }));
            assert(pushed_word(old(self).bus, mid, old(self).sp as int, old(self).pc as int));
        }
        true
    }

    /// Enters an interrupt handler: clears the master enable, pushes the
    /// program counter and jumps to `location`.
    #[verifier::spinoff_prover]
    #[verifier::rlimit(50)]
    fn interrupt(&mut self, location: u16)
        requires
            old(self).wf(),
        ensures
            final(self).wf(),
            final(self).pc == location,
            !final(self).interrupts_enabled,
            final(self).sp == wrap16(old(self).sp - 2),
            final(self).pushed(old(self), old(self).pc),
            is_ram(wrap16(old(self).sp - 1)) && is_ram(wrap16(old(self).sp - 2)) ==> final(self).bus.io_unchanged(
                &old(self).bus,
            ),
            pushed_word(old(self).bus, final(self).bus, old(self).sp as int, old(self).pc as int),
            wrap16(old(self).sp - 1) != 0xFF0F && wrap16(old(self).sp - 2) != 0xFF0F
                ==> final(self).bus.interrupt_flag == old(self).bus.interrupt_flag,
            final(self).registers == old(self).registers,
            final(self).is_halted == old(self).is_halted,
    {
        self.interrupts_enabled = false;
        let pc = self.pc;
        self.push(pc);
        self.pc = location;
    }

    /// The instruction at the program counter, if it decodes.
    pub fn next_instruction(&self) -> (r: Option<Instruction>)
        requires
            self.wf(),
        ensures
            r == fetched(*self),
    {
        let byte = self.bus.read_byte(self.pc);
        if byte == 0xCB {
            let next = self.bus.read_byte(self.pc.wrapping_add(1));
            Instruction::from_byte(next, true)
        } else {
            Instruction::from_byte(byte, false)
        }
    }

    /// One step: executes the instruction at the program counter (or, while
    /// halted, idles four dots), advances the bus by the dots taken, leaves
    /// the halt when an enabled interrupt is requested, then serves at most
    /// one interrupt.
    pub fn step(&mut self)
        requires
            old(self).wf(),
            !old(self).is_halted ==> fetched(*old(self)) is Some,
        ensures
            final(self).wf(),
            !old(self).is_halted ==> exists|m: CPU, b: MemBus|
                #[trigger] step_through(*old(self), m, b, *final(self), fetched(*old(self))->Some_0),
            old(self).is_halted ==> exists|b: MemBus| #[trigger] idle_through(*old(self), b, *final(self)),
    {
        let ghost o = *old(self);
        let ghost mut m: CPU = o;
        if self.is_halted {
            self.bus.step(4);
        } else {
            match self.next_instruction() {
                Some(instruction) => {
                    let (next, cycles) = self.execute(instruction);
                    proof {
                        m = *self;
                    }
                    self.pc = next;
                    self.bus.step(cycles);
                },
                None => {},
            }
        }
        let ghost b = self.bus;
        if self.bus.has_interrupt() {
            self.is_halted = false;
        }
        let ghost s1 = *self;
        if self.handle_interrupts() {
            let ghost d = *self;
            self.bus.step(20);
            assert(served(s1, d));
            assert(*self == (CPU { bus: self.bus, ..d }));
        }
        proof {
            if o.is_halted {
                assert(s1 == (CPU { bus: b, is_halted: !b.pending(), ..o }));
                assert(idle_through(o, b, *self));
            } else {
                let i = fetched(o)->Some_0;
                assert(s1 == (CPU { pc: next_pc(o, i) as u16, bus: b, is_halted: m.is_halted && !b.pending(), ..m }));
                assert(step_through(o, m, b, *self, i));
            }
        }
    }

    /// The screen height in pixels.
    #[allow(non_snake_case)]
    pub fn getRESH() -> (r: usize)
        ensures
            r == 144,
    {
        SCREEN_HEIGHT
    }

    /// The screen width in pixels.
    #[allow(non_snake_case)]
    pub fn getRESW() -> (r: usize)
        ensures
            r == 160,
    {
        SCREEN_WIDTH
    }
}

/// INC or DEC of a register or register pair of the file.
fn incdec_register_file(r: Registers, t: IncDecTarget, inc: bool) -> (n: Registers)
    requires
        t != IncDecTarget::HLI && t != IncDecTarget::SP,
    ensures
        forall|m: u8| n == incdec_regs(r, t, inc, m),
{
    let mut n = r;
    match t {
        IncDecTarget::A => {
            let (v, f) = incdec_byte(r.a, inc, r.f);
            n.a = v;
            n.f = f;
        },
        IncDecTarget::B => {
            let (v, f) = incdec_byte(r.b, inc, r.f);
            n.b = v;
            n.f = f;
        },
        IncDecTarget::C => {
            let (v, f) = incdec_byte(r.c, inc, r.f);
            n.c = v;
            n.f = f;
        },
        IncDecTarget::D => {
            let (v, f) = incdec_byte(r.d, inc, r.f);
            n.d = v;
            n.f = f;
        },
        IncDecTarget::E => {
            let (v, f) = incdec_byte(r.e, inc, r.f);
            n.e = v;
            n.f = f;
        },
        IncDecTarget::H => {
            let (v, f) = incdec_byte(r.h, inc, r.f);
            n.h = v;
            n.f = f;
        },
        IncDecTarget::L => {
            let (v, f) = incdec_byte(r.l, inc, r.f);
            n.l = v;
            n.f = f;
        },
        IncDecTarget::BC => {
            n.set_bc(step_word(r.get_bc(), inc));
        },
        IncDecTarget::DE => {
            n.set_de(step_word(r.get_de(), inc));
        },
        _ => {
            n.set_hl(step_word(r.get_hl(), inc));
        },
    }
    n
}

/// How many bytes the loads take.
fn load_length(load_type: &LoadType) -> (r: u16)
    ensures
        r == instr_length(Instruction::LD(*load_type)),
{
    match load_type {
        LoadType::Byte(_, s) => match s {
            LoadByteSource::D8 => 2,
            _ => 1,
        },
        LoadType::Word(_) => 3,
        LoadType::AFromIndirect(x) => match x {
            Indirect::WordIndirect => 3,
            _ => 1,
        },
        LoadType::IndirectFromA(x) => match x {
            Indirect::WordIndirect => 3,
            _ => 1,
        },
        LoadType::ByteAddressFromA => 2,
        LoadType::AFromByteAddress => 2,
        LoadType::SPFromHL => 1,
        LoadType::IndirectFromSP => 3,
        LoadType::HLFromSPN => 2,
    }
}

/// The dots an instruction takes.
fn instruction_cycles(i: &Instruction, taken: bool) -> (r: u8)
    ensures
        r == instr_cycles(*i, taken),
{
    match i {
        Instruction::INC(t) | Instruction::DEC(t) => match t {
            IncDecTarget::HLI => 12,
            IncDecTarget::BC | IncDecTarget::DE | IncDecTarget::HL | IncDecTarget::SP => 8,
            _ => 4,
        },
        Instruction::ADD(t) | Instruction::ADC(t) | Instruction::SUB(t) | Instruction::SBC(t)
        | Instruction::AND(t) | Instruction::OR(t) | Instruction::XOR(t) | Instruction::CP(t) => match t {
            ArithmeticTarget::HLI | ArithmeticTarget::D8 => 8,
            _ => 4,
        },
        Instruction::ADDHL(_) => 8,
        Instruction::ADDSP => 16,
        Instruction::BIT(t, _) => match t {
            PreFixTarget::HLI => 12,
            _ => 8,
        },
        Instruction::RES(t, _) | Instruction::SET(t, _) | Instruction::SRL(t) | Instruction::RR(t)
        | Instruction::RL(t) | Instruction::RRC(t) | Instruction::RLC(t) | Instruction::SRA(t)
        | Instruction::SLA(t) | Instruction::SWAP(t) => match t {
            PreFixTarget::HLI => 16,
            _ => 8,
        },
        Instruction::JP(t) => match t {
            JumpTest::Always => 16,
            _ => if taken {
                16
            } else {
                12
            },
        },
        Instruction::JR(_) => if taken {
            12
        } else {
            8
        },
        Instruction::CALL(_) => if taken {
            24
        } else {
            12
        },
        Instruction::RET(t) => match t {
            JumpTest::Always => 16,
            _ => if taken {
                20
            } else {
                8
            },
        },
        Instruction::RETI | Instruction::RST(_) | Instruction::PUSH(_) => 16,
        Instruction::POP(_) => 12,
        Instruction::LD(lt) => match lt {
            LoadType::Byte(t, s) => match (t, s) {
                (LoadByteTarget::HLI, LoadByteSource::D8) => 12,
                (LoadByteTarget::HLI, _) | (_, LoadByteSource::HLI) | (_, LoadByteSource::D8) => 8,
                _ => 4,
            },
            LoadType::Word(_) => 12,
            LoadType::AFromIndirect(x) | LoadType::IndirectFromA(x) => match x {
                Indirect::WordIndirect => 16,
                _ => 8,
            },
            LoadType::ByteAddressFromA | LoadType::AFromByteAddress => 12,
            LoadType::SPFromHL => 8,
            LoadType::IndirectFromSP => 20,
            LoadType::HLFromSPN => 12,
        },
        _ => 4,
    }
}

/// SP plus a signed offset byte, with the flags of ADD SP and LD HL,SP+r8.
fn add_signed_offset(sp: u16, n: u8) -> (r: (u16, FlagReg))
    ensures
        r == sp_offset(sp, n),
{
    let result = if n < 128 {
        sp.wrapping_add(n as u16)
    } else {
        sp.wrapping_sub(256 - n as u16)
    };
    let f = FlagReg {
        zero: false,
        substract: false,
        half_carry: sp % 16 + (n % 16) as u16 > 15,
        carry: sp % 256 + n as u16 > 255,
    };
    (result, f)
}

/// INC or DEC of a byte, with the flags it leaves.
fn incdec_byte(v: u8, inc: bool, f: FlagReg) -> (r: (u8, FlagReg))
    ensures
        r == incdec8(v, inc, f),
{
    if inc {
        let r = v.wrapping_add(1);
        (r, FlagReg { zero: r == 0, substract: false, half_carry: v % 16 == 15, carry: f.carry })
    } else {
        let r = v.wrapping_sub(1);
        (r, FlagReg { zero: r == 0, substract: true, half_carry: v % 16 == 0, carry: f.carry })
    }
}

/// A word plus or minus one, wrapped.
fn step_word(v: u16, inc: bool) -> (r: u16)
    ensures
        r == step16(v as int, inc),
{
    if inc {
        v.wrapping_add(1)
    } else {
        v.wrapping_sub(1)
    }
}

/// DAA: the BCD correction of A after an addition or a subtraction.
fn decimal_adjust(a: u8, f: FlagReg) -> (r: (u8, FlagReg))
    ensures
        r == daa(a, f),
{
    let mut carry = false;
    let result: u8 = if !f.substract {
        let mut result: u16 = a as u16;
        if f.carry || a > 0x99 {
            carry = true;
            result = result + 0x60;
        }
        if f.half_carry || a % 16 > 9 {
            result = result + 0x06;
        }
        (result % 256) as u8
    } else if f.carry {
        carry = true;
        let add: u16 = if f.half_carry {
            0x9A
        } else {
            0xA0
        };
        ((a as u16 + add) % 256) as u8
    } else if f.half_carry {
        ((a as u16 + 0xFA) % 256) as u8
    } else {
        a
    };
    (result, FlagReg { zero: result == 0, substract: f.substract, half_carry: false, carry })
}

/// The ten bytes from the program counter on, for a debugging view.
pub fn get_mem(cpu: &CPU) -> (r: [u8; 10])
    requires
        cpu.wf(),
    ensures
        forall|i: int| 0 <= i < 10 ==> #[trigger] r@[i] == cpu.byte_at(cpu.pc + i),
{
    let mut data: [u8; 10] = [0; 10];
    let mut x: usize = 0;
    while x < 10
        invariant
            x <= 10,
            cpu.wf(),
            forall|i: int| 0 <= i < x ==> #[trigger] data@[i] == cpu.byte_at(cpu.pc + i),
        decreases 10 - x,
    {
        data[x] = cpu.bus.read_byte(cpu.pc.wrapping_add(x as u16));
        x = x + 1;
    }
    data
}

/// 2 to the power `b`.
fn pow2(b: u8) -> (r: u8)
    requires
        b < 8,
    ensures
        r == pow2_bit(b as int),
        r >= 1,
{
    if b == 0 {
        1
    } else if b == 1 {
        2
    } else if b == 2 {
        4
    } else if b == 3 {
        8
    } else if b == 4 {
        16
    } else if b == 5 {
        32
    } else if b == 6 {
        64
    } else {
        128
    }
}

/// A set bit is at most the byte.
proof fn lemma_bit_le(v: u8, d: u8)
    requires
        d >= 1,
        (v / d) % 2 == 1,
    ensures
        d <= v,
{
    assert(v / d >= 1);
    vstd::arithmetic::div_mod::lemma_div_is_ordered_by_denominator(v as int, 1, d as int);
    assert(v >= d) by (nonlinear_arith)
        requires
            v / d >= 1,
            d >= 1,
    ;
}

/// Setting a clear bit of a byte stays within the byte.
proof fn lemma_bit_room(v: u8, d: u8)
    requires
        d == 1 || d == 2 || d == 4 || d == 8 || d == 16 || d == 32 || d == 64 || d == 128,
        (v / d) % 2 == 0,
    ensures
        v + d < 256,
{
    assert(v + d < 256) by (bit_vector)
        requires
            d == 1 || d == 2 || d == 4 || d == 8 || d == 16 || d == 32 || d == 64 || d == 128,
            (v / d) % 2 == 0,
    ;
}

} // verus!
