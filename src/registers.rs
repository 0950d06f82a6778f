use vstd::prelude::*;

verus! {

/// The condition register: four flags held in bits 7..4 of the F byte.
#[derive(Copy, Clone, Debug, PartialEq, Eq, Structural)]
pub struct FlagReg {
    pub zero: bool,
    pub substract: bool,
    pub half_carry: bool,
    pub carry: bool,
}

/// 1 for a raised flag, 0 for a cleared one.
pub open spec fn bit(b: bool) -> int {
    if b {
        1
    } else {
        0
    }
}

/// The byte projection of the flags: zero in bit 7, subtract in bit 6,
/// half-carry in bit 5, carry in bit 4, and bits 3..0 clear.
pub open spec fn flags_byte(f: FlagReg) -> int {
    128 * bit(f.zero) + 64 * bit(f.substract) + 32 * bit(f.half_carry) + 16 * bit(f.carry)
}

/// Whether bit `n` of `v` is set.
pub open spec fn bit_set(v: int, n: int) -> bool
    recommends
        0 <= n,
{
    (v / pow2(n as nat)) % 2 == 1
}

/// 2 to the power `n`.
pub open spec fn pow2(n: nat) -> int
    decreases n,
{
    if n == 0 {
        1
    } else {
        2 * pow2((n - 1) as nat)
    }
}

/// The flags read from the byte `v`: bits 7..4, the low nibble ignored.
pub open spec fn flags_of(v: int) -> FlagReg {
    FlagReg {
        zero: (v / 128) % 2 == 1,
        substract: (v / 64) % 2 == 1,
        half_carry: (v / 32) % 2 == 1,
        carry: (v / 16) % 2 == 1,
    }
}

/// The 16-bit value of a register pair.
pub open spec fn pair(hi: u8, lo: u8) -> int {
    hi * 256 + lo
}

impl FlagReg {
    /// All four flags cleared.
    pub fn new() -> (r: FlagReg)
        ensures
            !r.zero && !r.substract && !r.half_carry && !r.carry,
    {
        FlagReg { zero: false, substract: false, half_carry: false, carry: false }
    }

    /// The flags held in the high nibble of `v`.
    pub fn from_byte(v: u8) -> (r: FlagReg)
        ensures
            r == flags_of(v as int),
    {
        FlagReg {
            zero: (v / 128) % 2 == 1,
            substract: (v / 64) % 2 == 1,
            half_carry: (v / 32) % 2 == 1,
            carry: (v / 16) % 2 == 1,
        }
    }

    /// The byte projection of the flags, with bits 3..0 clear.
    pub fn to_byte(&self) -> (r: u8)
        ensures
            r == flags_byte(*self),
    {
        let mut r: u8 = 0;
        if self.zero {
            r = r + 128;
        }
        if self.substract {
            r = r + 64;
        }
        if self.half_carry {
            r = r + 32;
        }
        if self.carry {
            r = r + 16;
        }
        r
    }
}

impl From<u8> for FlagReg {
    fn from(flag: u8) -> (r: FlagReg) {
        FlagReg::from_byte(flag)
    }
}

impl vstd::std_specs::convert::FromSpecImpl<u8> for FlagReg {
    open spec fn obeys_from_spec() -> bool {
        true
    }

    open spec fn from_spec(v: u8) -> FlagReg {
        flags_of(v as int)
    }
}

impl From<FlagReg> for u8 {
    fn from(flag: FlagReg) -> (r: u8) {
        flag.to_byte()
    }
}

impl vstd::std_specs::convert::FromSpecImpl<FlagReg> for u8 {
    open spec fn obeys_from_spec() -> bool {
        true
    }

    open spec fn from_spec(f: FlagReg) -> u8 {
        flags_byte(f) as u8
    }
}

/// The byte projection keeps the four flags in bits 7..4 and clears bits 3..0.
pub proof fn lemma_flags_byte_bits(f: FlagReg)
    ensures
        0 <= flags_byte(f) < 256,
        flags_byte(f) % 16 == 0,
        bit_set(flags_byte(f), 7) == f.zero,
        bit_set(flags_byte(f), 6) == f.substract,
        bit_set(flags_byte(f), 5) == f.half_carry,
        bit_set(flags_byte(f), 4) == f.carry,
        flags_of(flags_byte(f)) == f,
{
    reveal_with_fuel(pow2, 8);
    assert(pow2(4) == 16 && pow2(5) == 32 && pow2(6) == 64 && pow2(7) == 128);
}

/// Reading the flags out of any byte and projecting them back clears the low
/// nibble and keeps the high one: the projection has bits 3..0 clear and bits
/// 7..4 equal to the zero, subtract, half-carry and carry indicators.
pub proof fn lemma_flag_byte_round_trip(v: u8)
    ensures
        flags_byte(flags_of(v as int)) == v - v % 16,
        flags_byte(flags_of(v as int)) % 16 == 0,
        bit_set(flags_byte(flags_of(v as int)), 7) == flags_of(v as int).zero,
        bit_set(flags_byte(flags_of(v as int)), 6) == flags_of(v as int).substract,
        bit_set(flags_byte(flags_of(v as int)), 5) == flags_of(v as int).half_carry,
        bit_set(flags_byte(flags_of(v as int)), 4) == flags_of(v as int).carry,
{
    lemma_flags_byte_bits(flags_of(v as int));
}

/// The register file: seven 8-bit registers and the flags, with the pair
/// views AF, BC, DE and HL.
#[derive(Copy, Clone, Debug, PartialEq, Eq, Structural)]
pub struct Registers {
    pub a: u8,
    pub b: u8,
    pub c: u8,
    pub d: u8,
    pub e: u8,
    pub f: FlagReg,
    pub h: u8,
    pub l: u8,
}

impl Registers {
    pub open spec fn af(self) -> int {
        pair(self.a, flags_byte(self.f) as u8)
    }

    pub open spec fn bc(self) -> int {
        pair(self.b, self.c)
    }

    pub open spec fn de(self) -> int {
        pair(self.d, self.e)
    }

    pub open spec fn hl(self) -> int {
        pair(self.h, self.l)
    }

    /// All registers zero and all flags cleared.
    pub fn new() -> (r: Registers)
        ensures
            r.a == 0 && r.b == 0 && r.c == 0 && r.d == 0 && r.e == 0 && r.h == 0 && r.l == 0,
            !r.f.zero && !r.f.substract && !r.f.half_carry && !r.f.carry,
    {
        Registers { a: 0, b: 0, c: 0, d: 0, e: 0, f: FlagReg::new(), h: 0, l: 0 }
    }

    pub fn get_af(&self) -> (r: u16)
        ensures
            r == self.a * 256 + flags_byte(self.f),
    {
        proof {
            lemma_flags_byte_bits(self.f);
        }
        (self.a as u16) * 256 + self.f.to_byte() as u16
    }

    /// A takes the high byte; the flags take bits 7..4 of the low byte.
    pub fn set_af(&mut self, value: u16)
        ensures
            final(self).a == value / 256,
            final(self).f == flags_of((value % 256) as int),
            final(self).b == old(self).b && final(self).c == old(self).c,
            final(self).d == old(self).d && final(self).e == old(self).e,
            final(self).h == old(self).h && final(self).l == old(self).l,
    {
        self.a = (value / 256) as u8;
        self.f = FlagReg::from_byte((value % 256) as u8);
    }

    pub fn get_bc(&self) -> (r: u16)
        ensures
            r == self.bc(),
    {
        (self.b as u16) * 256 + self.c as u16
    }

    pub fn set_bc(&mut self, value: u16)
        ensures
            *final(self) == (Registers { b: (value / 256) as u8, c: (value % 256) as u8, ..*old(self) }),
    {
        self.b = (value / 256) as u8;
        self.c = (value % 256) as u8;
    }

    pub fn get_de(&self) -> (r: u16)
        ensures
            r == self.de(),
    {
        (self.d as u16) * 256 + self.e as u16
    }

    pub fn set_de(&mut self, value: u16)
        ensures
            *final(self) == (Registers { d: (value / 256) as u8, e: (value % 256) as u8, ..*old(self) }),
    {
        self.d = (value / 256) as u8;
        self.e = (value % 256) as u8;
    }

    pub fn get_hl(&self) -> (r: u16)
        ensures
            r == self.hl(),
    {
        (self.h as u16) * 256 + self.l as u16
    }

    pub fn set_hl(&mut self, value: u16)
        ensures
            *final(self) == (Registers { h: (value / 256) as u8, l: (value % 256) as u8, ..*old(self) }),
    {
        self.h = (value / 256) as u8;
        self.l = (value % 256) as u8;
    }
}

/// Writing AF and reading it back gives the value with its low nibble cleared.
pub proof fn lemma_af_write_read(r: Registers, v: u16)
    ensures
        (Registers { a: (v / 256) as u8, f: flags_of((v % 256) as int), ..r }).af() == v - v % 16,
{
    lemma_flag_byte_round_trip((v % 256) as u8);
}

/// Writing back the value read from AF leaves the registers as they were.
pub proof fn lemma_af_read_write(r: Registers)
    ensures
        (Registers { a: (r.af() / 256) as u8, f: flags_of(r.af() % 256), ..r }) == r,
{
    lemma_flags_byte_bits(r.f);
}

/// Writing a pair and reading it back gives the value written, and writing
/// back the value read from a pair changes nothing, for BC, DE and HL.
pub proof fn lemma_pair_round_trip(r: Registers, v: u16)
    ensures
        (Registers { b: (v / 256) as u8, c: (v % 256) as u8, ..r }).bc() == v,
        (Registers { d: (v / 256) as u8, e: (v % 256) as u8, ..r }).de() == v,
        (Registers { h: (v / 256) as u8, l: (v % 256) as u8, ..r }).hl() == v,
        (Registers { b: (r.bc() / 256) as u8, c: (r.bc() % 256) as u8, ..r }) == r,
        (Registers { d: (r.de() / 256) as u8, e: (r.de() % 256) as u8, ..r }) == r,
        (Registers { h: (r.hl() / 256) as u8, l: (r.hl() % 256) as u8, ..r }) == r,
{
}

} // verus!
