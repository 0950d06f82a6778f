use vstd::prelude::*;

use crate::control::{joypad_byte, Joypad};
use crate::gpu::{
    palette_byte, requests_lcdstat, requests_vblank, zeroed, InterruptRequest, GPU, OAM_SIZE, VRAM_SIZE,
};
use crate::interrupts::{any_pending, flags_from, flags_value, InterruptFlags};

verus! {

pub const BOOT_ROM_SIZE: usize = 0x100;
pub const ROM_BANK_SIZE: usize = 0x4000;
pub const EXTERNAL_RAM_SIZE: usize = 0x2000;
pub const WORKING_RAM_SIZE: usize = 0x2000;
pub const ZERO_PAGE_SIZE: usize = 0x7F;

/// The memory bus: the boot ROM overlay, the two ROM banks, cartridge RAM,
/// work RAM, high RAM, the I/O ports and the display unit's memories.
pub struct MemBus {
    pub bootrom: Option<Vec<u8>>,
    pub rom_bank_0: Vec<u8>,
    pub rom_bank_n: Vec<u8>,
    pub external_ram: Vec<u8>,
    pub working_ram: Vec<u8>,
    pub zero_page: Vec<u8>,
    pub gpu: GPU,
    pub interrupt_enable: InterruptFlags,
    pub interrupt_flag: InterruptFlags,
    pub joypad: Joypad,
}

/// Writable memory: VRAM, cartridge RAM, work RAM and its echo, OAM, high RAM.
pub open spec fn is_ram(a: int) -> bool {
    (0x8000 <= a <= 0xFE9F) || (0xFF80 <= a <= 0xFFFE)
}

/// The storage cell behind an address: the echo region is work RAM.
pub open spec fn cell(a: int) -> int {
    if 0xE000 <= a <= 0xFDFF {
        a - 0x2000
    } else {
        a
    }
}

/// An address reads alike in two states that differ at most in the OAM
/// bytes other than the one it names.
pub proof fn lemma_peek_frame(s1: MemBus, s2: MemBus, a: int)
    requires
        s1.io_unchanged(&s2),
        s1.memories_unchanged_but_oam(&s2),
        0xFE00 <= a <= 0xFE9F ==> s1.gpu.oam@[a - 0xFE00] == s2.gpu.oam@[a - 0xFE00],
    ensures
        s1.peek(a) == s2.peek(a),
{
}

/// The ports read alike in two states whose port registers agree.
pub proof fn lemma_io_value_frame(s1: MemBus, s2: MemBus, a: int)
    requires
        s1.io_unchanged(&s2),
    ensures
        s1.io_value(a) == s2.io_value(a),
{
}

impl MemBus {
    pub open spec fn wf(&self) -> bool {
        &&& (self.bootrom matches Some(b) ==> b@.len() == BOOT_ROM_SIZE)
        &&& self.rom_bank_0@.len() == ROM_BANK_SIZE
        &&& self.rom_bank_n@.len() == ROM_BANK_SIZE
        &&& self.external_ram@.len() == EXTERNAL_RAM_SIZE
        &&& self.working_ram@.len() == WORKING_RAM_SIZE
        &&& self.zero_page@.len() == ZERO_PAGE_SIZE
        &&& self.gpu.wf()
    }

    /// What a read of an I/O port gives.
    pub open spec fn io_value(&self, a: int) -> int {
        if a == 0xFF00 {
            joypad_byte(self.joypad)
        } else if a == 0xFF0F {
            0xE0 + flags_value(self.interrupt_flag)
        } else if a == 0xFF40 {
            self.gpu.lcdc_byte()
        } else if a == 0xFF41 {
            self.gpu.stat_byte()
        } else if a == 0xFF42 {
            self.gpu.viewport_y_offset as int
        } else if a == 0xFF43 {
            self.gpu.viewport_x_offset as int
        } else if a == 0xFF44 {
            self.gpu.line as int
        } else if a == 0xFF45 {
            self.gpu.line_check as int
        } else if a == 0xFF47 {
            palette_byte(self.gpu.background_colors)
        } else if a == 0xFF48 {
            self.gpu.object_palette_byte(false)
        } else if a == 0xFF49 {
            self.gpu.object_palette_byte(true)
        } else if a == 0xFF4A {
            self.gpu.window.y as int
        } else if a == 0xFF4B {
            self.gpu.window.x as int
        } else {
            0xFF
        }
    }

    /// What a read of address `a` gives.
    pub open spec fn peek(&self, a: int) -> int {
        if a <= 0xFF && self.bootrom is Some {
            self.bootrom->Some_0@[a] as int
        } else if a <= 0x3FFF {
            self.rom_bank_0@[a] as int
        } else if a <= 0x7FFF {
            self.rom_bank_n@[a - 0x4000] as int
        } else if a <= 0x9FFF {
            self.gpu.vram@[a - 0x8000] as int
        } else if a <= 0xBFFF {
            self.external_ram@[a - 0xA000] as int
        } else if a <= 0xDFFF {
            self.working_ram@[a - 0xC000] as int
        } else if a <= 0xFDFF {
            self.working_ram@[a - 0xE000] as int
        } else if a <= 0xFE9F {
            self.gpu.oam@[a - 0xFE00] as int
        } else if a <= 0xFEFF {
            0
        } else if a <= 0xFF7F {
            self.io_value(a)
        } else if a <= 0xFFFE {
            self.zero_page@[a - 0xFF80] as int
        } else {
            flags_value(self.interrupt_enable)
        }
    }

    /// Whether an enabled interrupt is requested.
    pub open spec fn pending(&self) -> bool {
        any_pending(self.interrupt_enable, self.interrupt_flag)
    }

    /// The state behind the I/O ports and the ROM are those of `o`.
    pub open spec fn io_unchanged(&self, o: &MemBus) -> bool {
        &&& self.gpu.config_unchanged(&o.gpu)
        &&& self.gpu.line == o.gpu.line
        &&& self.gpu.mode == o.gpu.mode
        &&& self.gpu.cycles == o.gpu.cycles
        &&& self.gpu.line_equals_line_check == o.gpu.line_equals_line_check
        &&& self.interrupt_enable == o.interrupt_enable
        &&& self.interrupt_flag == o.interrupt_flag
        &&& self.joypad == o.joypad
        &&& self.bootrom == o.bootrom
        &&& self.rom_bank_0 == o.rom_bank_0
        &&& self.rom_bank_n == o.rom_bank_n
    }

    /// Every address reads as in `o`, but those of the cell of `a`, which read `v`.
    pub open spec fn peeks_written(&self, o: &MemBus, a: int, v: u8) -> bool {
        forall|b: int| 0 <= b <= 0xFFFF ==> #[trigger] self.peek(b) == (if cell(b) == cell(a) {
            v as int
        } else {
            o.peek(b)
        })
    }

    /// Builds the bus: the boot ROM, when given, overlays the first 256 bytes;
    /// the first 32 KiB of the cartridge fill banks 0 and N.
    #[verifier::spinoff_prover]
    pub fn new(bootrombuffer: Option<Vec<u8>>, gamerombuffer: Vec<u8>) -> (r: MemBus)
        requires
            bootrombuffer matches Some(b) ==> b@.len() == BOOT_ROM_SIZE,
            gamerombuffer@.len() >= 2 * ROM_BANK_SIZE,
        ensures
            r.wf(),
            r.bootrom == bootrombuffer,
            forall|a: int| 0 <= a < 0x8000 && !(a <= 0xFF && bootrombuffer is Some) ==> #[trigger] r.peek(a)
                == gamerombuffer@[a],
            forall|a: int| 0 <= a <= 0xFF && bootrombuffer is Some ==> #[trigger] r.peek(a)
                == bootrombuffer->Some_0@[a],
            forall|a: int| is_ram(a) ==> #[trigger] r.peek(a) == 0,
            flags_value(r.interrupt_enable) == 0,
            flags_value(r.interrupt_flag) == 0,
            !r.gpu.lcd_display_enabled,
    {
        let mut rom_bank_0: Vec<u8> = Vec::new();
        let mut i: usize = 0;
        while i < ROM_BANK_SIZE
            invariant
                i <= ROM_BANK_SIZE,
                gamerombuffer@.len() >= 2 * ROM_BANK_SIZE,
                rom_bank_0@ == gamerombuffer@.subrange(0, i as int),
            decreases ROM_BANK_SIZE - i,
        {
            rom_bank_0.push(gamerombuffer[i]);
            i = i + 1;
        }
        let mut rom_bank_n: Vec<u8> = Vec::new();
        let mut i: usize = 0;
        while i < ROM_BANK_SIZE
            invariant
                i <= ROM_BANK_SIZE,
                gamerombuffer@.len() >= 2 * ROM_BANK_SIZE,
                rom_bank_n@ == gamerombuffer@.subrange(ROM_BANK_SIZE as int, ROM_BANK_SIZE + i),
            decreases ROM_BANK_SIZE - i,
        {
            rom_bank_n.push(gamerombuffer[ROM_BANK_SIZE + i]);
            i = i + 1;
        }
        MemBus {
            bootrom: bootrombuffer,
            rom_bank_0,
            rom_bank_n,
            external_ram: zeroed(EXTERNAL_RAM_SIZE),
            working_ram: zeroed(WORKING_RAM_SIZE),
            zero_page: zeroed(ZERO_PAGE_SIZE),
            gpu: GPU::new(),
            interrupt_enable: InterruptFlags::new(),
            interrupt_flag: InterruptFlags::new(),
            joypad: Joypad::new(),
        }
    }

    /// `self` is the bus after `o` advanced the display unit by `c` dots: IF
    /// takes the VBlank and LCDStat requests it made, and the rest is kept.
    pub open spec fn stepped_from(&self, o: &MemBus, c: int) -> bool {
        &&& self.wf()
        &&& exists|r: InterruptRequest| #[trigger] self.gpu.stepped_from(o.gpu, c, r) && self.interrupt_flag == (
            InterruptFlags {
                vblank: o.interrupt_flag.vblank || requests_vblank(r),
                lcdstat: o.interrupt_flag.lcdstat || requests_lcdstat(r),
                ..o.interrupt_flag
            })
        &&& self.interrupt_enable == o.interrupt_enable
        &&& self.joypad == o.joypad
        &&& self.bootrom == o.bootrom
        &&& self.rom_bank_0 == o.rom_bank_0
        &&& self.rom_bank_n == o.rom_bank_n
        &&& self.external_ram == o.external_ram
        &&& self.working_ram == o.working_ram
        &&& self.zero_page == o.zero_page
    }

    /// Advances the display unit by `cycles` dots and latches the interrupts
    /// it asks for into IF.
    pub fn step(&mut self, cycles: u8)
        requires
            old(self).wf(),
        ensures
            final(self).stepped_from(old(self), cycles as int),
    {
        let request = self.gpu.step(cycles);
        match request {
            InterruptRequest::VBlank => {
                self.interrupt_flag.vblank = true;
            },
            InterruptRequest::LCDStat => {
                self.interrupt_flag.lcdstat = true;
            },
            InterruptRequest::Both => {
                self.interrupt_flag.vblank = true;
                self.interrupt_flag.lcdstat = true;
            },
            InterruptRequest::NoInterrupt => {},
        }
        assert(self.gpu.stepped_from(old(self).gpu, cycles as int, request));
    }

    /// Whether an enabled interrupt is requested.
    pub fn has_interrupt(&self) -> (r: bool)
        ensures
            r == self.pending(),
    {
        let e = self.interrupt_enable;
        let f = self.interrupt_flag;
        (e.vblank && f.vblank) || (e.lcdstat && f.lcdstat) || (e.timer && f.timer) || (e.serial && f.serial)
            || (e.joypad && f.joypad)
    }

    /// Reads the byte at `addr`.
    #[verifier::spinoff_prover]
    pub fn read_byte(&self, addr: u16) -> (r: u8)
        requires
            self.wf(),
        ensures
            r == self.peek(addr as int),
    {
        let a = addr as usize;
        if a <= 0xFF && self.bootrom.is_some() {
            match &self.bootrom {
                Some(b) => b[a],
                None => 0,
            }
        } else if a <= 0x3FFF {
            self.rom_bank_0[a]
        } else if a <= 0x7FFF {
            self.rom_bank_n[a - 0x4000]
        } else if a <= 0x9FFF {
            self.gpu.read_vram(a - 0x8000)
        } else if a <= 0xBFFF {
            self.external_ram[a - 0xA000]
        } else if a <= 0xDFFF {
            self.working_ram[a - 0xC000]
        } else if a <= 0xFDFF {
            self.working_ram[a - 0xE000]
        } else if a <= 0xFE9F {
            self.gpu.oam[a - 0xFE00]
        } else if a <= 0xFEFF {
            0
        } else if a <= 0xFF7F {
            self.read_io_register(a)
        } else if a <= 0xFFFE {
            self.zero_page[a - 0xFF80]
        } else {
            self.interrupt_enable.to_byte()
        }
    }

    fn read_io_register(&self, address: usize) -> (r: u8)
        requires
            self.wf(),
            0xFF00 <= address <= 0xFF7F,
        ensures
            r == self.io_value(address as int),
    {
        if address == 0xFF00 {
            self.joypad.read()
        } else if address == 0xFF0F {
            0xE0 + self.interrupt_flag.to_byte()
        } else if address == 0xFF40 {
            self.gpu.read_lcdc()
        } else if address == 0xFF41 {
            self.gpu.read_stat()
        } else if address == 0xFF42 {
            self.gpu.viewport_y_offset
        } else if address == 0xFF43 {
            self.gpu.viewport_x_offset
        } else if address == 0xFF44 {
            self.gpu.line
        } else if address == 0xFF45 {
            self.gpu.line_check
        } else if address == 0xFF47 {
            self.gpu.background_colors.to_byte()
        } else if address == 0xFF48 {
            self.gpu.read_object_palette(false)
        } else if address == 0xFF49 {
            self.gpu.read_object_palette(true)
        } else if address == 0xFF4A {
            self.gpu.window.y
        } else if address == 0xFF4B {
            self.gpu.window.x
        } else {
            0xFF
        }
    }

    /// The memories other than OAM are those of `o`.
    pub open spec fn memories_unchanged_but_oam(&self, o: &MemBus) -> bool {
        &&& self.gpu.vram == o.gpu.vram
        &&& self.gpu.canvas_buffer == o.gpu.canvas_buffer
        &&& self.external_ram == o.external_ram
        &&& self.working_ram == o.working_ram
        &&& self.zero_page == o.zero_page
    }

    /// Copies the 160 bytes from `v * 256` on into OAM.
    #[verifier::spinoff_prover]
    fn dma_transfer(&mut self, v: u8)
        requires
            old(self).wf(),
        ensures
            final(self).wf(),
            forall|i: int| 0 <= i < OAM_SIZE ==> #[trigger] final(self).gpu.oam@[i] == old(self).peek(v * 256 + i),
            final(self).io_unchanged(old(self)),
            final(self).memories_unchanged_but_oam(old(self)),
    {
        let src: u16 = (v as u16) * 256;
        let mut i: usize = 0;
        while i < OAM_SIZE
            invariant
                i <= OAM_SIZE,
                src == v * 256,
                self.wf(),
                forall|j: int| 0 <= j < i ==> #[trigger] self.gpu.oam@[j] == old(self).peek(v * 256 + j),
                forall|j: int| i <= j < OAM_SIZE ==> #[trigger] self.gpu.oam@[j] == old(self).gpu.oam@[j],
                self.io_unchanged(old(self)),
                self.memories_unchanged_but_oam(old(self)),
            decreases OAM_SIZE - i,
        {
            let b = self.read_byte(src + i as u16);
            proof {
                let a = v * 256 + i;
                if 0xFE00 <= a <= 0xFE9F {
                    assert(a - 0xFE00 == i);
                }
                lemma_peek_frame(*self, *old(self), a);
            }
            self.gpu.write_oam(i, b);
            i = i + 1;
        }
    }

    /// Writes an I/O port or IE.
    #[verifier::spinoff_prover]
    fn write_io_register(&mut self, address: usize, value: u8)
        requires
            old(self).wf(),
            0xFF00 <= address <= 0xFF7F || address == 0xFFFF,
        ensures
            final(self).wf(),
            address != 0xFF46 ==> final(self).gpu.oam == old(self).gpu.oam,
            final(self).memories_unchanged_but_oam(old(self)),
            final(self).io_written(old(self), address as int, value),
    {
        if 0xFF40 <= address && address <= 0xFF4B && address != 0xFF46 {
            self.gpu.write_register(address, value);
        } else if address == 0xFF46 {
            self.dma_transfer(value);
        } else if address == 0xFF00 {
            self.joypad.write(value);
        } else if address == 0xFF0F {
            self.interrupt_flag = InterruptFlags::from_byte(value);
        } else if address == 0xFF50 {
            self.bootrom = None;
        } else if address == 0xFFFF {
            self.interrupt_enable = InterruptFlags::from_byte(value);
        }
    }

    /// What a write of `v` to the port `a` did, from the state `o`: the
    /// register behind the port took the value, and the rest stayed.
    pub open spec fn io_written(&self, o: &MemBus, a: int, v: u8) -> bool {
        &&& (a == 0xFF00 ==> self.joypad.buttons_selected == ((v / 32) % 2 == 0)
            && self.joypad.directions_selected == ((v / 16) % 2 == 0)
            && self.joypad.buttons == o.joypad.buttons && self.joypad.directions == o.joypad.directions)
        &&& (a != 0xFF00 ==> self.joypad == o.joypad)
        &&& (a == 0xFF0F ==> self.interrupt_flag == flags_from(v as int))
        &&& (a != 0xFF0F ==> self.interrupt_flag == o.interrupt_flag)
        &&& (a == 0xFFFF ==> self.interrupt_enable == flags_from(v as int))
        &&& (a != 0xFFFF ==> self.interrupt_enable == o.interrupt_enable)
        &&& (a == 0xFF50 ==> self.bootrom is None)
        &&& (a != 0xFF50 ==> self.bootrom == o.bootrom)
        &&& self.rom_bank_0 == o.rom_bank_0
        &&& self.rom_bank_n == o.rom_bank_n
        &&& (a == 0xFF46 ==> forall|i: int| 0 <= i < OAM_SIZE ==> #[trigger] self.gpu.oam@[i] == o.peek(v * 256 + i))
        &&& (a == 0xFF46 ==> self.gpu.config_unchanged(&o.gpu) && self.gpu.line == o.gpu.line
            && self.gpu.mode == o.gpu.mode && self.gpu.cycles == o.gpu.cycles
            && self.gpu.line_equals_line_check == o.gpu.line_equals_line_check)
        &&& (a != 0xFF46 ==> self.gpu.register_written(&o.gpu, a, v))
    }

    /// `self` is the bus after `o` took a write of `v` to `a`: RAM takes it,
    /// ROM and the unused region ignore it, a port or IE acts on it; IF
    /// changes only through its own port.
    pub open spec fn written(&self, o: &MemBus, a: int, v: u8) -> bool {
        &&& self.wf()
        &&& (is_ram(a) ==> self.peeks_written(o, a, v) && self.io_unchanged(o))
        &&& ((a <= 0x7FFF || 0xFEA0 <= a <= 0xFEFF) ==> *self == *o)
        &&& ((0xFF00 <= a <= 0xFF7F || a == 0xFFFF) ==> self.io_written(o, a, v)
            && self.memories_unchanged_but_oam(o))
        &&& ((0xFF00 <= a <= 0xFF7F || a == 0xFFFF) && a != 0xFF46 ==> self.gpu.oam == o.gpu.oam)
        &&& (a != 0xFF0F ==> self.interrupt_flag == o.interrupt_flag)
    }

    /// Writes `val` to `addr`: RAM takes it, ROM and the unused region ignore
    /// it, and a port or IE acts on it.
    #[verifier::spinoff_prover]
    pub fn write_byte(&mut self, addr: u16, val: u8)
        requires
            old(self).wf(),
        ensures
            final(self).written(old(self), addr as int, val),
    {
        let a = addr as usize;
        if a <= 0x7FFF {
        } else if a <= 0x9FFF {
            self.gpu.write_vram(a - 0x8000, val);
            proof {
                self.lemma_ram_write(*old(self), a as int, val);
            }
        } else if a <= 0xBFFF {
            self.external_ram.set(a - 0xA000, val);
            proof {
                self.lemma_ram_write(*old(self), a as int, val);
            }
        } else if a <= 0xDFFF {
            self.working_ram.set(a - 0xC000, val);
            proof {
                self.lemma_ram_write(*old(self), a as int, val);
            }
        } else if a <= 0xFDFF {
            self.working_ram.set(a - 0xE000, val);
            proof {
                self.lemma_ram_write(*old(self), a as int, val);
            }
        } else if a <= 0xFE9F {
            self.gpu.write_oam(a - 0xFE00, val);
            proof {
                self.lemma_ram_write(*old(self), a as int, val);
            }
        } else if a <= 0xFEFF {
        } else if a <= 0xFF7F {
            self.write_io_register(a, val);
        } else if a <= 0xFFFE {
            self.zero_page.set(a - 0xFF80, val);
            proof {
                self.lemma_ram_write(*old(self), a as int, val);
            }
        } else {
            self.write_io_register(a, val);
        }
    }

    /// After a store of `v` into the storage cell of the RAM address `a`, and
    /// nowhere else, every address reads as before but those of that cell.
    #[verifier::spinoff_prover]
    #[verifier::rlimit(100)]
    proof fn lemma_ram_write(&self, o: MemBus, a: int, v: u8)
        requires
            is_ram(a),
            o.gpu.vram@.len() == VRAM_SIZE,
            o.gpu.oam@.len() == OAM_SIZE,
            o.external_ram@.len() == EXTERNAL_RAM_SIZE,
            o.working_ram@.len() == WORKING_RAM_SIZE,
            o.zero_page@.len() == ZERO_PAGE_SIZE,
            self.io_unchanged(&o),
            self.gpu.vram@ == (if 0x8000 <= a <= 0x9FFF {
                o.gpu.vram@.update(a - 0x8000, v)
            } else {
                o.gpu.vram@
            }),
            self.external_ram@ == (if 0xA000 <= a <= 0xBFFF {
                o.external_ram@.update(a - 0xA000, v)
            } else {
                o.external_ram@
            }),
            self.working_ram@ == (if 0xC000 <= cell(a) <= 0xDFFF {
                o.working_ram@.update(cell(a) - 0xC000, v)
            } else {
                o.working_ram@
            }),
            self.gpu.oam@ == (if 0xFE00 <= a <= 0xFE9F {
                o.gpu.oam@.update(a - 0xFE00, v)
            } else {
                o.gpu.oam@
            }),
            self.zero_page@ == (if 0xFF80 <= a <= 0xFFFE {
                o.zero_page@.update(a - 0xFF80, v)
            } else {
                o.zero_page@
            }),
        ensures
            self.peeks_written(&o, a, v),
    {
        assert forall|b: int| 0 <= b <= 0xFFFF implies #[trigger] self.peek(b) == (if cell(b) == cell(a) {
            v as int
        } else {
            o.peek(b)
        }) by {
            if 0xFF00 <= b <= 0xFF7F {
                lemma_io_value_frame(*self, o, b);
            } else if b <= 0x7FFF {
            } else if b <= 0x9FFF {
                assert(cell(b) == b);
            } else if b <= 0xBFFF {
                assert(cell(b) == b);
            } else if b <= 0xFDFF {
                assert(0xC000 <= cell(b) <= 0xDFFF);
            } else if b <= 0xFEFF {
                assert(cell(b) == b);
            } else {
                assert(cell(b) == b);
            }
        }
    }
}

} // verus!
