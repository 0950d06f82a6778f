//! A verified core for a Game Boy (DMG) system emulator: registers and flags,
//! the instruction decoder, the memory bus, the pixel-processing unit, the
//! joypad port, the interrupt flags and the CPU.
pub mod control;
pub mod cpu;
pub mod gpu;
pub mod instructions;
pub mod interrupts;
pub mod mem;
pub mod registers;

pub use control::Joypad;
pub use cpu::{get_mem, CPU};
pub use gpu::{
    BackgroundAndWindowDataSelect, BackgroundColors, Color, InterruptRequest, Mode, ObjectData,
    ObjectPalette, ObjectSize, TileMap, Window, GPU,
};
pub use instructions::{
    ADDHLTarget, ArithmeticTarget, BitPosition, IncDecTarget, Indirect, Instruction, JumpTest,
    LoadByteSource, LoadByteTarget, LoadType, LoadWordTarget, PreFixTarget, RSTLocation,
    StackTarget,
};
pub use interrupts::InterruptFlags;
pub use mem::MemBus;
pub use registers::{FlagReg, Registers};
