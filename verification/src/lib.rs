//! Core of an emulator for an 8-bit handheld console: processor, pixel
//! processing unit, timer, interrupt controller and memory bus, each stepped
//! one clock cycle at a time.
//!
//! One owner, the [`emulator::Emulator`], holds the [`bus::Bus`] and lends it
//! to the timer, the pixel unit and the processor in turn on every clock
//! cycle. Each part says in its contracts what a cycle does, over a
//! mathematical view of the bus and of itself.
//!
//! Choices that the contracts fix:
//! - An opcode that the processor does not implement, or a descriptor that
//!   makes no sense, locks the processor: it stands still from then on.
//! - Mode 3 of the pixel unit always takes 172 dots; the cost of objects and
//!   of fine scrolling is not counted.
//! - A transfer into object memory happens at once, with the write that
//!   starts it.
//! - The processor runs an instruction as a whole and then waits for the
//!   clock cycles that it took.
pub mod bus;
pub mod cartridge;
pub mod cpu;
pub mod cpu_theorems;
pub mod emulator;
pub mod mem;
pub mod ppu;
pub mod quartz;
pub mod register;
pub mod timer;
pub mod timer_reg;
pub mod util;
pub mod windows;
