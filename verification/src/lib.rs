//! Core of a Game Boy Advance emulator: an ARM7TDMI interpreter (ARM and
//! Thumb encodings, seven processor modes with banked registers, exception
//! entry, cycle accounting) and the GBA LCD pipeline (backgrounds, objects,
//! windows, color special effects), driven line by line from a cycle budget.

pub mod bits;
pub mod registers;
pub mod cpu;
pub mod alu;
pub mod block;
pub mod thumb;
pub mod arm;
pub mod memory;
pub mod palette;
pub mod gba_memory;
pub mod gba;
pub mod irq;
pub mod lcd;
pub mod tile;
pub mod bitmap;
pub mod obj;
pub mod blending;

pub use cpu::ArmCpu;
pub use cpu::ArmMemory;

pub use memory::FlatMemory;
pub use gba::Gba;
pub use gba::KeypadInput;
pub use lcd::GbaVideoOutput;
pub use lcd::GbaAudioOutput;
pub use lcd::NoVideoOutput;
pub use lcd::NoAudioOutput;
