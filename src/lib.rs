//! A CHIP-8 virtual machine: memory, call stack, framebuffer and the
//! fetch/decode/execute engine, each operation specified over a
//! mathematical model of the machine.

pub mod cpu;
pub mod font;
pub mod geometry;
pub mod instruction;
pub mod keyboard;
pub mod laws;
pub mod machine;
pub mod memory;
pub mod render;
mod entropy;






pub use crate::cpu::CPU;
pub use crate::machine::{ErrorKind, Fault, MachineView};
pub use crate::font::Font;
pub use crate::geometry::Vec2;
pub use crate::instruction::{decode, Instruction};
pub use crate::keyboard::Keyboard;
pub use crate::memory::{load_program, Memory, ProgramCounter, Stack};
pub use crate::render::Render;

