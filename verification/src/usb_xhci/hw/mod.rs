//! Hardware-facing definitions of the xHCI controller.
pub mod commands;
pub mod regs;
pub mod structs;
