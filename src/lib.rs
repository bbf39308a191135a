//! Cycle-state observability for an 8088-class CPU core: the bus, queue,
//! BIU and DMA state enums, and the renderers that turn one half-cycle
//! snapshot into a text line, a token list or a pair of CSV rows.

pub mod text;
pub mod state;
pub mod queue;
pub mod microcode;
pub mod cpu;
pub mod laws;
