//! A verified reference model of the lowest layer of a 64-bit kernel: the
//! saved-context record and the voluntary task switch, the per-CPU scratch
//! record and the fast-syscall trampoline, the syscall dispatcher and the
//! values that enable the fast-syscall instruction pair.
//!
//! The routines that touch real hardware are instruction sequences; here each
//! is an executable function on an explicit [`cpu::Cpu`] and
//! [`memory::Memory`], with a contract that says exactly which registers and
//! which bytes it changes.

pub mod context;
pub mod cpu;
pub mod memory;
pub mod switch;
pub mod syscall;
pub mod trampoline;
