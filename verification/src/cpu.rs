//! The processor state that the switch routine and the syscall trampoline
//! read and write.

use vstd::prelude::*;
use vstd::bytes::*;
use crate::context::{vector_at, word_at, Context};
use crate::memory::Memory;

verus! {

/// The registers of one CPU.
#[derive(Clone, Copy, Debug, PartialEq, Eq)]
pub struct Cpu {
    pub rax: u64,
    pub rbx: u64,
    pub rcx: u64,
    pub rdx: u64,
    pub rsi: u64,
    pub rdi: u64,
    pub rbp: u64,
    pub rsp: u64,
    pub r8: u64,
    pub r9: u64,
    pub r10: u64,
    pub r11: u64,
    pub r12: u64,
    pub r13: u64,
    pub r14: u64,
    pub r15: u64,
    /// The address of the next instruction.
    pub rip: u64,
    pub rflags: u64,
    /// The base that `gs`-relative accesses use.
    pub gs_base: u64,
    /// The base that waits to be swapped in.
    pub kernel_gs_base: u64,
    pub xmm0: u128,
    pub xmm1: u128,
    pub xmm2: u128,
    pub xmm3: u128,
    pub xmm4: u128,
    pub xmm5: u128,
    pub xmm6: u128,
    pub xmm7: u128,
    pub xmm8: u128,
    pub xmm9: u128,
    pub xmm10: u128,
    pub xmm11: u128,
    pub xmm12: u128,
    pub xmm13: u128,
    pub xmm14: u128,
    pub xmm15: u128,
}

impl Cpu {
    /// The state in which every register is zero.
    pub open spec fn zeroed() -> Cpu {
        Cpu {
            rax: 0,
            rbx: 0,
            rcx: 0,
            rdx: 0,
            rsi: 0,
            rdi: 0,
            rbp: 0,
            rsp: 0,
            r8: 0,
            r9: 0,
            r10: 0,
            r11: 0,
            r12: 0,
            r13: 0,
            r14: 0,
            r15: 0,
            rip: 0,
            rflags: 0,
            gs_base: 0,
            kernel_gs_base: 0,
            xmm0: 0,
            xmm1: 0,
            xmm2: 0,
            xmm3: 0,
            xmm4: 0,
            xmm5: 0,
            xmm6: 0,
            xmm7: 0,
            xmm8: 0,
            xmm9: 0,
            xmm10: 0,
            xmm11: 0,
            xmm12: 0,
            xmm13: 0,
            xmm14: 0,
            xmm15: 0,
        }
    }

    /// A CPU whose registers are all zero.
    pub fn new() -> (cpu: Cpu)
        ensures
            cpu == Cpu::zeroed(),
    {
        Cpu {
            rax: 0,
            rbx: 0,
            rcx: 0,
            rdx: 0,
            rsi: 0,
            rdi: 0,
            rbp: 0,
            rsp: 0,
            r8: 0,
            r9: 0,
            r10: 0,
            r11: 0,
            r12: 0,
            r13: 0,
            r14: 0,
            r15: 0,
            rip: 0,
            rflags: 0,
            gs_base: 0,
            kernel_gs_base: 0,
            xmm0: 0,
            xmm1: 0,
            xmm2: 0,
            xmm3: 0,
            xmm4: 0,
            xmm5: 0,
            xmm6: 0,
            xmm7: 0,
            xmm8: 0,
            xmm9: 0,
            xmm10: 0,
            xmm11: 0,
            xmm12: 0,
            xmm13: 0,
            xmm14: 0,
            xmm15: 0,
        }
    }

    /// The registers that a switch saves, as a saved-context record whose
    /// resume address is the address of the next instruction.
    pub open spec fn context(self) -> Context {
        Context {
            xmm0: self.xmm0,
            xmm1: self.xmm1,
            xmm2: self.xmm2,
            xmm3: self.xmm3,
            xmm4: self.xmm4,
            xmm5: self.xmm5,
            xmm6: self.xmm6,
            xmm7: self.xmm7,
            xmm8: self.xmm8,
            xmm9: self.xmm9,
            xmm10: self.xmm10,
            xmm11: self.xmm11,
            xmm12: self.xmm12,
            xmm13: self.xmm13,
            xmm14: self.xmm14,
            xmm15: self.xmm15,
            r15: self.r15,
            r14: self.r14,
            r13: self.r13,
            r12: self.r12,
            rbp: self.rbp,
            rbx: self.rbx,
            rip: self.rip,
        }
    }

    /// This state with the vector registers taken from the 256 bytes of
    /// `frame`.
    pub open spec fn with_vector(self, frame: Seq<u8>) -> Cpu {
        Cpu {
            xmm0: vector_at(frame, 0),
            xmm1: vector_at(frame, 16),
            xmm2: vector_at(frame, 32),
            xmm3: vector_at(frame, 48),
            xmm4: vector_at(frame, 64),
            xmm5: vector_at(frame, 80),
            xmm6: vector_at(frame, 96),
            xmm7: vector_at(frame, 112),
            xmm8: vector_at(frame, 128),
            xmm9: vector_at(frame, 144),
            xmm10: vector_at(frame, 160),
            xmm11: vector_at(frame, 176),
            xmm12: vector_at(frame, 192),
            xmm13: vector_at(frame, 208),
            xmm14: vector_at(frame, 224),
            xmm15: vector_at(frame, 240),
            ..self
        }
    }

    /// This state with the saved general-purpose registers and the next
    /// instruction's address taken from the 56 bytes of `frame`.
    pub open spec fn with_general(self, frame: Seq<u8>) -> Cpu {
        Cpu {
            r15: word_at(frame, 0),
            r14: word_at(frame, 8),
            r13: word_at(frame, 16),
            r12: word_at(frame, 24),
            rbp: word_at(frame, 32),
            rbx: word_at(frame, 40),
            rip: word_at(frame, 48),
            ..self
        }
    }

    /// This state with the saved registers and the next instruction's
    /// address of `ctx`; the vector registers are taken only with `simd`.
    pub open spec fn with_context(self, ctx: Context, simd: bool) -> Cpu {
        let general = Cpu {
            r15: ctx.r15,
            r14: ctx.r14,
            r13: ctx.r13,
            r12: ctx.r12,
            rbp: ctx.rbp,
            rbx: ctx.rbx,
            rip: ctx.rip,
            ..self
        };
        if simd {
            Cpu {
                xmm0: ctx.xmm0,
                xmm1: ctx.xmm1,
                xmm2: ctx.xmm2,
                xmm3: ctx.xmm3,
                xmm4: ctx.xmm4,
                xmm5: ctx.xmm5,
                xmm6: ctx.xmm6,
                xmm7: ctx.xmm7,
                xmm8: ctx.xmm8,
                xmm9: ctx.xmm9,
                xmm10: ctx.xmm10,
                xmm11: ctx.xmm11,
                xmm12: ctx.xmm12,
                xmm13: ctx.xmm13,
                xmm14: ctx.xmm14,
                xmm15: ctx.xmm15,
                ..general
            }
        } else {
            general
        }
    }

    /// This state with the stack pointer at `rsp`.
    pub open spec fn with_stack(self, rsp: u64) -> Cpu {
        Cpu { rsp, ..self }
    }

    /// Pushes `value`: the stack pointer goes down by eight, and the word is
    /// stored where it then points.
    pub fn push(&mut self, mem: &mut Memory, value: u64)
        requires
            old(mem).wf(),
            old(mem).contains(old(self).rsp - 8, 8),
        ensures
            *final(self) == old(self).with_stack((old(self).rsp - 8) as u64),
            final(mem).base() == old(mem).base(),
            final(mem)@ == old(mem).stored(old(self).rsp - 8, spec_u64_to_le_bytes(value)),
    {
        self.rsp = self.rsp - 8;
        mem.write_u64(self.rsp, value);
    }

    /// Pops a word: it is loaded from where the stack pointer points, and
    /// the stack pointer goes up by eight.
    pub fn pop(&mut self, mem: &Memory) -> (value: u64)
        requires
            mem.wf(),
            mem.contains(old(self).rsp as int, 8),
        ensures
            value == spec_u64_from_le_bytes(mem.load(old(self).rsp as int, 8)),
            *final(self) == old(self).with_stack((old(self).rsp + 8) as u64),
    {
        let value = mem.read_u64(self.rsp);
        self.rsp = self.rsp + 8;
        value
    }
}

} // verus!
