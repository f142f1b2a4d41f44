//! The saved-context record: the registers that a suspended task keeps on
//! its own stack, in the order in which they lie in memory.

use vstd::prelude::*;
use vstd::bytes::*;

verus! {

/// Bytes that one switch saves of the general-purpose registers: six words.
pub const GENERAL_BYTES: u64 = 48;

/// Bytes that one switch saves of the vector registers: sixteen of 16 bytes.
pub const VECTOR_BYTES: u64 = 256;

/// Bytes of the resume address that lies directly above the saved registers.
pub const RESUME_ADDRESS_BYTES: u64 = 8;

/// Bytes of registers that one switch saves, with and without the vector
/// registers.
pub open spec fn saved_register_bytes(simd: bool) -> nat {
    if simd {
        (VECTOR_BYTES + GENERAL_BYTES) as nat
    } else {
        GENERAL_BYTES as nat
    }
}

/// Bytes of one saved frame: the saved registers and the resume address.
pub open spec fn frame_size(simd: bool) -> nat {
    saved_register_bytes(simd) + RESUME_ADDRESS_BYTES as nat
}

/// The 64-bit word that lies at byte `at` of `frame`.
pub open spec fn word_at(frame: Seq<u8>, at: int) -> u64 {
    spec_u64_from_le_bytes(frame.subrange(at, at + 8))
}

/// The 128-bit word that lies at byte `at` of `frame`.
pub open spec fn vector_at(frame: Seq<u8>, at: int) -> u128 {
    spec_u128_from_le_bytes(frame.subrange(at, at + 16))
}

/// The registers saved before a context switch and restored after it.
///
/// The fields stand in the order of their addresses, lowest first: the
/// vector registers, then the general-purpose registers in the order in
/// which the switch pops them, then the address at which the task resumes.
#[derive(Clone, Copy, Debug, PartialEq, Eq)]
pub struct Context {
    pub xmm0: u128,
    pub xmm1: u128,
    pub xmm2: u128,
    pub xmm3: u128,
    pub xmm4: u128,
    pub xmm5: u128,
    pub xmm6: u128,
    pub xmm7: u128,
    pub xmm8: u128,
    pub xmm9: u128,
    pub xmm10: u128,
    pub xmm11: u128,
    pub xmm12: u128,
    pub xmm13: u128,
    pub xmm14: u128,
    pub xmm15: u128,
    pub r15: u64,
    pub r14: u64,
    pub r13: u64,
    pub r12: u64,
    pub rbp: u64,
    pub rbx: u64,
    pub rip: u64,
}

impl Context {
    /// The record of a task that has not run yet: it resumes at `rip`, and
    /// every register is zero.
    pub open spec fn fresh(rip: usize) -> Context {
        Context {
            xmm0: 0,
            xmm1: 0,
            xmm2: 0,
            xmm3: 0,
            xmm4: 0,
            xmm5: 0,
            xmm6: 0,
            xmm7: 0,
            xmm8: 0,
            xmm9: 0,
            xmm10: 0,
            xmm11: 0,
            xmm12: 0,
            xmm13: 0,
            xmm14: 0,
            xmm15: 0,
            r15: 0,
            r14: 0,
            r13: 0,
            r12: 0,
            rbp: 0,
            rbx: 0,
            rip: rip as u64,
        }
    }

    /// The record for a task that is to start at `rip`.
    pub fn new(rip: usize) -> (ctx: Context)
        ensures
            ctx == Context::fresh(rip),
    {
        Context {
            xmm0: 0,
            xmm1: 0,
            xmm2: 0,
            xmm3: 0,
            xmm4: 0,
            xmm5: 0,
            xmm6: 0,
            xmm7: 0,
            xmm8: 0,
            xmm9: 0,
            xmm10: 0,
            xmm11: 0,
            xmm12: 0,
            xmm13: 0,
            xmm14: 0,
            xmm15: 0,
            r15: 0,
            r14: 0,
            r13: 0,
            r12: 0,
            rbp: 0,
            rbx: 0,
            rip: rip as u64,
        }
    }

    /// The 256 bytes of the vector registers: register `i` at byte `16 * i`.
    pub open spec fn vector_image(self) -> Seq<u8> {
        spec_u128_to_le_bytes(self.xmm0)
            + spec_u128_to_le_bytes(self.xmm1)
            + spec_u128_to_le_bytes(self.xmm2)
            + spec_u128_to_le_bytes(self.xmm3)
            + spec_u128_to_le_bytes(self.xmm4)
            + spec_u128_to_le_bytes(self.xmm5)
            + spec_u128_to_le_bytes(self.xmm6)
            + spec_u128_to_le_bytes(self.xmm7)
            + spec_u128_to_le_bytes(self.xmm8)
            + spec_u128_to_le_bytes(self.xmm9)
            + spec_u128_to_le_bytes(self.xmm10)
            + spec_u128_to_le_bytes(self.xmm11)
            + spec_u128_to_le_bytes(self.xmm12)
            + spec_u128_to_le_bytes(self.xmm13)
            + spec_u128_to_le_bytes(self.xmm14)
            + spec_u128_to_le_bytes(self.xmm15)
    }

    /// The 56 bytes of the general-purpose registers and the resume address.
    pub open spec fn general_image(self) -> Seq<u8> {
        spec_u64_to_le_bytes(self.r15)
            + spec_u64_to_le_bytes(self.r14)
            + spec_u64_to_le_bytes(self.r13)
            + spec_u64_to_le_bytes(self.r12)
            + spec_u64_to_le_bytes(self.rbp)
            + spec_u64_to_le_bytes(self.rbx)
            + spec_u64_to_le_bytes(self.rip)
    }

    /// The record as it lies in memory, from its lowest address on. Without
    /// the vector registers it is the general-purpose part alone.
    pub open spec fn image(self, simd: bool) -> Seq<u8> {
        if simd {
            self.vector_image() + self.general_image()
        } else {
            self.general_image()
        }
    }

    /// The bytes of the record, ready to be put on the stack of a new task.
    pub fn to_bytes(&self, simd: bool) -> (bytes: Vec<u8>)
        ensures
            bytes@ == self.image(simd),
    {
        let mut bytes: Vec<u8> = Vec::new();
        if simd {
            put_u128(&mut bytes, self.xmm0);
            put_u128(&mut bytes, self.xmm1);
            put_u128(&mut bytes, self.xmm2);
            put_u128(&mut bytes, self.xmm3);
            put_u128(&mut bytes, self.xmm4);
            put_u128(&mut bytes, self.xmm5);
            put_u128(&mut bytes, self.xmm6);
            put_u128(&mut bytes, self.xmm7);
            put_u128(&mut bytes, self.xmm8);
            put_u128(&mut bytes, self.xmm9);
            put_u128(&mut bytes, self.xmm10);
            put_u128(&mut bytes, self.xmm11);
            put_u128(&mut bytes, self.xmm12);
            put_u128(&mut bytes, self.xmm13);
            put_u128(&mut bytes, self.xmm14);
            put_u128(&mut bytes, self.xmm15);
            assert(bytes@ =~= self.vector_image());
        }
        let ghost vector = bytes@;
        put_u64(&mut bytes, self.r15);
        put_u64(&mut bytes, self.r14);
        put_u64(&mut bytes, self.r13);
        put_u64(&mut bytes, self.r12);
        put_u64(&mut bytes, self.rbp);
        put_u64(&mut bytes, self.rbx);
        put_u64(&mut bytes, self.rip);
        assert(bytes@ =~= vector + self.general_image());
        bytes
    }
}

/// Appends the eight bytes of `value`, least significant first.
fn put_u64(bytes: &mut Vec<u8>, value: u64)
    ensures
        final(bytes)@ == old(bytes)@ + spec_u64_to_le_bytes(value),
{
    let mut word = u64_to_le_bytes(value);
    bytes.append(&mut word);
}

/// Appends the sixteen bytes of `value`, least significant first.
fn put_u128(bytes: &mut Vec<u8>, value: u128)
    ensures
        final(bytes)@ == old(bytes)@ + spec_u128_to_le_bytes(value),
{
    let mut word = u128_to_le_bytes(value);
    bytes.append(&mut word);
}

/// Where each field of the record lies: vector register `i` at byte
/// `16 * i` of the vector part, and the general-purpose registers and the
/// resume address in their eight-byte slots. The parts are 256 and 56 bytes
/// long, so one switch saves 304 bytes of registers with the vector registers
/// and 48 without.
pub proof fn lemma_context_layout(ctx: Context)
    ensures
        ctx.vector_image().len() == VECTOR_BYTES,
        ctx.general_image().len() == GENERAL_BYTES + RESUME_ADDRESS_BYTES,
        ctx.image(true).len() == frame_size(true) == 304 + 8,
        ctx.image(false).len() == frame_size(false) == 48 + 8,
        saved_register_bytes(true) == 6 * 8 + 16 * 16,
        saved_register_bytes(false) == 6 * 8,
        vector_at(ctx.vector_image(), 0) == ctx.xmm0,
        vector_at(ctx.vector_image(), 16) == ctx.xmm1,
        vector_at(ctx.vector_image(), 32) == ctx.xmm2,
        vector_at(ctx.vector_image(), 48) == ctx.xmm3,
        vector_at(ctx.vector_image(), 64) == ctx.xmm4,
        vector_at(ctx.vector_image(), 80) == ctx.xmm5,
        vector_at(ctx.vector_image(), 96) == ctx.xmm6,
        vector_at(ctx.vector_image(), 112) == ctx.xmm7,
        vector_at(ctx.vector_image(), 128) == ctx.xmm8,
        vector_at(ctx.vector_image(), 144) == ctx.xmm9,
        vector_at(ctx.vector_image(), 160) == ctx.xmm10,
        vector_at(ctx.vector_image(), 176) == ctx.xmm11,
        vector_at(ctx.vector_image(), 192) == ctx.xmm12,
        vector_at(ctx.vector_image(), 208) == ctx.xmm13,
        vector_at(ctx.vector_image(), 224) == ctx.xmm14,
        vector_at(ctx.vector_image(), 240) == ctx.xmm15,
        word_at(ctx.general_image(), 0) == ctx.r15,
        word_at(ctx.general_image(), 8) == ctx.r14,
        word_at(ctx.general_image(), 16) == ctx.r13,
        word_at(ctx.general_image(), 24) == ctx.r12,
        word_at(ctx.general_image(), 32) == ctx.rbp,
        word_at(ctx.general_image(), 40) == ctx.rbx,
        word_at(ctx.general_image(), 48) == ctx.rip,
{
    lemma_auto_spec_u64_to_from_le_bytes();
    lemma_auto_spec_u128_to_from_le_bytes();
    let v = ctx.vector_image();
    let g = ctx.general_image();
    assert(v.subrange(0, 16) =~= spec_u128_to_le_bytes(ctx.xmm0));
    assert(v.subrange(16, 32) =~= spec_u128_to_le_bytes(ctx.xmm1));
    assert(v.subrange(32, 48) =~= spec_u128_to_le_bytes(ctx.xmm2));
    assert(v.subrange(48, 64) =~= spec_u128_to_le_bytes(ctx.xmm3));
    assert(v.subrange(64, 80) =~= spec_u128_to_le_bytes(ctx.xmm4));
    assert(v.subrange(80, 96) =~= spec_u128_to_le_bytes(ctx.xmm5));
    assert(v.subrange(96, 112) =~= spec_u128_to_le_bytes(ctx.xmm6));
    assert(v.subrange(112, 128) =~= spec_u128_to_le_bytes(ctx.xmm7));
    assert(v.subrange(128, 144) =~= spec_u128_to_le_bytes(ctx.xmm8));
    assert(v.subrange(144, 160) =~= spec_u128_to_le_bytes(ctx.xmm9));
    assert(v.subrange(160, 176) =~= spec_u128_to_le_bytes(ctx.xmm10));
    assert(v.subrange(176, 192) =~= spec_u128_to_le_bytes(ctx.xmm11));
    assert(v.subrange(192, 208) =~= spec_u128_to_le_bytes(ctx.xmm12));
    assert(v.subrange(208, 224) =~= spec_u128_to_le_bytes(ctx.xmm13));
    assert(v.subrange(224, 240) =~= spec_u128_to_le_bytes(ctx.xmm14));
    assert(v.subrange(240, 256) =~= spec_u128_to_le_bytes(ctx.xmm15));
    assert(g.subrange(0, 8) =~= spec_u64_to_le_bytes(ctx.r15));
    assert(g.subrange(8, 16) =~= spec_u64_to_le_bytes(ctx.r14));
    assert(g.subrange(16, 24) =~= spec_u64_to_le_bytes(ctx.r13));
    assert(g.subrange(24, 32) =~= spec_u64_to_le_bytes(ctx.r12));
    assert(g.subrange(32, 40) =~= spec_u64_to_le_bytes(ctx.rbp));
    assert(g.subrange(40, 48) =~= spec_u64_to_le_bytes(ctx.rbx));
    assert(g.subrange(48, 56) =~= spec_u64_to_le_bytes(ctx.rip));
}

} // verus!
