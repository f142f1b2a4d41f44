//! The voluntary task switch: the CPU leaves the stack of one task and
//! goes on with the stack of another.

use vstd::prelude::*;
use vstd::bytes::*;
use crate::context::{frame_size, lemma_context_layout, Context};
use crate::cpu::Cpu;
use crate::memory::{
    lemma_load_apart, lemma_load_stored, lemma_store_above, lemma_store_below, store, Memory,
};

verus! {

/// The state in which a task goes on after its saved `frame` was taken from
/// the stack top `stack_top`: the saved registers and the address of the
/// next instruction come from the frame, and the stack pointer stands
/// directly above it. Without the vector registers in the frame, these stay
/// as they are in `cpu`.
pub open spec fn resumed(cpu: Cpu, frame: Seq<u8>, stack_top: u64, simd: bool) -> Cpu {
    let loaded = if simd {
        cpu.with_vector(frame.subrange(0, 256)).with_general(frame.subrange(256, 312))
    } else {
        cpu.with_general(frame)
    };
    loaded.with_stack((stack_top + frame_size(simd)) as u64)
}

/// Pushes the address at which the caller goes on, and then the six
/// general-purpose registers that a call must preserve.
fn save_general(cpu: &mut Cpu, mem: &mut Memory)
    requires
        old(mem).wf(),
        old(mem).contains(old(cpu).rsp - 56, 56),
    ensures
        *final(cpu) == old(cpu).with_stack((old(cpu).rsp - 56) as u64),
        final(mem).base() == old(mem).base(),
        final(mem)@ == old(mem).stored(old(cpu).rsp - 56, old(cpu).context().general_image()),
{
    proof {
        lemma_auto_spec_u64_to_from_le_bytes();
    }
    let ghost before = mem@;
    let ghost top = cpu.rsp - mem.base();
    let ghost mut frame = Seq::<u8>::empty();
    let rip = cpu.rip;
    cpu.push(mem, rip);
    proof {
        frame = spec_u64_to_le_bytes(rip);
        assert(mem@ == store(before, top - 8, frame));
    }
    let rbx = cpu.rbx;
    cpu.push(mem, rbx);
    proof {
        lemma_store_below(before, top - 16, spec_u64_to_le_bytes(rbx), frame);
        frame = spec_u64_to_le_bytes(rbx) + frame;
        assert(mem@ == store(before, top - 16, frame));
    }
    let rbp = cpu.rbp;
    cpu.push(mem, rbp);
    proof {
        lemma_store_below(before, top - 24, spec_u64_to_le_bytes(rbp), frame);
        frame = spec_u64_to_le_bytes(rbp) + frame;
        assert(mem@ == store(before, top - 24, frame));
    }
    let r12 = cpu.r12;
    cpu.push(mem, r12);
    proof {
        lemma_store_below(before, top - 32, spec_u64_to_le_bytes(r12), frame);
        frame = spec_u64_to_le_bytes(r12) + frame;
        assert(mem@ == store(before, top - 32, frame));
    }
    let r13 = cpu.r13;
    cpu.push(mem, r13);
    proof {
        lemma_store_below(before, top - 40, spec_u64_to_le_bytes(r13), frame);
        frame = spec_u64_to_le_bytes(r13) + frame;
        assert(mem@ == store(before, top - 40, frame));
    }
    let r14 = cpu.r14;
    cpu.push(mem, r14);
    proof {
        lemma_store_below(before, top - 48, spec_u64_to_le_bytes(r14), frame);
        frame = spec_u64_to_le_bytes(r14) + frame;
        assert(mem@ == store(before, top - 48, frame));
    }
    let r15 = cpu.r15;
    cpu.push(mem, r15);
    proof {
        lemma_store_below(before, top - 56, spec_u64_to_le_bytes(r15), frame);
        frame = spec_u64_to_le_bytes(r15) + frame;
        assert(mem@ == store(before, top - 56, frame));
    }
    assert(frame =~= old(cpu).context().general_image());
}

/// Makes room below the stack pointer for the sixteen vector registers and
/// stores register `i` in slot `i`, lowest slot first.
fn save_vector(cpu: &mut Cpu, mem: &mut Memory)
    requires
        old(mem).wf(),
        old(mem).contains(old(cpu).rsp - 256, 256),
    ensures
        *final(cpu) == old(cpu).with_stack((old(cpu).rsp - 256) as u64),
        final(mem).base() == old(mem).base(),
        final(mem)@ == old(mem).stored(old(cpu).rsp - 256, old(cpu).context().vector_image()),
{
    proof {
        lemma_auto_spec_u128_to_from_le_bytes();
    }
    let ghost before = mem@;
    let ghost low = cpu.rsp - 256 - mem.base();
    let ghost mut frame = Seq::<u8>::empty();
    cpu.rsp = cpu.rsp - 256;
    mem.write_u128(cpu.rsp + 0, cpu.xmm0);
    proof {
        frame = spec_u128_to_le_bytes(cpu.xmm0);
        assert(frame.len() == 16);
        assert(mem@ == store(before, low, frame));
    }
    mem.write_u128(cpu.rsp + 16, cpu.xmm1);
    proof {
        lemma_store_above(before, low, frame, spec_u128_to_le_bytes(cpu.xmm1));
        frame = frame + spec_u128_to_le_bytes(cpu.xmm1);
        assert(frame.len() == 32);
        assert(mem@ == store(before, low, frame));
    }
    mem.write_u128(cpu.rsp + 32, cpu.xmm2);
    proof {
        lemma_store_above(before, low, frame, spec_u128_to_le_bytes(cpu.xmm2));
        frame = frame + spec_u128_to_le_bytes(cpu.xmm2);
        assert(frame.len() == 48);
        assert(mem@ == store(before, low, frame));
    }
    mem.write_u128(cpu.rsp + 48, cpu.xmm3);
    proof {
        lemma_store_above(before, low, frame, spec_u128_to_le_bytes(cpu.xmm3));
        frame = frame + spec_u128_to_le_bytes(cpu.xmm3);
        assert(frame.len() == 64);
        assert(mem@ == store(before, low, frame));
    }
    mem.write_u128(cpu.rsp + 64, cpu.xmm4);
    proof {
        lemma_store_above(before, low, frame, spec_u128_to_le_bytes(cpu.xmm4));
        frame = frame + spec_u128_to_le_bytes(cpu.xmm4);
        assert(frame.len() == 80);
        assert(mem@ == store(before, low, frame));
    }
    mem.write_u128(cpu.rsp + 80, cpu.xmm5);
    proof {
        lemma_store_above(before, low, frame, spec_u128_to_le_bytes(cpu.xmm5));
        frame = frame + spec_u128_to_le_bytes(cpu.xmm5);
        assert(frame.len() == 96);
        assert(mem@ == store(before, low, frame));
    }
    mem.write_u128(cpu.rsp + 96, cpu.xmm6);
    proof {
        lemma_store_above(before, low, frame, spec_u128_to_le_bytes(cpu.xmm6));
        frame = frame + spec_u128_to_le_bytes(cpu.xmm6);
        assert(frame.len() == 112);
        assert(mem@ == store(before, low, frame));
    }
    mem.write_u128(cpu.rsp + 112, cpu.xmm7);
    proof {
        lemma_store_above(before, low, frame, spec_u128_to_le_bytes(cpu.xmm7));
        frame = frame + spec_u128_to_le_bytes(cpu.xmm7);
        assert(frame.len() == 128);
        assert(mem@ == store(before, low, frame));
    }
    mem.write_u128(cpu.rsp + 128, cpu.xmm8);
    proof {
        lemma_store_above(before, low, frame, spec_u128_to_le_bytes(cpu.xmm8));
        frame = frame + spec_u128_to_le_bytes(cpu.xmm8);
        assert(frame.len() == 144);
        assert(mem@ == store(before, low, frame));
    }
    mem.write_u128(cpu.rsp + 144, cpu.xmm9);
    proof {
        lemma_store_above(before, low, frame, spec_u128_to_le_bytes(cpu.xmm9));
        frame = frame + spec_u128_to_le_bytes(cpu.xmm9);
        assert(frame.len() == 160);
        assert(mem@ == store(before, low, frame));
    }
    mem.write_u128(cpu.rsp + 160, cpu.xmm10);
    proof {
        lemma_store_above(before, low, frame, spec_u128_to_le_bytes(cpu.xmm10));
        frame = frame + spec_u128_to_le_bytes(cpu.xmm10);
        assert(frame.len() == 176);
        assert(mem@ == store(before, low, frame));
    }
    mem.write_u128(cpu.rsp + 176, cpu.xmm11);
    proof {
        lemma_store_above(before, low, frame, spec_u128_to_le_bytes(cpu.xmm11));
        frame = frame + spec_u128_to_le_bytes(cpu.xmm11);
        assert(frame.len() == 192);
        assert(mem@ == store(before, low, frame));
    }
    mem.write_u128(cpu.rsp + 192, cpu.xmm12);
    proof {
        lemma_store_above(before, low, frame, spec_u128_to_le_bytes(cpu.xmm12));
        frame = frame + spec_u128_to_le_bytes(cpu.xmm12);
        assert(frame.len() == 208);
        assert(mem@ == store(before, low, frame));
    }
    mem.write_u128(cpu.rsp + 208, cpu.xmm13);
    proof {
        lemma_store_above(before, low, frame, spec_u128_to_le_bytes(cpu.xmm13));
        frame = frame + spec_u128_to_le_bytes(cpu.xmm13);
        assert(frame.len() == 224);
        assert(mem@ == store(before, low, frame));
    }
    mem.write_u128(cpu.rsp + 224, cpu.xmm14);
    proof {
        lemma_store_above(before, low, frame, spec_u128_to_le_bytes(cpu.xmm14));
        frame = frame + spec_u128_to_le_bytes(cpu.xmm14);
        assert(frame.len() == 240);
        assert(mem@ == store(before, low, frame));
    }
    mem.write_u128(cpu.rsp + 240, cpu.xmm15);
    proof {
        lemma_store_above(before, low, frame, spec_u128_to_le_bytes(cpu.xmm15));
        frame = frame + spec_u128_to_le_bytes(cpu.xmm15);
        assert(frame.len() == 256);
        assert(mem@ == store(before, low, frame));
    }
    assert(frame == old(cpu).context().vector_image());
}

/// Loads the sixteen vector registers from their slots above the stack
/// pointer and gives the room back.
fn restore_vector(cpu: &mut Cpu, mem: &Memory)
    requires
        mem.wf(),
        mem.contains(old(cpu).rsp as int, 256),
    ensures
        *final(cpu) == old(cpu).with_vector(mem.load(old(cpu).rsp as int, 256)).with_stack(
            (old(cpu).rsp + 256) as u64,
        ),
{
    let ghost frame = mem.load(cpu.rsp as int, 256);
    cpu.xmm0 = mem.read_u128(cpu.rsp + 0);
    assert(frame.subrange(0, 16) =~= mem.load(cpu.rsp + 0, 16));
    cpu.xmm1 = mem.read_u128(cpu.rsp + 16);
    assert(frame.subrange(16, 32) =~= mem.load(cpu.rsp + 16, 16));
    cpu.xmm2 = mem.read_u128(cpu.rsp + 32);
    assert(frame.subrange(32, 48) =~= mem.load(cpu.rsp + 32, 16));
    cpu.xmm3 = mem.read_u128(cpu.rsp + 48);
    assert(frame.subrange(48, 64) =~= mem.load(cpu.rsp + 48, 16));
    cpu.xmm4 = mem.read_u128(cpu.rsp + 64);
    assert(frame.subrange(64, 80) =~= mem.load(cpu.rsp + 64, 16));
    cpu.xmm5 = mem.read_u128(cpu.rsp + 80);
    assert(frame.subrange(80, 96) =~= mem.load(cpu.rsp + 80, 16));
    cpu.xmm6 = mem.read_u128(cpu.rsp + 96);
    assert(frame.subrange(96, 112) =~= mem.load(cpu.rsp + 96, 16));
    cpu.xmm7 = mem.read_u128(cpu.rsp + 112);
    assert(frame.subrange(112, 128) =~= mem.load(cpu.rsp + 112, 16));
    cpu.xmm8 = mem.read_u128(cpu.rsp + 128);
    assert(frame.subrange(128, 144) =~= mem.load(cpu.rsp + 128, 16));
    cpu.xmm9 = mem.read_u128(cpu.rsp + 144);
    assert(frame.subrange(144, 160) =~= mem.load(cpu.rsp + 144, 16));
    cpu.xmm10 = mem.read_u128(cpu.rsp + 160);
    assert(frame.subrange(160, 176) =~= mem.load(cpu.rsp + 160, 16));
    cpu.xmm11 = mem.read_u128(cpu.rsp + 176);
    assert(frame.subrange(176, 192) =~= mem.load(cpu.rsp + 176, 16));
    cpu.xmm12 = mem.read_u128(cpu.rsp + 192);
    assert(frame.subrange(192, 208) =~= mem.load(cpu.rsp + 192, 16));
    cpu.xmm13 = mem.read_u128(cpu.rsp + 208);
    assert(frame.subrange(208, 224) =~= mem.load(cpu.rsp + 208, 16));
    cpu.xmm14 = mem.read_u128(cpu.rsp + 224);
    assert(frame.subrange(224, 240) =~= mem.load(cpu.rsp + 224, 16));
    cpu.xmm15 = mem.read_u128(cpu.rsp + 240);
    assert(frame.subrange(240, 256) =~= mem.load(cpu.rsp + 240, 16));
    cpu.rsp = cpu.rsp + 256;
}

/// Pops the six general-purpose registers in the reverse of the order in
/// which they were pushed, and then returns: the word above them becomes the
/// address of the next instruction.
fn restore_general(cpu: &mut Cpu, mem: &Memory)
    requires
        mem.wf(),
        mem.contains(old(cpu).rsp as int, 56),
    ensures
        *final(cpu) == old(cpu).with_general(mem.load(old(cpu).rsp as int, 56)).with_stack(
            (old(cpu).rsp + 56) as u64,
        ),
{
    let ghost frame = mem.load(cpu.rsp as int, 56);
    assert(frame.subrange(0, 8) =~= mem.load(cpu.rsp as int, 8));
    let r15 = cpu.pop(mem);
    cpu.r15 = r15;
    assert(frame.subrange(8, 16) =~= mem.load(cpu.rsp as int, 8));
    let r14 = cpu.pop(mem);
    cpu.r14 = r14;
    assert(frame.subrange(16, 24) =~= mem.load(cpu.rsp as int, 8));
    let r13 = cpu.pop(mem);
    cpu.r13 = r13;
    assert(frame.subrange(24, 32) =~= mem.load(cpu.rsp as int, 8));
    let r12 = cpu.pop(mem);
    cpu.r12 = r12;
    assert(frame.subrange(32, 40) =~= mem.load(cpu.rsp as int, 8));
    let rbp = cpu.pop(mem);
    cpu.rbp = rbp;
    assert(frame.subrange(40, 48) =~= mem.load(cpu.rsp as int, 8));
    let rbx = cpu.pop(mem);
    cpu.rbx = rbx;
    assert(frame.subrange(48, 56) =~= mem.load(cpu.rsp as int, 8));
    let rip = cpu.pop(mem);
    cpu.rip = rip;
}

/// Switches from the running task to the task whose saved frame lies at
/// `next_stack_top`.
///
/// The address at which the running task goes on and its registers are
/// pushed on its own stack, in the order of a saved-context record; with
/// `simd` the vector registers are part of it. The resulting stack pointer
/// is handed out through `prev_stack_top`. Then the stack pointer is set to
/// `next_stack_top`, the registers are taken back from the frame there, and
/// the word above them becomes the next instruction's address: the entry
/// point of a task that has not run, or the place at which a suspended task
/// had called the switch.
///
/// The caller owes that both frames lie inside the memory. Registers that a
/// call may clobber are not touched.
pub fn context_switch(
    cpu: &mut Cpu,
    mem: &mut Memory,
    prev_stack_top: &mut u64,
    next_stack_top: u64,
    simd: bool,
)
    requires
        old(mem).wf(),
        old(mem).contains(old(cpu).rsp - frame_size(simd), frame_size(simd) as int),
        old(mem).contains(next_stack_top as int, frame_size(simd) as int),
    ensures
        *final(prev_stack_top) == old(cpu).rsp - frame_size(simd),
        final(mem).base() == old(mem).base(),
        final(mem)@ == old(mem).stored(
            old(cpu).rsp - frame_size(simd),
            old(cpu).context().image(simd),
        ),
        *final(cpu) == resumed(
            *old(cpu),
            final(mem).load(next_stack_top as int, frame_size(simd) as int),
            next_stack_top,
            simd,
        ),
{
    let ghost before = mem@;
    let ghost low = old(cpu).rsp - frame_size(simd) - mem.base();
    proof {
        lemma_context_layout(old(cpu).context());
    }
    save_general(cpu, mem);
    if simd {
        save_vector(cpu, mem);
        proof {
            lemma_store_below(
                before,
                low,
                old(cpu).context().vector_image(),
                old(cpu).context().general_image(),
            );
        }
    }
    *prev_stack_top = cpu.rsp;
    cpu.rsp = next_stack_top;
    let ghost frame = mem.load(next_stack_top as int, frame_size(simd) as int);
    if simd {
        assert(frame.subrange(0, 256) =~= mem.load(next_stack_top as int, 256));
        assert(frame.subrange(256, 312) =~= mem.load(next_stack_top + 256, 56));
        restore_vector(cpu, mem);
    } else {
        assert(frame =~= mem.load(next_stack_top as int, 56));
    }
    restore_general(cpu, mem);
}

/// A frame that holds a saved-context record gives back exactly that record:
/// the task goes on with the record's registers, at the record's resume
/// address, with the stack pointer directly above the frame.
pub proof fn lemma_resumed_from_image(cpu: Cpu, ctx: Context, stack_top: u64, simd: bool)
    ensures
        resumed(cpu, ctx.image(simd), stack_top, simd) == cpu.with_context(ctx, simd).with_stack(
            (stack_top + frame_size(simd)) as u64,
        ),
{
    lemma_context_layout(ctx);
    if simd {
        assert(ctx.image(simd).subrange(0, 256) =~= ctx.vector_image());
        assert(ctx.image(simd).subrange(256, 312) =~= ctx.general_image());
    }
}

/// A task that has not run starts at its entry point with zeroed registers.
///
/// `before` is the memory, from address `base` on, when the switch is
/// called in state `cpu`; at `next_stack_top` it holds the record of a fresh
/// task with entry point `entry`, apart from the room in which the caller's
/// frame is saved. After the switch the next instruction is at `entry`, every
/// saved register is zero (the vector registers with `simd`), the stack
/// pointer stands directly above the record, and no other register has
/// changed.
pub proof fn lemma_fresh_task_round_trip(
    cpu: Cpu,
    before: Seq<u8>,
    base: u64,
    next_stack_top: u64,
    entry: usize,
    simd: bool,
)
    requires
        base + before.len() <= u64::MAX,
        base <= cpu.rsp - frame_size(simd),
        cpu.rsp <= base + before.len(),
        base <= next_stack_top,
        next_stack_top + frame_size(simd) <= base + before.len(),
        next_stack_top + frame_size(simd) <= cpu.rsp - frame_size(simd) || cpu.rsp <= next_stack_top,
        before.subrange(next_stack_top - base, next_stack_top - base + frame_size(simd))
            == Context::fresh(entry).image(simd),
    ensures
        ({
            let after = store(before, cpu.rsp - frame_size(simd) - base, cpu.context().image(simd));
            let frame = after.subrange(
                next_stack_top - base,
                next_stack_top - base + frame_size(simd),
            );
            let task = resumed(cpu, frame, next_stack_top, simd);
            &&& task == cpu.with_context(Context::fresh(entry), simd).with_stack(
                (next_stack_top + frame_size(simd)) as u64,
            )
            &&& task.rip == entry
            &&& task.rbx == 0 && task.rbp == 0 && task.r12 == 0
            &&& task.r13 == 0 && task.r14 == 0 && task.r15 == 0
            &&& simd ==> task.context() == Context::fresh(entry)
        }),
{
    lemma_context_layout(cpu.context());
    lemma_load_apart(
        before,
        cpu.rsp - frame_size(simd) - base,
        cpu.context().image(simd),
        next_stack_top - base,
        next_stack_top - base + frame_size(simd),
    );
    lemma_resumed_from_image(cpu, Context::fresh(entry), next_stack_top, simd);
}

/// Switching away from a task and later back to it restores the task.
///
/// Task A calls the switch in state `a`, with the memory `before` from
/// address `base` on; its frame goes to `a.rsp - frame_size(simd)`, which is
/// the stack top that the switch hands out. `later` is the memory when
/// another task, in state `b`, switches to that stack top: whatever ran in
/// between has left A's frame as it was, and the frame that `b` saves does
/// not overlap it. Then A goes on with the stack pointer, the next
/// instruction's address and every saved register that it had when it called
/// the switch; with `simd` this holds of the vector registers too. The other
/// registers are those of `b`.
pub proof fn lemma_switch_symmetry(
    a: Cpu,
    before: Seq<u8>,
    base: u64,
    b: Cpu,
    later: Seq<u8>,
    simd: bool,
)
    requires
        base + before.len() <= u64::MAX,
        base <= a.rsp - frame_size(simd),
        a.rsp <= base + before.len(),
        later.len() == before.len(),
        later.subrange(a.rsp - frame_size(simd) - base, a.rsp - base) == store(
            before,
            a.rsp - frame_size(simd) - base,
            a.context().image(simd),
        ).subrange(a.rsp - frame_size(simd) - base, a.rsp - base),
        base <= b.rsp - frame_size(simd),
        b.rsp <= base + later.len(),
        b.rsp <= a.rsp - frame_size(simd) || a.rsp <= b.rsp - frame_size(simd),
    ensures
        ({
            let saved = (a.rsp - frame_size(simd)) as u64;
            let last = store(later, b.rsp - frame_size(simd) - base, b.context().image(simd));
            let back = resumed(b, last.subrange(saved - base, a.rsp - base), saved, simd);
            &&& back == b.with_context(a.context(), simd).with_stack(a.rsp)
            &&& back.rsp == a.rsp
            &&& back.rip == a.rip
            &&& back.rbx == a.rbx && back.rbp == a.rbp && back.r12 == a.r12
            &&& back.r13 == a.r13 && back.r14 == a.r14 && back.r15 == a.r15
            &&& simd ==> back.context() == a.context()
        }),
{
    let low = a.rsp - frame_size(simd) - base;
    lemma_context_layout(a.context());
    lemma_context_layout(b.context());
    lemma_load_stored(before, low, a.context().image(simd));
    lemma_load_apart(
        later,
        b.rsp - frame_size(simd) - base,
        b.context().image(simd),
        low,
        a.rsp - base,
    );
    lemma_resumed_from_image(b, a.context(), (a.rsp - frame_size(simd)) as u64, simd);
}

} // verus!
