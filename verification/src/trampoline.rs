//! The syscall trampoline: what runs between the fast-syscall instruction
//! and the dispatcher, and between the dispatcher and the return to user
//! mode.

use vstd::prelude::*;
use vstd::bytes::*;
use crate::context::word_at;
use crate::cpu::Cpu;
use crate::memory::{lemma_load_apart, lemma_store_above, store, Memory};
use crate::syscall::{
    lemma_gs_data_layout, UserTaskGsData, GS_DATA_BYTES, KERNEL_STACK_OFFSET, USER_FLAGS_OFFSET,
    USER_IP_OFFSET, USER_STACK_OFFSET,
};

verus! {

/// The identifier and the six argument words of one syscall.
#[derive(Clone, Copy, Debug, PartialEq, Eq)]
pub struct SyscallArgs {
    pub syscall_number: u64,
    pub arg1: u64,
    pub arg2: u64,
    pub arg3: u64,
    pub arg4: u64,
    pub arg5: u64,
    pub arg6: u64,
}

/// The identifier and arguments as user mode leaves them in the registers.
pub open spec fn captured(cpu: Cpu) -> SyscallArgs {
    SyscallArgs {
        syscall_number: cpu.rax,
        arg1: cpu.rdi,
        arg2: cpu.rsi,
        arg3: cpu.rdx,
        arg4: cpu.r10,
        arg5: cpu.r8,
        arg6: cpu.r9,
    }
}

/// The 24 bytes that entry writes into the scratch record: the user's stack
/// pointer, and the two registers in which the hardware has left the user's
/// instruction pointer and flags.
pub open spec fn saved_user_state(cpu: Cpu) -> Seq<u8> {
    spec_u64_to_le_bytes(cpu.rsp) + spec_u64_to_le_bytes(cpu.rcx) + spec_u64_to_le_bytes(cpu.r11)
}

/// The state after entry: the two `gs` bases have changed places, and the
/// stack pointer is the kernel's.
pub open spec fn entered(cpu: Cpu, kernel_stack: u64) -> Cpu {
    Cpu { gs_base: cpu.kernel_gs_base, kernel_gs_base: cpu.gs_base, rsp: kernel_stack, ..cpu }
}

/// The state after the return to user mode: the result is in `rax`; the
/// stack pointer, the instruction pointer and the flags are those that the
/// scratch record holds; the two `gs` bases have changed places.
pub open spec fn returned(cpu: Cpu, gs_data: UserTaskGsData, result: u64) -> Cpu {
    Cpu {
        rax: result,
        rsp: gs_data.user_stack,
        rcx: gs_data.user_ip,
        r11: gs_data.user_flags,
        rip: gs_data.user_ip,
        rflags: gs_data.user_flags,
        gs_base: cpu.kernel_gs_base,
        kernel_gs_base: cpu.gs_base,
        ..cpu
    }
}

/// Enters the kernel after a fast-syscall instruction.
///
/// The `gs` bases are swapped, so that `gs` points to the scratch record.
/// The user's stack pointer, instruction pointer and flags go into the
/// record's three fields at bytes 8, 16 and 24, and the stack pointer is
/// loaded from the field at byte 0. The identifier and the six arguments
/// are taken from the registers in which user mode has left them.
pub fn syscall_entry(cpu: &mut Cpu, mem: &mut Memory) -> (args: SyscallArgs)
    requires
        old(mem).wf(),
        old(mem).contains(old(cpu).kernel_gs_base as int, GS_DATA_BYTES as int),
    ensures
        args == captured(*old(cpu)),
        final(mem).base() == old(mem).base(),
        final(mem)@ == old(mem).stored(
            old(cpu).kernel_gs_base + USER_STACK_OFFSET,
            saved_user_state(*old(cpu)),
        ),
        *final(cpu) == entered(
            *old(cpu),
            UserTaskGsData::decode(
                old(mem).load(old(cpu).kernel_gs_base as int, GS_DATA_BYTES as int),
            ).kernel_stack,
        ),
{
    proof {
        lemma_auto_spec_u64_to_from_le_bytes();
    }
    let ghost before = mem@;
    let ghost record = old(cpu).kernel_gs_base - mem.base();
    let user_gs = cpu.gs_base;
    cpu.gs_base = cpu.kernel_gs_base;
    cpu.kernel_gs_base = user_gs;
    mem.write_u64(cpu.gs_base + USER_STACK_OFFSET, cpu.rsp);
    mem.write_u64(cpu.gs_base + USER_IP_OFFSET, cpu.rcx);
    mem.write_u64(cpu.gs_base + USER_FLAGS_OFFSET, cpu.r11);
    proof {
        let stack = spec_u64_to_le_bytes(cpu.rsp);
        let ip = spec_u64_to_le_bytes(cpu.rcx);
        let flags = spec_u64_to_le_bytes(cpu.r11);
        lemma_store_above(before, record + 8, stack, ip);
        lemma_store_above(before, record + 8, stack + ip, flags);
        lemma_load_apart(before, record + 8, stack + ip + flags, record, record + 8);
        assert(old(mem).load(old(cpu).kernel_gs_base as int, 32).subrange(0, 8) =~= before.subrange(
            record,
            record + 8,
        ));
    }
    cpu.rsp = mem.read_u64(cpu.gs_base + KERNEL_STACK_OFFSET);
    SyscallArgs {
        syscall_number: cpu.rax,
        arg1: cpu.rdi,
        arg2: cpu.rsi,
        arg3: cpu.rdx,
        arg4: cpu.r10,
        arg5: cpu.r8,
        arg6: cpu.r9,
    }
}

/// Returns to user mode with `result`.
///
/// The result goes into `rax`. The stack pointer and the two registers from
/// which the hardware restores the instruction pointer and the flags are
/// loaded from the scratch record; its kernel stack field is neither read
/// nor written. The `gs` bases are swapped back, and the return instruction
/// puts the instruction pointer and the flags in place.
pub fn syscall_exit(cpu: &mut Cpu, mem: &Memory, result: u64)
    requires
        mem.wf(),
        mem.contains(old(cpu).gs_base as int, GS_DATA_BYTES as int),
    ensures
        *final(cpu) == returned(
            *old(cpu),
            UserTaskGsData::decode(mem.load(old(cpu).gs_base as int, GS_DATA_BYTES as int)),
            result,
        ),
{
    let ghost record = mem.load(cpu.gs_base as int, 32);
    assert(record.subrange(8, 16) =~= mem.load(cpu.gs_base + 8, 8));
    assert(record.subrange(16, 24) =~= mem.load(cpu.gs_base + 16, 8));
    assert(record.subrange(24, 32) =~= mem.load(cpu.gs_base + 24, 8));
    cpu.rax = result;
    cpu.rsp = mem.read_u64(cpu.gs_base + USER_STACK_OFFSET);
    cpu.rcx = mem.read_u64(cpu.gs_base + USER_IP_OFFSET);
    cpu.r11 = mem.read_u64(cpu.gs_base + USER_FLAGS_OFFSET);
    let kernel_gs = cpu.gs_base;
    cpu.gs_base = cpu.kernel_gs_base;
    cpu.kernel_gs_base = kernel_gs;
    cpu.rip = cpu.rcx;
    cpu.rflags = cpu.r11;
}

/// Entry fills the scratch record and takes the kernel stack from it.
///
/// `before` is the memory, from address `base` on, at entry in state `cpu`;
/// where the waiting `gs` base points it holds the record `gs_data`. After
/// entry the record there has the same kernel stack pointer, and the user's
/// stack pointer, instruction pointer and flags at bytes 8, 16 and 24; the
/// stack pointer is the record's kernel stack pointer.
pub proof fn lemma_entry_fills_record(
    cpu: Cpu,
    before: Seq<u8>,
    base: u64,
    gs_data: UserTaskGsData,
)
    requires
        base <= cpu.kernel_gs_base,
        cpu.kernel_gs_base + GS_DATA_BYTES <= base + before.len(),
        before.subrange(cpu.kernel_gs_base - base, cpu.kernel_gs_base - base + GS_DATA_BYTES)
            == gs_data.image(),
    ensures
        ({
            let record = cpu.kernel_gs_base - base;
            let after = store(before, record + USER_STACK_OFFSET, saved_user_state(cpu));
            &&& after.subrange(record, record + GS_DATA_BYTES) == (UserTaskGsData {
                kernel_stack: gs_data.kernel_stack,
                user_stack: cpu.rsp,
                user_ip: cpu.rcx,
                user_flags: cpu.r11,
            }).image()
            &&& entered(
                cpu,
                UserTaskGsData::decode(before.subrange(record, record + GS_DATA_BYTES)).kernel_stack,
            ).rsp == gs_data.kernel_stack
        }),
{
    lemma_auto_spec_u64_to_from_le_bytes();
    lemma_gs_data_layout(gs_data);
    let record = cpu.kernel_gs_base - base;
    let after = store(before, record + 8, saved_user_state(cpu));
    let filled = UserTaskGsData {
        kernel_stack: gs_data.kernel_stack,
        user_stack: cpu.rsp,
        user_ip: cpu.rcx,
        user_flags: cpu.r11,
    };
    assert(gs_data.image().subrange(0, 8) =~= spec_u64_to_le_bytes(gs_data.kernel_stack));
    assert(after.subrange(record, record + 32) =~= filled.image());
}

/// A syscall gives the user task back what entry took from it.
///
/// Entry happens in state `user` with the memory `before` from address
/// `base` on. `later` is the memory and `kernel` the state when the kernel
/// returns with `result`: whatever ran in between has left the scratch
/// record as entry filled it, and the `gs` bases as entry swapped them. Then
/// user mode goes on with its own stack pointer and `gs` bases, at the
/// instruction pointer and with the flags that the hardware had left in
/// `rcx` and `r11`, and with the result in `rax`.
pub proof fn lemma_syscall_round_trip(
    user: Cpu,
    before: Seq<u8>,
    base: u64,
    kernel: Cpu,
    later: Seq<u8>,
    result: u64,
)
    requires
        base <= user.kernel_gs_base,
        user.kernel_gs_base + GS_DATA_BYTES <= base + before.len(),
        later.len() == before.len(),
        later.subrange(
            user.kernel_gs_base - base,
            user.kernel_gs_base - base + GS_DATA_BYTES,
        ) == store(
            before,
            user.kernel_gs_base - base + USER_STACK_OFFSET,
            saved_user_state(user),
        ).subrange(user.kernel_gs_base - base, user.kernel_gs_base - base + GS_DATA_BYTES),
        kernel.gs_base == user.kernel_gs_base,
        kernel.kernel_gs_base == user.gs_base,
    ensures
        ({
            let record = kernel.gs_base - base;
            let back = returned(
                kernel,
                UserTaskGsData::decode(later.subrange(record, record + GS_DATA_BYTES)),
                result,
            );
            &&& back.rax == result
            &&& back.rsp == user.rsp
            &&& back.rip == user.rcx
            &&& back.rflags == user.r11
            &&& back.rcx == user.rcx
            &&& back.r11 == user.r11
            &&& back.gs_base == user.gs_base
            &&& back.kernel_gs_base == user.kernel_gs_base
        }),
{
    let record = user.kernel_gs_base - base;
    let gs_data = UserTaskGsData::decode(before.subrange(record, record + 32));
    let held = UserTaskGsData {
        kernel_stack: gs_data.kernel_stack,
        user_stack: user.rsp,
        user_ip: user.rcx,
        user_flags: user.r11,
    };
    lemma_auto_spec_u64_to_from_le_bytes();
    lemma_gs_data_layout(held);
    let after = store(before, record + 8, saved_user_state(user));
    let now = after.subrange(record, record + 32);
    assert(now.subrange(8, 32) =~= saved_user_state(user));
    assert(now.subrange(8, 16) =~= saved_user_state(user).subrange(0, 8));
    assert(now.subrange(16, 24) =~= saved_user_state(user).subrange(8, 16));
    assert(now.subrange(24, 32) =~= saved_user_state(user).subrange(16, 24));
    assert(saved_user_state(user).subrange(0, 8) =~= spec_u64_to_le_bytes(user.rsp));
    assert(saved_user_state(user).subrange(8, 16) =~= spec_u64_to_le_bytes(user.rcx));
    assert(saved_user_state(user).subrange(16, 24) =~= spec_u64_to_le_bytes(user.r11));
}

} // verus!
