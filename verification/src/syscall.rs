//! The syscall dispatcher, the per-CPU scratch record of the trampoline, and
//! the values that enable the fast-syscall instruction pair.

use vstd::prelude::*;
use vstd::bytes::*;
use crate::context::word_at;

verus! {

/// The result of a syscall that hands nothing back: an unknown identifier,
/// or an action without a value of its own.
pub const UNSET_RESULT: u64 = 0xDEADBEEF01234567;

/// The identifier of the syscall that sends.
pub const SYSCALL_SEND: u64 = 1;

/// The identifier of the syscall that receives.
pub const SYSCALL_RECEIVE: u64 = 2;

/// What a syscall asks of the kernel.
#[derive(Clone, Copy, Debug, PartialEq, Eq)]
pub enum SyscallAction {
    /// Send, with the first three argument words.
    Send { arg1: u64, arg2: u64, arg3: u64 },
    /// Receive, with the first argument word.
    Receive { arg1: u64 },
    /// The identifier names no syscall: to be reported, nothing else.
    Invalid { syscall_number: u64 },
}

/// The action that belongs to an identifier and its first three arguments.
pub open spec fn action_for(syscall_number: u64, arg1: u64, arg2: u64, arg3: u64) -> SyscallAction {
    if syscall_number == SYSCALL_SEND {
        SyscallAction::Send { arg1, arg2, arg3 }
    } else if syscall_number == SYSCALL_RECEIVE {
        SyscallAction::Receive { arg1 }
    } else {
        SyscallAction::Invalid { syscall_number }
    }
}

/// The value that goes back to user mode: what a receive has handed back,
/// and the unset result in every other case.
pub open spec fn result_for(action: SyscallAction, received: Option<u64>) -> u64 {
    match (action, received) {
        (SyscallAction::Receive { .. }, Some(value)) => value,
        _ => UNSET_RESULT,
    }
}

/// Maps a syscall identifier and its six argument words to the action to
/// take. An unknown identifier is no failure: it maps to
/// [`SyscallAction::Invalid`].
pub fn syscall_dispatcher(
    syscall_number: u64,
    arg1: u64,
    arg2: u64,
    arg3: u64,
    arg4: u64,
    arg5: u64,
    arg6: u64,
) -> (action: SyscallAction)
    ensures
        action == action_for(syscall_number, arg1, arg2, arg3),
{
    match syscall_number {
        1 => SyscallAction::Send { arg1, arg2, arg3 },
        2 => SyscallAction::Receive { arg1 },
        _ => SyscallAction::Invalid { syscall_number },
    }
}

/// The syscall's result, once its action has been carried out: `received`
/// is what a receive has handed back, and `None` after any other action.
pub fn syscall_result(action: SyscallAction, received: Option<u64>) -> (result: u64)
    ensures
        result == result_for(action, received),
{
    match action {
        SyscallAction::Receive { .. } => match received {
            Some(value) => value,
            None => UNSET_RESULT,
        },
        _ => UNSET_RESULT,
    }
}

/// Byte offset of the kernel stack pointer in the scratch record.
pub const KERNEL_STACK_OFFSET: u64 = 0x0;

/// Byte offset of the saved user stack pointer in the scratch record.
pub const USER_STACK_OFFSET: u64 = 0x8;

/// Byte offset of the saved user instruction pointer in the scratch record.
pub const USER_IP_OFFSET: u64 = 0x10;

/// Byte offset of the saved user flags in the scratch record.
pub const USER_FLAGS_OFFSET: u64 = 0x18;

/// Bytes of the scratch record.
pub const GS_DATA_BYTES: u64 = 0x20;

/// The per-CPU scratch record through which the trampoline changes stacks.
/// The trampoline finds it through the `gs` base, so the order of the fields
/// is fixed.
#[derive(Clone, Copy, Debug, PartialEq, Eq)]
pub struct UserTaskGsData {
    /// The kernel's stack pointer; set once.
    pub kernel_stack: u64,
    /// The user task's stack pointer, kept from syscall entry to return.
    pub user_stack: u64,
    /// The user task's instruction pointer, kept from syscall entry to return.
    pub user_ip: u64,
    /// The user task's flags, kept from syscall entry to return.
    pub user_flags: u64,
}

impl UserTaskGsData {
    /// The record as it is before the first syscall.
    pub open spec fn initial(privilege_stack_top_usable: usize) -> UserTaskGsData {
        UserTaskGsData {
            kernel_stack: privilege_stack_top_usable as u64,
            user_stack: 0,
            user_ip: 0,
            user_flags: 0,
        }
    }

    /// The 32 bytes of the record as they lie in memory.
    pub open spec fn image(self) -> Seq<u8> {
        spec_u64_to_le_bytes(self.kernel_stack) + spec_u64_to_le_bytes(self.user_stack)
            + spec_u64_to_le_bytes(self.user_ip) + spec_u64_to_le_bytes(self.user_flags)
    }

    /// The record that 32 bytes of memory hold.
    pub open spec fn decode(bytes: Seq<u8>) -> UserTaskGsData {
        UserTaskGsData {
            kernel_stack: word_at(bytes, KERNEL_STACK_OFFSET as int),
            user_stack: word_at(bytes, USER_STACK_OFFSET as int),
            user_ip: word_at(bytes, USER_IP_OFFSET as int),
            user_flags: word_at(bytes, USER_FLAGS_OFFSET as int),
        }
    }

    /// The bytes of the record, ready to be put where the `gs` base points.
    pub fn to_bytes(&self) -> (bytes: Vec<u8>)
        ensures
            bytes@ == self.image(),
    {
        let mut bytes = u64_to_le_bytes(self.kernel_stack);
        let mut word = u64_to_le_bytes(self.user_stack);
        bytes.append(&mut word);
        let mut word = u64_to_le_bytes(self.user_ip);
        bytes.append(&mut word);
        let mut word = u64_to_le_bytes(self.user_flags);
        bytes.append(&mut word);
        bytes
    }
}

/// Where each field of the scratch record lies: the kernel stack pointer at
/// byte 0, and the three fields that every syscall rewrites at bytes 8, 16
/// and 24.
pub proof fn lemma_gs_data_layout(gs_data: UserTaskGsData)
    ensures
        gs_data.image().len() == GS_DATA_BYTES == 32,
        word_at(gs_data.image(), 0) == gs_data.kernel_stack,
        word_at(gs_data.image(), 8) == gs_data.user_stack,
        word_at(gs_data.image(), 16) == gs_data.user_ip,
        word_at(gs_data.image(), 24) == gs_data.user_flags,
        gs_data.image().subrange(8, 32) == spec_u64_to_le_bytes(gs_data.user_stack)
            + spec_u64_to_le_bytes(gs_data.user_ip) + spec_u64_to_le_bytes(gs_data.user_flags),
        UserTaskGsData::decode(gs_data.image()) == gs_data,
{
    lemma_auto_spec_u64_to_from_le_bytes();
    let image = gs_data.image();
    assert(image.subrange(0, 8) =~= spec_u64_to_le_bytes(gs_data.kernel_stack));
    assert(image.subrange(8, 16) =~= spec_u64_to_le_bytes(gs_data.user_stack));
    assert(image.subrange(16, 24) =~= spec_u64_to_le_bytes(gs_data.user_ip));
    assert(image.subrange(24, 32) =~= spec_u64_to_le_bytes(gs_data.user_flags));
    assert(image.subrange(8, 32) =~= spec_u64_to_le_bytes(gs_data.user_stack)
        + spec_u64_to_le_bytes(gs_data.user_ip) + spec_u64_to_le_bytes(gs_data.user_flags));
}

/// The scratch record of a CPU whose syscalls are to run on the privileged
/// stack that ends at `privilege_stack_top_usable`. It is to be put at an
/// address that stays valid for as long as the CPU runs.
pub fn init(privilege_stack_top_usable: usize) -> (gs_data: UserTaskGsData)
    ensures
        gs_data == UserTaskGsData::initial(privilege_stack_top_usable),
{
    UserTaskGsData {
        kernel_stack: privilege_stack_top_usable as u64,
        user_stack: 0,
        user_ip: 0,
        user_flags: 0,
    }
}

/// The flag that enables interrupts, as a bit of the flags register.
pub const INTERRUPT_FLAG: u64 = 0x200;

/// The values to program into the model-specific registers of one CPU.
#[derive(Clone, Copy, Debug, PartialEq, Eq)]
pub struct SyscallRegisters {
    /// The `gs` base that a swap brings in: the scratch record's address.
    pub kernel_gs_base: u64,
    /// The active `gs` base: the scratch record's address.
    pub gs_base: u64,
    /// The address at which a syscall enters the kernel.
    pub lstar: u64,
    /// The code selectors for syscall entry and return, in the upper half.
    pub star: u64,
    /// The flags that are cleared on syscall entry.
    pub fmask: u64,
}

/// The selector pair: the user code selector less three in the upper
/// sixteen bits, the kernel code selector in the lower sixteen.
pub open spec fn star_selectors(user_code_selector: u16, kernel_code_selector: u16) -> u32 {
    (((user_code_selector - 3) as u32) << 16) | (kernel_code_selector as u32)
}

/// The selector pair, placed in the upper 32 bits of the register.
pub open spec fn star_value(user_code_selector: u16, kernel_code_selector: u16) -> u64 {
    (star_selectors(user_code_selector, kernel_code_selector) as u64) << 32
}

/// The values that make the fast-syscall instruction enter the kernel at
/// `syscall_handler_addr`, with the scratch record at `gs_data_addr`, with
/// interrupts masked on entry, and with the code selectors derived from the
/// platform's user and kernel code selectors.
pub fn enable_syscall_sysret(
    gs_data_addr: u64,
    syscall_handler_addr: u64,
    user_code_selector: u16,
    kernel_code_selector: u16,
) -> (registers: SyscallRegisters)
    requires
        user_code_selector >= 3,
    ensures
        registers == (SyscallRegisters {
            kernel_gs_base: gs_data_addr,
            gs_base: gs_data_addr,
            lstar: syscall_handler_addr,
            star: star_value(user_code_selector, kernel_code_selector),
            fmask: INTERRUPT_FLAG,
        }),
{
    let user_cs: u16 = user_code_selector - 3;
    let kernel_cs: u16 = kernel_code_selector;
    let star_val: u32 = ((user_cs as u32) << 16) | (kernel_cs as u32);
    SyscallRegisters {
        kernel_gs_base: gs_data_addr,
        gs_base: gs_data_addr,
        lstar: syscall_handler_addr,
        star: (star_val as u64) << 32,
        fmask: INTERRUPT_FLAG,
    }
}

/// The selector register holds the pair in its upper 32 bits and nothing
/// below: bits 48 to 63 are the user code selector less three, bits 32 to
/// 47 the kernel code selector.
pub proof fn lemma_star_value(user_code_selector: u16, kernel_code_selector: u16)
    requires
        user_code_selector >= 3,
    ensures
        star_value(user_code_selector, kernel_code_selector) >> 32 == star_selectors(
            user_code_selector,
            kernel_code_selector,
        ),
        star_value(user_code_selector, kernel_code_selector) & 0xffff_ffff == 0,
        star_value(user_code_selector, kernel_code_selector) >> 48 == user_code_selector - 3,
        (star_value(user_code_selector, kernel_code_selector) >> 32) & 0xffff
            == kernel_code_selector,
        star_value(user_code_selector, kernel_code_selector) == (user_code_selector - 3)
            * 0x1_0000_0000_0000 + kernel_code_selector * 0x1_0000_0000,
{
    let user: u16 = (user_code_selector - 3) as u16;
    let kernel: u16 = kernel_code_selector;
    let pair: u32 = ((user as u32) << 16) | (kernel as u32);
    let star: u64 = (pair as u64) << 32;
    assert(star >> 32 == pair && star & 0xffff_ffff == 0 && star >> 48 == user && (star >> 32)
        & 0xffff == kernel && star == user * 0x1_0000_0000_0000 + kernel * 0x1_0000_0000)
        by (bit_vector)
        requires
            pair == ((user as u32) << 16) | (kernel as u32),
            star == (pair as u64) << 32,
    ;
}

} // verus!
