use nano_core::context::Context;
use nano_core::cpu::Cpu;
use nano_core::memory::Memory;
use nano_core::switch::context_switch;

const BASE: u64 = 0xffff_8000_0000_0000;
const STACK_A: u64 = BASE + 0x1000;
const STACK_B: u64 = BASE + 0x2000;

fn task_a() -> Cpu {
    let mut cpu = Cpu::new();
    cpu.rsp = STACK_A - 0x40;
    cpu.rip = 0xffff_ffff_8000_1234;
    cpu.rbx = 0x1111_1111_1111_1111;
    cpu.rbp = 0x2222_2222_2222_2222;
    cpu.r12 = 0x3333_3333_3333_3333;
    cpu.r13 = 0x4444_4444_4444_4444;
    cpu.r14 = 0x5555_5555_5555_5555;
    cpu.r15 = u64::MAX;
    cpu.rax = 0xaaaa;
    cpu.rdi = 0xdddd;
    cpu.xmm0 = 1;
    cpu.xmm1 = u128::MAX;
    cpu.xmm5 = 0x0505_0505_0505_0505_0505_0505_0505_0505;
    cpu.xmm6 = 0x0606_0606_0606_0606_0606_0606_0606_0606;
    cpu.xmm15 = 0xf << 124;
    cpu
}

fn saved(cpu: &Cpu) -> Context {
    Context {
        xmm0: cpu.xmm0,
        xmm1: cpu.xmm1,
        xmm2: cpu.xmm2,
        xmm3: cpu.xmm3,
        xmm4: cpu.xmm4,
        xmm5: cpu.xmm5,
        xmm6: cpu.xmm6,
        xmm7: cpu.xmm7,
        xmm8: cpu.xmm8,
        xmm9: cpu.xmm9,
        xmm10: cpu.xmm10,
        xmm11: cpu.xmm11,
        xmm12: cpu.xmm12,
        xmm13: cpu.xmm13,
        xmm14: cpu.xmm14,
        xmm15: cpu.xmm15,
        r15: cpu.r15,
        r14: cpu.r14,
        r13: cpu.r13,
        r12: cpu.r12,
        rbp: cpu.rbp,
        rbx: cpu.rbx,
        rip: cpu.rip,
    }
}

fn memory_with_fresh_task(entry: usize, simd: bool) -> (Memory, u64) {
    let mut mem = Memory::new(BASE, 0x2000);
    let image = Context::new(entry).to_bytes(simd);
    let top = STACK_B - image.len() as u64;
    mem.write_bytes(top, &image);
    (mem, top)
}

#[test]
fn fresh_task_starts_at_its_entry_point() {
    let entry = 0xffff_ffff_8020_0000usize;
    let (mut mem, next) = memory_with_fresh_task(entry, true);
    let mut cpu = task_a();
    let mut prev = 0u64;
    context_switch(&mut cpu, &mut mem, &mut prev, next, true);
    assert_eq!(cpu.rip, entry as u64);
    assert_eq!(cpu.rsp, STACK_B);
    let mut expected = task_a();
    expected.rip = entry as u64;
    expected.rsp = STACK_B;
    expected.rbx = 0;
    expected.rbp = 0;
    expected.r12 = 0;
    expected.r13 = 0;
    expected.r14 = 0;
    expected.r15 = 0;
    expected.xmm0 = 0;
    expected.xmm1 = 0;
    expected.xmm5 = 0;
    expected.xmm6 = 0;
    expected.xmm15 = 0;
    assert_eq!(cpu, expected);
    assert_eq!(saved(&cpu), Context::new(entry));
}

#[test]
fn fresh_task_without_vector_registers() {
    let entry = 0x40_0000usize;
    let (mut mem, next) = memory_with_fresh_task(entry, false);
    assert_eq!(next, STACK_B - 56);
    let mut cpu = task_a();
    let mut prev = 0u64;
    context_switch(&mut cpu, &mut mem, &mut prev, next, false);
    let mut expected = task_a();
    expected.rip = entry as u64;
    expected.rsp = STACK_B;
    expected.rbx = 0;
    expected.rbp = 0;
    expected.r12 = 0;
    expected.r13 = 0;
    expected.r14 = 0;
    expected.r15 = 0;
    assert_eq!(cpu, expected);
    assert_eq!(cpu.xmm1, u128::MAX);
}

#[test]
fn switch_hands_out_the_stack_top_below_the_saved_frame() {
    let (mut mem, next) = memory_with_fresh_task(0x1000, true);
    let mut cpu = task_a();
    let mut prev = 0u64;
    context_switch(&mut cpu, &mut mem, &mut prev, next, true);
    assert_eq!(prev, STACK_A - 0x40 - 312);
    assert_eq!(task_a().rsp - prev, 6 * 8 + 16 * 16 + 8);

    let (mut mem, next) = memory_with_fresh_task(0x1000, false);
    let mut cpu = task_a();
    let mut prev = 0u64;
    context_switch(&mut cpu, &mut mem, &mut prev, next, false);
    assert_eq!(prev, STACK_A - 0x40 - 56);
    assert_eq!(task_a().rsp - prev, 6 * 8 + 8);
}

#[test]
fn saved_frame_is_the_image_of_the_context_record() {
    let (mut mem, next) = memory_with_fresh_task(0x1000, true);
    let mut cpu = task_a();
    let mut prev = 0u64;
    context_switch(&mut cpu, &mut mem, &mut prev, next, true);
    let frame = mem.read_bytes(prev, 312);
    assert_eq!(frame, saved(&task_a()).to_bytes(true));
    assert_eq!(mem.read_u128(prev), 1);
    assert_eq!(mem.read_u128(prev + 16), u128::MAX);
    assert_eq!(mem.read_u128(prev + 16 * 5), task_a().xmm5);
    assert_eq!(mem.read_u128(prev + 16 * 6), task_a().xmm6);
    assert_eq!(mem.read_u128(prev + 16 * 15), 0xf << 124);
    assert_eq!(mem.read_u64(prev + 256), u64::MAX);
    assert_eq!(mem.read_u64(prev + 264), 0x5555_5555_5555_5555);
    assert_eq!(mem.read_u64(prev + 272), 0x4444_4444_4444_4444);
    assert_eq!(mem.read_u64(prev + 280), 0x3333_3333_3333_3333);
    assert_eq!(mem.read_u64(prev + 288), 0x2222_2222_2222_2222);
    assert_eq!(mem.read_u64(prev + 296), 0x1111_1111_1111_1111);
    assert_eq!(mem.read_u64(prev + 304), 0xffff_ffff_8000_1234);
}

#[test]
fn saved_frame_without_vector_registers() {
    let (mut mem, next) = memory_with_fresh_task(0x1000, false);
    let mut cpu = task_a();
    let mut prev = 0u64;
    context_switch(&mut cpu, &mut mem, &mut prev, next, false);
    assert_eq!(mem.read_bytes(prev, 56), saved(&task_a()).to_bytes(false));
    assert_eq!(mem.read_bytes(prev - 256, 256), vec![0u8; 256]);
}

#[test]
fn switch_writes_nothing_outside_the_saved_frame() {
    let (mut mem, next) = memory_with_fresh_task(0x1000, true);
    mem.write_u64(STACK_A - 0x40, 0x0bad_cafe);
    let before = mem.read_bytes(BASE, 0x2000);
    let mut cpu = task_a();
    let mut prev = 0u64;
    context_switch(&mut cpu, &mut mem, &mut prev, next, true);
    let after = mem.read_bytes(BASE, 0x2000);
    let low = (prev - BASE) as usize;
    assert_eq!(&after[..low], &before[..low]);
    assert_eq!(&after[low + 312..], &before[low + 312..]);
    assert_eq!(mem.read_u64(STACK_A - 0x40), 0x0bad_cafe);
}

#[test]
fn switching_back_restores_every_saved_register() {
    let (mut mem, next_b) = memory_with_fresh_task(0x40_0000, true);
    let mut cpu = task_a();
    let mut stack_top_a = 0u64;
    context_switch(&mut cpu, &mut mem, &mut stack_top_a, next_b, true);

    cpu.rbx = 0xb0b0;
    cpu.rbp = 0xb1b1;
    cpu.r12 = 12;
    cpu.r13 = 13;
    cpu.r14 = 14;
    cpu.r15 = 15;
    cpu.xmm0 = 0xbbbb;
    cpu.xmm1 = 7;
    cpu.xmm5 = 55;
    cpu.xmm6 = 66;
    cpu.xmm9 = 99;
    cpu.rax = 0xbeef;
    cpu.push(&mut mem, 0x1234_5678);
    cpu.rip = 0x40_0042;
    let task_b = cpu;

    let mut stack_top_b = 0u64;
    context_switch(&mut cpu, &mut mem, &mut stack_top_b, stack_top_a, true);

    assert_eq!(saved(&cpu), saved(&task_a()));
    assert_eq!(cpu.rsp, task_a().rsp);
    assert_eq!(cpu.rip, task_a().rip);
    assert_eq!(cpu.xmm5, task_a().xmm5);
    assert_eq!(cpu.xmm6, task_a().xmm6);
    assert_eq!(cpu.rax, 0xbeef);
    assert_eq!(stack_top_b, STACK_B - 8 - 312);

    let mut stack_top_a_again = 0u64;
    context_switch(&mut cpu, &mut mem, &mut stack_top_a_again, stack_top_b, true);
    assert_eq!(stack_top_a_again, stack_top_a);
    assert_eq!(saved(&cpu), saved(&task_b));
    assert_eq!(cpu.rsp, task_b.rsp);
    assert_eq!(cpu.pop(&mem), 0x1234_5678);
}

#[test]
fn switching_back_without_vector_registers_keeps_them_as_they_are() {
    let (mut mem, next_b) = memory_with_fresh_task(0x40_0000, false);
    let mut cpu = task_a();
    let mut stack_top_a = 0u64;
    context_switch(&mut cpu, &mut mem, &mut stack_top_a, next_b, false);
    cpu.rbx = 1;
    cpu.r15 = 2;
    cpu.xmm1 = 3;
    let mut stack_top_b = 0u64;
    context_switch(&mut cpu, &mut mem, &mut stack_top_b, stack_top_a, false);
    let mut expected = task_a();
    expected.xmm1 = 3;
    assert_eq!(cpu, expected);
}

#[test]
fn push_and_pop_move_the_stack_pointer_by_eight() {
    let mut mem = Memory::new(0x1000, 0x100);
    let mut cpu = Cpu::new();
    cpu.rsp = 0x1100;
    cpu.push(&mut mem, 0xdead_beef);
    assert_eq!(cpu.rsp, 0x10f8);
    assert_eq!(mem.read_u64(0x10f8), 0xdead_beef);
    cpu.push(&mut mem, 7);
    assert_eq!(cpu.rsp, 0x10f0);
    assert_eq!(cpu.pop(&mem), 7);
    assert_eq!(cpu.pop(&mem), 0xdead_beef);
    assert_eq!(cpu.rsp, 0x1100);
}

#[test]
fn new_cpu_is_zeroed() {
    let cpu = Cpu::new();
    assert_eq!(cpu.rsp, 0);
    assert_eq!(cpu.rip, 0);
    assert_eq!(cpu.rflags, 0);
    assert_eq!(cpu.gs_base, 0);
    assert_eq!(cpu.kernel_gs_base, 0);
    assert_eq!(saved(&cpu), Context::new(0));
}
