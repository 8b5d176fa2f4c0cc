use vm::assembler::Assembler;
use vm::error::Error;
use vm::instructions::call::CallIndex;
use vm::instructions::{Executable, Instruction, Operand};
use vm::memory::Memory;
use vm::register::{Flag, Width};
use vm::Vm;

fn run_program(vm: &mut Vm, handle: usize) {
    vm.processor_mut(handle).unwrap().start().unwrap();
}

#[test]
pub fn mov_immediate_to_register() {
    let mut vm = Vm::new();
    let stream = Assembler::new()
        .mov(Operand::Value(42), Operand::Register(Width::QWord(0)))
        .compile();
    vm.load_instructions(stream).unwrap();

    let handle = vm.new_processor();
    run_program(&mut vm, handle);

    let processor = vm.processor(handle).unwrap();
    assert_eq!(processor.register(0).unwrap().as_u64(), 42);
    // One net movement of the instruction counter per executed instruction.
    assert_eq!(processor.register(15).unwrap().as_u64(), 1);
}

#[test]
pub fn mov_through_memory_and_memory_register() {
    let mut vm = Vm::new();
    let stream = Assembler::new()
        // A direct memory cell, written and read back into a register.
        .mov(Operand::Value(0x0123), Operand::Memory(Width::Word(100)))
        .mov(Operand::Memory(Width::Word(100)), Operand::Register(Width::QWord(2)))
        // An indirect cell: register five holds the address.
        .mov(Operand::Value(200), Operand::Register(Width::QWord(5)))
        .mov(Operand::Value(0xAB), Operand::MemoryRegister(Width::Byte(5)))
        .mov(Operand::MemoryRegister(Width::Byte(5)), Operand::Register(Width::QWord(3)))
        .compile();
    vm.load_instructions(stream).unwrap();

    let handle = vm.new_processor();
    run_program(&mut vm, handle);

    let processor = vm.processor(handle).unwrap();
    assert_eq!(processor.register(2).unwrap().as_u64(), 0x0123);
    assert_eq!(processor.register(3).unwrap().as_u64(), 0xAB);
}

#[test]
pub fn mov_register_truncates_to_width() {
    let mut vm = Vm::new();
    let stream = Assembler::new()
        .mov(Operand::Value(0x1122_3344_5566_7788), Operand::Register(Width::QWord(1)))
        // A byte-wide read of register one, zero-extended into register two.
        .mov(Operand::Register(Width::Byte(1)), Operand::Register(Width::QWord(2)))
        // A byte-wide write into register three keeps its high bytes.
        .mov(Operand::Value(0xFFFF), Operand::Register(Width::QWord(3)))
        .mov(Operand::Value(0xAB), Operand::Register(Width::Byte(3)))
        .compile();
    vm.load_instructions(stream).unwrap();

    let handle = vm.new_processor();
    run_program(&mut vm, handle);

    let processor = vm.processor(handle).unwrap();
    assert_eq!(processor.register(2).unwrap().as_u64(), 0x88);
    assert_eq!(processor.register(3).unwrap().as_u64(), 0xFFAB);
}

#[test]
pub fn cmp_sets_zero_iff_equal_and_greater_iff_above() {
    // Equal operands: the zero flag, and only it, is set.
    let mut vm = Vm::new();
    let stream = Assembler::new()
        .cmp(Operand::Value(7), Operand::Value(7))
        .compile();
    vm.load_instructions(stream).unwrap();
    let handle = vm.new_processor();
    run_program(&mut vm, handle);
    let processor = vm.processor(handle).unwrap();
    assert!(processor.flag(Flag::Zero));
    assert!(!processor.flag(Flag::Greater));
    assert!(!processor.flag(Flag::Overflow));

    // A greater value: the greater flag, and only it, is set.
    let stream = Assembler::new()
        .cmp(Operand::Value(9), Operand::Value(7))
        .compile();
    vm.load_instructions(stream).unwrap();
    let handle = vm.new_processor();
    run_program(&mut vm, handle);
    let processor = vm.processor(handle).unwrap();
    assert!(!processor.flag(Flag::Zero));
    assert!(processor.flag(Flag::Greater));

    // A smaller value: neither flag.
    let stream = Assembler::new()
        .cmp(Operand::Value(5), Operand::Value(7))
        .compile();
    vm.load_instructions(stream).unwrap();
    let handle = vm.new_processor();
    run_program(&mut vm, handle);
    let processor = vm.processor(handle).unwrap();
    assert!(!processor.flag(Flag::Zero));
    assert!(!processor.flag(Flag::Greater));
}

#[test]
pub fn add_wraps_at_full_width_and_sets_overflow() {
    let mut vm = Vm::new();
    let stream = Assembler::new()
        .mov(Operand::Value(0xFFFF_FFFF_FFFF_FFFF), Operand::Register(Width::QWord(0)))
        .add(
            Operand::Value(1),
            Operand::Register(Width::QWord(0)),
            Operand::Register(Width::QWord(0)),
        )
        .compile();
    vm.load_instructions(stream).unwrap();

    let handle = vm.new_processor();
    run_program(&mut vm, handle);

    let processor = vm.processor(handle).unwrap();
    assert_eq!(processor.register(0).unwrap().as_u64(), 0);
    assert!(processor.flag(Flag::Overflow));
}

#[test]
pub fn add_within_narrow_width_keeps_overflow_clear() {
    let mut vm = Vm::new();
    let stream = Assembler::new()
        .mov(Operand::Value(1), Operand::Register(Width::Byte(0)))
        .add(
            Operand::Value(1),
            Operand::Register(Width::Byte(0)),
            Operand::Register(Width::Byte(0)),
        )
        .compile();
    vm.load_instructions(stream).unwrap();

    let handle = vm.new_processor();
    run_program(&mut vm, handle);

    let processor = vm.processor(handle).unwrap();
    assert_eq!(processor.register(0).unwrap().as_u8(), 2);
    assert!(!processor.flag(Flag::Overflow));
}

#[test]
pub fn add_wraps_at_narrow_width_and_sets_overflow() {
    let mut vm = Vm::new();
    let stream = Assembler::new()
        .mov(Operand::Value(0xFF), Operand::Register(Width::Byte(0)))
        .add(
            Operand::Value(1),
            Operand::Register(Width::Byte(0)),
            Operand::Register(Width::Byte(0)),
        )
        .compile();
    vm.load_instructions(stream).unwrap();

    let handle = vm.new_processor();
    run_program(&mut vm, handle);

    let processor = vm.processor(handle).unwrap();
    assert_eq!(processor.register(0).unwrap().as_u8(), 0);
    assert!(processor.flag(Flag::Overflow));
}

#[test]
pub fn counting_loop_halts_after_exactly_bound_iterations() {
    // The counting program with a scaled-down bound: count in register zero
    // up to the bound in register one, then dump and halt. The taken
    // back-branch moves the instruction counter exactly once per cycle, so
    // the loop body runs exactly `bound` times.
    let bound: u64 = 1000;
    let mut vm = Vm::new();
    let stream = Assembler::new()
        .mov(Operand::Value(0), Operand::Register(Width::QWord(0)))
        .mov(Operand::Value(bound), Operand::Register(Width::QWord(1)))
        .add(
            Operand::Value(1),
            Operand::Register(Width::QWord(0)),
            Operand::Register(Width::QWord(0)),
        )
        .cmp(
            Operand::Register(Width::QWord(0)),
            Operand::Register(Width::QWord(1)),
        )
        .jnz(Operand::Value(2))
        .call(Operand::Value(0))
        .compile();
    vm.load_instructions(stream).unwrap();

    let handle = vm.new_processor();
    run_program(&mut vm, handle);

    let processor = vm.processor(handle).unwrap();
    assert_eq!(processor.register(0).unwrap().as_u64(), bound);
    assert_eq!(processor.register(1).unwrap().as_u64(), bound);
    assert!(processor.flag(Flag::Zero));
    assert!(!processor.flag(Flag::Greater));
    assert!(!processor.flag(Flag::Overflow));
    // Halted one past the end of the six-instruction stream.
    assert_eq!(processor.register(15).unwrap().as_u64(), 6);
    // The dump call ran once, snapshotting all sixteen registers.
    assert_eq!(processor.diagnostics().len(), 1);
    assert_eq!(processor.diagnostics()[0].len(), 16);
    assert_eq!(processor.diagnostics()[0][0], bound);
    assert_eq!(processor.diagnostics()[0][15], 5);
}

#[test]
pub fn jmp_and_jz_control_flow() {
    // An unconditional jump skips an instruction.
    let mut vm = Vm::new();
    let stream = Assembler::new()
        .jmp(Operand::Value(2))
        .mov(Operand::Value(1), Operand::Register(Width::QWord(0)))
        .mov(Operand::Value(2), Operand::Register(Width::QWord(1)))
        .compile();
    vm.load_instructions(stream).unwrap();
    let handle = vm.new_processor();
    run_program(&mut vm, handle);
    let processor = vm.processor(handle).unwrap();
    assert_eq!(processor.register(0).unwrap().as_u64(), 0);
    assert_eq!(processor.register(1).unwrap().as_u64(), 2);

    // A taken `Jz` clears the zero flag; an untaken one falls through.
    let stream = Assembler::new()
        .cmp(Operand::Value(4), Operand::Value(4))
        .jz(Operand::Value(3))
        .mov(Operand::Value(1), Operand::Register(Width::QWord(0)))
        .mov(Operand::Value(2), Operand::Register(Width::QWord(1)))
        .compile();
    vm.load_instructions(stream).unwrap();
    let handle = vm.new_processor();
    run_program(&mut vm, handle);
    let processor = vm.processor(handle).unwrap();
    assert_eq!(processor.register(0).unwrap().as_u64(), 0);
    assert_eq!(processor.register(1).unwrap().as_u64(), 2);
    assert!(!processor.flag(Flag::Zero));
}

#[test]
pub fn reload_is_visible_to_old_and_new_processors() {
    // A stream reload is visible to every processor sharing the context,
    // created before or after the reload.
    let mut vm = Vm::new();
    let before = vm.new_processor();

    let first = Assembler::new()
        .mov(Operand::Value(5), Operand::Register(Width::QWord(0)))
        .compile();
    vm.load_instructions(first).unwrap();
    run_program(&mut vm, before);
    assert_eq!(
        vm.processor(before).unwrap().register(0).unwrap().as_u64(),
        5
    );

    let second = Assembler::new()
        .mov(Operand::Value(9), Operand::Register(Width::QWord(0)))
        .compile();
    vm.load_instructions(second).unwrap();
    let after = vm.new_processor();

    // The processor created before the reload must restart from the top of
    // the new stream.
    let processor = vm.processor_mut(before).unwrap();
    let register = processor.register_mut(15).unwrap();
    register.assign_u64(0);
    run_program(&mut vm, before);
    run_program(&mut vm, after);

    assert_eq!(
        vm.processor(before).unwrap().register(0).unwrap().as_u64(),
        9
    );
    assert_eq!(
        vm.processor(after).unwrap().register(0).unwrap().as_u64(),
        9
    );
}

#[test]
pub fn execution_errors_abort_the_run() {
    // An immediate destination cannot be written.
    let mut vm = Vm::new();
    let stream = Assembler::new()
        .mov(Operand::Value(1), Operand::Value(2))
        .compile();
    vm.load_instructions(stream).unwrap();
    let handle = vm.new_processor();
    assert_eq!(
        vm.processor_mut(handle).unwrap().start(),
        Err(Error::InvalidOperand)
    );

    // An absent operand resolves to no value.
    let stream = Assembler::new()
        .mov(Operand::Absent, Operand::Register(Width::QWord(0)))
        .compile();
    vm.load_instructions(stream).unwrap();
    let handle = vm.new_processor();
    assert_eq!(
        vm.processor_mut(handle).unwrap().start(),
        Err(Error::InvalidOperand)
    );

    // A register index outside the sixteen-cell bank.
    let stream = Assembler::new()
        .mov(Operand::Value(1), Operand::Register(Width::QWord(16)))
        .compile();
    vm.load_instructions(stream).unwrap();
    let handle = vm.new_processor();
    assert_eq!(
        vm.processor_mut(handle).unwrap().start(),
        Err(Error::RegisterIndexOutOfBounds)
    );

    // A read at an address no write has created.
    let stream = Assembler::new()
        .mov(Operand::Memory(Width::Byte(77)), Operand::Register(Width::QWord(0)))
        .compile();
    vm.load_instructions(stream).unwrap();
    let handle = vm.new_processor();
    assert_eq!(
        vm.processor_mut(handle).unwrap().start(),
        Err(Error::AddressNotPresent)
    );

    // A read wider than the stored cell.
    let stream = Assembler::new()
        .mov(Operand::Value(1), Operand::Memory(Width::Byte(77)))
        .mov(Operand::Memory(Width::QWord(77)), Operand::Register(Width::QWord(0)))
        .compile();
    vm.load_instructions(stream).unwrap();
    let handle = vm.new_processor();
    assert_eq!(
        vm.processor_mut(handle).unwrap().start(),
        Err(Error::WidthMismatch)
    );

    // A call index with no registered callback.
    let stream = Assembler::new().call(Operand::Value(3)).compile();
    vm.load_instructions(stream).unwrap();
    let handle = vm.new_processor();
    assert_eq!(
        vm.processor_mut(handle).unwrap().start(),
        Err(Error::CallIndexUnknown)
    );
}

#[test]
pub fn add_failure_after_flag_is_not_rolled_back() {
    // The overflow flag is recorded before the destination write; a write
    // that then fails leaves the flag recorded. Mutations already committed
    // in the failing instruction are not rolled back.
    let mut vm = Vm::new();
    let stream = Assembler::new()
        .mov(
            Operand::Value(0xFFFF_FFFF_FFFF_FFFF),
            Operand::Register(Width::QWord(0)),
        )
        .add(
            Operand::Value(1),
            Operand::Register(Width::QWord(0)),
            Operand::Register(Width::QWord(16)),
        )
        .compile();
    vm.load_instructions(stream).unwrap();

    let handle = vm.new_processor();
    assert_eq!(
        vm.processor_mut(handle).unwrap().start(),
        Err(Error::RegisterIndexOutOfBounds)
    );
    assert!(vm.processor(handle).unwrap().flag(Flag::Overflow));
}

#[test]
pub fn cmp_leaves_the_overflow_flag_untouched() {
    let mut vm = Vm::new();
    let stream = Assembler::new()
        // Wrap an add to set the overflow flag, then compare.
        .mov(
            Operand::Value(0xFFFF_FFFF_FFFF_FFFF),
            Operand::Register(Width::QWord(0)),
        )
        .add(
            Operand::Value(1),
            Operand::Register(Width::QWord(0)),
            Operand::Register(Width::QWord(0)),
        )
        .cmp(Operand::Value(1), Operand::Value(2))
        .compile();
    vm.load_instructions(stream).unwrap();

    let handle = vm.new_processor();
    run_program(&mut vm, handle);

    let processor = vm.processor(handle).unwrap();
    assert!(processor.flag(Flag::Overflow));
    assert!(!processor.flag(Flag::Zero));
    assert!(!processor.flag(Flag::Greater));
}

#[test]
pub fn call_index_zero_is_the_diagnostic_dump() {
    assert_eq!(CallIndex::from_index(0), Ok(CallIndex::PrintProcessor));
    assert_eq!(CallIndex::from_index(1), Err(Error::CallIndexUnknown));
    assert_eq!(CallIndex::from_index(u64::MAX), Err(Error::CallIndexUnknown));
    assert_eq!(CallIndex::PrintProcessor.index(), 0);
}

#[test]
pub fn run_reports_an_exhausted_budget() {
    // A stream that never halts: the bounded runner gives up after the
    // requested number of cycles without reporting success.
    let mut vm = Vm::new();
    let handle = vm.new_processor();
    let stream: Vec<Executable> = Assembler::new().jmp(Operand::Value(0)).compile();
    let mut memory = Memory::new();

    let processor = vm.processor_mut(handle).unwrap();
    assert_eq!(processor.run(&stream, &mut memory, 100), Ok(false));

    // The same runner reports a halt once the stream can end.
    let halting: Vec<Executable> = Assembler::new()
        .mov(Operand::Value(3), Operand::Register(Width::QWord(0)))
        .compile();
    let processor = vm.processor_mut(handle).unwrap();
    let register = processor.register_mut(15).unwrap();
    register.assign_u64(0);
    assert_eq!(processor.run(&halting, &mut memory, 100), Ok(true));
    assert_eq!(processor.register(0).unwrap().as_u64(), 3);
}

#[test]
pub fn executable_conversion_keeps_the_instruction() {
    let instruction = Instruction::Mov(Operand::Value(1), Operand::Register(Width::QWord(0)));
    let executable = instruction.executable();
    assert!(matches!(executable, Executable::Mov(_)));
}
