use vm::assembler::Assembler;
use vm::instructions::{Instruction, Operand};
use vm::register::Width;

#[test]
pub fn assembler_construct() {
    let _ = Assembler::new();
}

#[test]
pub fn assembler_call() {
    let assembler = Assembler::new().call(Operand::Value(0));

    assert_eq!(assembler.instructions().len(), 1);
    assert_eq!(
        assembler.instructions()[0],
        Instruction::Call(Operand::Value(0))
    );
}

#[test]
pub fn assembler_mov() {
    let assembler = Assembler::new().mov(Operand::Value(0), Operand::Value(1));

    assert_eq!(assembler.instructions().len(), 1);
    assert_eq!(
        assembler.instructions()[0],
        Instruction::Mov(Operand::Value(0), Operand::Value(1))
    );
}

#[test]
pub fn assembler_every_kind_in_order() {
    let assembler = Assembler::new()
        .mov(Operand::Value(7), Operand::Register(Width::QWord(0)))
        .add(
            Operand::Value(1),
            Operand::Register(Width::QWord(0)),
            Operand::Register(Width::QWord(0)),
        )
        .cmp(
            Operand::Register(Width::QWord(0)),
            Operand::Value(8),
        )
        .jz(Operand::Value(9))
        .jnz(Operand::Value(10))
        .jmp(Operand::Value(11))
        .call(Operand::Value(0));

    let instructions = assembler.instructions();
    assert_eq!(instructions.len(), 7);
    assert_eq!(
        instructions[0],
        Instruction::Mov(Operand::Value(7), Operand::Register(Width::QWord(0)))
    );
    assert_eq!(
        instructions[1],
        Instruction::Add(
            Operand::Value(1),
            Operand::Register(Width::QWord(0)),
            Operand::Register(Width::QWord(0)),
        )
    );
    assert_eq!(
        instructions[2],
        Instruction::Cmp(Operand::Register(Width::QWord(0)), Operand::Value(8))
    );
    assert_eq!(instructions[3], Instruction::Jz(Operand::Value(9)));
    assert_eq!(instructions[4], Instruction::Jnz(Operand::Value(10)));
    assert_eq!(instructions[5], Instruction::Jmp(Operand::Value(11)));
    assert_eq!(instructions[6], Instruction::Call(Operand::Value(0)));
}

#[test]
pub fn assembler_compile_keeps_length() {
    let assembler = Assembler::new()
        .mov(Operand::Value(1), Operand::Register(Width::QWord(0)))
        .jmp(Operand::Value(5));

    let compiled = assembler.compile();
    assert_eq!(compiled.len(), 2);
}

#[test]
pub fn assembler_identical_sequences_compile_identically() {
    let build = || {
        Assembler::new()
            .mov(Operand::Value(3), Operand::Register(Width::Byte(2)))
            .call(Operand::Value(0))
            .compile()
    };

    assert_eq!(build(), build());
}
