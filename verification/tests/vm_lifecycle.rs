use vm::assembler::Assembler;
use vm::instructions::Operand;
use vm::Vm;

#[test]
pub fn vm_construct() {
    let _ = Vm::new();
}

#[test]
pub fn vm_processor_construct_once() {
    let mut vm = Vm::new();

    let processor_handle = vm.new_processor();

    assert_eq!(vm.processor_count(), 1);
    assert_eq!(vm.processor_count() - 1, processor_handle);
}

#[test]
pub fn vm_processor_construct_multi() {
    let mut vm = Vm::new();

    let _ = vm.new_processor();
    let second_processor_handle = vm.new_processor();

    assert_eq!(vm.processor_count(), 2);
    assert_eq!(vm.processor_count() - 1, second_processor_handle);
}

#[test]
pub fn vm_processor_construct_override_once() {
    let mut vm = Vm::new();

    let processor_handle = vm.new_processor();
    vm.destroy_processor(processor_handle);

    let second_processor_handle = vm.new_processor();

    assert_eq!(vm.processor_count(), 1);
    assert_eq!(vm.processor_count() - 1, second_processor_handle);
}

#[test]
pub fn vm_processor_construct_override_multi() {
    let mut vm = Vm::new();

    let _first_processor_handle = vm.new_processor();
    let second_processor_handle = vm.new_processor();
    let _third_processor_handle = vm.new_processor();

    vm.destroy_processor(second_processor_handle);

    let fourth_processor_handle = vm.new_processor();

    assert_eq!(vm.processor_count(), 3);
    assert_eq!(1, fourth_processor_handle);
}

#[test]
pub fn vm_processor_deconstruct_once() {
    let mut vm = Vm::new();

    let processor_handle = vm.new_processor();

    vm.destroy_processor(processor_handle);

    assert_eq!(vm.processor_count(), 0);
}

#[test]
pub fn vm_processor_deconstruct_multi() {
    let mut vm = Vm::new();

    let first_processor_handle = vm.new_processor();
    let second_processor_handle = vm.new_processor();

    vm.destroy_processor(first_processor_handle);

    assert_eq!(vm.processor_count(), 1);
    assert_eq!(vm.processor_count(), second_processor_handle);
}

#[test]
pub fn processor_execute() {
    let mut vm = Vm::new();

    let assembler = Assembler::new()
        .call(Operand::Value(0))
        .call(Operand::Value(0));
    let compiled = assembler.compile();

    vm.load_instructions(compiled).unwrap();

    let handle = vm.new_processor();
    let processor = vm.processor_mut(handle).unwrap();

    processor.start().unwrap();
}
