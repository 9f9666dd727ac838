use lc3_vm::machine::{Event, VirtualMachine};
use lc3_vm::registers::Register;

fn image(words: &[u16]) -> Vec<u8> {
    let mut bytes: Vec<u8> = Vec::new();
    for word in words {
        bytes.push((word & 0xFF) as u8);
        bytes.push((word >> 8) as u8);
    }
    bytes
}

#[test]
fn halt_stops_after_exactly_one_step() {
    let mut vm = VirtualMachine::new();
    vm.load(&image(&[0xF025, 0x1025]), 0);
    vm.set_register(Register::RPC, 0x3000);
    assert_eq!(vm.step(), Event::Continue);
    assert!(!vm.is_running());
    assert_eq!(vm.register(Register::RPC), 0x3001);
    assert_eq!(vm.register(Register::R0), 0);
    assert_eq!(vm.memread(0x3000), 0xF025);
    assert_eq!(vm.memread(0x3001), 0x1025);
}

#[test]
fn halt_ends_the_loop_before_the_next_instruction() {
    let mut vm = VirtualMachine::new();
    vm.load(&image(&[0xF025, 0x1025]), 0);
    assert_eq!(vm.start(0, 1000), Event::Continue);
    assert!(!vm.is_running());
    assert_eq!(vm.register(Register::RPC), 0x3001);
    assert_eq!(vm.register(Register::R0), 0);
    assert_eq!(vm.register(Register::RCND), 0);
    // A halted machine takes no further step.
    assert_eq!(vm.run(1000), Event::Continue);
    assert_eq!(vm.register(Register::RPC), 0x3001);
    assert_eq!(vm.register(Register::R0), 0);
}

#[test]
fn two_additions_then_halt() {
    // ADD R0,R0,#5 ; ADD R1,R0,#-3 ; TRAP 0x25
    let mut vm = VirtualMachine::new();
    vm.load(&image(&[0x1025, 0x123D, 0xF025]), 0);
    vm.set_register(Register::RPC, 0x3000);
    assert_eq!(vm.step(), Event::Continue);
    assert_eq!(vm.register(Register::R0), 5);
    assert_eq!(vm.register(Register::RCND), 1);
    assert_eq!(vm.step(), Event::Continue);
    assert_eq!(vm.register(Register::R1), 2);
    assert_eq!(vm.register(Register::RCND), 1);
    assert!(vm.is_running());
    assert_eq!(vm.step(), Event::Continue);
    assert!(!vm.is_running());

    let mut whole = VirtualMachine::new();
    whole.load(&image(&[0x1025, 0x123D, 0xF025]), 0);
    assert_eq!(whole.start(0, u64::MAX), Event::Continue);
    assert_eq!(whole.register(Register::R0), 5);
    assert_eq!(whole.register(Register::R1), 2);
    assert_eq!(whole.register(Register::RCND), 1);
    assert_eq!(whole.register(Register::RPC), 0x3003);
    assert!(!whole.is_running());
}

#[test]
fn run_stops_when_the_budget_is_spent() {
    // BRnzp #-1 on unset flags falls through; use JMP to loop: LEA R1,#-1 ; JMP R1
    let mut vm = VirtualMachine::new();
    vm.load(&image(&[0xE3FF, 0xC040]), 0);
    assert_eq!(vm.start(0, 7), Event::Continue);
    assert!(vm.is_running());
    // Seven steps: LEA, then JMP and LEA alternate.
    assert_eq!(vm.register(Register::R1), 0x3000);
    assert_eq!(vm.register(Register::RPC), 0x3001);
    assert_eq!(vm.run(1), Event::Continue);
    assert_eq!(vm.register(Register::RPC), 0x3000);
    assert_eq!(vm.run(0), Event::Continue);
    assert_eq!(vm.register(Register::RPC), 0x3000);
}

#[test]
fn run_returns_at_the_first_request_and_resumes() {
    // AND R0,R0,#0 ; ADD R0,R0,#7 ; OUTU16 ; GETC ; OUT ; HALT
    let mut vm = VirtualMachine::new();
    vm.load(&image(&[0x5020, 0x1027, 0xF027, 0xF020, 0xF021, 0xF025]), 0);
    assert_eq!(vm.start(0, 100), Event::Write(b"7\n".to_vec()));
    assert_eq!(vm.register(Register::RPC), 0x3003);
    assert_eq!(vm.run(100), Event::ReadChar);
    vm.tgetc(Some(b'q'));
    assert_eq!(vm.run(100), Event::Write(vec![b'q']));
    assert!(vm.is_running());
    assert_eq!(vm.run(100), Event::Continue);
    assert!(!vm.is_running());
}

#[test]
fn run_stops_at_a_trap_outside_the_table() {
    let mut vm = VirtualMachine::new();
    vm.load(&image(&[0x1025, 0xF0FF, 0x1025]), 0);
    assert_eq!(vm.start(0, 100), Event::UnknownTrap(0xFF));
    assert_eq!(vm.register(Register::RPC), 0x3002);
    assert_eq!(vm.register(Register::R0), 5);
    assert!(vm.is_running());
}

#[test]
fn start_counts_the_offset_from_the_origin_and_wraps() {
    let mut vm = VirtualMachine::new();
    vm.memwrite(0x3010, 0xF025);
    assert_eq!(vm.start(0x10, 5), Event::Continue);
    assert_eq!(vm.register(Register::RPC), 0x3011);
    assert!(!vm.is_running());

    let mut wrapped = VirtualMachine::new();
    wrapped.memwrite(0x2FFF, 0xF025);
    assert_eq!(wrapped.start(0xFFFF, 5), Event::Continue);
    assert_eq!(wrapped.register(Register::RPC), 0x3000);
    assert!(!wrapped.is_running());
}

#[test]
fn the_program_counter_wraps_at_the_end_of_memory() {
    let mut vm = VirtualMachine::new();
    vm.memwrite(0xFFFF, 0x1021); // ADD R0,R0,#1
    vm.memwrite(0x0000, 0xF025);
    vm.set_register(Register::RPC, 0xFFFF);
    assert_eq!(vm.run(10), Event::Continue);
    assert_eq!(vm.register(Register::R0), 1);
    assert_eq!(vm.register(Register::RPC), 0x0001);
    assert!(!vm.is_running());
}

#[test]
fn load_puts_the_low_byte_first() {
    let mut vm = VirtualMachine::new();
    vm.load(&[0x25, 0x10, 0x3D, 0x12], 0);
    assert_eq!(vm.memread(0x3000), 0x1025);
    assert_eq!(vm.memread(0x3001), 0x123D);
    assert_eq!(vm.memread(0x3002), 0);
    assert_eq!(vm.memread(0x2FFF), 0);
    assert_eq!(vm.register(Register::RPC), 0);
    assert!(vm.is_running());
}

#[test]
fn load_at_an_offset() {
    let mut vm = VirtualMachine::new();
    vm.load(&[0x01, 0x02], 0x0100);
    assert_eq!(vm.memread(0x3100), 0x0201);
    assert_eq!(vm.memread(0x3000), 0);
    vm.load(&[0xAA, 0xBB], 0xCFFF);
    assert_eq!(vm.memread(0xFFFF), 0xBBAA);
}

#[test]
fn load_of_an_odd_number_of_bytes_replaces_one_low_byte() {
    let mut vm = VirtualMachine::new();
    vm.memwrite(0x3001, 0xABCD);
    vm.load(&[0x11, 0x22, 0x33], 0);
    assert_eq!(vm.memread(0x3000), 0x2211);
    assert_eq!(vm.memread(0x3001), 0xAB33);
    assert_eq!(vm.memread(0x3002), 0);
}

#[test]
fn load_of_nothing_changes_nothing() {
    let mut vm = VirtualMachine::new();
    vm.memwrite(0x3000, 0x7777);
    vm.load(&[], 0);
    assert_eq!(vm.memread(0x3000), 0x7777);
}

#[test]
fn load_leaves_out_what_does_not_fit() {
    let mut vm = VirtualMachine::new();
    vm.memwrite(0x0000, 0x5555);
    vm.memwrite(0x2FFF, 0x6666);
    let words: Vec<u16> = (0..0xD010u32).map(|k| (k as u16) | 0x0001).collect();
    vm.load(&image(&words), 0);
    assert_eq!(vm.memread(0x3000), 0x0001);
    assert_eq!(vm.memread(0xFFFF), 0xCFFF);
    assert_eq!(vm.memread(0x0000), 0x5555);
    assert_eq!(vm.memread(0x2FFF), 0x6666);

    let mut last = VirtualMachine::new();
    last.load(&[1, 2, 3, 4, 5], 0xCFFF);
    assert_eq!(last.memread(0xFFFF), 0x0201);
    assert_eq!(last.memread(0x0000), 0);
}
