use std::cell::{Cell, RefCell};
use std::rc::Rc;

use microcomputer::computer::{CPUError, Computer};
use microcomputer::disk::Disk;
use microcomputer::interrupts::InterruptVec;
use microcomputer::parser::Parser;
use microcomputer::port::Port;

type Input = Box<dyn Fn() -> u8>;
type Output = Box<dyn Fn(u8)>;
type Machine = Computer<Input, Output>;

const IN: u8 = 2 << 4;
const OUT: u8 = 3 << 4;
const REG_REG: u8 = 0 << 1;
const REG_IM8: u8 = 1 << 1;
const MEM_REG: u8 = 2 << 1;
const REG_MEM: u8 = 3 << 1;

fn machine(image: &[u8]) -> Machine {
    let disk = Disk::new(512, String::from("image"), Some(image.to_vec())).unwrap();
    let mut machine: Machine = Computer::new(1024, disk);
    machine.boot();
    for index in 0..32 {
        machine.ivt.push(InterruptVec { address: 0x0200 + 4 * index });
    }
    machine
}

/// A port that hands out `bytes` in turn and records what is written.
fn recording(bytes: Vec<u8>) -> (Port<Input, Output>, Rc<Cell<usize>>, Rc<RefCell<Vec<u8>>>) {
    let reads = Rc::new(Cell::new(0usize));
    let written = Rc::new(RefCell::new(Vec::new()));
    let (count, sink) = (reads.clone(), written.clone());
    let input: Input = Box::new(move || {
        let at = count.get();
        count.set(at + 1);
        bytes[at % bytes.len()]
    });
    let output: Output = Box::new(move |value| sink.borrow_mut().push(value));
    (Port::new(input, output), reads, written)
}

#[test]
fn port_calls_its_two_functions() {
    let (port, reads, written) = recording(vec![0x41, 0x42]);
    assert_eq!(port.input(), 0x41);
    assert_eq!(port.input(), 0x42);
    assert_eq!(reads.get(), 2);
    port.out(0x10);
    port.out(0x20);
    assert_eq!(*written.borrow(), vec![0x10, 0x20]);
}

#[test]
fn port_takes_plain_functions() {
    fn seven() -> u8 {
        7
    }
    fn drop_it(_: u8) {}
    let port = Port::new(seven, drop_it);
    assert_eq!(port.input(), 7);
    port.out(1);
}

#[test]
fn in_stores_the_byte_that_the_port_gives() {
    // IN AX-low, port 3
    let mut machine = machine(&[IN | REG_IM8, 0x40, 0x03]);
    let (port, reads, written) = recording(vec![0x5A]);
    machine.io.insert(3, port);
    machine.ax = 0x1100;
    assert_eq!(machine.tick(), Ok(()));
    assert_eq!(machine.ax, 0x115A);
    assert_eq!(machine.ip, 3);
    assert_eq!(reads.get(), 1);
    assert!(written.borrow().is_empty());
}

#[test]
fn in_names_its_port_with_any_second_operand() {
    // IN [0x90], BX-low
    let mut machine = machine(&[IN | MEM_REG, 0x06, 0x90]);
    let (port, _, _) = recording(vec![0xC4]);
    machine.io.insert(0x21, port);
    machine.bx = 0x0021;
    assert_eq!(machine.tick(), Ok(()));
    assert_eq!(machine.memory.get(0x90), Ok(0xC4));

    // IN CX-high, [0x91]
    let mut machine = self::machine(&[IN | REG_MEM, 0x90, 0x91]);
    let (port, _, _) = recording(vec![0xD5]);
    machine.io.insert(0x22, port);
    machine.memory.set(0x91, 0x22).unwrap();
    assert_eq!(machine.tick(), Ok(()));
    assert_eq!(machine.cx, 0xD500);
}

#[test]
fn out_hands_the_first_operand_to_the_port() {
    // OUT AX-low, port 0
    let mut machine = machine(&[OUT | REG_IM8, 0x40, 0x00, OUT | REG_REG, 0x56, 0x00]);
    let (port, reads, written) = recording(vec![0]);
    machine.io.insert(0, port);
    machine.ax = 0x4869;
    assert_eq!(machine.tick(), Ok(()));
    assert_eq!(*written.borrow(), vec![0x69]);
    assert_eq!(machine.ip, 3);
    assert_eq!(machine.ax, 0x4869);
    // OUT AX-high, port BX-low
    assert_eq!(machine.tick(), Ok(()));
    assert_eq!(*written.borrow(), vec![0x69, 0x48]);
    assert_eq!(machine.ip, 6);
    assert_eq!(reads.get(), 0);
}

#[test]
fn ports_are_told_apart_by_their_address() {
    let mut machine = machine(&[OUT | REG_IM8, 0x40, 0x02]);
    let (one, _, first) = recording(vec![0]);
    let (two, _, second) = recording(vec![0]);
    machine.io.insert(1, one);
    machine.io.insert(2, two);
    machine.ax = 0x0033;
    assert_eq!(machine.tick(), Ok(()));
    assert!(first.borrow().is_empty());
    assert_eq!(*second.borrow(), vec![0x33]);
}

#[test]
fn in_reads_the_port_before_it_fails_to_store() {
    // IN code 15, port 3
    let mut machine = machine(&[IN | REG_IM8, 0xF0, 0x03]);
    let (port, reads, _) = recording(vec![0x5A]);
    machine.io.insert(3, port);
    assert_eq!(machine.tick_internal(), Err(CPUError::InvalidOpcode));
    assert_eq!(reads.get(), 1);
    assert_eq!(machine.ip, 0);
}

#[test]
fn out_does_not_write_when_the_value_cannot_be_read() {
    // OUT code 15, port 3
    let mut machine = machine(&[OUT | REG_IM8, 0xF0, 0x03]);
    let (port, _, written) = recording(vec![0]);
    machine.io.insert(3, port);
    assert_eq!(machine.tick_internal(), Err(CPUError::InvalidOpcode));
    assert!(written.borrow().is_empty());
}

#[test]
fn execute_runs_a_decoded_instruction() {
    let mut machine = machine(&[]);
    let (port, _, written) = recording(vec![0x66]);
    machine.io.insert(8, port);
    let read = Parser::new(Some(&(IN | REG_IM8)), Some(&0x60), Some(&8)).unwrap();
    assert_eq!(machine.execute(&read), Ok(()));
    assert_eq!(machine.bx, 0x0066);
    assert_eq!(machine.ip, 3);
    let write = Parser::new(Some(&(OUT | REG_IM8)), Some(&0x60), Some(&8)).unwrap();
    assert_eq!(machine.execute(&write), Ok(()));
    assert_eq!(*written.borrow(), vec![0x66]);
    assert_eq!(machine.ip, 6);
}
