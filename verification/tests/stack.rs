use microcomputer::computer::{CPUError, Computer};
use microcomputer::disk::Disk;
use microcomputer::interrupts::InterruptVec;

type Input = Box<dyn Fn() -> u8>;
type Output = Box<dyn Fn(u8)>;
type Machine = Computer<Input, Output>;

const PUSH: u8 = 7 << 4;
const POP: u8 = 8 << 4;
const REG_REG: u8 = 0 << 1;
const REG_IM8: u8 = 1 << 1;
const MEM_REG: u8 = 2 << 1;
const REG_MEM: u8 = 3 << 1;
const NO_ARGUMENTS: u8 = 4 << 1;
const JUST_REG: u8 = 5 << 1;
const JUST_MEM: u8 = 6 << 1;
const JUST_IM8: u8 = 7 << 1;

fn machine(image: &[u8]) -> Machine {
    let disk = Disk::new(512, String::from("image"), Some(image.to_vec())).unwrap();
    let mut machine: Machine = Computer::new(1024, disk);
    machine.boot();
    for index in 0..32 {
        machine.ivt.push(InterruptVec { address: 0x0200 + 4 * index });
    }
    machine
}

#[test]
fn push_pair_stores_first_operand_at_the_stack_pointer() {
    let mut machine = machine(&[PUSH | REG_REG, 0x54, 0x00]);
    machine.ax = 0x1234;
    assert_eq!(machine.sp, 0x02FF);
    assert_eq!(machine.tick(), Ok(()));
    assert_eq!(machine.memory.get(0x02FF), Ok(0x12));
    assert_eq!(machine.memory.get(0x0300), Ok(0x34));
    assert_eq!(machine.sp, 0x02FD);
    assert_eq!(machine.ip, 3);
    assert_eq!(machine.ax, 0x1234);
}

#[test]
fn push_pair_takes_any_two_operands() {
    // PUSH AX-low, 0x99
    let mut machine = machine(&[PUSH | REG_IM8, 0x40, 0x99]);
    machine.ax = 0x0011;
    assert_eq!(machine.tick(), Ok(()));
    assert_eq!(machine.memory.get(0x02FF), Ok(0x11));
    assert_eq!(machine.memory.get(0x0300), Ok(0x99));
    assert_eq!(machine.sp, 0x02FD);

    // PUSH [0x80], BX-high
    let mut machine = self::machine(&[PUSH | MEM_REG, 0x07, 0x80]);
    machine.memory.set(0x80, 0xAA).unwrap();
    machine.bx = 0xBB00;
    assert_eq!(machine.tick(), Ok(()));
    assert_eq!(machine.memory.get(0x02FF), Ok(0xAA));
    assert_eq!(machine.memory.get(0x0300), Ok(0xBB));

    // PUSH CX-low, [0x81]
    let mut machine = self::machine(&[PUSH | REG_MEM, 0x80, 0x81]);
    machine.memory.set(0x81, 0xDD).unwrap();
    machine.cx = 0x00CC;
    assert_eq!(machine.tick(), Ok(()));
    assert_eq!(machine.memory.get(0x02FF), Ok(0xCC));
    assert_eq!(machine.memory.get(0x0300), Ok(0xDD));
    assert_eq!(machine.sp, 0x02FD);
    assert_eq!(machine.ip, 3);
}

#[test]
fn push_single_stores_one_byte() {
    let mut machine = machine(&[PUSH | JUST_IM8, 0x99]);
    assert_eq!(machine.tick(), Ok(()));
    assert_eq!(machine.memory.get(0x02FF), Ok(0x99));
    assert_eq!(machine.memory.get(0x0300), Ok(0));
    assert_eq!(machine.sp, 0x02FE);
    assert_eq!(machine.ip, 2);

    let mut machine = self::machine(&[PUSH | JUST_REG, 0x50]);
    machine.ax = 0x4200;
    assert_eq!(machine.tick(), Ok(()));
    assert_eq!(machine.memory.get(0x02FF), Ok(0x42));
    assert_eq!(machine.sp, 0x02FE);

    let mut machine = self::machine(&[PUSH | JUST_MEM, 0x90]);
    machine.memory.set(0x90, 0x17).unwrap();
    assert_eq!(machine.tick(), Ok(()));
    assert_eq!(machine.memory.get(0x02FF), Ok(0x17));
    assert_eq!(machine.sp, 0x02FE);
}

#[test]
fn pop_pair_reads_at_the_stack_pointer() {
    let mut machine = machine(&[POP | REG_REG, 0x76, 0x00]);
    machine.memory.set(0x02FF, 0xAB).unwrap();
    machine.memory.set(0x0300, 0xCD).unwrap();
    assert_eq!(machine.tick(), Ok(()));
    assert_eq!(machine.bx, 0xABCD);
    assert_eq!(machine.sp, 0x0301);
    assert_eq!(machine.ip, 3);
}

#[test]
fn pop_pair_into_memory_and_register() {
    // POP [0x60], AX-low
    let mut machine = machine(&[POP | MEM_REG, 0x04, 0x60]);
    machine.memory.set(0x02FF, 0x01).unwrap();
    machine.memory.set(0x0300, 0x02).unwrap();
    assert_eq!(machine.tick(), Ok(()));
    assert_eq!(machine.memory.get(0x60), Ok(0x01));
    assert_eq!(machine.ax, 0x0002);
    assert_eq!(machine.sp, 0x0301);

    // POP AX-high, [0x61]
    let mut machine = self::machine(&[POP | REG_MEM, 0x50, 0x61]);
    machine.memory.set(0x02FF, 0x03).unwrap();
    machine.memory.set(0x0300, 0x04).unwrap();
    assert_eq!(machine.tick(), Ok(()));
    assert_eq!(machine.ax, 0x0300);
    assert_eq!(machine.memory.get(0x61), Ok(0x04));
    assert_eq!(machine.sp, 0x0301);
}

#[test]
fn pop_single_reads_one_byte() {
    let mut machine = machine(&[POP | JUST_REG, 0x40]);
    machine.memory.set(0x02FF, 0x5E).unwrap();
    assert_eq!(machine.tick(), Ok(()));
    assert_eq!(machine.ax, 0x005E);
    assert_eq!(machine.sp, 0x0300);
    assert_eq!(machine.ip, 2);

    let mut machine = self::machine(&[POP | JUST_MEM, 0x50]);
    machine.memory.set(0x02FF, 0x6F).unwrap();
    assert_eq!(machine.tick(), Ok(()));
    assert_eq!(machine.memory.get(0x50), Ok(0x6F));
    assert_eq!(machine.sp, 0x0300);
}

#[test]
fn push_then_pop_returns_the_stack_pointer() {
    // PUSH AX-high, AX-low; POP AX-high, AX-low
    let mut machine = machine(&[PUSH | REG_REG, 0x54, 0x00, POP | REG_REG, 0x54, 0x00]);
    machine.ax = 0x1234;
    // The pop reads the two bytes below the old stack pointer.
    machine.memory.set(0x02FD, 0x12).unwrap();
    machine.memory.set(0x02FE, 0x34).unwrap();
    let before = machine.sp;
    assert_eq!(machine.tick(), Ok(()));
    assert_eq!(machine.sp, before - 2);
    assert_eq!(machine.memory.get(0x02FF), Ok(0x12));
    assert_eq!(machine.memory.get(0x0300), Ok(0x34));
    assert_eq!(machine.tick(), Ok(()));
    assert_eq!(machine.sp, before);
    assert_eq!(machine.get_register(5), Ok(0x12));
    assert_eq!(machine.get_register(4), Ok(0x34));
    assert_eq!(machine.ax, 0x1234);
    assert_eq!(machine.ip, 6);
}

#[test]
fn pop_after_push_takes_the_bytes_below_the_pushed_ones() {
    let mut machine = machine(&[PUSH | REG_REG, 0x54, 0x00, POP | REG_REG, 0x76, 0x00]);
    machine.ax = 0x1234;
    machine.memory.set(0x02FD, 0xEE).unwrap();
    machine.memory.set(0x02FE, 0xFF).unwrap();
    assert_eq!(machine.tick(), Ok(()));
    assert_eq!(machine.tick(), Ok(()));
    assert_eq!(machine.sp, 0x02FF);
    assert_eq!(machine.bx, 0xEEFF);
    assert_eq!(machine.ax, 0x1234);
    assert_eq!(machine.memory.get(0x02FF), Ok(0x12));
    assert_eq!(machine.memory.get(0x0300), Ok(0x34));
}

#[test]
fn push_and_pop_reject_selections_without_a_place() {
    let mut machine = machine(&[PUSH | NO_ARGUMENTS]);
    assert_eq!(machine.tick_internal(), Err(CPUError::InvalidOpcode));
    assert_eq!((machine.ip, machine.sp), (0, 0x02FF));

    for first in [POP | NO_ARGUMENTS, POP | REG_IM8, POP | JUST_IM8] {
        let mut machine = self::machine(&[first, 0x40, 0x00]);
        assert_eq!(machine.tick_internal(), Err(CPUError::InvalidOpcode));
        assert_eq!((machine.ip, machine.sp, machine.ax), (0, 0x02FF, 0));
    }
}

#[test]
fn push_outside_the_memory_fails_where_it_stands() {
    let mut machine = machine(&[PUSH | REG_REG, 0x54, 0x00]);
    machine.ax = 0x1234;
    machine.sp = 0x0400;
    assert_eq!(machine.tick_internal(), Err(CPUError::MemoryAccessError(0x0400)));
    assert_eq!((machine.ip, machine.sp), (0, 0x0400));

    machine.sp = 0x03FF;
    assert_eq!(machine.tick_internal(), Err(CPUError::MemoryAccessError(0x0400)));
    assert_eq!(machine.memory.get(0x03FF), Ok(0x12));
    assert_eq!((machine.ip, machine.sp), (0, 0x03FF));
}

#[test]
fn pop_outside_the_memory_fails_where_it_stands() {
    let mut machine = machine(&[POP | REG_REG, 0x54, 0x00]);
    machine.sp = 0xFFFF;
    assert_eq!(machine.tick_internal(), Err(CPUError::MemoryAccessError(0xFFFF)));
    assert_eq!((machine.ip, machine.sp, machine.ax), (0, 0xFFFF, 0));

    machine.sp = 0x03FF;
    machine.memory.set(0x03FF, 0x9A).unwrap();
    assert_eq!(machine.tick_internal(), Err(CPUError::MemoryAccessError(0x0400)));
    assert_eq!((machine.ip, machine.sp, machine.ax), (0, 0x03FF, 0x9A00));
}

#[test]
fn stack_pointer_wraps_around() {
    let mut machine = machine(&[PUSH | REG_REG, 0x54, 0x00]);
    machine.ax = 0x1234;
    machine.sp = 0x0001;
    assert_eq!(machine.tick(), Ok(()));
    assert_eq!(machine.sp, 0xFFFF);
    assert_eq!(machine.memory.get(1), Ok(0x12));
    assert_eq!(machine.memory.get(2), Ok(0x34));

    let mut machine = self::machine(&[PUSH | JUST_IM8, 0x07]);
    machine.sp = 0x0000;
    assert_eq!(machine.tick(), Ok(()));
    assert_eq!(machine.sp, 0xFFFF);
    assert_eq!(machine.memory.get(0), Ok(0x07));
}

#[test]
fn pop_into_the_stack_pointer_goes_on_from_the_new_value() {
    // POP SP-low, AX-low
    let mut machine = machine(&[POP | REG_REG, 0x24, 0x00]);
    machine.sp = 0x0100;
    machine.memory.set(0x0100, 0x50).unwrap();
    machine.memory.set(0x0151, 0x77).unwrap();
    assert_eq!(machine.tick(), Ok(()));
    assert_eq!(machine.ax, 0x0077);
    assert_eq!(machine.sp, 0x0152);
}
