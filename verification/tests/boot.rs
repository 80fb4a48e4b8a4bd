use microcomputer::computer::{Computer, BOOT_STACK_POINTER};
use microcomputer::disk::{Disk, DiskReadError, IMAGE_LIMIT};

type Input = Box<dyn Fn() -> u8>;
type Output = Box<dyn Fn(u8)>;
type Machine = Computer<Input, Output>;

#[test]
fn disk_without_an_image_cannot_be_made() {
    let result = Disk::new(512, String::from("a.bin"), None);
    assert_eq!(result.err(), Some(DiskReadError::NoSuchFile));
}

#[test]
fn disk_pads_a_short_image_with_zeros() {
    let disk = Disk::new(8, String::from("a.bin"), Some(vec![1, 2, 3])).unwrap();
    assert_eq!(disk.path, "a.bin");
    assert_eq!(disk.data, vec![1, 2, 3, 0, 0, 0, 0, 0]);
}

#[test]
fn disk_cuts_a_long_image_at_its_size() {
    let disk = Disk::new(4, String::from("a.bin"), Some(vec![9, 8, 7, 6, 5, 4])).unwrap();
    assert_eq!(disk.data, vec![9, 8, 7, 6]);
    let empty = Disk::new(0, String::from("a.bin"), Some(vec![9, 8, 7])).unwrap();
    assert!(empty.data.is_empty());
}

#[test]
fn disk_takes_no_more_than_the_image_limit() {
    assert_eq!(IMAGE_LIMIT, 512);
    let image: Vec<u8> = (0..600).map(|i| (i % 251) as u8 + 1).collect();
    let disk = Disk::new(600, String::from("a.bin"), Some(image.clone())).unwrap();
    assert_eq!(disk.data.len(), 600);
    assert_eq!(disk.data[..512], image[..512]);
    assert!(disk.data[512..].iter().all(|byte| *byte == 0));
}

#[test]
fn new_machine_is_blank_and_does_not_run() {
    let disk = Disk::new(4, String::from("a.bin"), Some(vec![1, 2, 3, 4])).unwrap();
    let machine: Machine = Computer::new(32, disk);
    assert_eq!(machine.memory.size(), 32);
    for address in 0..32 {
        assert_eq!(machine.memory.get(address), Ok(0));
    }
    assert_eq!(machine.disk.data, vec![1, 2, 3, 4]);
    assert!(machine.io.is_empty());
    assert!(machine.ivt.is_empty());
    assert!(!machine.running);
    assert_eq!(
        [machine.ip, machine.sp, machine.ax, machine.bx, machine.cx, machine.dx, machine.ex],
        [0; 7]
    );
    assert_eq!(machine.flags, 0);
}

#[test]
fn boot_copies_the_disk_and_sets_the_pointers() {
    let disk = Disk::new(4, String::from("a.bin"), Some(vec![0xDE, 0xAD, 0xBE, 0xEF])).unwrap();
    let mut machine: Machine = Computer::new(1024, disk);
    machine.memory.set(2, 0x55).unwrap();
    machine.memory.set(4, 0x66).unwrap();
    machine.ip = 0x0999;
    machine.ax = 0x1234;
    machine.flags = 0x1F;
    machine.boot();
    assert!(machine.running);
    assert_eq!(machine.ip, 0);
    assert_eq!(machine.sp, 0x02FF);
    assert_eq!(machine.sp, BOOT_STACK_POINTER);
    assert_eq!(machine.ax, 0x1234);
    assert_eq!(machine.flags, 0x1F);
    let bytes: Vec<u8> = (0..6).map(|a| machine.memory.get(a).unwrap()).collect();
    assert_eq!(bytes, vec![0xDE, 0xAD, 0xBE, 0xEF, 0x66, 0x00]);
    assert_eq!(machine.disk.data, vec![0xDE, 0xAD, 0xBE, 0xEF]);
}

#[test]
fn boot_fills_a_memory_of_the_disk_size() {
    let disk = Disk::new(512, String::from("a.bin"), Some(vec![0xAA; 512])).unwrap();
    let mut machine: Machine = Computer::new(512, disk);
    machine.boot();
    for address in 0..512 {
        assert_eq!(machine.memory.get(address), Ok(0xAA));
    }
}

#[test]
fn boot_starts_a_stopped_machine_again() {
    let disk = Disk::new(1, String::from("a.bin"), Some(vec![0x18])).unwrap();
    let mut machine: Machine = Computer::new(1024, disk);
    machine.boot();
    assert_eq!(machine.tick(), Ok(()));
    assert!(!machine.running);
    machine.boot();
    assert!(machine.running);
    assert_eq!((machine.ip, machine.sp), (0, 0x02FF));
}
