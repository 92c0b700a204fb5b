use niahu::codec::{file_kind, is_mem_file, is_state_file, FileKind, LoadError};
use niahu::memory::same_bytes;
use niahu::{ahmes, neander, ramses};

#[test]
fn mem_and_state_extensions() {
    assert!(is_mem_file("prog.mem"));
    assert!(is_mem_file("dir/sub/prog.mem"));
    assert!(!is_mem_file("mem"));
    assert!(!is_mem_file(".mem"));
    assert!(!is_mem_file("prog.mem.bak"));
    assert!(!is_mem_file("dir.mem/prog"));
    assert!(is_state_file("run.state"));
    assert!(!is_state_file("run.mem"));
    assert!(!is_state_file("state"));
}

#[test]
fn kind_dispatch() {
    assert_eq!(file_kind("a.mem"), Some(FileKind::Mem));
    assert_eq!(file_kind("a.state"), Some(FileKind::State));
    assert_eq!(file_kind("a.txt"), None);
    assert_eq!(file_kind("a"), None);
}

#[test]
fn save_as_and_load_as_follow_the_kind() {
    let mut vm = ahmes::Machine::new();
    vm.write_raw(0x30, 0x99);
    vm.ac = 7;
    let image = vm.save_as(FileKind::Mem);
    let state = vm.save_as(FileKind::State);
    assert_eq!(image.len(), 516);
    assert_eq!(state.len(), 539);
    let mut other = ahmes::Machine::new();
    assert_eq!(other.load_as(FileKind::State, &image), Err(LoadError::InvalidFile));
    other.load_as(FileKind::Mem, &image).unwrap();
    assert_eq!((other.mem[0x30], other.ac), (0x99, 0));
    other.load_as(FileKind::State, &state).unwrap();
    assert_eq!(other, vm);
}

#[test]
fn headers_differ_between_machines() {
    let n = neander::Machine::new().save_mem();
    let a = ahmes::Machine::new().save_mem();
    let r = ramses::Machine::new().save_mem();
    assert_eq!(&n[..4], &[0x03, b'N', b'D', b'R']);
    assert_eq!(&a[..4], &[0x03, b'A', b'H', b'M']);
    assert_eq!(&r[..4], &[0x03, b'R', b'M', b'S']);
    let mut vm = ramses::Machine::new();
    assert_eq!(vm.load_mem(&a), Err(LoadError::InvalidFile));
    assert_eq!(vm.load_mem(&n), Err(LoadError::InvalidFile));
    assert_eq!(vm.load_mem(&r), Ok(()));
}

#[test]
fn counters_are_little_endian() {
    let mut vm = ramses::Machine::new();
    vm.cycles = 0x1122;
    vm.accesses = 0xAABB_CCDD_0000_0001;
    let state = vm.save_state();
    assert_eq!(&state[11..19], &[0x22, 0x11, 0, 0, 0, 0, 0, 0]);
    assert_eq!(&state[19..27], &[0x01, 0, 0, 0, 0xDD, 0xCC, 0xBB, 0xAA]);
    assert_eq!(&state[27..31], &[0, 0, 0, 0]);
}

#[test]
fn byte_comparison() {
    assert!(same_bytes(b"abc", b"abc"));
    assert!(!same_bytes(b"abc", b"abd"));
    assert!(!same_bytes(b"abc", b"ab"));
}
