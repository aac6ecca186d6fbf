use kvm_bindings::{kvm_regs, kvm_sregs};
use kvm_userspace::cpu::{flat_boot_regs, flat_boot_sregs};
use kvm_userspace::error::{ImageLoadError, VmError};
use kvm_userspace::exec::{run_script, ExecutionLoop, ExitReason, LoopState};
use kvm_userspace::image::load_image;
use kvm_userspace::memory::{region_size, MemoryRegion, PAGE_SIZE};
use kvm_userspace::vm::Vm;

fn write(port: u16, data: &[u8]) -> ExitReason {
    ExitReason::PortWrite { port, data: data.to_vec() }
}

#[test]
fn region_size_rounds_up_to_pages() {
    assert_eq!(region_size(1), Ok(4096));
    assert_eq!(region_size(4095), Ok(4096));
    assert_eq!(region_size(4096), Ok(4096));
    assert_eq!(region_size(4097), Ok(8192));
    assert_eq!(region_size(0x100000), Ok(0x100000));
    assert_eq!(region_size(0), Ok(0));
}

#[test]
fn region_size_matches_formula() {
    for s in [1u64, 17, 4000, 8191, 8192, 8193, 123_456_789] {
        assert_eq!(region_size(s), Ok(((s + 4095) / 4096) * 4096));
        assert_eq!(region_size(s).unwrap() % PAGE_SIZE, 0);
    }
}

#[test]
fn region_size_largest_requests() {
    assert_eq!(region_size(u64::MAX - 4095), Ok(u64::MAX - 4095));
    assert_eq!(region_size(u64::MAX - 4094), Err(VmError::Memory));
    assert_eq!(region_size(u64::MAX), Err(VmError::Memory));
}

#[test]
fn flat_region_is_slot_zero_at_address_zero() {
    let r = MemoryRegion::flat(8192, 0x7f00_0000_0000);
    assert_eq!(
        r,
        MemoryRegion { slot: 0, guest_phys_addr: 0, size: 8192, host_address: 0x7f00_0000_0000, flags: 0 }
    );
}

#[test]
fn regions_coexist_only_when_disjoint() {
    let a = MemoryRegion { slot: 0, guest_phys_addr: 0, size: 4096, host_address: 0, flags: 0 };
    let b = MemoryRegion { slot: 1, guest_phys_addr: 4096, size: 4096, host_address: 0, flags: 0 };
    let c = MemoryRegion { slot: 2, guest_phys_addr: 4095, size: 8192, host_address: 0, flags: 0 };
    let d = MemoryRegion { slot: 0, guest_phys_addr: 65536, size: 4096, host_address: 0, flags: 0 };
    assert!(a.can_coexist(&b));
    assert!(b.can_coexist(&a));
    assert!(!a.can_coexist(&c));
    assert!(!b.can_coexist(&c));
    assert!(!a.can_coexist(&d));
}

#[test]
fn load_image_copies_at_offset_zero() {
    let mut memory = vec![0u8; 4096];
    let image = [0xf4u8, 0x90, 0xe6, 0x01];
    assert_eq!(load_image(&mut memory, &image), Ok(()));
    assert_eq!(&memory[..4], &image);
    assert!(memory[4..].iter().all(|b| *b == 0));
}

#[test]
fn load_image_keeps_bytes_past_the_image() {
    let mut memory = vec![7u8; 16];
    assert_eq!(load_image(&mut memory, &[1, 2, 3]), Ok(()));
    assert_eq!(memory, vec![1, 2, 3, 7, 7, 7, 7, 7, 7, 7, 7, 7, 7, 7, 7, 7]);
}

#[test]
fn load_image_fills_region_exactly() {
    let mut memory = vec![0u8; 4096];
    let image: Vec<u8> = (0..4096u32).map(|i| (i % 251) as u8).collect();
    assert_eq!(load_image(&mut memory, &image), Ok(()));
    assert_eq!(memory, image);
}

#[test]
fn load_empty_image_changes_nothing() {
    let mut memory = vec![5u8; 8];
    assert_eq!(load_image(&mut memory, &[]), Ok(()));
    assert_eq!(memory, vec![5u8; 8]);
}

#[test]
fn load_image_too_large_copies_nothing() {
    let mut memory = vec![0u8; 4096];
    let image = vec![0xaau8; 4097];
    assert_eq!(load_image(&mut memory, &image), Err(ImageLoadError::ImageTooLarge));
    assert!(memory.iter().all(|b| *b == 0));
}

#[test]
fn flat_boot_clears_general_registers() {
    let regs = kvm_regs { rax: 1, rbx: 2, rcx: 3, rsp: 0x8000, rip: 0xfff0, rflags: 2, ..Default::default() };
    let r = flat_boot_regs(regs);
    assert_eq!((r.rip, r.rax, r.rbx), (0, 0, 0));
    assert_eq!((r.rcx, r.rsp, r.rflags), (3, 0x8000, 2));
}

#[test]
fn flat_boot_clears_code_segment() {
    let mut sregs = kvm_sregs::default();
    sregs.cs.selector = 0xf000;
    sregs.cs.base = 0xffff_0000;
    sregs.cs.limit = 0xffff;
    sregs.ds.base = 0x1234;
    sregs.cr0 = 0x6000_0010;
    let s = flat_boot_sregs(sregs);
    assert_eq!((s.cs.selector, s.cs.base), (0, 0));
    assert_eq!(s.cs.limit, 0xffff);
    assert_eq!(s.ds.base, 0x1234);
    assert_eq!(s.cr0, 0x6000_0010);
}

#[test]
fn halt_only_program_halts_after_one_resume() {
    let out = run_script(vec![ExitReason::Halt, write(0x3f8, b"X")]);
    assert!(matches!(out.state, LoopState::Halted));
    assert_eq!(out.resumes, 1);
    assert!(out.console.is_empty());
}

#[test]
fn ok_program_writes_o_then_k_then_halts() {
    let out = run_script(vec![write(0x3f8, b"O"), write(0x3f8, b"K"), ExitReason::Halt]);
    assert_eq!(out.console, b"OK".to_vec());
    assert!(matches!(out.state, LoopState::Halted));
    assert_eq!(out.resumes, 3);
}

#[test]
fn port_number_does_not_filter_console() {
    let out = run_script(vec![write(0x10, b"O"), write(0xe9, b"K\xff"), ExitReason::Halt]);
    assert_eq!(out.console, vec![b'O', b'K', 0xff]);
}

#[test]
fn rejected_entry_faults_on_first_resume() {
    let out = run_script(vec![ExitReason::EntryFailure { reason: 0x80000021, cpu: 3 }, ExitReason::Halt]);
    assert!(matches!(out.state, LoopState::Faulted { reason: 0x80000021, cpu: 3 }));
    assert_eq!(out.resumes, 1);
    assert!(out.console.is_empty());
}

#[test]
fn unknown_exit_stops_the_loop() {
    let out = run_script(vec![
        write(1, b"hi"),
        ExitReason::Other { description: String::from("Shutdown") },
        write(1, b"lost"),
    ]);
    match out.state {
        LoopState::Stopped { description } => assert_eq!(description, "Shutdown"),
        other => panic!("unexpected state {:?}", other),
    }
    assert_eq!(out.console, b"hi".to_vec());
    assert_eq!(out.resumes, 2);
}

#[test]
fn exhausted_script_leaves_loop_running() {
    let out = run_script(vec![write(1, b"a")]);
    assert!(matches!(out.state, LoopState::Running));
    assert_eq!(out.resumes, 1);
    let none = run_script(Vec::new());
    assert!(matches!(none.state, LoopState::Running));
    assert_eq!(none.resumes, 0);
}

#[test]
fn loop_states_and_dispatch() {
    let mut lp = ExecutionLoop::new();
    assert!(lp.should_resume());
    assert!(!lp.is_finished());
    assert_eq!(lp.record_exit(write(7, b"ab")), b"ab".to_vec());
    assert!(lp.should_resume());
    assert!(lp.record_exit(ExitReason::Halt).is_empty());
    assert!(!lp.should_resume());
    assert!(!lp.is_finished());

    let mut lp = ExecutionLoop::new();
    assert!(lp.record_exit(ExitReason::EntryFailure { reason: 1, cpu: 0 }).is_empty());
    assert!(!lp.should_resume());
    assert!(lp.is_finished());
}

#[test]
fn vm_open_fails_only_with_initialization() {
    match Vm::new() {
        Ok(vm) => drop(vm),
        Err(e) => assert_eq!(e, VmError::Initialization),
    }
}
