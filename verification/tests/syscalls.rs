use std::sync::atomic::AtomicI16;
use std::sync::atomic::AtomicI32;
use std::sync::atomic::AtomicI64;
use std::sync::atomic::AtomicI8;
use std::sync::atomic::AtomicU16;
use std::sync::atomic::AtomicU32;
use std::sync::atomic::AtomicU64;
use std::sync::atomic::AtomicU8;
use userland::capability::Capability;
use userland::syscalls::alloc_page;
use userland::syscalls::alloc_page_reply;
use userland::syscalls::alloc_pages_physical;
use userland::syscalls::array_to_raw_perms;
use userland::syscalls::clone_capability;
use userland::syscalls::create_capability;
use userland::syscalls::dealloc_page;
use userland::syscalls::dealloc_page_reply;
use userland::syscalls::getpid;
use userland::syscalls::getpid_reply;
use userland::syscalls::getuid;
use userland::syscalls::getuid_reply;
use userland::syscalls::kill;
use userland::syscalls::kill_reply;
use userland::syscalls::lock;
use userland::syscalls::page_count;
use userland::syscalls::page_permissions;
use userland::syscalls::page_permissions_reply;
use userland::syscalls::recv;
use userland::syscalls::recv_reply;
use userland::syscalls::send;
use userland::syscalls::send_reply;
use userland::syscalls::setuid;
use userland::syscalls::setuid_reply;
use userland::syscalls::sleep;
use userland::syscalls::sleep_reply;
use userland::syscalls::spawn_process;
use userland::syscalls::spawn_process_reply;
use userland::syscalls::spawn_thread;
use userland::syscalls::spawn_thread_reply;
use userland::syscalls::subscribe_to_interrupt;
use userland::syscalls::syscall;
use userland::syscalls::thread_unpack_args;
use userland::syscalls::transfer_capability;
use userland::syscalls::transfer_capability_reply;
use userland::syscalls::uart_write;
use userland::syscalls::DeallocPageError;
use userland::syscalls::GetUidError;
use userland::syscalls::KillError;
use userland::syscalls::LockType;
use userland::syscalls::Lockable;
use userland::syscalls::LockableSize;
use userland::syscalls::Message;
use userland::syscalls::MessageType;
use userland::syscalls::PagePermissions;
use userland::syscalls::PagePermissions::Execute;
use userland::syscalls::PagePermissions::Read;
use userland::syscalls::PagePermissions::Write;
use userland::syscalls::PagePermissionsError;
use userland::syscalls::Pid;
use userland::syscalls::SendError;
use userland::syscalls::SetUidError;
use userland::syscalls::Syscall;
use userland::syscalls::Time;
use userland::syscalls::TransferCapabilityError;
use userland::syscalls::UartWrite;
use userland::syscalls::Uid;
use userland::syscalls::PAGE_SIZE;

fn registers(call: Syscall) -> [u64; 8] {
    [call.id, call.a1, call.a2, call.a3, call.a4, call.a5, call.a6, call.a7]
}

/// A kernel that counts the traps it gets and the pages it has out.
struct Kernel {
    traps: usize,
    grants: usize,
    releases: Vec<(u64, u64)>,
}

impl Kernel {
    fn new() -> Kernel {
        Kernel { traps: 0, grants: 0, releases: Vec::new() }
    }

    fn trap(&mut self, call: Syscall) -> (u64, u64) {
        self.traps += 1;
        match call.id {
            1 => {
                self.grants += 1;
                (0x10000 * self.grants as u64, 0)
            }
            3 => {
                self.releases.push((call.a1, call.a2));
                (0, 0)
            }
            _ => (0, 0),
        }
    }
}

#[test]
fn syscall_keeps_every_register_in_place() {
    assert_eq!(registers(syscall(9, 1, 2, 3, 4, 5, 6, 7)), [9, 1, 2, 3, 4, 5, 6, 7]);
}

#[test]
fn page_size_is_4096() {
    assert_eq!(PAGE_SIZE, 4096);
}

#[test]
fn uart_write_is_operation_0() {
    assert_eq!(registers(uart_write(0x5000, 12)), [0, 0x5000, 12, 0, 0, 0, 0, 0]);
    let mut writer = UartWrite;
    assert_eq!(writer.write_str(0x5000, 12), uart_write(0x5000, 12));
}

#[test]
fn raw_perms_has_one_bit_per_permission() {
    assert_eq!(array_to_raw_perms(&[]), 0);
    assert_eq!(array_to_raw_perms(&[Read]), 0b100);
    assert_eq!(array_to_raw_perms(&[Write]), 0b010);
    assert_eq!(array_to_raw_perms(&[Execute]), 0b001);
    assert_eq!(array_to_raw_perms(&[Read, Write]), 0b110);
    assert_eq!(array_to_raw_perms(&[Write, Read]), 0b110);
    assert_eq!(array_to_raw_perms(&[Read, Execute]), 0b101);
    assert_eq!(array_to_raw_perms(&[Write, Execute]), 0b011);
    assert_eq!(array_to_raw_perms(&[Execute, Write, Read]), 0b111);
}

#[test]
fn raw_perms_ignores_repetition() {
    assert_eq!(array_to_raw_perms(&[Read, Read, Read]), 0b100);
    assert_eq!(array_to_raw_perms(&[Write, Read, Write, Read]), 0b110);
}

#[test]
fn page_count_rounds_up() {
    assert_eq!(page_count(0), 0);
    assert_eq!(page_count(1), 1);
    assert_eq!(page_count(4095), 1);
    assert_eq!(page_count(4096), 1);
    assert_eq!(page_count(4097), 2);
    assert_eq!(page_count(65537), 17);
    assert_eq!(page_count(u64::MAX), 0x10_0000_0000_0000);
}

#[test]
fn alloc_page_is_operation_1() {
    let call = alloc_page(65, &[PagePermissions::Read, PagePermissions::Write]);
    assert_eq!(registers(call), [1, 65, 6, 0, 0, 0, 0, 0]);
}

#[test]
fn alloc_page_reply_takes_null_for_no_memory() {
    assert_eq!(alloc_page_reply(0), None);
    assert_eq!(alloc_page_reply(0x8000_0000), Some(0x8000_0000));
    assert_eq!(alloc_page_reply(u64::MAX), Some(u64::MAX));
}

#[test]
fn page_permissions_is_operation_2() {
    let call = page_permissions(0x4000, 3, &[PagePermissions::Execute, PagePermissions::Read]);
    assert_eq!(registers(call), [2, 0x4000, 3, 5, 0, 0, 0, 0]);
}

#[test]
fn page_permissions_reply_names_each_status() {
    assert_eq!(page_permissions_reply(0), Ok(()));
    assert_eq!(page_permissions_reply(1), Err(PagePermissionsError::NeverAllocated));
    assert_eq!(page_permissions_reply(2), Err(PagePermissionsError::InvalidPermissions));
}

#[test]
fn dealloc_page_is_operation_3() {
    assert_eq!(registers(dealloc_page(0x7000, 2)), [3, 0x7000, 2, 0, 0, 0, 0, 0]);
}

#[test]
fn dealloc_page_reply_fails_on_any_other_status() {
    assert_eq!(dealloc_page_reply(0), Ok(()));
    assert_eq!(dealloc_page_reply(1), Err(DeallocPageError::NeverAllocated));
    assert_eq!(dealloc_page_reply(77), Err(DeallocPageError::NeverAllocated));
}

#[test]
fn getpid_is_operation_4() {
    assert_eq!(registers(getpid()), [4, 0, 0, 0, 0, 0, 0, 0]);
    assert_eq!(getpid_reply(31), Pid(31));
}

#[test]
fn getuid_is_operation_5() {
    assert_eq!(registers(getuid(Pid(8))), [5, 8, 0, 0, 0, 0, 0, 0]);
}

#[test]
fn getuid_reply_takes_all_ones_for_no_process() {
    assert_eq!(getuid_reply(0), Ok(Uid(0)));
    assert_eq!(getuid_reply(1000), Ok(Uid(1000)));
    assert_eq!(getuid_reply(u64::MAX - 1), Ok(Uid(u64::MAX - 1)));
    assert_eq!(getuid_reply(u64::MAX), Err(GetUidError::ProcessDoesNotExist));
}

#[test]
fn setuid_is_operation_6() {
    assert_eq!(registers(setuid(Pid(8), Uid(1000))), [6, 8, 1000, 0, 0, 0, 0, 0]);
}

#[test]
fn setuid_reply_names_each_status() {
    assert_eq!(setuid_reply(0), Ok(()));
    assert_eq!(setuid_reply(1), Err(SetUidError::ProcessDoesNotExist));
    assert_eq!(setuid_reply(2), Err(SetUidError::InsufficientPermissions));
}

#[test]
fn sleep_is_operation_7() {
    let call = sleep(Time { seconds: 3, micros: 250_000 });
    assert_eq!(registers(call), [7, 3, 250_000, 0, 0, 0, 0, 0]);
    assert_eq!(sleep_reply(1, 500), Time { seconds: 1, micros: 500 });
}

#[test]
fn spawn_process_is_operation_8() {
    let call = spawn_process(0x1000, 512, 0x2000, 24, Some(0x3000));
    assert_eq!(registers(call), [8, 0x1000, 512, 0x2000, 24, 0x3000, 0, 0]);
    let call = spawn_process(0x1000, 512, 0x2000, 24, None);
    assert_eq!(registers(call), [8, 0x1000, 512, 0x2000, 24, 0, 0, 0]);
}

#[test]
fn spawn_process_reply_takes_all_ones_for_failure() {
    assert_eq!(spawn_process_reply(u64::MAX), None);
    assert_eq!(spawn_process_reply(0), Some(Pid(0)));
    assert_eq!(spawn_process_reply(12), Some(Pid(12)));
}

#[test]
fn kill_fills_the_registers() {
    assert_eq!(registers(kill(Pid(7))), [9, 7, 0, 0, 0, 0, 0, 0]);
}

#[test]
fn kill_reply_names_each_status() {
    assert_eq!(kill_reply(0), Ok(()));
    assert_eq!(kill_reply(1), Err(KillError::ProcessDoesNotExist));
    assert_eq!(kill_reply(2), Err(KillError::InsufficientPermissions));
}

#[test]
fn send_is_operation_10() {
    let call = send(true, 0x9000, MessageType::Signal, 11, 22).unwrap();
    assert_eq!(registers(call), [10, 1, 0x9000, 0, 11, 22, 0, 0]);
    let call = send(false, 0x9000, MessageType::Integer, 11, 22).unwrap();
    assert_eq!(registers(call), [10, 0, 0x9000, 1, 11, 22, 0, 0]);
    let call = send(true, 0x9000, MessageType::Pointer, 0x4000, 100).unwrap();
    assert_eq!(registers(call), [10, 1, 0x9000, 2, 0x4000, 100, 0, 0]);
    let call = send(false, 0x9000, MessageType::Data, 0x4000, 0).unwrap();
    assert_eq!(registers(call), [10, 0, 0x9000, 3, 0x4000, 0, 0, 0]);
}

#[test]
fn send_refuses_interrupt_without_a_trap() {
    let mut kernel = Kernel::new();
    for block in [true, false] {
        let outcome = match send(block, 0x9000, MessageType::Interrupt, 1, 2) {
            Ok(call) => send_reply(kernel.trap(call).0),
            Err(e) => Err(e),
        };
        assert_eq!(outcome, Err(SendError::InvalidArguments));
    }
    assert_eq!(kernel.traps, 0);
    let outcome = match send(true, 0x9000, MessageType::Signal, 1, 2) {
        Ok(call) => send_reply(kernel.trap(call).0),
        Err(e) => Err(e),
    };
    assert_eq!(outcome, Ok(()));
    assert_eq!(kernel.traps, 1);
}

#[test]
fn send_reply_names_each_status() {
    assert_eq!(send_reply(0), Ok(()));
    assert_eq!(send_reply(1), Err(SendError::InvalidArguments));
    assert_eq!(send_reply(2), Err(SendError::MessageQueueFull));
}

#[test]
fn recv_is_operation_11() {
    let call = recv(true, 0x9000, 0x100, 0x108, 0x110, 0x118);
    assert_eq!(registers(call), [11, 1, 0x9000, 0x100, 0x108, 0x110, 0x118, 0]);
    let call = recv(false, 0x9000, 0x100, 0x108, 0x110, 0x118);
    assert_eq!(registers(call), [11, 0, 0x9000, 0x100, 0x108, 0x110, 0x118, 0]);
}

#[test]
fn recv_reply_reads_the_four_words() {
    let message = recv_reply(0, 5, 3, 0x4000, 9).unwrap();
    assert_eq!(message.pid, Pid(5));
    assert_eq!(message.type_, MessageType::Data);
    assert_eq!(message.data, 0x4000);
    assert_eq!(message.metadata, 9);
    let types = [
        MessageType::Signal,
        MessageType::Integer,
        MessageType::Pointer,
        MessageType::Data,
        MessageType::Interrupt,
    ];
    for (tag, type_) in types.iter().enumerate() {
        assert_eq!(recv_reply(0, 1, tag as u64, 0, 0).unwrap().type_, *type_);
    }
}

#[test]
fn recv_reply_has_no_message_on_failure() {
    assert!(recv_reply(1, 5, 3, 0x4000, 9).is_none());
    assert!(recv_reply(u64::MAX, 0, 0, 0, 0).is_none());
    assert!(recv_reply(2, 0, 99, 0, 0).is_none());
}

#[test]
fn sent_message_arrives_unchanged() {
    let types =
        [MessageType::Signal, MessageType::Integer, MessageType::Pointer, MessageType::Data];
    let fields = [(0, 0), (1, 2), (0x4000, 4096), (u64::MAX, u64::MAX), (7, 0), (0, 7)];
    for type_ in types {
        for (data, metadata) in fields {
            let call = send(true, 0x9000, type_, data, metadata).unwrap();
            let message = recv_reply(0, 42, call.a3, call.a4, call.a5).unwrap();
            assert_eq!(message.pid, Pid(42));
            assert_eq!(message.type_, type_);
            assert_eq!(message.data, data);
            assert_eq!(message.metadata, metadata);
            let _ = message.into_raw();
        }
    }
}

#[test]
fn discarded_data_releases_one_page() {
    let message = Message { pid: Pid(1), type_: MessageType::Data, data: 0x4000, metadata: 9999 };
    assert_eq!(message.discard(), Some(dealloc_page(0x4000, 1)));
}

#[test]
fn discarded_pointer_releases_its_pages() {
    let pages = [(0, 0), (1, 1), (4096, 1), (4097, 2), (8192, 2), (8193, 3), (1 << 20, 256)];
    for (len, count) in pages {
        let message =
            Message { pid: Pid(1), type_: MessageType::Pointer, data: 0x4000, metadata: len };
        let call = message.discard().unwrap();
        assert_eq!(registers(call), [3, 0x4000, count, 0, 0, 0, 0, 0]);
    }
    let message =
        Message { pid: Pid(1), type_: MessageType::Pointer, data: 0x4000, metadata: u64::MAX };
    assert_eq!(message.discard().unwrap().a2, 0x10_0000_0000_0000);
}

#[test]
fn discarded_plain_message_releases_nothing() {
    for type_ in [MessageType::Signal, MessageType::Integer, MessageType::Interrupt] {
        let message = Message { pid: Pid(1), type_, data: 0x4000, metadata: 4096 };
        assert_eq!(message.discard(), None);
    }
}

#[test]
fn into_raw_keeps_the_pages() {
    let message = Message { pid: Pid(1), type_: MessageType::Data, data: 0x4000, metadata: 7 };
    assert_eq!(message.into_raw(), (0x4000, 7));
}

#[test]
fn received_and_discarded_pages_are_released_once() {
    let mut kernel = Kernel::new();
    let arrivals = [
        (3, 0x10000, 0),
        (2, 0x20000, 10000),
        (0, 5, 6),
        (3, 0x30000, 1),
        (1, 0x40000, 4096),
        (2, 0x50000, 4096),
        (4, 0x60000, 4096),
    ];
    for (tag, data, metadata) in arrivals {
        let message = recv_reply(0, 9, tag, data, metadata).unwrap();
        if let Some(call) = message.discard() {
            let _ = dealloc_page_reply(kernel.trap(call).0);
        }
    }
    assert_eq!(
        kernel.releases,
        vec![(0x10000, 1), (0x20000, 3), (0x30000, 1), (0x50000, 1)]
    );
    assert_eq!(kernel.traps, 4);
}

#[test]
fn lockable_sizes() {
    assert_eq!(<u8 as Lockable>::size(), LockableSize::U8);
    assert_eq!(<u16 as Lockable>::size(), LockableSize::U16);
    assert_eq!(<u32 as Lockable>::size(), LockableSize::U32);
    assert_eq!(<u64 as Lockable>::size(), LockableSize::U64);
    assert_eq!(<i8 as Lockable>::size(), LockableSize::U8);
    assert_eq!(<i16 as Lockable>::size(), LockableSize::U16);
    assert_eq!(<i32 as Lockable>::size(), LockableSize::U32);
    assert_eq!(<i64 as Lockable>::size(), LockableSize::U64);
    assert_eq!(<AtomicI8 as Lockable>::size(), LockableSize::U8);
    assert_eq!(<AtomicU32 as Lockable>::size(), LockableSize::U32);
}

#[test]
fn lockable_values_widen_to_64_bits() {
    assert_eq!(Lockable::into(200u8), 200);
    assert_eq!(Lockable::into(60000u16), 60000);
    assert_eq!(Lockable::into(u32::MAX), 0xffff_ffff);
    assert_eq!(Lockable::into(u64::MAX), u64::MAX);
    assert_eq!(Lockable::into(5i8), 5);
    assert_eq!(Lockable::into(-1i8), u64::MAX);
    assert_eq!(Lockable::into(-2i16), u64::MAX - 1);
    assert_eq!(Lockable::into(i32::MIN), 0xffff_ffff_8000_0000);
    assert_eq!(Lockable::into(-1i64), u64::MAX);
    assert_eq!(Lockable::into(AtomicU32::new(77)), 77);
    assert_eq!(Lockable::into(AtomicI8::new(-1)), u64::MAX);
}

#[test]
fn lock_is_operation_12() {
    assert_eq!(registers(lock(0x800, LockType::Wait, 1u8)), [12, 0x800, 0, 1, 0, 0, 0, 0]);
    assert_eq!(registers(lock(0x800, LockType::Wake, 1u8)), [12, 0x800, 1, 1, 0, 0, 0, 0]);
    assert_eq!(registers(lock(0x800, LockType::Wait, 2u16)), [12, 0x800, 2, 2, 0, 0, 0, 0]);
    assert_eq!(registers(lock(0x800, LockType::Wake, 2i16)), [12, 0x800, 3, 2, 0, 0, 0, 0]);
    assert_eq!(registers(lock(0x800, LockType::Wait, 3u32)), [12, 0x800, 4, 3, 0, 0, 0, 0]);
    assert_eq!(registers(lock(0x800, LockType::Wake, 3i32)), [12, 0x800, 5, 3, 0, 0, 0, 0]);
    assert_eq!(registers(lock(0x800, LockType::Wait, 4u64)), [12, 0x800, 6, 4, 0, 0, 0, 0]);
    assert_eq!(registers(lock(0x800, LockType::Wake, 4i64)), [12, 0x800, 7, 4, 0, 0, 0, 0]);
    let call = lock(0x800, LockType::Wake, AtomicU32::new(9));
    assert_eq!(registers(call), [12, 0x800, 5, 9, 0, 0, 0, 0]);
}

#[test]
fn thread_reads_its_capability_from_two_halves() {
    assert!(thread_unpack_args(0, 0).is_none());
    assert_eq!(thread_unpack_args(0, 1).unwrap().raw(), 1);
    assert_eq!(thread_unpack_args(1, 0).unwrap().raw(), 1 << 64);
    assert_eq!(
        thread_unpack_args(0xaaaa, 0xbbbb).unwrap().raw(),
        Capability::from_halves(0xaaaa, 0xbbbb).raw()
    );
    assert_eq!(thread_unpack_args(u64::MAX, u64::MAX).unwrap().raw(), u128::MAX);
}

#[test]
fn spawn_thread_is_operation_13() {
    let call = spawn_thread(0x1000, 0x2000, 48, Some(0x3000));
    assert_eq!(registers(call), [13, 0x1000, 0x2000, 48, 0x3000, 0, 0, 0]);
    let call = spawn_thread(0x1000, 0x2000, 48, None);
    assert_eq!(registers(call), [13, 0x1000, 0x2000, 48, 0, 0, 0, 0]);
}

#[test]
fn spawn_thread_reply_takes_all_ones_for_failure() {
    assert_eq!(spawn_thread_reply(u64::MAX), None);
    assert_eq!(spawn_thread_reply(3), Some(Pid(3)));
}

#[test]
fn subscribe_to_interrupt_is_operation_14() {
    assert_eq!(registers(subscribe_to_interrupt(10, 0x9000)), [14, 10, 0x9000, 0, 0, 0, 0, 0]);
    assert_eq!(subscribe_to_interrupt(u32::MAX, 0).a1, 0xffff_ffff);
}

#[test]
fn alloc_pages_physical_is_operation_15() {
    let call = alloc_pages_physical(0x1000_0000, 4, &[PagePermissions::Read], 0x9000);
    assert_eq!(registers(call), [15, 0x1000_0000, 4, 4, 0x9000, 0, 0, 0]);
}

#[test]
fn transfer_capability_is_operation_16() {
    assert_eq!(registers(transfer_capability(0x9000, Pid(4))), [16, 0x9000, 4, 0, 0, 0, 0, 0]);
    assert_eq!(transfer_capability_reply(0), Ok(()));
    assert_eq!(transfer_capability_reply(1), Err(TransferCapabilityError::ProcessDoesNotExist));
}

#[test]
fn clone_capability_is_operation_17() {
    assert_eq!(registers(clone_capability(0x9000, 0x9010)), [17, 0x9000, 0x9010, 0, 0, 0, 0, 0]);
}

#[test]
fn create_capability_is_operation_18() {
    assert_eq!(registers(create_capability(0x9000, 0x9010)), [18, 0x9000, 0x9010, 0, 0, 0, 0, 0]);
}

#[test]
fn atomics_widen_what_they_hold() {
    assert_eq!(Lockable::into(AtomicU8::new(0)), 0);
    assert_eq!(Lockable::into(AtomicU8::new(u8::MAX)), 0xff);
    assert_eq!(Lockable::into(AtomicU16::new(u16::MAX)), 0xffff);
    assert_eq!(Lockable::into(AtomicU32::new(u32::MAX)), 0xffff_ffff);
    assert_eq!(Lockable::into(AtomicU64::new(u64::MAX)), u64::MAX);
    assert_eq!(Lockable::into(AtomicI8::new(i8::MAX)), 0x7f);
    assert_eq!(Lockable::into(AtomicI8::new(i8::MIN)), 0xffff_ffff_ffff_ff80);
    assert_eq!(Lockable::into(AtomicI16::new(i16::MIN)), 0xffff_ffff_ffff_8000);
    assert_eq!(Lockable::into(AtomicI16::new(7)), 7);
    assert_eq!(Lockable::into(AtomicI32::new(i32::MIN)), 0xffff_ffff_8000_0000);
    assert_eq!(Lockable::into(AtomicI32::new(i32::MAX)), 0x7fff_ffff);
    assert_eq!(Lockable::into(AtomicI64::new(i64::MIN)), 0x8000_0000_0000_0000);
    assert_eq!(Lockable::into(AtomicI64::new(-1)), u64::MAX);
}
