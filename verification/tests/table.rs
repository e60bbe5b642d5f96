use nuefi::entry::{exit_status, get_boot_table, Globals, UefiLogger, ALREADY_STARTED};
use nuefi::error::{
    EfiStatus, UefiError, ABORTED, INVALID_PARAMETER, NOT_FOUND, SECURITY_VIOLATION, UNSUPPORTED,
};
use nuefi::handle::{EfiHandle, Slot};
use nuefi::loaded_image::{LoadedImage, RawLoadedImage};
use nuefi::mem::{
    AllocStep, AllocateType, Layout, MemoryFlags, MemoryType, UefiAlloc, LOADER_DATA,
};
use nuefi::proto::{release_done, Protocol, Release, Scope, ScopeEvent, ScopeState, Time};
use nuefi::table::{
    BootCall, BootServices, Header, LoadedHandle, RawBootServices, RawSystemTable, Revision,
    SystemTable,
};

fn slots() -> RawBootServices {
    RawBootServices {
        exit: Slot(0x100),
        stall: Slot(0x200),
        get_next_monotonic_count: Slot(0x300),
        set_watchdog_timer: Slot(0x400),
        allocate_pool: Slot(0x500),
        free_pool: Slot(0x600),
        locate_protocol: Slot(0x700),
        open_protocol: Slot(0x800),
        close_protocol: Slot(0x900),
        load_image: Slot(0xA00),
        start_image: Slot(0xB00),
        unload_image: Slot(0xC00),
        install_protocol_interface: Slot(0xD00),
    }
}

fn no_slots() -> RawBootServices {
    RawBootServices {
        exit: Slot(0),
        stall: Slot(0),
        get_next_monotonic_count: Slot(0),
        set_watchdog_timer: Slot(0),
        allocate_pool: Slot(0),
        free_pool: Slot(0),
        locate_protocol: Slot(0),
        open_protocol: Slot(0),
        close_protocol: Slot(0),
        load_image: Slot(0),
        start_image: Slot(0),
        unload_image: Slot(0),
        install_protocol_interface: Slot(0),
    }
}

fn raw_table(boot: Option<RawBootServices>) -> RawSystemTable {
    RawSystemTable {
        header: Header {
            signature: 0x5453595320494249,
            revision: Revision(0x0002_0046),
            size: 120,
            crc32: 0,
            reserved: 0,
        },
        firmware_vendor: 0x7000,
        firmware_revision: 0x0001_0000,
        console_in_handle: EfiHandle(1),
        con_in: 0x10,
        console_out_handle: EfiHandle(2),
        con_out: 0x20,
        console_err_handle: EfiHandle(3),
        std_err: 0x30,
        runtime_services: 0x40,
        boot_services: boot,
    }
}

fn boot_table() -> SystemTable<nuefi::table::Boot> {
    SystemTable::new(raw_table(Some(slots()))).as_boot().unwrap()
}

fn raw_image() -> RawLoadedImage {
    RawLoadedImage {
        revision: 0x1000,
        parent: EfiHandle(5),
        system_table: 0x9000,
        device: EfiHandle(6),
        path: 0x5000,
        options_size: 0,
        options: 0,
        image_base: 0x40_0000,
        image_size: 0x2000,
        image_code: 1,
        image_data: 2,
        unload: 0,
    }
}

fn unsupported() -> UefiError {
    UefiError { status: EfiStatus(UNSUPPORTED) }
}

fn invalid() -> UefiError {
    UefiError { status: EfiStatus(INVALID_PARAMETER) }
}

#[test]
fn as_boot_follows_the_boot_services_pointer() {
    let live = SystemTable::new(raw_table(Some(slots())));
    let boot = live.as_boot().unwrap();
    assert_eq!(*boot.table(), raw_table(Some(slots())));
    assert!(live._as_runtime().is_none());

    let gone = SystemTable::new(raw_table(None));
    assert!(gone.as_boot().is_none());
    assert!(gone.as_boot().is_none());
    assert_eq!(*gone._as_runtime().unwrap().table(), raw_table(None));
}

#[test]
fn leaving_boot_services_takes_the_boot_table_away() {
    let boot = boot_table();
    let runtime = boot.exit_boot_services_done(EfiStatus::success()).unwrap();
    assert_eq!(*runtime.table(), raw_table(None));
    // the table as it reads now gives no boot table, however often it is asked
    let again = SystemTable::new(*runtime.table());
    assert!(again.as_boot().is_none());
    assert!(again.as_boot().is_none());
    assert!(get_boot_table(Some(*runtime.table())).is_none());
}

#[test]
fn failing_to_leave_boot_services_keeps_the_boot_table() {
    let boot = boot_table();
    let (boot, err) = boot.exit_boot_services_done(EfiStatus(INVALID_PARAMETER)).unwrap_err();
    assert_eq!(err, invalid());
    assert_eq!(*boot.table(), raw_table(Some(slots())));
    assert_eq!(boot.boot().raw, slots());
}

#[test]
fn boot_table_getters() {
    let boot = boot_table();
    assert_eq!(boot.firmware_vendor(), Some(0x7000));
    assert_eq!(boot.firmware_revision(), 0x0001_0000);
    assert_eq!(boot.uefi_revision(), (2, 70));
    assert_eq!(boot.stdout(), 0x20);
    assert_eq!(boot.stderr(), 0x30);
    let mut raw = raw_table(Some(slots()));
    raw.firmware_vendor = 0;
    assert_eq!(SystemTable::new(raw).as_boot().unwrap().firmware_vendor(), None);
    assert_eq!(Revision(0xFFFF_0001).major(), 0xFFFF);
    assert_eq!(Revision(0xFFFF_0001).minor(), 1);
}

#[test]
fn get_boot_table_before_entry_and_after() {
    assert!(get_boot_table(None).is_none());
    assert!(get_boot_table(Some(raw_table(None))).is_none());
    let boot = get_boot_table(Some(raw_table(Some(slots())))).unwrap();
    assert_eq!(*boot.table(), raw_table(Some(slots())));
}

#[test]
fn exit_and_image_calls() {
    let boot = BootServices::new(slots());
    assert_eq!(
        boot.exit(EfiHandle(7), EfiStatus(ABORTED)),
        Ok(BootCall::Exit {
            entry: 0x100,
            handle: EfiHandle(7),
            status: EfiStatus(ABORTED),
            data_size: 0,
            data: 0
        })
    );
    assert_eq!(
        boot.start_image(EfiHandle(8)),
        Ok(BootCall::StartImage { entry: 0xB00, handle: EfiHandle(8) })
    );
    assert_eq!(
        boot.unload_image(EfiHandle(9)),
        Ok(BootCall::UnloadImage { entry: 0xC00, handle: EfiHandle(9) })
    );
    assert_eq!(
        boot.load_image(EfiHandle(1), &[1, 2, 3, 4, 5]),
        Ok(BootCall::LoadImage {
            entry: 0xA00,
            boot_policy: false,
            parent: EfiHandle(1),
            device_path: 0,
            size: 5
        })
    );
}

#[test]
fn stall_refuses_what_does_not_fit() {
    let boot = BootServices::new(slots());
    assert_eq!(boot.stall(0), Ok(BootCall::Stall { entry: 0x200, micros: 0 }));
    assert_eq!(
        boot.stall(1_500_000),
        Ok(BootCall::Stall { entry: 0x200, micros: 1_500_000 })
    );
    assert_eq!(
        boot.stall(usize::MAX as u128),
        Ok(BootCall::Stall { entry: 0x200, micros: usize::MAX })
    );
    assert_eq!(boot.stall(usize::MAX as u128 + 1), Err(invalid()));
    assert_eq!(boot.stall(u128::MAX), Err(invalid()));
    // the argument is judged before the slot
    assert_eq!(BootServices::new(no_slots()).stall(u128::MAX), Err(invalid()));
}

#[test]
fn watchdog_is_set_in_seconds_or_turned_off() {
    let boot = BootServices::new(slots());
    assert_eq!(
        boot.set_watchdog(Some(300)),
        Ok(BootCall::SetWatchdogTimer {
            entry: 0x400,
            secs: 300,
            code: 0x10000,
            data_size: 0,
            data: 0
        })
    );
    assert_eq!(
        boot.set_watchdog(None),
        Ok(BootCall::SetWatchdogTimer { entry: 0x400, secs: 0, code: 0x10000, data_size: 0, data: 0 })
    );
    if (usize::MAX as u128) < (u64::MAX as u128) {
        assert_eq!(boot.set_watchdog(Some(u64::MAX)), Err(invalid()));
    } else {
        assert!(boot.set_watchdog(Some(u64::MAX)).is_ok());
    }
}

#[test]
fn absent_slots_fail_cleanly() {
    let boot = BootServices::new(no_slots());
    assert_eq!(boot.exit(EfiHandle(1), EfiStatus(0)), Err(unsupported()));
    assert_eq!(boot.stall(1), Err(unsupported()));
    assert_eq!(boot.next_monotonic_count(), Err(unsupported()));
    assert_eq!(boot.set_watchdog(None), Err(unsupported()));
    assert_eq!(boot.allocate_pool(MemoryType(LOADER_DATA), 1), Err(unsupported()));
    assert_eq!(boot.free_pool(0x10), Err(unsupported()));
    assert_eq!(boot.locate_protocol::<LoadedImage>(), Err(unsupported()));
    assert_eq!(
        boot.open_protocol::<LoadedImage>(EfiHandle(1), EfiHandle(2), None),
        Err(unsupported())
    );
    assert_eq!(
        boot.close_protocol::<LoadedImage>(EfiHandle(1), EfiHandle(2), None),
        Err(unsupported())
    );
    assert_eq!(boot.load_image(EfiHandle(1), &[]), Err(unsupported()));
    assert_eq!(boot.start_image(EfiHandle(1)), Err(unsupported()));
    assert_eq!(boot.unload_image(EfiHandle(1)), Err(unsupported()));
    assert_eq!(boot.install_protocol::<LoadedImage>(EfiHandle(1), 0x10), Err(unsupported()));
    assert_eq!(boot.install_protocol_ptr::<LoadedImage>(EfiHandle(1), 0x10), Err(unsupported()));
}

#[test]
fn monotonic_count_and_pool_answers() {
    let boot = BootServices::new(slots());
    assert_eq!(
        boot.next_monotonic_count(),
        Ok(BootCall::GetNextMonotonicCount { entry: 0x300 })
    );
    assert_eq!(BootServices::next_monotonic_count_done(EfiStatus(0), 42), Ok(42));
    assert_eq!(
        BootServices::next_monotonic_count_done(EfiStatus(ABORTED), 42),
        Err(UefiError { status: EfiStatus(ABORTED) })
    );
    assert_eq!(
        boot.allocate_pool(MemoryType(LOADER_DATA), 64),
        Ok(BootCall::AllocatePool { entry: 0x500, ty: MemoryType(2), size: 64 })
    );
    assert_eq!(BootServices::allocate_pool_done(EfiStatus(0), 0x8000), Ok(0x8000));
    assert_eq!(
        BootServices::allocate_pool_done(EfiStatus(NOT_FOUND), 0x8000),
        Err(UefiError { status: EfiStatus(NOT_FOUND) })
    );
    assert_eq!(boot.free_pool(0x8000), Ok(BootCall::FreePool { entry: 0x600, memory: 0x8000 }));
}

#[test]
fn locate_protocol_not_found_is_no_error() {
    let boot = BootServices::new(slots());
    assert_eq!(
        boot.locate_protocol::<LoadedImage>(),
        Ok(BootCall::LocateProtocol {
            entry: 0x700,
            guid: LoadedImage::protocol_guid(),
            registration: 0
        })
    );
    let found =
        BootServices::locate_protocol_done::<LoadedImage>(EfiStatus(0), Some(raw_image()));
    assert_eq!(found, Ok(Some(LoadedImage { raw: raw_image() })));
    assert_eq!(
        BootServices::locate_protocol_done::<LoadedImage>(EfiStatus(NOT_FOUND), None),
        Ok(None)
    );
    assert_eq!(
        BootServices::locate_protocol_done::<LoadedImage>(EfiStatus(UNSUPPORTED), None),
        Err(unsupported())
    );
}

#[test]
fn open_protocol_binds_handle_agent_and_controller() {
    let boot = BootServices::new(slots());
    assert_eq!(
        boot.open_protocol::<LoadedImage>(EfiHandle(11), EfiHandle(12), None),
        Ok(BootCall::OpenProtocol {
            entry: 0x800,
            handle: EfiHandle(11),
            guid: LoadedImage::protocol_guid(),
            agent: EfiHandle(12),
            controller: EfiHandle(0),
            attributes: 0x20
        })
    );
    assert_eq!(
        boot.open_protocol::<LoadedImage>(EfiHandle(11), EfiHandle(12), Some(EfiHandle(13))),
        Ok(BootCall::OpenProtocol {
            entry: 0x800,
            handle: EfiHandle(11),
            guid: LoadedImage::protocol_guid(),
            agent: EfiHandle(12),
            controller: EfiHandle(13),
            attributes: 0x20
        })
    );
    let scope = BootServices::open_protocol_done::<LoadedImage>(
        EfiStatus(0),
        Some(raw_image()),
        EfiHandle(11),
        EfiHandle(12),
        Some(EfiHandle(13)),
    )
    .unwrap()
    .unwrap();
    assert_eq!(scope.proto().raw, raw_image());
    assert_eq!(scope.proto().image_size(), 0x2000);
    assert_eq!(scope.handle(), EfiHandle(11));
    assert_eq!(scope.agent(), EfiHandle(12));
    assert_eq!(scope.controller(), Some(EfiHandle(13)));
}

#[test]
fn open_protocol_unsupported_is_not_present() {
    let none = BootServices::open_protocol_done::<LoadedImage>(
        EfiStatus(UNSUPPORTED),
        None,
        EfiHandle(11),
        EfiHandle(12),
        None,
    );
    assert!(matches!(none, Ok(None)));
    let err = BootServices::open_protocol_done::<LoadedImage>(
        EfiStatus(ABORTED),
        None,
        EfiHandle(11),
        EfiHandle(12),
        None,
    );
    assert_eq!(err.err(), Some(UefiError { status: EfiStatus(ABORTED) }));
    // a warning is no success either
    let warn = BootServices::open_protocol_done::<LoadedImage>(
        EfiStatus(1),
        None,
        EfiHandle(11),
        EfiHandle(12),
        None,
    );
    assert_eq!(warn.err(), Some(UefiError { status: EfiStatus(1) }));
}

#[test]
fn load_image_security_violation_is_a_flagged_success() {
    assert_eq!(
        BootServices::load_image_done(EfiStatus(0), EfiHandle(0x77)),
        Ok(LoadedHandle { handle: EfiHandle(0x77), security_violation: false })
    );
    assert_eq!(
        BootServices::load_image_done(EfiStatus(SECURITY_VIOLATION), EfiHandle(0x77)),
        Ok(LoadedHandle { handle: EfiHandle(0x77), security_violation: true })
    );
    assert_eq!(
        BootServices::load_image_done(EfiStatus(NOT_FOUND), EfiHandle(0)),
        Err(UefiError { status: EfiStatus(NOT_FOUND) })
    );
}

#[test]
fn install_protocol_call() {
    let boot = BootServices::new(slots());
    let call = BootCall::InstallProtocolInterface {
        entry: 0xD00,
        handle: EfiHandle(4),
        guid: LoadedImage::protocol_guid(),
        interface_type: 0,
        interface: 0xABC0,
    };
    assert_eq!(boot.install_protocol::<LoadedImage>(EfiHandle(4), 0xABC0), Ok(call));
    assert_eq!(boot.install_protocol_ptr::<LoadedImage>(EfiHandle(4), 0xABC0), Ok(call));
}

fn open_scope(controller: Option<EfiHandle>) -> Scope<LoadedImage> {
    Scope::new(LoadedImage::from_raw(raw_image()), EfiHandle(21), EfiHandle(22), controller)
}

#[test]
fn close_issues_the_close_with_the_same_triple() {
    let boot = BootServices::new(slots());
    assert_eq!(
        open_scope(Some(EfiHandle(23))).close(&boot),
        Ok(BootCall::CloseProtocol {
            entry: 0x900,
            handle: EfiHandle(21),
            guid: LoadedImage::protocol_guid(),
            agent: EfiHandle(22),
            controller: EfiHandle(23)
        })
    );
    assert_eq!(
        open_scope(None).close(&boot),
        Ok(BootCall::CloseProtocol {
            entry: 0x900,
            handle: EfiHandle(21),
            guid: LoadedImage::protocol_guid(),
            agent: EfiHandle(22),
            controller: EfiHandle(0)
        })
    );
    assert_eq!(open_scope(None).close(&BootServices::new(no_slots())), Err(unsupported()));
    // the same call as the boot services make by themselves
    assert_eq!(
        open_scope(None).close(&boot),
        boot.close_protocol::<LoadedImage>(EfiHandle(21), EfiHandle(22), None)
    );
}

#[test]
fn leak_closes_nothing_and_hands_out_the_protocol() {
    let proto = open_scope(None).leak();
    assert_eq!(proto, LoadedImage { raw: raw_image() });
}

#[test]
fn release_tries_the_same_close_or_reports_that_none_is_possible() {
    let boot = boot_table();
    assert_eq!(
        open_scope(Some(EfiHandle(23))).release(Some(&boot)),
        Release::Close(BootCall::CloseProtocol {
            entry: 0x900,
            handle: EfiHandle(21),
            guid: LoadedImage::protocol_guid(),
            agent: EfiHandle(22),
            controller: EfiHandle(23)
        })
    );
    assert_eq!(open_scope(None).release(None), Release::NoBootServices);
    let bare = SystemTable::new(raw_table(Some(no_slots()))).as_boot().unwrap();
    assert_eq!(open_scope(None).release(Some(&bare)), Release::NoBootServices);
    assert_eq!(release_done(EfiStatus(0)), None);
    assert_eq!(release_done(EfiStatus(ABORTED)), Some(UefiError { status: EfiStatus(ABORTED) }));
}

#[test]
fn scope_life_has_one_close_attempt_at_most() {
    for first in [ScopeEvent::Close, ScopeEvent::Leak, ScopeEvent::Dropped] {
        let (state, attempt) = ScopeState::Open.step(first);
        assert_eq!(state, ScopeState::Closed);
        assert_eq!(attempt, first != ScopeEvent::Leak);
        for second in [ScopeEvent::Opened, ScopeEvent::Close, ScopeEvent::Leak, ScopeEvent::Dropped] {
            assert_eq!(state.step(second), (ScopeState::Closed, false));
        }
    }
    assert_eq!(ScopeState::Unopened.step(ScopeEvent::Opened), (ScopeState::Open, false));
    assert_eq!(ScopeState::Unopened.step(ScopeEvent::Close), (ScopeState::Unopened, false));
    assert_eq!(ScopeState::Open.step(ScopeEvent::Opened), (ScopeState::Open, false));
}

#[test]
fn allocate_without_boot_table_fails_without_a_call() {
    let alloc = UefiAlloc::new();
    assert_eq!(alloc.allocate(Layout { size: 16, align: 8 }, None), AllocStep::Fail);
}

#[test]
fn allocate_with_too_much_alignment_always_fails() {
    let alloc = UefiAlloc::new();
    let boot = boot_table();
    assert_eq!(alloc.allocate(Layout { size: 16, align: 16 }, None), AllocStep::Fail);
    assert_eq!(alloc.allocate(Layout { size: 16, align: 16 }, Some(&boot)), AllocStep::Fail);
    assert_eq!(alloc.allocate(Layout { size: 16, align: 4096 }, Some(&boot)), AllocStep::Fail);
}

#[test]
fn allocate_asks_the_pool_for_loader_data() {
    let alloc = UefiAlloc::new();
    let boot = boot_table();
    for align in [1usize, 2, 4, 8] {
        assert_eq!(
            alloc.allocate(Layout { size: 16, align }, Some(&boot)),
            AllocStep::Call(BootCall::AllocatePool { entry: 0x500, ty: MemoryType(2), size: 16 })
        );
    }
    let bare = SystemTable::new(raw_table(Some(no_slots()))).as_boot().unwrap();
    assert_eq!(alloc.allocate(Layout { size: 16, align: 8 }, Some(&bare)), AllocStep::Fail);
    assert_eq!(alloc.allocate_done(Ok(0x8000)), 0x8000);
    assert_eq!(alloc.allocate_done(Err(UefiError { status: EfiStatus(ABORTED) })), 0);
}

#[test]
fn deallocate_of_null_does_nothing() {
    let alloc = UefiAlloc::new();
    let boot = boot_table();
    let layout = Layout { size: 16, align: 8 };
    assert_eq!(alloc.deallocate(0, layout, Some(&boot)), None);
    assert_eq!(alloc.deallocate(0x8000, layout, None), None);
    assert_eq!(
        alloc.deallocate(0x8000, layout, Some(&boot)),
        Some(BootCall::FreePool { entry: 0x600, memory: 0x8000 })
    );
    assert_eq!(alloc.deallocate_done(EfiStatus(0)), None);
    assert_eq!(
        alloc.deallocate_done(EfiStatus(INVALID_PARAMETER)),
        Some(UefiError { status: EfiStatus(INVALID_PARAMETER) })
    );
}

#[test]
fn memory_types_and_flags() {
    assert!(MemoryType(LOADER_DATA).is_known());
    assert!(MemoryType(15).is_known());
    assert!(!MemoryType(16).is_known());
    assert!(AllocateType(2).is_known());
    assert!(!AllocateType(3).is_known());
    let flags = MemoryFlags(MemoryFlags::WB | MemoryFlags::RUNTIME);
    assert!(flags.contains(MemoryFlags::WB));
    assert!(flags.contains(MemoryFlags::RUNTIME | MemoryFlags::WB));
    assert!(!flags.contains(MemoryFlags::UC));
}

#[test]
fn entering_keeps_the_words_once() {
    let mut globals = Globals::new();
    assert_eq!(globals.table(), None);
    assert_eq!(globals.handle(), None);
    assert_eq!(
        globals.enter(EfiHandle(0), 0x9000, Ok(())),
        Err(EfiStatus(INVALID_PARAMETER))
    );
    assert_eq!(globals.enter(EfiHandle(1), 0, Ok(())), Err(EfiStatus(INVALID_PARAMETER)));
    assert_eq!(
        globals.enter(EfiHandle(1), 0x9000, Err(UefiError { status: EfiStatus(ABORTED) })),
        Err(EfiStatus(ABORTED))
    );
    assert_eq!(globals, Globals::new());
    assert_eq!(globals.enter(EfiHandle(1), 0x9000, Ok(())), Ok(()));
    assert_eq!(globals.table(), Some(0x9000));
    assert_eq!(globals.handle(), Some(EfiHandle(1)));
    assert_eq!(globals.enter(EfiHandle(2), 0xA000, Ok(())), Err(EfiStatus(ALREADY_STARTED)));
    assert_eq!(globals.table(), Some(0x9000));
    assert_eq!(globals.handle(), Some(EfiHandle(1)));
}

#[test]
fn exit_status_of_main() {
    assert_eq!(exit_status(Ok(())), EfiStatus(0));
    assert_eq!(exit_status(Err(UefiError { status: EfiStatus(NOT_FOUND) })), EfiStatus(NOT_FOUND));
}

#[test]
fn logger_targets() {
    let logger = UefiLogger::new();
    assert!(logger.enabled("uefi"));
    assert!(logger.enabled("uefi_stub"));
    assert!(!logger.enabled("uefi_stub2"));
    assert!(!logger.enabled(""));
    assert!(!logger.enabled("other"));
}

#[test]
fn loaded_image_getters_and_setters() {
    let mut image = LoadedImage::from_raw(raw_image());
    assert_eq!(image.image_base(), 0x40_0000);
    assert_eq!(image.image_size(), 0x2000);
    assert_eq!(image.device(), Some(EfiHandle(6)));
    assert_eq!(image.file_path(), Some(0x5000));
    assert_eq!(LoadedImage::protocol_name(), "LoadedImage");
    assert_eq!(
        image.guid().to_bytes(),
        [
            0xA1, 0x31, 0x1B, 0x5B, 0x62, 0x95, 0xD2, 0x11, 0x8E, 0x3F, 0x00, 0xA0, 0xC9, 0x69,
            0x72, 0x3B
        ]
    );
    image.set_device(EfiHandle(0));
    assert_eq!(image.device(), None);
    image.set_path(0);
    assert_eq!(image.file_path(), None);
    image.set_options(0x6000, 10, 2);
    assert_eq!(image.raw.options, 0x6000);
    assert_eq!(image.raw.options_size, 20);
    let mut expected = raw_image();
    expected.device = EfiHandle(0);
    expected.path = 0;
    expected.options = 0x6000;
    expected.options_size = 20;
    assert_eq!(image.raw, expected);
}

#[test]
fn handles_and_slots() {
    assert!(EfiHandle::null().is_null());
    assert!(!EfiHandle(1).is_null());
    assert_eq!(Slot::empty().entry(), None);
    assert_eq!(Slot(0x10).entry(), Some(0x10));
    assert_eq!(Time::default().year, 0);
    assert_eq!(Time::default().nanosecond, 0);
}
