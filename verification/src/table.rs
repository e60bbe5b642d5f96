//! The system table and its boot services.
//!
//! The table passes through phases. While boot services run, the
//! table's pointer to them is set; once the image has left boot
//! services for good, it is null, and nothing sets it again. A table
//! typed `Boot` always has boot services, one typed `Runtime` never
//! has, and one typed `Internal` is the table as it was last read,
//! which must be asked each time.
//!
//! Every operation of the boot services comes in two halves. The first
//! checks the arguments and gives the call that the firmware is to be
//! handed, or the error where the arguments do not fit or the firmware
//! does not offer the operation. The second reads the firmware's
//! answer. A status other than success always becomes an error that
//! holds the status.
use core::marker::PhantomData;
use vstd::prelude::*;
use crate::error::{EfiStatus, UefiError, INVALID_PARAMETER, NOT_FOUND, SECURITY_VIOLATION, UNSUPPORTED};
use crate::guid::Guid;
use crate::handle::{handle_or_null, EfiHandle, Slot};
use crate::mem::MemoryType;
use crate::proto::{Protocol, Scope};

verus! {

/// The code that the watchdog reports when it fires: the first that
/// the firmware leaves to images.
pub const WATCHDOG_CODE: u64 = 0x10000;

/// Opening a protocol for one agent alone.
pub const OPEN_EXCLUSIVE: u32 = 0x20;

/// The interface type of an interface that is native to the firmware.
pub const NATIVE_INTERFACE: u32 = 0;

/// The operations of the boot services, one slot each.
#[derive(Clone, Copy, Debug, PartialEq, Eq, Structural)]
pub struct RawBootServices {
    pub exit: Slot,
    pub stall: Slot,
    pub get_next_monotonic_count: Slot,
    pub set_watchdog_timer: Slot,
    pub allocate_pool: Slot,
    pub free_pool: Slot,
    pub locate_protocol: Slot,
    pub open_protocol: Slot,
    pub close_protocol: Slot,
    pub load_image: Slot,
    pub start_image: Slot,
    pub unload_image: Slot,
    pub install_protocol_interface: Slot,
}

/// A revision: the major number in the high half, the minor number in
/// the low half.
#[derive(Clone, Copy, Debug, PartialEq, Eq, Structural)]
pub struct Revision(pub u32);

impl Revision {
    pub fn major(&self) -> (r: u32)
        ensures
            r == self.0 / 65536,
    {
        self.0 / 65536
    }

    pub fn minor(&self) -> (r: u32)
        ensures
            r == self.0 % 65536,
    {
        self.0 % 65536
    }
}

/// The header that every firmware table starts with.
#[derive(Clone, Copy, Debug, PartialEq, Eq, Structural)]
pub struct Header {
    pub signature: u64,
    pub revision: Revision,
    pub size: u32,
    pub crc32: u32,
    pub reserved: u32,
}

/// The system table as it was read: addresses are words, a null
/// pointer is zero, and the boot services are their slots or nothing
/// where the pointer to them is null.
#[derive(Clone, Copy, Debug, PartialEq, Eq, Structural)]
pub struct RawSystemTable {
    pub header: Header,
    pub firmware_vendor: usize,
    pub firmware_revision: u32,
    pub console_in_handle: EfiHandle,
    pub con_in: usize,
    pub console_out_handle: EfiHandle,
    pub con_out: usize,
    pub console_err_handle: EfiHandle,
    pub std_err: usize,
    pub runtime_services: usize,
    pub boot_services: Option<RawBootServices>,
}

impl RawSystemTable {
    /// The table once the image has left boot services: as it was, but
    /// for the pointer to the boot services, which is null.
    pub open spec fn exited(self) -> RawSystemTable {
        RawSystemTable { boot_services: None, ..self }
    }
}

/// A call that the firmware is to be handed: the address of the
/// operation and its arguments, as words.
#[derive(Clone, Copy, Debug, PartialEq, Eq)]
pub enum BootCall {
    Exit { entry: usize, handle: EfiHandle, status: EfiStatus, data_size: usize, data: usize },
    Stall { entry: usize, micros: usize },
    GetNextMonotonicCount { entry: usize },
    SetWatchdogTimer { entry: usize, secs: usize, code: u64, data_size: usize, data: usize },
    AllocatePool { entry: usize, ty: MemoryType, size: usize },
    FreePool { entry: usize, memory: usize },
    LocateProtocol { entry: usize, guid: Guid, registration: usize },
    OpenProtocol {
        entry: usize,
        handle: EfiHandle,
        guid: Guid,
        agent: EfiHandle,
        controller: EfiHandle,
        attributes: u32,
    },
    CloseProtocol {
        entry: usize,
        handle: EfiHandle,
        guid: Guid,
        agent: EfiHandle,
        controller: EfiHandle,
    },
    LoadImage {
        entry: usize,
        boot_policy: bool,
        parent: EfiHandle,
        device_path: usize,
        size: usize,
    },
    StartImage { entry: usize, handle: EfiHandle },
    UnloadImage { entry: usize, handle: EfiHandle },
    InstallProtocolInterface {
        entry: usize,
        handle: EfiHandle,
        guid: Guid,
        interface_type: u32,
        interface: usize,
    },
}

/// An image that the firmware loaded.
#[derive(Clone, Copy, Debug, PartialEq, Eq, Structural)]
pub struct LoadedHandle {
    pub handle: EfiHandle,
    /// The platform's policy does not vouch for the image. Look at
    /// this before the image is started.
    pub security_violation: bool,
}

/// The address in `slot`, or the error that says that the firmware
/// does not offer the operation.
pub open spec fn slot_entry(slot: Slot) -> Result<usize, UefiError> {
    match slot.spec_entry() {
        Some(entry) => Ok(entry),
        None => Err(UefiError { status: EfiStatus(UNSUPPORTED) }),
    }
}

/// The address in `slot`, or the error that says that the firmware
/// does not offer the operation.
pub fn entry_of(slot: Slot) -> (r: Result<usize, UefiError>)
    ensures
        r == slot_entry(slot),
{
    match slot.entry() {
        Some(entry) => Ok(entry),
        None => Err(UefiError::new(EfiStatus::unsupported())),
    }
}

/// The error for an argument that does not fit the firmware's word.
pub open spec fn does_not_fit() -> UefiError {
    UefiError { status: EfiStatus(INVALID_PARAMETER) }
}

/// The boot services of the firmware.
#[derive(Clone, Copy, Debug)]
pub struct BootServices {
    pub raw: RawBootServices,
}

impl View for BootServices {
    type V = RawBootServices;

    open spec fn view(&self) -> RawBootServices {
        self.raw
    }
}

impl BootServices {
    /// The boot services over their slots.
    pub fn new(raw: RawBootServices) -> (r: Self)
        ensures
            r@ == raw,
    {
        BootServices { raw }
    }

    pub open spec fn exit_spec(&self, handle: EfiHandle, status: EfiStatus) -> Result<
        BootCall,
        UefiError,
    > {
        match slot_entry(self@.exit) {
            Ok(entry) => Ok(BootCall::Exit { entry, handle, status, data_size: 0, data: 0 }),
            Err(e) => Err(e),
        }
    }

    /// Ends the image `handle` with `status`.
    pub fn exit(&self, handle: EfiHandle, status: EfiStatus) -> (r: Result<BootCall, UefiError>)
        ensures
            r == self.exit_spec(handle, status),
    {
        let entry = entry_of(self.raw.exit)?;
        Ok(BootCall::Exit { entry, handle, status, data_size: 0, data: 0 })
    }

    pub open spec fn stall_spec(&self, micros: u128) -> Result<BootCall, UefiError> {
        if micros > usize::MAX {
            Err(does_not_fit())
        } else {
            match slot_entry(self@.stall) {
                Ok(entry) => Ok(BootCall::Stall { entry, micros: micros as usize }),
                Err(e) => Err(e),
            }
        }
    }

    /// Waits for `micros` microseconds. A count that does not fit the
    /// firmware's word is refused, not cut down.
    pub fn stall(&self, micros: u128) -> (r: Result<BootCall, UefiError>)
        ensures
            r == self.stall_spec(micros),
    {
        if micros > usize::MAX as u128 {
            return Err(UefiError::new(EfiStatus::invalid_parameter()));
        }
        let entry = entry_of(self.raw.stall)?;
        Ok(BootCall::Stall { entry, micros: micros as usize })
    }

    pub open spec fn next_monotonic_count_spec(&self) -> Result<BootCall, UefiError> {
        match slot_entry(self@.get_next_monotonic_count) {
            Ok(entry) => Ok(BootCall::GetNextMonotonicCount { entry }),
            Err(e) => Err(e),
        }
    }

    /// Asks for the next value of the counter that only goes up.
    pub fn next_monotonic_count(&self) -> (r: Result<BootCall, UefiError>)
        ensures
            r == self.next_monotonic_count_spec(),
    {
        let entry = entry_of(self.raw.get_next_monotonic_count)?;
        Ok(BootCall::GetNextMonotonicCount { entry })
    }

    /// The count that the firmware wrote, or the error.
    pub fn next_monotonic_count_done(status: EfiStatus, count: u64) -> (r: Result<u64, UefiError>)
        ensures
            r == match status.outcome() {
                Ok(_) => Ok::<u64, UefiError>(count),
                Err(e) => Err(e),
            },
    {
        match status.into_result() {
            Ok(_) => Ok(count),
            Err(e) => Err(e),
        }
    }

    pub open spec fn set_watchdog_spec(&self, timeout_secs: Option<u64>) -> Result<
        BootCall,
        UefiError,
    > {
        let secs = match timeout_secs {
            Some(s) => s,
            None => 0u64,
        };
        if secs > usize::MAX {
            Err(does_not_fit())
        } else {
            match slot_entry(self@.set_watchdog_timer) {
                Ok(entry) => Ok(
                    BootCall::SetWatchdogTimer {
                        entry,
                        secs: secs as usize,
                        code: WATCHDOG_CODE,
                        data_size: 0,
                        data: 0,
                    },
                ),
                Err(e) => Err(e),
            }
        }
    }

    /// Sets the watchdog to fire after `timeout_secs` seconds, or
    /// turns it off where no timeout is given. A count that does not
    /// fit the firmware's word is refused, not cut down.
    pub fn set_watchdog(&self, timeout_secs: Option<u64>) -> (r: Result<BootCall, UefiError>)
        ensures
            r == self.set_watchdog_spec(timeout_secs),
    {
        let secs: u64 = match timeout_secs {
            Some(s) => s,
            None => 0,
        };
        if secs > usize::MAX as u64 {
            return Err(UefiError::new(EfiStatus::invalid_parameter()));
        }
        let entry = entry_of(self.raw.set_watchdog_timer)?;
        Ok(
            BootCall::SetWatchdogTimer {
                entry,
                secs: secs as usize,
                code: WATCHDOG_CODE,
                data_size: 0,
                data: 0,
            },
        )
    }

    pub open spec fn allocate_pool_spec(&self, ty: MemoryType, size: usize) -> Result<
        BootCall,
        UefiError,
    > {
        match slot_entry(self@.allocate_pool) {
            Ok(entry) => Ok(BootCall::AllocatePool { entry, ty, size }),
            Err(e) => Err(e),
        }
    }

    /// Asks the pool for `size` bytes of memory of type `ty`.
    pub fn allocate_pool(&self, ty: MemoryType, size: usize) -> (r: Result<BootCall, UefiError>)
        ensures
            r == self.allocate_pool_spec(ty, size),
    {
        let entry = entry_of(self.raw.allocate_pool)?;
        Ok(BootCall::AllocatePool { entry, ty, size })
    }

    /// The address of the block that the pool gave, or the error.
    pub fn allocate_pool_done(status: EfiStatus, block: usize) -> (r: Result<usize, UefiError>)
        ensures
            r == match status.outcome() {
                Ok(_) => Ok::<usize, UefiError>(block),
                Err(e) => Err(e),
            },
    {
        match status.into_result() {
            Ok(_) => Ok(block),
            Err(e) => Err(e),
        }
    }

    pub open spec fn free_pool_spec(&self, memory: usize) -> Result<BootCall, UefiError> {
        match slot_entry(self@.free_pool) {
            Ok(entry) => Ok(BootCall::FreePool { entry, memory }),
            Err(e) => Err(e),
        }
    }

    /// Gives a block back to the pool. The block must have come from
    /// the pool and must not be null.
    pub fn free_pool(&self, memory: usize) -> (r: Result<BootCall, UefiError>)
        ensures
            r == self.free_pool_spec(memory),
    {
        let entry = entry_of(self.raw.free_pool)?;
        Ok(BootCall::FreePool { entry, memory })
    }

    pub open spec fn locate_protocol_spec(&self, guid: Guid) -> Result<BootCall, UefiError> {
        match slot_entry(self@.locate_protocol) {
            Ok(entry) => Ok(BootCall::LocateProtocol { entry, guid, registration: 0 }),
            Err(e) => Err(e),
        }
    }

    /// Asks for some instance of the protocol `T`, on whatever handle
    /// it is installed.
    pub fn locate_protocol<T: Protocol>(&self) -> (r: Result<BootCall, UefiError>)
        ensures
            r == self.locate_protocol_spec(T::guid_spec()),
    {
        let entry = entry_of(self.raw.locate_protocol)?;
        Ok(BootCall::LocateProtocol { entry, guid: T::protocol_guid(), registration: 0 })
    }

    /// The instance that the firmware found. That it found none is no
    /// error. `raw` is the structure that the firmware pointed to,
    /// which is there whenever the call succeeded.
    pub fn locate_protocol_done<T: Protocol>(status: EfiStatus, raw: Option<T::Raw>) -> (r: Result<
        Option<T>,
        UefiError,
    >)
        requires
            status.is_success() ==> raw is Some,
        ensures
            status.is_success() ==> r is Ok && r->Ok_0 is Some && r->Ok_0->Some_0.raw_spec()
                == raw->Some_0,
            status == EfiStatus(NOT_FOUND) ==> r is Ok && r->Ok_0 is None,
            !status.is_success() && status != EfiStatus(NOT_FOUND) ==> r == Err::<Option<T>, _>(
                UefiError { status },
            ),
    {
        if status.is_success() {
            Ok(Some(T::from_raw(raw.unwrap())))
        } else if status == EfiStatus::not_found() {
            Ok(None)
        } else {
            Err(UefiError::new(status))
        }
    }

    pub open spec fn open_protocol_spec(
        &self,
        guid: Guid,
        handle: EfiHandle,
        agent: EfiHandle,
        controller: Option<EfiHandle>,
    ) -> Result<BootCall, UefiError> {
        match slot_entry(self@.open_protocol) {
            Ok(entry) => Ok(
                BootCall::OpenProtocol {
                    entry,
                    handle,
                    guid,
                    agent,
                    controller: handle_or_null(controller),
                    attributes: OPEN_EXCLUSIVE,
                },
            ),
            Err(e) => Err(e),
        }
    }

    /// Asks to open the protocol `T` on `handle` for `agent` alone.
    pub fn open_protocol<T: Protocol>(
        &self,
        handle: EfiHandle,
        agent: EfiHandle,
        controller: Option<EfiHandle>,
    ) -> (r: Result<BootCall, UefiError>)
        ensures
            r == self.open_protocol_spec(T::guid_spec(), handle, agent, controller),
    {
        let entry = entry_of(self.raw.open_protocol)?;
        let controller = match controller {
            Some(c) => c,
            None => EfiHandle::null(),
        };
        Ok(
            BootCall::OpenProtocol {
                entry,
                handle,
                guid: T::protocol_guid(),
                agent,
                controller,
                attributes: OPEN_EXCLUSIVE,
            },
        )
    }

    /// The scope of the protocol that the firmware opened, bound to
    /// the handle, agent and controller that the call was made with.
    /// That the handle does not support the protocol is no error.
    /// `raw` is the structure that the firmware pointed to, which is
    /// there whenever the call succeeded.
    pub fn open_protocol_done<T: Protocol>(
        status: EfiStatus,
        raw: Option<T::Raw>,
        handle: EfiHandle,
        agent: EfiHandle,
        controller: Option<EfiHandle>,
    ) -> (r: Result<Option<Scope<T>>, UefiError>)
        requires
            status.is_success() ==> raw is Some,
        ensures
            status.is_success() ==> r is Ok && r->Ok_0 is Some && {
                let scope = r->Ok_0->Some_0;
                &&& scope.proto_spec().raw_spec() == raw->Some_0
                &&& scope.handle_spec() == handle
                &&& scope.agent_spec() == agent
                &&& scope.controller_spec() == controller
            },
            status == EfiStatus(UNSUPPORTED) ==> r is Ok && r->Ok_0 is None,
            !status.is_success() && status != EfiStatus(UNSUPPORTED) ==> r is Err && r->Err_0 == (
            UefiError { status }),
    {
        if status.is_success() {
            Ok(Some(Scope::new(T::from_raw(raw.unwrap()), handle, agent, controller)))
        } else if status == EfiStatus::unsupported() {
            Ok(None)
        } else {
            Err(UefiError::new(status))
        }
    }

    pub open spec fn close_protocol_spec(
        &self,
        guid: Guid,
        handle: EfiHandle,
        agent: EfiHandle,
        controller: Option<EfiHandle>,
    ) -> Result<BootCall, UefiError> {
        match slot_entry(self@.close_protocol) {
            Ok(entry) => Ok(
                BootCall::CloseProtocol {
                    entry,
                    handle,
                    guid,
                    agent,
                    controller: handle_or_null(controller),
                },
            ),
            Err(e) => Err(e),
        }
    }

    /// Asks to close the protocol `T` on `handle`. The handle, agent
    /// and controller must be those that it was opened with.
    pub fn close_protocol<T: Protocol>(
        &self,
        handle: EfiHandle,
        agent: EfiHandle,
        controller: Option<EfiHandle>,
    ) -> (r: Result<BootCall, UefiError>)
        ensures
            r == self.close_protocol_spec(T::guid_spec(), handle, agent, controller),
    {
        let entry = entry_of(self.raw.close_protocol)?;
        let controller = match controller {
            Some(c) => c,
            None => EfiHandle::null(),
        };
        Ok(BootCall::CloseProtocol { entry, handle, guid: T::protocol_guid(), agent, controller })
    }

    pub open spec fn load_image_spec(&self, parent: EfiHandle, size: usize) -> Result<
        BootCall,
        UefiError,
    > {
        match slot_entry(self@.load_image) {
            Ok(entry) => Ok(
                BootCall::LoadImage { entry, boot_policy: false, parent, device_path: 0, size },
            ),
            Err(e) => Err(e),
        }
    }

    /// Asks to load the image that the bytes of `src` hold, as a child
    /// of `parent`.
    pub fn load_image(&self, parent: EfiHandle, src: &[u8]) -> (r: Result<BootCall, UefiError>)
        ensures
            r == self.load_image_spec(parent, src@.len() as usize),
    {
        let entry = entry_of(self.raw.load_image)?;
        Ok(
            BootCall::LoadImage {
                entry,
                boot_policy: false,
                parent,
                device_path: 0,
                size: src.len(),
            },
        )
    }

    /// The handle of the image that the firmware loaded. An image that
    /// the platform's policy does not vouch for counts as loaded, and
    /// the result says so. The firmware gives no null handle for an
    /// image that it loaded.
    pub fn load_image_done(status: EfiStatus, image: EfiHandle) -> (r: Result<
        LoadedHandle,
        UefiError,
    >)
        requires
            status.is_success() || status == EfiStatus(SECURITY_VIOLATION) ==> !image.is_null(),
        ensures
            r == if status.is_success() {
                Ok::<_, UefiError>(LoadedHandle { handle: image, security_violation: false })
            } else if status == EfiStatus(SECURITY_VIOLATION) {
                Ok(LoadedHandle { handle: image, security_violation: true })
            } else {
                Err(UefiError { status })
            },
    {
        if status.is_success() {
            Ok(LoadedHandle { handle: image, security_violation: false })
        } else if status == EfiStatus::security_violation() {
            Ok(LoadedHandle { handle: image, security_violation: true })
        } else {
            Err(UefiError::new(status))
        }
    }

    pub open spec fn start_image_spec(&self, handle: EfiHandle) -> Result<BootCall, UefiError> {
        match slot_entry(self@.start_image) {
            Ok(entry) => Ok(BootCall::StartImage { entry, handle }),
            Err(e) => Err(e),
        }
    }

    /// Asks to start an image that was loaded before.
    pub fn start_image(&self, handle: EfiHandle) -> (r: Result<BootCall, UefiError>)
        ensures
            r == self.start_image_spec(handle),
    {
        let entry = entry_of(self.raw.start_image)?;
        Ok(BootCall::StartImage { entry, handle })
    }

    pub open spec fn unload_image_spec(&self, handle: EfiHandle) -> Result<BootCall, UefiError> {
        match slot_entry(self@.unload_image) {
            Ok(entry) => Ok(BootCall::UnloadImage { entry, handle }),
            Err(e) => Err(e),
        }
    }

    /// Asks to unload an image that was loaded before.
    pub fn unload_image(&self, handle: EfiHandle) -> (r: Result<BootCall, UefiError>)
        ensures
            r == self.unload_image_spec(handle),
    {
        let entry = entry_of(self.raw.unload_image)?;
        Ok(BootCall::UnloadImage { entry, handle })
    }

    pub open spec fn install_protocol_spec(
        &self,
        guid: Guid,
        handle: EfiHandle,
        interface: usize,
    ) -> Result<BootCall, UefiError> {
        match slot_entry(self@.install_protocol_interface) {
            Ok(entry) => Ok(
                BootCall::InstallProtocolInterface {
                    entry,
                    handle,
                    guid,
                    interface_type: NATIVE_INTERFACE,
                    interface,
                },
            ),
            Err(e) => Err(e),
        }
    }

    /// Asks to install an instance of the protocol `T` on `handle`.
    /// `interface` is the address of a structure that lives as long
    /// as the program does.
    pub fn install_protocol<T: Protocol>(&self, handle: EfiHandle, interface: usize) -> (r: Result<
        BootCall,
        UefiError,
    >)
        ensures
            r == self.install_protocol_spec(T::guid_spec(), handle, interface),
    {
        self.install_protocol_ptr::<T>(handle, interface)
    }

    /// Asks to install an instance of the protocol `T` on `handle`.
    /// The caller vouches that `interface` is the address of such an
    /// instance and that it lives long enough.
    pub fn install_protocol_ptr<T: Protocol>(&self, handle: EfiHandle, interface: usize) -> (r:
        Result<BootCall, UefiError>)
        ensures
            r == self.install_protocol_spec(T::guid_spec(), handle, interface),
    {
        let entry = entry_of(self.raw.install_protocol_interface)?;
        Ok(
            BootCall::InstallProtocolInterface {
                entry,
                handle,
                guid: T::protocol_guid(),
                interface_type: NATIVE_INTERFACE,
                interface,
            },
        )
    }
}

/// A phase of the system table, as a type. It says which tables can
/// be in it.
pub trait Phase {
    /// Whether a table that reads `table` can be in this phase.
    spec fn admits(table: RawSystemTable) -> bool;
}

/// The phase before the image has left boot services.
#[derive(Clone, Copy, Debug)]
pub struct Boot;

/// The phase after the image has left boot services.
#[derive(Clone, Copy, Debug)]
pub struct Runtime;

/// No phase yet: the table as it was read, which may be in either.
#[derive(Clone, Copy, Debug)]
pub struct Internal;

impl Phase for Boot {
    open spec fn admits(table: RawSystemTable) -> bool {
        table.boot_services is Some
    }
}

impl Phase for Runtime {
    open spec fn admits(table: RawSystemTable) -> bool {
        table.boot_services is None
    }
}

impl Phase for Internal {
    open spec fn admits(table: RawSystemTable) -> bool {
        true
    }
}

/// The system table in the phase `State`.
///
/// It is neither `Copy` nor `Clone`: leaving boot services takes the
/// boot table away for good.
#[derive(Debug)]
pub struct SystemTable<State: Phase> {
    table: RawSystemTable,
    phantom: PhantomData<State>,
}

impl<State: Phase> View for SystemTable<State> {
    type V = RawSystemTable;

    closed spec fn view(&self) -> RawSystemTable {
        self.table
    }
}

/// What asking a table for its boot phase gives: the table, if its
/// pointer to the boot services is set, and nothing otherwise.
pub open spec fn boot_view(table: RawSystemTable) -> Option<RawSystemTable> {
    if table.boot_services is Some {
        Some(table)
    } else {
        None
    }
}

impl<State: Phase> SystemTable<State> {
    #[verifier::type_invariant]
    spec fn inv(self) -> bool {
        State::admits(self.table)
    }

    /// The table as it was read.
    pub fn table(&self) -> (r: &RawSystemTable)
        ensures
            *r == self@,
            State::admits(self@),
    {
        proof {
            use_type_invariant(self);
        }
        &self.table
    }
}

impl SystemTable<Internal> {
    /// The table as it was just read, in no phase.
    pub fn new(table: RawSystemTable) -> (r: Self)
        ensures
            r@ == table,
    {
        SystemTable { table, phantom: PhantomData }
    }

    /// The boot table, if the image has not left boot services: that
    /// is, if the table's pointer to them is set. The answer holds
    /// for the table as it was read; the phase can change between two
    /// reads, so ask again each time.
    pub fn as_boot(&self) -> (r: Option<SystemTable<Boot>>)
        ensures
            match boot_view(self@) {
                Some(t) => r is Some && r->Some_0@ == t,
                None => r is None,
            },
    {
        if self.table.boot_services.is_some() {
            Some(SystemTable { table: self.table, phantom: PhantomData })
        } else {
            None
        }
    }

    /// The runtime table, if the image has left boot services.
    pub fn _as_runtime(&self) -> (r: Option<SystemTable<Runtime>>)
        ensures
            match boot_view(self@) {
                Some(_) => r is None,
                None => r is Some && r->Some_0@ == self@,
            },
    {
        if self.table.boot_services.is_some() {
            None
        } else {
            Some(SystemTable { table: self.table, phantom: PhantomData })
        }
    }
}

impl SystemTable<Boot> {
    /// The boot services of this table.
    pub open spec fn boot_spec(&self) -> BootServices {
        BootServices { raw: self@.boot_services->Some_0 }
    }

    /// Where the name of the firmware's vendor is to be read, or
    /// nothing where the table holds no name.
    pub fn firmware_vendor(&self) -> (r: Option<usize>)
        ensures
            r == if self@.firmware_vendor == 0 {
                None
            } else {
                Some(self@.firmware_vendor)
            },
    {
        if self.table.firmware_vendor == 0 {
            None
        } else {
            Some(self.table.firmware_vendor)
        }
    }

    /// The vendor's own number for the revision of the firmware.
    pub fn firmware_revision(&self) -> (r: u32)
        ensures
            r == self@.firmware_revision,
    {
        self.table.firmware_revision
    }

    /// The major and minor number of the revision of the standard
    /// that the firmware claims to meet.
    pub fn uefi_revision(&self) -> (r: (u32, u32))
        ensures
            r.0 == self@.header.revision.0 / 65536,
            r.1 == self@.header.revision.0 % 65536,
    {
        (self.table.header.revision.major(), self.table.header.revision.minor())
    }

    /// Where the console for output is.
    pub fn stdout(&self) -> (r: usize)
        requires
            self@.con_out != 0,
        ensures
            r == self@.con_out,
    {
        self.table.con_out
    }

    /// Where the console for errors is.
    pub fn stderr(&self) -> (r: usize)
        requires
            self@.std_err != 0,
        ensures
            r == self@.std_err,
    {
        self.table.std_err
    }

    /// The boot services. A boot table always has them.
    pub fn boot(&self) -> (r: BootServices)
        ensures
            self@.boot_services is Some,
            r == self.boot_spec(),
    {
        proof {
            use_type_invariant(self);
        }
        BootServices { raw: self.table.boot_services.unwrap() }
    }

    /// Reads the firmware's answer to the call that leaves boot
    /// services. On success the boot table is used up and the runtime
    /// table takes its place, with no boot services in it. On failure
    /// the boot table comes back with the error.
    pub fn exit_boot_services_done(self, status: EfiStatus) -> (r: Result<
        SystemTable<Runtime>,
        (SystemTable<Boot>, UefiError),
    >)
        ensures
            status.is_success() ==> r is Ok && r->Ok_0@ == self@.exited(),
            !status.is_success() ==> r is Err && r->Err_0.0@ == self@ && r->Err_0.1 == (UefiError {
                status,
            }),
    {
        if status.is_success() {
            let table = RawSystemTable {
                header: self.table.header,
                firmware_vendor: self.table.firmware_vendor,
                firmware_revision: self.table.firmware_revision,
                console_in_handle: self.table.console_in_handle,
                con_in: self.table.con_in,
                console_out_handle: self.table.console_out_handle,
                con_out: self.table.con_out,
                console_err_handle: self.table.console_err_handle,
                std_err: self.table.std_err,
                runtime_services: self.table.runtime_services,
                boot_services: None,
            };
            Ok(SystemTable { table, phantom: PhantomData })
        } else {
            Err((self, UefiError::new(status)))
        }
    }
}

/// A table gives its boot phase exactly while its pointer to the boot
/// services is set. Once the pointer is null the table gives none,
/// and leaving boot services never sets the pointer again: a table
/// that has left gives no boot phase, and leaving once more changes
/// nothing.
pub proof fn lemma_boot_phase_is_lost(table: RawSystemTable)
    ensures
        table.boot_services is Some <==> boot_view(table) is Some,
        boot_view(table) is Some ==> boot_view(table) == Some(table),
        boot_view(table.exited()) is None,
        table.exited().exited() == table.exited(),
        Runtime::admits(table.exited()),
        !Boot::admits(table.exited()),
{
}

} // verus!
