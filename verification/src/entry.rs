//! What happens when the firmware enters the image, and the state
//! that is kept from then on.
use vstd::prelude::*;
use crate::error::{EfiStatus, UefiError, INVALID_PARAMETER, SUCCESS};
use crate::handle::EfiHandle;
use crate::table::{boot_view, Boot, Internal, RawSystemTable, SystemTable};

verus! {

/// The status for a second attempt to set what is set once.
pub const ALREADY_STARTED: usize = crate::error::ERROR_BIT + 20;

/// The two words that the whole image shares: where the system table
/// is, and the handle of the image. They are set once, on entry, and
/// only read after that. Until they are set, both are null.
#[derive(Clone, Copy, Debug, PartialEq, Eq, Structural)]
pub struct Globals {
    pub table: usize,
    pub handle: EfiHandle,
}

/// What entering comes to: the words are kept if neither is null, the
/// table is valid and nothing was kept before.
pub open spec fn entered(
    before: Globals,
    image: EfiHandle,
    table: usize,
    valid: Result<(), UefiError>,
) -> Result<Globals, EfiStatus> {
    if image.0 == 0 || table == 0 {
        Err(EfiStatus(INVALID_PARAMETER))
    } else if valid is Err {
        Err(valid->Err_0.status)
    } else if before.table != 0 {
        Err(EfiStatus(ALREADY_STARTED))
    } else {
        Ok(Globals { table, handle: image })
    }
}

impl Globals {
    /// The state before the firmware has entered the image.
    pub fn new() -> (r: Self)
        ensures
            r == (Globals { table: 0, handle: EfiHandle(0) }),
    {
        Globals { table: 0, handle: EfiHandle(0) }
    }

    /// Takes what the firmware entered the image with. `valid` is
    /// what checking the table at `table` gave. On an error nothing
    /// is kept and the status is the one to hand back to the
    /// firmware.
    pub fn enter(
        &mut self,
        image: EfiHandle,
        table: usize,
        valid: Result<(), UefiError>,
    ) -> (r: Result<(), EfiStatus>)
        ensures
            match entered(*old(self), image, table, valid) {
                Ok(after) => r is Ok && *final(self) == after,
                Err(status) => r == Err::<(), _>(status) && *final(self) == *old(self),
            },
    {
        if image.is_null() || table == 0 {
            return Err(EfiStatus::invalid_parameter());
        }
        if let Err(e) = valid {
            return Err(e.status());
        }
        if self.table != 0 {
            return Err(EfiStatus::from_raw(ALREADY_STARTED));
        }
        self.handle = image;
        self.table = table;
        Ok(())
    }

    /// Where the system table is, once it is set.
    pub fn table(&self) -> (r: Option<usize>)
        ensures
            r == if self.table == 0 {
                None
            } else {
                Some(self.table)
            },
    {
        if self.table == 0 {
            None
        } else {
            Some(self.table)
        }
    }

    /// The handle of the image, once it is set.
    pub fn handle(&self) -> (r: Option<EfiHandle>)
        ensures
            r == if self.handle.0 == 0 {
                None
            } else {
                Some(self.handle)
            },
    {
        if self.handle.is_null() {
            None
        } else {
            Some(self.handle)
        }
    }
}

/// The boot table, if there is one now. `table` is the system table
/// as it was just read, or nothing where its place is not set yet.
pub fn get_boot_table(table: Option<RawSystemTable>) -> (r: Option<SystemTable<Boot>>)
    ensures
        match table {
            None => r is None,
            Some(t) => match boot_view(t) {
                Some(b) => r is Some && r->Some_0@ == b,
                None => r is None,
            },
        },
{
    match table {
        None => None,
        Some(t) => {
            let internal: SystemTable<Internal> = SystemTable::new(t);
            internal.as_boot()
        },
    }
}

/// The status that the image hands back to the firmware for what its
/// main function returned.
pub fn exit_status(ret: Result<(), UefiError>) -> (r: EfiStatus)
    ensures
        r == match ret {
            Ok(_) => EfiStatus(SUCCESS),
            Err(e) => e.status,
        },
{
    match ret {
        Ok(_) => EfiStatus::success(),
        Err(e) => e.status(),
    }
}

/// Once the words are set, entering again changes nothing, whatever
/// it is tried with.
pub proof fn lemma_set_once(
    before: Globals,
    image: EfiHandle,
    table: usize,
    valid: Result<(), UefiError>,
)
    requires
        before.table != 0,
    ensures
        entered(before, image, table, valid) is Err,
{
}

/// The logger of the library. It holds nothing.
#[derive(Clone, Copy, Debug, PartialEq, Eq, Structural)]
pub struct UefiLogger {}

impl UefiLogger {
    pub fn new() -> (r: Self)
        ensures
            r == (UefiLogger {  }),
    {
        UefiLogger {  }
    }

    /// Whether records for `target` are written: those of the library
    /// itself and of its stub are, and no others.
    pub fn enabled(&self, target: &str) -> (r: bool)
        ensures
            r == (target@ == "uefi_stub"@ || target@ == "uefi"@),
    {
        let t = target.to_owned();
        t == "uefi_stub".to_owned() || t == "uefi".to_owned()
    }
}

} // verus!
