//! The protocol of a loaded image.
use vstd::prelude::*;
use crate::guid::Guid;
use crate::handle::EfiHandle;
use crate::proto::Protocol;

verus! {

/// The revision of the structure that this library knows.
pub const LOADED_IMAGE_REVISION: u32 = 0x1000;

/// What the firmware keeps for a loaded image. Addresses are words,
/// and a null pointer is zero.
#[derive(Clone, Copy, Debug, PartialEq, Eq, Structural)]
pub struct RawLoadedImage {
    pub revision: u32,
    pub parent: EfiHandle,
    pub system_table: usize,
    pub device: EfiHandle,
    pub path: usize,
    pub options_size: u32,
    pub options: usize,
    pub image_base: usize,
    pub image_size: u64,
    pub image_code: u32,
    pub image_data: u32,
    pub unload: usize,
}

/// A loaded image.
#[derive(Clone, Copy, Debug, PartialEq, Eq, Structural)]
pub struct LoadedImage {
    pub raw: RawLoadedImage,
}

impl Protocol for LoadedImage {
    type Raw = RawLoadedImage;

    open spec fn guid_spec() -> Guid {
        Guid::of_fields(
            0x5B1B31A1,
            0x9562,
            0x11D2,
            seq![0x8Eu8, 0x3Fu8, 0x00u8, 0xA0u8, 0xC9u8, 0x69u8, 0x72u8, 0x3Bu8],
        )
    }

    open spec fn raw_spec(&self) -> RawLoadedImage {
        self.raw
    }

    fn protocol_guid() -> (r: Guid) {
        let d4: [u8; 8] = [0x8E, 0x3F, 0x00, 0xA0, 0xC9, 0x69, 0x72, 0x3B];
        assert(d4@ =~= seq![0x8Eu8, 0x3Fu8, 0x00u8, 0xA0u8, 0xC9u8, 0x69u8, 0x72u8, 0x3Bu8]);
        Guid::from_fields(0x5B1B31A1, 0x9562, 0x11D2, d4)
    }

    open spec fn name_spec() -> Seq<char> {
        "LoadedImage"@
    }

    fn protocol_name() -> (r: &'static str) {
        "LoadedImage"
    }

    fn from_raw(raw: RawLoadedImage) -> (r: Self) {
        LoadedImage { raw }
    }

    fn guid(&self) -> (r: Guid) {
        Self::protocol_guid()
    }
}

impl LoadedImage {
    /// Where the device path of the image's file is to be read, or
    /// nothing where the image has none.
    pub fn file_path(&self) -> (r: Option<usize>)
        ensures
            r == if self.raw.path == 0 {
                None
            } else {
                Some(self.raw.path)
            },
    {
        if self.raw.path != 0 {
            Some(self.raw.path)
        } else {
            None
        }
    }

    /// The address at which the image sits in memory.
    pub fn image_base(&self) -> (r: usize)
        ensures
            r == self.raw.image_base,
    {
        self.raw.image_base
    }

    /// The size of the image in memory.
    pub fn image_size(&self) -> (r: u64)
        ensures
            r == self.raw.image_size,
    {
        self.raw.image_size
    }

    /// The handle of the device that the image was loaded from, or
    /// nothing where that handle is null.
    pub fn device(&self) -> (r: Option<EfiHandle>)
        ensures
            r == if self.raw.device.0 == 0 {
                None
            } else {
                Some(self.raw.device)
            },
    {
        if !self.raw.device.is_null() {
            Some(self.raw.device)
        } else {
            None
        }
    }

    /// Sets the load options of the image to the `len` items of
    /// `item_size` bytes each that start at `data`. The two counts
    /// and the size of the options in bytes must fit in 32 bits. The
    /// data must live until the image is started.
    pub fn set_options(&mut self, data: usize, len: usize, item_size: usize)
        requires
            len <= u32::MAX,
            item_size <= u32::MAX,
            len * item_size <= u32::MAX,
        ensures
            final(self).raw == (RawLoadedImage {
                options: data,
                options_size: (len * item_size) as u32,
                ..old(self).raw
            }),
    {
        let size: u32 = (len as u32) * (item_size as u32);
        self.raw.options = data;
        self.raw.options_size = size;
    }

    /// Sets the handle of the device that the image was loaded from.
    pub fn set_device(&mut self, device: EfiHandle)
        ensures
            final(self).raw == (RawLoadedImage { device, ..old(self).raw }),
    {
        self.raw.device = device;
    }

    /// Sets the device path of the image's file to the one at `path`.
    pub fn set_path(&mut self, path: usize)
        ensures
            final(self).raw == (RawLoadedImage { path, ..old(self).raw }),
    {
        self.raw.path = path;
    }
}

} // verus!
