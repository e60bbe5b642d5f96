//! A safety layer over a boot-time firmware interface.
//!
//! The firmware hands an image an untyped table of operation slots and a
//! family of binary structures. This library gives them a checked shape:
//! a codec for device paths, a description of protocols and of the scope
//! that holds one open, the phases of the system table, and the bridge
//! from a general allocator to the firmware's pool.
//!
//! No function here calls the firmware. Each operation is split in two:
//! one function checks the arguments and says which slot is to be called
//! with which words, and another reads what the firmware answered.
pub mod attr;
pub mod device_path;
pub mod entry;
pub mod error;
pub mod guid;
pub mod handle;
pub mod loaded_image;
pub mod mem;
pub mod proto;
pub mod proto_attr;
pub mod table;
