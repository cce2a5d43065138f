//! Structures of the file system that shell items refer to.
pub mod file_reference;

pub use file_reference::FileAttributesFlags;
pub use file_reference::FileReference;
