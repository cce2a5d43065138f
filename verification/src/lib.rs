//! Decoders for the binary structures that Windows uses for shell items:
//! the records of an ID list, the extension block that some of them carry,
//! and the dates, GUIDs and strings that they are made of.
//!
//! Every decoder works on a [`cursor::ByteCursor`], a position in a byte
//! buffer, and comes with a specification function that says, for every
//! buffer and position, what is decoded and where the cursor is left.
pub mod cursor;
pub mod date_time;
pub mod file_system;
pub mod reader_error;
pub mod structs;
pub mod text;
pub mod traits;
pub mod utils;

pub use reader_error::IoFailure;
pub use reader_error::ReaderError;
